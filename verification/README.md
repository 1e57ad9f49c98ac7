# streamsite

A small live-streaming site: visitors register and log in, watch an HLS stream and chat;
an administrator changes the stream's title, description and key.

- `src/` is the verified library (Verus). It holds every decision the site makes:
  sessions and logins (`session`), the chat (`chat`), the stream's title, description and
  key (`stream_state`), what the stream worker does on each message (`stream`), the SQL
  statements (`sql`), and the laws that tie these together (`laws`).
- `app/` is the Rocket web server and the GStreamer worker that carry those decisions out:
  HTTP, cookies, the SQLite database, files, the clock and the media pipeline.
- `tests/` runs the library on concrete values.
