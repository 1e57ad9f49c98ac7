//! Request handling, session and stream-control logic of a small live-streaming site.
//!
//! The web server and the stream worker that act on these decisions live outside the
//! library; every decision they take (who is logged in, which cookie to set, which row to
//! write, what a chat message becomes, how the pipeline reacts to a message) is made here.

pub mod chat;
pub mod laws;
pub mod session;
pub mod sql;
pub mod status;
pub mod stream;
pub mod stream_state;
pub mod util;
