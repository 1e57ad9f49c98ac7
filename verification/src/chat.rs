use vstd::prelude::*;
use vstd::string::*;

use crate::session::{DbError, SessionRow};
use crate::status::Status;

verus! {

/// Who may open the chat. `lookup` is `None` where the request has no `session` cookie,
/// else what looking its value up in the `Sessions` table gave. A missing cookie or an
/// unknown session is unauthorized, another failure is an internal error, and a found
/// session yields the id of its user (whose name is then looked up). Expiry is not checked.
pub fn chat_session(lookup: Option<Result<SessionRow, DbError>>) -> (r: Result<String, Status>)
    ensures
        match lookup {
            None => r == Err::<String, Status>(Status::Unauthorized),
            Some(Err(DbError::RowNotFound)) => r == Err::<String, Status>(Status::Unauthorized),
            Some(Err(DbError::Other(_))) => r == Err::<String, Status>(Status::InternalServerError),
            Some(Ok(row)) => r matches Ok(userid) && userid@ == row.userid@,
        },
{
    match lookup {
        None => Err(Status::Unauthorized),
        Some(Err(DbError::RowNotFound)) => Err(Status::Unauthorized),
        Some(Err(DbError::Other(_))) => Err(Status::InternalServerError),
        Some(Ok(row)) => Ok(row.userid),
    }
}

/// The line that a chat message becomes: the sender's name, a colon and a space, the text.
pub open spec fn chat_line_of(username: Seq<char>, text: Seq<char>) -> Seq<char> {
    username + ": "@ + text
}

/// Formats a chat message for the other participants.
pub fn chat_line(username: &str, text: &str) -> (line: String)
    ensures
        line@ == chat_line_of(username@, text@),
{
    let mut line = String::from_str(username);
    line.append(": ");
    line.append(text);
    line
}

/// Something that happens on an open chat connection.
pub enum ChatEvent {
    /// The client closed the connection.
    ClientClosed,
    /// The client sent a text message.
    ClientText(String),
    /// The client sent a ping.
    ClientPing(Vec<u8>),
    /// The client sent any other kind of message.
    ClientOther,
    /// A line arrived from the shared chat queue.
    Broadcast(String),
    /// Receiving from the shared chat queue failed (it lagged or closed).
    BroadcastFailed,
}

/// What the connection does in answer.
pub enum ChatAction {
    /// End the connection.
    Stop,
    /// Send this line to the shared chat queue.
    Publish(String),
    /// Answer the client with a pong carrying these bytes.
    SendPong(Vec<u8>),
    /// Send this line to the client as a text message.
    SendText(String),
    /// Do nothing.
    Ignore,
}

/// What a chat connection of the user `username` does on an event: a closed connection
/// ends, a text is published as `chat_line_of` the name and the text, a ping is answered
/// with a pong of the single byte 1, a line from the queue is passed on to the client,
/// and anything else is ignored.
pub fn chat_step(username: &str, event: ChatEvent) -> (a: ChatAction)
    ensures
        match event {
            ChatEvent::ClientClosed => a is Stop,
            ChatEvent::ClientText(text) => a matches ChatAction::Publish(line)
                && line@ == chat_line_of(username@, text@),
            ChatEvent::ClientPing(_) => a matches ChatAction::SendPong(p) && p@ == seq![1u8],
            ChatEvent::ClientOther => a is Ignore,
            ChatEvent::Broadcast(line) => a matches ChatAction::SendText(l) && l@ == line@,
            ChatEvent::BroadcastFailed => a is Ignore,
        },
{
    match event {
        ChatEvent::ClientClosed => ChatAction::Stop,
        ChatEvent::ClientText(text) => ChatAction::Publish(chat_line(username, text.as_str())),
        ChatEvent::ClientPing(_) => {
            let mut pong: Vec<u8> = Vec::new();
            pong.push(1);
            ChatAction::SendPong(pong)
        },
        ChatEvent::ClientOther => ChatAction::Ignore,
        ChatEvent::Broadcast(line) => ChatAction::SendText(line),
        ChatEvent::BroadcastFailed => ChatAction::Ignore,
    }
}

} // verus!
