use vstd::prelude::*;
use vstd::string::*;
use vstd::utf8::encode_utf8;

use crate::session::LoginData;
use crate::status::Status;
use crate::util::{generateCookie, is_cookie_value, MessageType};

verus! {

/// The longest title, in bytes of UTF-8, that the stream can be given.
pub const MAX_TITLE_BYTES: usize = 64;

/// The number of bytes of the UTF-8 encoding of a text.
pub open spec fn utf8_len(s: Seq<char>) -> nat {
    encode_utf8(s).len()
}

/// The title and the description that the front page shows of the stream.
pub struct StreamInfo {
    pub title: String,
    pub description: String,
}

impl StreamInfo {
    /// The stream's title and description when the site starts.
    pub fn new() -> (info: StreamInfo)
        ensures
            info.title@ == "My first stream!"@,
            info.description@ == "No description available."@,
    {
        StreamInfo {
            title: String::from_str("My first stream!"),
            description: String::from_str("No description available."),
        }
    }
}

/// Whether a title is short enough to be set.
pub open spec fn title_fits(title: Seq<char>) -> bool {
    utf8_len(title) <= MAX_TITLE_BYTES
}

/// Sets the stream's title and description from the form's two fields (the first
/// holding the title, the second the description). A title longer than 64 bytes of UTF-8
/// is refused as too large and changes nothing.
pub fn admin_infochange(data: LoginData, stream_info: &mut StreamInfo) -> (st: Status)
    ensures
        title_fits(data.username@) ==> st == Status::Success && final(stream_info).title@ == data.username@
            && final(stream_info).description@ == data.password@,
        !title_fits(data.username@) ==> st == Status::PayloadTooLarge && *final(stream_info) == *old(
            stream_info,
        ),
{
    if data.username.as_str().as_bytes().len() > MAX_TITLE_BYTES {
        return Status::PayloadTooLarge;
    }
    stream_info.title = data.username;
    stream_info.description = data.password;
    Status::Success
}

/// The stream key: the stream id that the SRT source accepts, as the site last set it.
pub struct StreamKey {
    pub key: String,
}

impl StreamKey {
    /// The stream key when the site starts.
    pub fn new() -> (k: StreamKey)
        ensures
            k.key@ == "NULL"@,
    {
        StreamKey { key: String::from_str("NULL") }
    }
}

/// The first half of a key change: a fresh random key, and the message that tells the
/// stream worker to accept it.
pub fn admin_keychange_start() -> (r: (String, MessageType))
    ensures
        is_cookie_value(r.0@),
        r.1 matches MessageType::KEYCHANGE(k) && k@ == r.0@,
{
    let newkey = generateCookie();
    let msg = MessageType::KEYCHANGE(newkey.clone());
    (newkey, msg)
}

/// The second half of a key change, given whether the message reached the stream worker:
/// if it did, the new key is stored and answered; if not, the key stays and the answer is
/// an internal error with the failure's message.
pub fn admin_keychange_finish(stream_key: &mut StreamKey, newkey: String, sent: Result<(), String>) -> (r: Result<String, (Status, String)>)
    ensures
        match sent {
            Ok(_) => final(stream_key).key@ == newkey@ && (r matches Ok(k) && k@ == newkey@),
            Err(m) => *final(stream_key) == *old(stream_key) && (r matches Err((st, body))
                && st == Status::InternalServerError && body@ == m@),
        },
{
    match sent {
        Err(m) => Err((Status::InternalServerError, m)),
        Ok(_) => {
            stream_key.key = newkey;
            Ok(stream_key.key.clone())
        },
    }
}

} // verus!
