use rand::Rng;
use vstd::prelude::*;

verus! {

/// Number of characters in a session id, a user id or a stream key.
pub const COOKIE_LEN: usize = 32;

/// A message that the web side sends to the stream worker.
#[allow(non_camel_case_types)]
#[derive(PartialEq)]
pub enum MessageType {
    /// Replace the stream id (the stream key) that the SRT source accepts.
    KEYCHANGE(String),
    /// Stop the pipeline; carries no data.
    STOPSTREAM,
    /// Start the pipeline.
    STARTSTREAM,
}

/// An ASCII letter or digit, as a byte.
pub open spec fn is_alphanumeric_byte(b: u8) -> bool {
    (65 <= b <= 90) || (97 <= b <= 122) || (48 <= b <= 57)
}

/// An ASCII letter or digit.
pub open spec fn is_alphanumeric_char(c: char) -> bool {
    ('A' <= c <= 'Z') || ('a' <= c <= 'z') || ('0' <= c <= '9')
}

/// A value of the shape that `generateCookie` hands out: 32 ASCII letters and digits.
pub open spec fn is_cookie_value(s: Seq<char>) -> bool {
    &&& s.len() == COOKIE_LEN
    &&& forall|i: int| 0 <= i < s.len() ==> is_alphanumeric_char(#[trigger] s[i])
}

#[verifier::external_type_specification]
#[verifier::external_body]
pub struct ExThreadRng(rand::rngs::ThreadRng);

/// Calls `rand::thread_rng`, the handle to the thread-local generator that the
/// operating system seeds. Nothing is claimed of the handle. The call panics only
/// where the operating system refuses randomness, which no condition here can rule out.
#[verifier::external_body]
fn thread_rng() -> rand::rngs::ThreadRng {
    rand::thread_rng()
}

/// Calls `Rng::sample` with the distribution `rand::distributions::Alphanumeric`.
/// Claimed, as its source shows: the byte is drawn from the 62 bytes of
/// `A`-`Z`, `a`-`z` and `0`-`9`. Which of them comes out depends on chance and is not stated.
/// The generator panics where reseeding from the operating system fails, which no
/// condition on the arguments can rule out.
#[verifier::external_body]
fn sample_alphanumeric(rng: &mut rand::rngs::ThreadRng) -> (b: u8)
    ensures
        is_alphanumeric_byte(b),
{
    rng.sample(rand::distributions::Alphanumeric)
}

/// Calls `String::push`. Claimed, as its documentation says: the character is
/// appended at the end of the string.
#[verifier::external_body]
fn push_char(s: &mut String, c: char)
    ensures
        final(s)@ == old(s)@.push(c),
{
    s.push(c)
}

/// A fresh random session id: 32 characters, each an ASCII letter or digit.
#[allow(non_snake_case)]
pub fn generateCookie() -> (cookie: String)
    ensures
        is_cookie_value(cookie@),
{
    let mut rng = thread_rng();
    let mut cookie = String::new();
    let mut i: usize = 0;
    while i < COOKIE_LEN
        invariant
            i <= COOKIE_LEN,
            cookie@.len() == i,
            forall|j: int| 0 <= j < i ==> is_alphanumeric_char(#[trigger] cookie@[j]),
        decreases COOKIE_LEN - i,
    {
        let b = sample_alphanumeric(&mut rng);
        let c = b as char;
        push_char(&mut cookie, c);
        i = i + 1;
    }
    cookie
}

} // verus!
