use vstd::prelude::*;

use crate::chat::chat_line_of;
use crate::session::{
    bcrypt_2a_hash, ROUNDS, SALT, admin_credentials, LoginData, admin_guard_decides, admin_login_granted, index_shows, login_status, password_hash,
    registration_finished, session_live, AdminGuard, AdminLogin, IndexView, RegisterOutcome,
    RegisterPlan, SessionRow, UserRow, SESSIONTIME,
};
use crate::status::Status;
use crate::stream::{
    apply_all, initial_worker, last_pipeline_state, last_stream_id, lemma_message_actions,
    stream_actions_match, ElementState, StreamAction, INITIAL_STREAM_ID,
};
use crate::stream::has_video_prefix;
use crate::stream_state::title_fits;
use crate::util::{is_cookie_value, MessageType};
use vstd::utf8::encode_utf8;

verus! {

/// A user whose stored hash is that of a password logs in with that password.
pub proof fn lemma_registered_password_is_accepted(user: UserRow, password: Seq<char>)
    requires
        user.password@ == password_hash(password),
    ensures
        login_status(Ok(Some(user)), password) == Status::Success,
{
}

/// A user whose stored hash is that of a password is refused with any password whose
/// hash differs from it.
pub proof fn lemma_other_password_is_refused(user: UserRow, password: Seq<char>, other: Seq<char>)
    requires
        user.password@ == password_hash(password),
        password_hash(other) != password_hash(password),
    ensures
        login_status(Ok(Some(user)), other) == Status::Unauthorized,
{
}

/// The session that an administrator login at `t` writes is live at `now` exactly when
/// `now` is at most `SESSIONTIME` seconds after `t`.
pub proof fn lemma_admin_session_lifetime(login: AdminLogin, id: Seq<char>, t: i64, now: i64)
    requires
        admin_login_granted(login, id, t),
    ensures
        login.session matches Some(s) && (session_live(s.expires, now) <==> now <= t + SESSIONTIME),
{
}

/// The session that a successful registration received at `plan.now` writes belongs to
/// the new user, is the one its cookie names, and is live at `now` exactly when `now` is at
/// most `SESSIONTIME` seconds after the registration.
pub proof fn lemma_registered_session_lifetime(plan: RegisterPlan, outcome: RegisterOutcome, now: i64)
    requires
        registration_finished(plan, Ok(()), outcome),
    ensures
        outcome.status == Status::Success,
        outcome.session matches Some(s) && s.userid@ == plan.user.id@
            && (outcome.cookie matches Some(c) && c.value@ == s.id@)
            && (session_live(s.expires, now) <==> now <= plan.now + SESSIONTIME),
{
}

/// For a session that the lookup found, the front page shows the visitor logged in exactly
/// when the administrator guard would let a request naming that session through.
pub proof fn lemma_index_agrees_with_admin_guard(
    cookie: String,
    row: SessionRow,
    now: i64,
    g: AdminGuard,
    shown: Result<IndexView, (Status, String)>,
)
    requires
        admin_guard_decides(Some((cookie, Ok(row))), now, g),
        index_shows(Some(Ok(row)), now, shown),
    ensures
        shown matches Ok(v) && (v.logged_in <==> g is Success),
{
}

/// The stream id that the stream worker gives its source on a key change is the new key,
/// and the source is stopped before and started after the change.
pub proof fn lemma_keychange_sets_stream_id(key: Seq<char>, msg: MessageType, actions: Seq<StreamAction>)
    requires
        msg matches MessageType::KEYCHANGE(k) && k@ == key,
        stream_actions_match(msg, actions),
    ensures
        actions.len() == 3,
        actions[0] == StreamAction::SetSourceState(ElementState::Null),
        actions[1] matches StreamAction::SetSourceStreamId(s) && s@ == key,
        actions[2] == StreamAction::SetSourceState(ElementState::Playing),
{
}

/// After the stream worker has handled a series of messages from its start (each with the
/// changes that `stream_actions` gives for it), the source's stream id is the key of the
/// last key change, or `INITIAL_STREAM_ID` where there was none, and the pipeline is
/// stopped exactly when the last start or stop among the messages was a stop.
pub proof fn lemma_worker_after_messages(msgs: Seq<MessageType>, batches: Seq<Seq<StreamAction>>)
    requires
        msgs.len() == batches.len(),
        forall|i: int| 0 <= i < msgs.len() ==> stream_actions_match(#[trigger] msgs[i], batches[i]),
    ensures
        apply_all(initial_worker(), batches).stream_id == last_stream_id(msgs, INITIAL_STREAM_ID@),
        apply_all(initial_worker(), batches).pipeline == last_pipeline_state(msgs),
    decreases msgs.len(),
{
    if msgs.len() > 0 {
        let (m0, b0) = (msgs.drop_last(), batches.drop_last());
        assert forall|i: int| 0 <= i < m0.len() implies stream_actions_match(#[trigger] m0[i], b0[i]) by {
            assert(m0[i] == msgs[i] && b0[i] == batches[i]);
        }
        lemma_worker_after_messages(m0, b0);
        lemma_message_actions(apply_all(initial_worker(), b0), msgs.last(), batches.last());
    }
}

/// After a series of key changes that all reached the stream worker, the key that the site
/// stores and shows is the stream id that the source accepts. `keys[i]` is the key of the
/// i-th change: the one that `admin_keychange_start` put in the message `sent[i]` and that
/// `admin_keychange_finish` stored; `batches[i]` are the worker's changes for `sent[i]`.
pub proof fn lemma_shown_key_is_accepted_key(
    sent: Seq<MessageType>,
    batches: Seq<Seq<StreamAction>>,
    keys: Seq<Seq<char>>,
)
    requires
        sent.len() > 0,
        sent.len() == batches.len(),
        sent.len() == keys.len(),
        forall|i: int| 0 <= i < sent.len() ==> (#[trigger] sent[i] matches MessageType::KEYCHANGE(k) && k@ == keys[i]),
        forall|i: int| 0 <= i < sent.len() ==> stream_actions_match(#[trigger] sent[i], batches[i]),
    ensures
        apply_all(initial_worker(), batches).stream_id == keys.last(),
{
    lemma_worker_after_messages(sent, batches);
    assert(sent.last() == sent[sent.len() - 1]);
}

/// A chat message is published whole: the line is the whole user name, then `": "`, then
/// the whole text, for names and texts of any length.
pub proof fn lemma_chat_line_is_whole(username: Seq<char>, text: Seq<char>)
    ensures
        chat_line_of(username, text).len() == username.len() + 2 + text.len(),
        chat_line_of(username, text).subrange(0, username.len() as int) == username,
        chat_line_of(username, text)[username.len() as int] == ':',
        chat_line_of(username, text)[(username.len() + 1) as int] == ' ',
        chat_line_of(username, text).subrange((username.len() + 2) as int, chat_line_of(username, text).len() as int)
            == text,
{
    reveal_strlit(": ");
    let line = chat_line_of(username, text);
    assert(line.subrange(0, username.len() as int) =~= username);
    assert(line.subrange((username.len() + 2) as int, line.len() as int) =~= text);
}

/// A successful registration logs the new user in with the same cookie a login sets:
/// named `session`, holding the new session's id, with no path restriction, sent with
/// `SameSite=Strict`.
pub proof fn lemma_registration_sets_session_cookie(plan: RegisterPlan, r: RegisterOutcome)
    requires
        registration_finished(plan, Ok(()), r),
    ensures
        r.cookie matches Some(c) && c.name@ == "session"@ && c.value@ == plan.session_id@
            && c.path is None && c.same_site_strict,
{
}

/// The title length limit counts bytes of UTF-8 and nothing else: a title is accepted
/// exactly when its UTF-8 encoding has at most 64 bytes, whatever characters it holds.
pub proof fn lemma_title_limit_is_bytes(title: Seq<char>)
    ensures
        title_fits(title) <==> encode_utf8(title).len() <= 64,
{
}

/// Every pad whose name begins with `video` is linked, whatever follows; no other pad is.
pub proof fn lemma_video_pads_linked(suffix: Seq<char>, name: Seq<char>)
    ensures
        has_video_prefix("video"@ + suffix),
        has_video_prefix(name) ==> name.len() >= 5 && name.subrange(0, 5) == "video"@,
        !(name.len() >= 5 && name.subrange(0, 5) == "video"@) ==> !has_video_prefix(name),
{
    reveal_strlit("video");
    assert(("video"@ + suffix).subrange(0, 5) =~= "video"@);
}

/// The administrator's credentials are exactly the user name `admin` with the password
/// `admin`: no other pair (a longer password among them) is taken for them.
pub proof fn lemma_admin_credentials_exact(data: LoginData)
    ensures
        admin_credentials(data) <==> (data.username@ == "admin"@ && data.password@ == "admin"@),
{
}

/// A session is valid up to and including the second it expires at, and not after.
pub proof fn lemma_session_validity(expires: i64, now: i64)
    ensures
        session_live(expires, now) <==> now <= expires,
{
}

/// A found user logs in exactly when the stored hash is the bcrypt hash of the password
/// given, at cost 4 with the site's salt.
pub proof fn lemma_login_compares_bcrypt_hashes(user: UserRow, password: Seq<char>)
    ensures
        (login_status(Ok(Some(user)), password) == Status::Success) <==> user.password@ == bcrypt_2a_hash(
            password,
            ROUNDS,
            SALT@,
        ),
        ROUNDS == 4,
{
}

/// The ids that the site draws are 32 characters, each an ASCII letter or digit.
pub proof fn lemma_cookie_value_shape(s: Seq<char>)
    ensures
        is_cookie_value(s) <==> (s.len() == 32 && forall|i: int| 0 <= i < s.len() ==> {
            let c = #[trigger] s[i];
            ('A' <= c && c <= 'Z') || ('a' <= c && c <= 'z') || ('0' <= c && c <= '9')
        }),
{
}

} // verus!
