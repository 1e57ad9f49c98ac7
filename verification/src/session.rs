use vstd::prelude::*;
use vstd::string::*;

use crate::status::Status;
use crate::util::{generateCookie, is_cookie_value};

verus! {

/// How long, in seconds, a session stays valid after it is written.
pub const SESSIONTIME: i64 = 115200;

/// The bcrypt cost that passwords are hashed with.
pub const ROUNDS: u32 = 4;

/// The fixed salt that passwords are hashed with (the bytes of "ILOVECOMPUTERSCI").
pub const SALT: [u8; 16] = [73, 76, 79, 86, 69, 67, 79, 77, 80, 85, 84, 69, 82, 83, 67, 73];

/// A row of the `Sessions` table: `(id, userid, expires)`.
pub struct SessionRow {
    pub id: String,
    pub userid: String,
    pub expires: i64,
}

/// A row of the `Users` table: `(id, username, password)`, the password being its bcrypt hash.
pub struct UserRow {
    pub id: String,
    pub username: String,
    pub password: String,
}

/// Why a database request failed.
pub enum DbError {
    /// The query asked for one row and found none.
    RowNotFound,
    /// Any other failure, with its message.
    Other(String),
}

/// A cookie that a response sets.
pub struct SetCookie {
    pub name: String,
    pub value: String,
    /// The path the cookie is restricted to, where it has one.
    pub path: Option<String>,
    /// Whether the cookie is sent with `SameSite=Strict`.
    pub same_site_strict: bool,
}

/// The fields of the login and registration forms.
pub struct LoginData {
    pub username: String,
    pub password: String,
}

/// Whether a session that expires at `expires` is still valid at `now` (both in seconds
/// since the Unix epoch): it is, up to and including `expires`.
pub open spec fn session_live(expires: i64, now: i64) -> bool {
    now <= expires
}

/// Whether the expiry of a session written at `now` fits in an `i64`.
pub open spec fn expiry_fits(now: i64) -> bool {
    now + SESSIONTIME <= i64::MAX
}

/// The expiry of a session written at `now`.
pub fn session_expiry(now: i64) -> (e: i64)
    requires
        expiry_fits(now),
    ensures
        e == now + SESSIONTIME,
{
    now + SESSIONTIME
}

/// What bcrypt gives for `password` at cost `cost` with salt `salt`, written in the `$2a$` form.
pub uninterp spec fn bcrypt_2a_hash(password: Seq<char>, cost: u32, salt: Seq<u8>) -> Seq<char>;

#[verifier::external_type_specification]
#[verifier::external_body]
pub struct ExBcryptError(bcrypt::BcryptError);

/// The decimal digit `d` (0 to 9) as a character.
pub open spec fn digit_char(d: u32) -> char {
    (48 + d) as char
}

/// How a `$2a$` bcrypt hash of cost `cost` (below 100) begins: `$2a$`, the cost in two
/// digits, `$`.
pub open spec fn bcrypt_2a_prefix(cost: u32) -> Seq<char> {
    seq!['$', '2', 'a', '$', digit_char(cost / 10), digit_char(cost % 10), '$']
}

/// Calls `bcrypt::hash_with_salt` and writes the parts it returns with
/// `HashParts::format_for_version(Version::TwoA)`.
/// Claimed, as the source shows: the call fails exactly when the cost lies outside 4..=31;
/// otherwise the string is `bcrypt_2a_hash` of the password's characters, the cost and the salt,
/// and, as `format_for_version` writes it (`$2a$`, the cost in two digits, `$`, the salt in
/// 22 characters of base64, the hash in 31), it is 60 characters long and begins with
/// `bcrypt_2a_prefix(cost)`.
#[verifier::external_body]
fn hash_with_salt_2a(password: &str, cost: u32, salt: [u8; 16]) -> (r: Result<String, bcrypt::BcryptError>)
    ensures
        r is Ok <==> 4 <= cost <= 31,
        r matches Ok(h) ==> h@ == bcrypt_2a_hash(password@, cost, salt@),
        r matches Ok(h) ==> h@.len() == 60 && h@.subrange(0, 7) == bcrypt_2a_prefix(cost),
{
    match bcrypt::hash_with_salt(password, cost, salt) {
        Ok(parts) => Ok(parts.format_for_version(bcrypt::Version::TwoA)),
        Err(e) => Err(e),
    }
}

/// The stored form of a password: its bcrypt hash with the site's cost and salt.
pub open spec fn password_hash(password: Seq<char>) -> Seq<char> {
    bcrypt_2a_hash(password, ROUNDS, SALT@)
}

/// Hashes a password the way the site stores it: a bcrypt hash of 60 characters that
/// begins with `$2a$04$`.
pub fn hash_password(password: &str) -> (h: String)
    ensures
        h@ == password_hash(password@),
        h@.len() == 60,
        h@.subrange(0, 7) == "$2a$04$"@,
{
    match hash_with_salt_2a(password, ROUNDS, SALT) {
        Ok(h) => {
            proof {
                reveal_strlit("$2a$04$");
                assert(bcrypt_2a_prefix(ROUNDS) =~= "$2a$04$"@);
            }
            h
        },
        Err(_) => {
            proof {
                assert(false);
            }
            String::new()
        },
    }
}

/// The cookie that names a user's session.
pub open spec fn is_session_cookie(c: SetCookie, id: Seq<char>) -> bool {
    &&& c.name@ == "session"@
    &&& c.value@ == id
    &&& c.path is None
    &&& c.same_site_strict
}

/// The cookie that names an administrator's session.
pub open spec fn is_admin_cookie(c: SetCookie, id: Seq<char>) -> bool {
    &&& c.name@ == "admin"@
    &&& c.value@ == id
    &&& c.path matches Some(p) && p@ == "/admin"@
    &&& !c.same_site_strict
}

fn session_cookie(id: String) -> (c: SetCookie)
    ensures
        is_session_cookie(c, id@),
{
    SetCookie { name: String::from_str("session"), value: id, path: None, same_site_strict: true }
}

fn admin_cookie(id: String) -> (c: SetCookie)
    ensures
        is_admin_cookie(c, id@),
{
    SetCookie {
        name: String::from_str("admin"),
        value: id,
        path: Some(String::from_str("/admin")),
        same_site_strict: false,
    }
}

/// Proof that a request carries a live administrator session: the value of its `admin` cookie.
pub struct AdminAccess {
    pub session_id: String,
}

/// What the administrator guard decides for a request.
pub enum AdminGuard {
    /// The request may reach the administrator's handlers.
    Success(AdminAccess),
    /// The request goes on to the next handler, which answers with this status.
    Forward(Status),
}

/// What the administrator guard decides: a request whose `admin` cookie names a session
/// that is live at `now` is let through with that cookie's value; every other request
/// (no cookie, a failed lookup, an expired session) is forwarded as unauthorized.
pub open spec fn admin_guard_decides(request: Option<(String, Result<SessionRow, DbError>)>, now: i64, g: AdminGuard) -> bool {
    match request {
        Some((cookie, Ok(row))) => if session_live(row.expires, now) {
            g matches AdminGuard::Success(a) && a.session_id@ == cookie@
        } else {
            g == AdminGuard::Forward(Status::Unauthorized)
        },
        _ => g == AdminGuard::Forward(Status::Unauthorized),
    }
}

impl AdminAccess {
    /// The administrator guard. `request` is `None` where the request has no `admin` cookie;
    /// otherwise it holds the cookie's value and what looking that value up in the `Sessions`
    /// table gave. A lookup that fails for any reason, or a session that expired before `now`,
    /// forwards the request as unauthorized.
    pub fn from_request(request: Option<(String, Result<SessionRow, DbError>)>, now: i64) -> (g: AdminGuard)
        ensures
            admin_guard_decides(request, now, g),
    {
        match request {
            None => AdminGuard::Forward(Status::Unauthorized),
            Some((_, Err(_))) => AdminGuard::Forward(Status::Unauthorized),
            Some((cookie, Ok(row))) => {
                if row.expires < now {
                    AdminGuard::Forward(Status::Unauthorized)
                } else {
                    AdminGuard::Success(AdminAccess { session_id: cookie })
                }
            },
        }
    }
}

/// What the administrator login answers and what it writes.
pub struct AdminLogin {
    pub status: Status,
    /// The `admin` cookie that the response sets.
    pub cookie: Option<SetCookie>,
    /// The session row that is inserted for it.
    pub session: Option<SessionRow>,
}

/// Whether a login form holds the administrator's credentials.
pub open spec fn admin_credentials(data: LoginData) -> bool {
    data.username@ == "admin"@ && data.password@ == "admin"@
}

/// Tests whether a login form holds the administrator's credentials.
pub fn admin_credentials_hold(data: &LoginData) -> (b: bool)
    ensures
        b == admin_credentials(*data),
{
    let admin = String::from_str("admin");
    data.username == admin && data.password == admin
}

/// An administrator login granted under the session id `id` at `now`.
pub open spec fn admin_login_granted(r: AdminLogin, id: Seq<char>, now: i64) -> bool {
    &&& r.status == Status::Success
    &&& r.cookie matches Some(c) && is_admin_cookie(c, id)
    &&& r.session matches Some(s) && s.id@ == id && s.userid@ == id && s.expires == now + SESSIONTIME
}

/// An administrator login refused.
pub open spec fn admin_login_refused(r: AdminLogin) -> bool {
    r.status == Status::Unauthorized && r.cookie is None && r.session is None
}

/// The administrator login with the session id given: granted exactly for the
/// credentials `admin` / `admin`.
pub fn admin_login_with_id(data: &LoginData, session_id: String, now: i64) -> (r: AdminLogin)
    requires
        admin_credentials(*data) ==> expiry_fits(now),
    ensures
        admin_credentials(*data) ==> admin_login_granted(r, session_id@, now),
        !admin_credentials(*data) ==> admin_login_refused(r),
{
    if admin_credentials_hold(data) {
        let expires = session_expiry(now);
        let session = SessionRow { id: session_id.clone(), userid: session_id.clone(), expires };
        AdminLogin { status: Status::Success, cookie: Some(admin_cookie(session_id)), session: Some(session) }
    } else {
        AdminLogin { status: Status::Unauthorized, cookie: None, session: None }
    }
}

/// The administrator login: for the credentials `admin` / `admin` a fresh random session id
/// is drawn, set as the `admin` cookie (restricted to `/admin`) and stored as a session that
/// expires `SESSIONTIME` seconds after `now`; any other credentials are refused.
pub fn adminlogin_post(data: &LoginData, now: i64) -> (r: AdminLogin)
    requires
        admin_credentials(*data) ==> expiry_fits(now),
    ensures
        admin_credentials(*data) ==> (r.cookie matches Some(c) && is_cookie_value(c.value@)
            && admin_login_granted(r, c.value@, now)),
        !admin_credentials(*data) ==> admin_login_refused(r),
{
    if admin_credentials_hold(data) {
        let id = generateCookie();
        let ghost v = id@;
        let r = admin_login_with_id(data, id, now);
        assert(r.cookie matches Some(c) && c.value@ == v);
        r
    } else {
        AdminLogin { status: Status::Unauthorized, cookie: None, session: None }
    }
}

/// What a user login answers.
pub struct UserLogin {
    pub status: Status,
    /// The `session` cookie that the response sets.
    pub cookie: Option<SetCookie>,
}

/// Whether a user row accepts a password: the stored hash is the password's hash.
pub open spec fn password_accepted(user: UserRow, password: Seq<char>) -> bool {
    user.password@ == password_hash(password)
}

/// The status of a login, given what looking the user name up gave: any failed lookup
/// (an unknown name among them) is an internal error, a row without columns is unauthorized,
/// and a found user is accepted exactly when the password's hash is the stored one.
pub open spec fn login_status(lookup: Result<Option<UserRow>, DbError>, password: Seq<char>) -> Status {
    match lookup {
        Err(_) => Status::InternalServerError,
        Ok(None) => Status::Unauthorized,
        Ok(Some(user)) => if password_accepted(user, password) {
            Status::Success
        } else {
            Status::Unauthorized
        },
    }
}

/// A user login with the password's hash and the session id given: the found user is
/// accepted exactly when `computed_hash` is its stored hash, and then gets the session cookie.
/// No session row is written for that cookie.
pub fn login_with(lookup: &Result<Option<UserRow>, DbError>, computed_hash: &String, session_id: String) -> (r: UserLogin)
    ensures
        r.status == match *lookup {
            Err(_) => Status::InternalServerError,
            Ok(None) => Status::Unauthorized,
            Ok(Some(user)) => if user.password@ == computed_hash@ {
                Status::Success
            } else {
                Status::Unauthorized
            },
        },
        r.status == Status::Success ==> (r.cookie matches Some(c) && is_session_cookie(c, session_id@)),
        r.status != Status::Success ==> r.cookie is None,
{
    match lookup {
        Err(_) => UserLogin { status: Status::InternalServerError, cookie: None },
        Ok(None) => UserLogin { status: Status::Unauthorized, cookie: None },
        Ok(Some(user)) => {
            if user.password == *computed_hash {
                UserLogin { status: Status::Success, cookie: Some(session_cookie(session_id)) }
            } else {
                UserLogin { status: Status::Unauthorized, cookie: None }
            }
        },
    }
}

/// The user login: the password is hashed and compared with the stored hash of the user
/// that the lookup found; on a match a fresh random session id is set as the `session`
/// cookie (`SameSite=Strict`, ending with the browser session).
#[allow(non_snake_case)]
pub fn postLogin(data: &LoginData, lookup: &Result<Option<UserRow>, DbError>) -> (r: UserLogin)
    ensures
        r.status == login_status(*lookup, data.password@),
        r.status == Status::Success ==> (r.cookie matches Some(c) && is_cookie_value(c.value@)
            && is_session_cookie(c, c.value@)),
        r.status != Status::Success ==> r.cookie is None,
{
    match lookup {
        Err(_) => UserLogin { status: Status::InternalServerError, cookie: None },
        Ok(None) => UserLogin { status: Status::Unauthorized, cookie: None },
        Ok(Some(user)) => {
            let computed = hash_password(data.password.as_str());
            if user.password == computed {
                let id = generateCookie();
                let ghost v = id@;
                let r = login_with(lookup, &computed, id);
                assert(r.cookie matches Some(c) && c.value@ == v);
                r
            } else {
                UserLogin { status: Status::Unauthorized, cookie: None }
            }
        },
    }
}

/// A registration about to write its user row.
pub struct RegisterPlan {
    /// The user row to insert.
    pub user: UserRow,
    /// The session id that the new user gets.
    pub session_id: String,
    /// The time at which the registration was received.
    pub now: i64,
}

/// The first half of a registration.
pub enum Registration {
    /// Answer at once with this status and body.
    Respond(Status, String),
    /// Insert the user row of the plan, then finish with `register_finish`.
    Create(RegisterPlan),
}

/// A registration planned with the ids and the password hash given: a lookup of the name
/// that failed for another reason than finding no row ends it with an internal error and
/// the failure's message; otherwise (the name being taken or not) the user row is planned.
pub fn register_with(
    data: &LoginData,
    lookup: &Result<Option<UserRow>, DbError>,
    session_id: String,
    user_id: String,
    password_hash: String,
    now: i64,
) -> (r: Registration)
    ensures
        match *lookup {
            Err(DbError::Other(m)) => r matches Registration::Respond(st, body)
                && st == Status::InternalServerError && body@ == m@,
            _ => r matches Registration::Create(p) && p.user.id@ == user_id@
                && p.user.username@ == data.username@ && p.user.password@ == password_hash@
                && p.session_id@ == session_id@ && p.now == now,
        },
{
    match lookup {
        Err(DbError::Other(m)) => Registration::Respond(Status::InternalServerError, m.clone()),
        _ => Registration::Create(
            RegisterPlan {
                user: UserRow { id: user_id, username: data.username.clone(), password: password_hash },
                session_id,
                now,
            },
        ),
    }
}

/// The first half of a registration: unless the lookup of the name failed for another
/// reason than finding no row, a fresh random session id and a fresh random user id are
/// drawn and the user row (id, name, password hash) is planned.
#[allow(non_snake_case)]
pub fn postRegister(data: &LoginData, lookup: &Result<Option<UserRow>, DbError>, now: i64) -> (r: Registration)
    ensures
        match *lookup {
            Err(DbError::Other(m)) => r matches Registration::Respond(st, body)
                && st == Status::InternalServerError && body@ == m@,
            _ => r matches Registration::Create(p) && is_cookie_value(p.user.id@)
                && is_cookie_value(p.session_id@) && p.user.username@ == data.username@
                && p.user.password@ == password_hash(data.password@) && p.now == now,
        },
{
    match lookup {
        Err(DbError::Other(m)) => Registration::Respond(Status::InternalServerError, m.clone()),
        _ => {
            let session = generateCookie();
            let userid = generateCookie();
            let hash = hash_password(data.password.as_str());
            register_with(data, lookup, session, userid, hash, now)
        },
    }
}

/// How a registration ends.
pub struct RegisterOutcome {
    pub status: Status,
    pub body: String,
    /// The session row to insert (whether that insert succeeds does not change the answer).
    pub session: Option<SessionRow>,
    /// The `session` cookie that the response sets.
    pub cookie: Option<SetCookie>,
}

/// How a registration ends, given how inserting the user row went.
pub open spec fn registration_finished(plan: RegisterPlan, created: Result<(), String>, r: RegisterOutcome) -> bool {
    match created {
        Err(m) => r.status == Status::InternalServerError && r.body@ == m@ && r.session is None
            && r.cookie is None,
        Ok(_) => r.status == Status::Success && r.body@ == Seq::<char>::empty()
            && (r.session matches Some(s) && s.id@ == plan.session_id@
            && s.userid@ == plan.user.id@ && s.expires == plan.now + SESSIONTIME)
            && (r.cookie matches Some(c) && is_session_cookie(c, plan.session_id@)),
    }
}

/// The second half of a registration, given how inserting the user row went: a failed
/// insert ends it with an internal error and the failure's message; otherwise the new
/// user's session is written, expiring `SESSIONTIME` seconds after the registration, and set
/// as the `session` cookie, with an empty body.
pub fn register_finish(plan: RegisterPlan, created: Result<(), String>) -> (r: RegisterOutcome)
    requires
        created is Ok ==> expiry_fits(plan.now),
    ensures
        registration_finished(plan, created, r),
{
    match created {
        Err(m) => RegisterOutcome { status: Status::InternalServerError, body: m, session: None, cookie: None },
        Ok(_) => {
            let expires = session_expiry(plan.now);
            let session = SessionRow { id: plan.session_id.clone(), userid: plan.user.id, expires };
            RegisterOutcome {
                status: Status::Success,
                body: String::new(),
                session: Some(session),
                cookie: Some(session_cookie(plan.session_id)),
            }
        },
    }
}

/// What the front page shows of the visitor's session.
pub struct IndexView {
    pub logged_in: bool,
    /// Whether the response removes the visitor's `session` cookie.
    pub remove_session_cookie: bool,
}

/// What the front page shows of a session lookup (see `index_session`).
pub open spec fn index_shows(lookup: Option<Result<SessionRow, DbError>>, now: i64, r: Result<IndexView, (Status, String)>) -> bool {
    match lookup {
        None => r matches Ok(v) && !v.logged_in && !v.remove_session_cookie,
        Some(Err(DbError::RowNotFound)) => r matches Ok(v) && !v.logged_in && !v.remove_session_cookie,
        Some(Err(DbError::Other(m))) => r matches Err((st, body)) && st == Status::InternalServerError
            && body@ == m@,
        Some(Ok(row)) => r matches Ok(v) && v.logged_in == session_live(row.expires, now)
            && v.remove_session_cookie == !session_live(row.expires, now),
    }
}

/// The session part of the front page. `lookup` is `None` where the request has no
/// `session` cookie, else what looking its value up gave. A lookup that found no row
/// leaves the visitor logged out; another failure is an internal error with its message;
/// a session that expired before `now` logs the visitor out and removes the cookie; a live
/// one shows the visitor logged in.
pub fn index_session(lookup: Option<Result<SessionRow, DbError>>, now: i64) -> (r: Result<IndexView, (Status, String)>)
    ensures
        index_shows(lookup, now, r),
{
    match lookup {
        None => Ok(IndexView { logged_in: false, remove_session_cookie: false }),
        Some(Err(DbError::RowNotFound)) => Ok(IndexView { logged_in: false, remove_session_cookie: false }),
        Some(Err(DbError::Other(m))) => Err((Status::InternalServerError, m)),
        Some(Ok(row)) => {
            if now > row.expires {
                Ok(IndexView { logged_in: false, remove_session_cookie: true })
            } else {
                Ok(IndexView { logged_in: true, remove_session_cookie: false })
            }
        },
    }
}

} // verus!
