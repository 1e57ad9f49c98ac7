use streamsite::session::{
    admin_login_with_id, adminlogin_post, hash_password, index_session, login_with, postLogin,
    postRegister, register_finish, register_with, session_expiry, AdminAccess, AdminGuard, DbError,
    LoginData, Registration, SessionRow, UserRow, SESSIONTIME,
};
use streamsite::status::Status;

fn form(username: &str, password: &str) -> LoginData {
    LoginData { username: username.to_string(), password: password.to_string() }
}

fn session(id: &str, userid: &str, expires: i64) -> SessionRow {
    SessionRow { id: id.to_string(), userid: userid.to_string(), expires }
}

fn is_cookie_value(s: &str) -> bool {
    s.len() == 32 && s.chars().all(|c| c.is_ascii_alphanumeric())
}

#[test]
fn session_expiry_adds_session_time() {
    assert_eq!(session_expiry(1_000), 1_000 + 115_200);
    assert_eq!(SESSIONTIME, 115_200);
}

#[test]
fn hash_password_is_bcrypt_2a_with_cost_4() {
    let h = hash_password("hunter2");
    assert_ne!(h, "hunter2");
    assert!(h.starts_with("$2a$04$"));
    assert_eq!(h.len(), 60);
    assert_eq!(h, hash_password("hunter2"));
    assert_ne!(h, hash_password("hunter3"));
    assert!(bcrypt::verify("hunter2", &h).unwrap());
}

#[test]
fn admin_guard_without_cookie_forwards() {
    match AdminAccess::from_request(None, 10) {
        AdminGuard::Forward(st) => assert_eq!(st, Status::Unauthorized),
        AdminGuard::Success(_) => panic!("let through"),
    }
}

#[test]
fn admin_guard_on_failed_lookup_forwards() {
    for err in [DbError::RowNotFound, DbError::Other("disk I/O error".to_string())] {
        match AdminAccess::from_request(Some(("abc".to_string(), Err(err))), 10) {
            AdminGuard::Forward(st) => assert_eq!(st, Status::Unauthorized),
            AdminGuard::Success(_) => panic!("let through"),
        }
    }
}

#[test]
fn admin_guard_checks_expiry() {
    match AdminAccess::from_request(Some(("abc".to_string(), Ok(session("abc", "abc", 100)))), 100) {
        AdminGuard::Success(a) => assert_eq!(a.session_id, "abc"),
        AdminGuard::Forward(_) => panic!("refused a live session"),
    }
    match AdminAccess::from_request(Some(("abc".to_string(), Ok(session("abc", "abc", 100)))), 101) {
        AdminGuard::Forward(st) => assert_eq!(st, Status::Unauthorized),
        AdminGuard::Success(_) => panic!("let an expired session through"),
    }
}

#[test]
fn admin_login_grants_admin_admin() {
    let r = admin_login_with_id(&form("admin", "admin"), "sid".to_string(), 50);
    assert_eq!(r.status, Status::Success);
    let c = r.cookie.unwrap();
    assert_eq!(c.name, "admin");
    assert_eq!(c.value, "sid");
    assert_eq!(c.path.as_deref(), Some("/admin"));
    assert!(!c.same_site_strict);
    let s = r.session.unwrap();
    assert_eq!((s.id.as_str(), s.userid.as_str(), s.expires), ("sid", "sid", 50 + 115_200));
}

#[test]
fn admin_login_refuses_other_credentials() {
    for (u, p) in [("admin", "Admin"), ("root", "admin"), ("", "")] {
        let r = adminlogin_post(&form(u, p), 50);
        assert_eq!(r.status, Status::Unauthorized);
        assert!(r.cookie.is_none() && r.session.is_none());
    }
}

#[test]
fn admin_login_draws_a_fresh_session_id() {
    let r = adminlogin_post(&form("admin", "admin"), 7);
    let c = r.cookie.unwrap();
    assert!(is_cookie_value(&c.value));
    let s = r.session.unwrap();
    assert_eq!(s.id, c.value);
    assert_eq!(s.userid, c.value);
    assert_eq!(s.expires, 7 + 115_200);
}

#[test]
fn login_with_compares_hashes() {
    let user = UserRow { id: "u1".to_string(), username: "ann".to_string(), password: "H".to_string() };
    let ok = login_with(&Ok(Some(user)), &"H".to_string(), "sid".to_string());
    assert_eq!(ok.status, Status::Success);
    let c = ok.cookie.unwrap();
    assert_eq!((c.name.as_str(), c.value.as_str(), c.path.is_none(), c.same_site_strict), ("session", "sid", true, true));
    let user = UserRow { id: "u1".to_string(), username: "ann".to_string(), password: "H".to_string() };
    let bad = login_with(&Ok(Some(user)), &"G".to_string(), "sid".to_string());
    assert_eq!(bad.status, Status::Unauthorized);
    assert!(bad.cookie.is_none());
}

#[test]
fn login_lookup_failures() {
    let r = postLogin(&form("ann", "pw"), &Err(DbError::RowNotFound));
    assert_eq!(r.status, Status::InternalServerError);
    let r = postLogin(&form("ann", "pw"), &Err(DbError::Other("boom".to_string())));
    assert_eq!(r.status, Status::InternalServerError);
    let r = postLogin(&form("ann", "pw"), &Ok(None));
    assert_eq!(r.status, Status::Unauthorized);
    assert!(r.cookie.is_none());
}

#[test]
fn registered_password_logs_in_and_other_is_refused() {
    let data = form("ann", "correct horse");
    let plan = match postRegister(&data, &Err(DbError::RowNotFound), 1_000) {
        Registration::Create(p) => p,
        Registration::Respond(..) => panic!("registration refused"),
    };
    assert!(is_cookie_value(&plan.user.id));
    assert!(is_cookie_value(&plan.session_id));
    assert_eq!(plan.user.username, "ann");
    let user = UserRow { id: plan.user.id.clone(), username: plan.user.username.clone(), password: plan.user.password.clone() };
    let ok = postLogin(&form("ann", "correct horse"), &Ok(Some(user)));
    assert_eq!(ok.status, Status::Success);
    assert!(is_cookie_value(&ok.cookie.unwrap().value));
    let user = UserRow { id: plan.user.id.clone(), username: plan.user.username.clone(), password: plan.user.password.clone() };
    let bad = postLogin(&form("ann", "wrong horse"), &Ok(Some(user)));
    assert_eq!(bad.status, Status::Unauthorized);
}

#[test]
fn register_lookup_error_is_reported() {
    match postRegister(&form("ann", "pw"), &Err(DbError::Other("database is locked".to_string())), 0) {
        Registration::Respond(st, body) => {
            assert_eq!(st, Status::InternalServerError);
            assert_eq!(body, "database is locked");
        }
        Registration::Create(_) => panic!("planned a user"),
    }
}

#[test]
fn register_with_taken_name_still_plans_the_user() {
    let taken = UserRow { id: "x".to_string(), username: "ann".to_string(), password: "h".to_string() };
    match register_with(&form("ann", "pw"), &Ok(Some(taken)), "s".to_string(), "u".to_string(), "H".to_string(), 9) {
        Registration::Create(p) => {
            assert_eq!((p.user.id.as_str(), p.user.username.as_str(), p.user.password.as_str()), ("u", "ann", "H"));
            assert_eq!((p.session_id.as_str(), p.now), ("s", 9));
        }
        Registration::Respond(..) => panic!("refused"),
    }
}

#[test]
fn register_finish_writes_session_and_cookie() {
    let plan = match register_with(&form("ann", "pw"), &Err(DbError::RowNotFound), "s".to_string(), "u".to_string(), "H".to_string(), 9) {
        Registration::Create(p) => p,
        Registration::Respond(..) => panic!("refused"),
    };
    let r = register_finish(plan, Ok(()));
    assert_eq!(r.status, Status::Success);
    assert_eq!(r.body, "");
    let s = r.session.unwrap();
    assert_eq!((s.id.as_str(), s.userid.as_str(), s.expires), ("s", "u", 9 + 115_200));
    let c = r.cookie.unwrap();
    assert_eq!((c.name.as_str(), c.value.as_str(), c.same_site_strict), ("session", "s", true));
}

#[test]
fn register_finish_reports_failed_insert() {
    let plan = match register_with(&form("ann", "pw"), &Err(DbError::RowNotFound), "s".to_string(), "u".to_string(), "H".to_string(), 9) {
        Registration::Create(p) => p,
        Registration::Respond(..) => panic!("refused"),
    };
    let r = register_finish(plan, Err("UNIQUE constraint failed".to_string()));
    assert_eq!(r.status, Status::InternalServerError);
    assert_eq!(r.body, "UNIQUE constraint failed");
    assert!(r.session.is_none() && r.cookie.is_none());
}

#[test]
fn index_session_cases() {
    let v = index_session(None, 5).unwrap();
    assert!(!v.logged_in && !v.remove_session_cookie);
    let v = index_session(Some(Err(DbError::RowNotFound)), 5).unwrap();
    assert!(!v.logged_in && !v.remove_session_cookie);
    let e = index_session(Some(Err(DbError::Other("oops".to_string()))), 5).err().unwrap();
    assert_eq!(e, (Status::InternalServerError, "oops".to_string()));
    let v = index_session(Some(Ok(session("a", "b", 5))), 5).unwrap();
    assert!(v.logged_in && !v.remove_session_cookie);
    let v = index_session(Some(Ok(session("a", "b", 5))), 6).unwrap();
    assert!(!v.logged_in && v.remove_session_cookie);
}
