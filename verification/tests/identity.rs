use marketplace::auth::{
    answer_login, conclude_login, judge, judge_credentials, login, LoginVerdict,
};
use marketplace::database::Database;
use marketplace::error::{AppError, ErrorKind};
use marketplace::outside::{hash_password, verify_password};
use marketplace::session::{check_auth, get_my_user_id, logout, Session, SessionValue};
use marketplace::structs::{LoginRequest, User};

fn session_holding(value: SessionValue, reachable: bool) -> Session {
    Session { user_id: value, other_keys: vec!["cart".to_string(), "theme".to_string()], reachable }
}

fn account(id: i32, email: &str, password_hash: &str) -> User {
    User {
        id,
        email: email.to_string(),
        password_hash: password_hash.to_string(),
        created_at: 0,
        pin_code: None,
        name: None,
        profile_picture: None,
    }
}

fn credentials(email: &str, password: &str) -> LoginRequest {
    LoginRequest { email: email.to_string(), password: password.to_string() }
}

#[test]
fn a_stored_identifier_is_the_caller() {
    assert_eq!(get_my_user_id(&Session::of_user(7)).unwrap(), 7);
    assert_eq!(get_my_user_id(&session_holding(SessionValue::UserId(-3), true)).unwrap(), -3);
}

#[test]
fn an_empty_session_is_unauthenticated() {
    let e: AppError = get_my_user_id(&Session::new()).unwrap_err();
    assert_eq!(e.kind, ErrorKind::Unauthenticated);
    assert_eq!(e.message, "Authentication required");
    assert_eq!(e.status_code(), 401);
    assert_eq!(e.to_string(), "Authentication required");
}

#[test]
fn a_malformed_session_value_is_unauthenticated() {
    let e = get_my_user_id(&session_holding(SessionValue::Malformed, true)).unwrap_err();
    assert_eq!(e.kind, ErrorKind::Unauthenticated);
}

#[test]
fn a_session_store_that_does_not_answer_is_unauthenticated() {
    let e = get_my_user_id(&session_holding(SessionValue::UserId(7), false)).unwrap_err();
    assert_eq!(e.kind, ErrorKind::Unauthenticated);
    assert_eq!(e.message, "Authentication required");
}

#[test]
fn check_auth_never_fails() {
    let known = check_auth(&Session::of_user(4)).unwrap();
    assert!(known.success);
    assert_eq!(known.message, "Authenticated");
    assert_eq!(known.user_id, Some(4));

    for session in [
        Session::new(),
        session_holding(SessionValue::Malformed, true),
        session_holding(SessionValue::UserId(4), false),
    ] {
        let unknown = check_auth(&session).unwrap();
        assert!(!unknown.success);
        assert_eq!(unknown.message, "Not authenticated");
        assert_eq!(unknown.user_id, None);
    }
}

#[test]
fn logout_removes_all_data_of_the_session() {
    let mut session = session_holding(SessionValue::UserId(4), true);
    let answer = logout(&mut session).unwrap();
    assert!(answer.success);
    assert_eq!(answer.message, "Logged out successfully");
    assert_eq!(answer.user_id, None);
    assert_eq!(session.user_id, SessionValue::Absent);
    assert!(session.other_keys.is_empty());
    assert!(session.reachable);
    assert_eq!(get_my_user_id(&session).unwrap_err().kind, ErrorKind::Unauthenticated);
}

#[test]
fn logout_fails_where_the_session_store_does_not_answer() {
    let mut session = session_holding(SessionValue::UserId(4), false);
    let e = logout(&mut session).unwrap_err();
    assert_eq!(e.kind, ErrorKind::UpstreamFailure);
    assert_eq!(e.message, "Failed to clear session");
    assert_eq!(e.status_code(), 500);
    assert_eq!(session.user_id, SessionValue::UserId(4));
    assert_eq!(session.other_keys.len(), 2);
}

#[test]
fn session_writes_and_reads() {
    let mut session = Session::new();
    assert_eq!(session.get(), None);
    assert!(session.insert(9));
    assert_eq!(session.get(), Some(9));
    assert!(session.flush());
    assert_eq!(session.get(), None);

    let mut offline = session_holding(SessionValue::Absent, false);
    assert!(!offline.insert(9));
    assert_eq!(offline.user_id, SessionValue::Absent);
    assert!(!offline.flush());
    assert_eq!(offline.other_keys.len(), 2);
    let copy = offline.clone();
    assert_eq!(copy.other_keys, offline.other_keys);
    assert_eq!(copy.reachable, false);
}

#[test]
fn a_hash_is_not_the_password_and_fits_only_the_password() {
    let hash = hash_password("secret1").unwrap();
    assert_ne!(hash, "secret1");
    assert_eq!(hash.len(), 60);
    assert!(hash.starts_with("$2b$12$"));
    assert_eq!(verify_password("secret1", &hash), Some(true));
    assert_eq!(verify_password("secret2", &hash), Some(false));
}

#[test]
fn every_hash_fits_its_own_password() {
    let long = "x".repeat(100);
    for password in ["", "a", "with\0nul", "p\u{e4}ssw\u{f6}rd \u{1f511}", long.as_str()] {
        let hash = hash_password(password).unwrap();
        assert_eq!(verify_password(password, &hash), Some(true), "{:?}", password);
    }
}

#[test]
fn a_known_hash_is_checked_as_bcrypt_checks_it() {
    let hash = "$2y$05$bvIG6Nmid91Mu9RcmmWZfO5HJIMCT8riNW0hEp8f6/FuA2/mHZFpe";
    assert_eq!(verify_password("password", hash), Some(true));
    assert_eq!(verify_password("Password", hash), Some(false));
    assert_eq!(verify_password("password", "password"), None);
    assert_eq!(verify_password("password", ""), None);
}

#[test]
fn the_check_of_a_password_decides_the_login() {
    assert_eq!(judge(5, Some(true)), LoginVerdict::Accepted(5));
    assert_eq!(judge(5, Some(false)), LoginVerdict::Rejected);
    assert_eq!(judge(5, None), LoginVerdict::Failed);

    let hash = "$2y$05$bvIG6Nmid91Mu9RcmmWZfO5HJIMCT8riNW0hEp8f6/FuA2/mHZFpe";
    let found = Some((5, hash.to_string()));
    assert_eq!(judge_credentials(found.clone(), "password"), LoginVerdict::Accepted(5));
    assert_eq!(judge_credentials(found, "wrong"), LoginVerdict::Rejected);
    assert_eq!(judge_credentials(None, "password"), LoginVerdict::Rejected);
    let broken = Some((5, "not a hash".to_string()));
    assert_eq!(judge_credentials(broken, "password"), LoginVerdict::Failed);
}

#[test]
fn the_answers_of_a_login() {
    let welcomed = answer_login(LoginVerdict::Accepted(5), true).unwrap();
    assert!(welcomed.success);
    assert_eq!(welcomed.message, "Login successful");
    assert_eq!(welcomed.user_id, Some(5));

    let unwritten = answer_login(LoginVerdict::Accepted(5), false).unwrap_err();
    assert_eq!(unwritten.kind, ErrorKind::UpstreamFailure);
    assert_eq!(unwritten.message, "Failed to set session");

    for written in [true, false] {
        let refused = answer_login(LoginVerdict::Rejected, written).unwrap();
        assert!(!refused.success);
        assert_eq!(refused.message, "Invalid credentials");
        assert_eq!(refused.user_id, None);

        let failed = answer_login(LoginVerdict::Failed, written).unwrap_err();
        assert_eq!(failed.kind, ErrorKind::UpstreamFailure);
        assert_eq!(failed.message, "Failed to verify password");
    }
}

#[test]
fn only_an_accepted_login_writes_the_session() {
    let mut session = Session::of_user(1);
    conclude_login(&mut session, LoginVerdict::Rejected).unwrap();
    assert_eq!(session.user_id, SessionValue::UserId(1));
    conclude_login(&mut session, LoginVerdict::Failed).unwrap_err();
    assert_eq!(session.user_id, SessionValue::UserId(1));
    conclude_login(&mut session, LoginVerdict::Accepted(2)).unwrap();
    assert_eq!(session.user_id, SessionValue::UserId(2));

    let mut offline = session_holding(SessionValue::Absent, false);
    let e = conclude_login(&mut offline, LoginVerdict::Accepted(2)).unwrap_err();
    assert_eq!(e.message, "Failed to set session");
    assert_eq!(offline.user_id, SessionValue::Absent);
}

#[test]
fn unknown_email_and_wrong_password_are_refused_alike() {
    let hash = "$2y$05$bvIG6Nmid91Mu9RcmmWZfO5HJIMCT8riNW0hEp8f6/FuA2/mHZFpe";
    let db = Database::restore(vec![account(1, "a@x.com", hash)], Vec::new()).unwrap();

    let mut first = Session::new();
    let unknown = login(&db, &mut first, credentials("nobody@x.com", "password")).unwrap();
    let mut second = Session::new();
    let wrong = login(&db, &mut second, credentials("a@x.com", "wrong")).unwrap();

    assert_eq!(unknown.success, wrong.success);
    assert_eq!(unknown.message, wrong.message);
    assert_eq!(unknown.user_id, wrong.user_id);
    assert_eq!(unknown.message.as_bytes(), "Invalid credentials".as_bytes());
    assert!(!unknown.success);
    assert_eq!(unknown.user_id, None);
    assert_eq!(first.user_id, SessionValue::Absent);
    assert_eq!(second.user_id, SessionValue::Absent);
}

#[test]
fn a_stored_hash_that_is_none_fails_the_login() {
    let db = Database::restore(vec![account(1, "a@x.com", "plain")], Vec::new()).unwrap();
    let mut session = Session::new();
    let e = login(&db, &mut session, credentials("a@x.com", "plain")).unwrap_err();
    assert_eq!(e.kind, ErrorKind::UpstreamFailure);
    assert_eq!(e.message, "Failed to verify password");
    assert_eq!(session.user_id, SessionValue::Absent);
}

#[test]
fn a_login_fails_where_the_session_cannot_be_written() {
    let hash = "$2y$05$bvIG6Nmid91Mu9RcmmWZfO5HJIMCT8riNW0hEp8f6/FuA2/mHZFpe";
    let db = Database::restore(vec![account(1, "a@x.com", hash)], Vec::new()).unwrap();
    let mut session = session_holding(SessionValue::Absent, false);
    let e = login(&db, &mut session, credentials("a@x.com", "password")).unwrap_err();
    assert_eq!(e.kind, ErrorKind::UpstreamFailure);
    assert_eq!(e.message, "Failed to set session");
}
