use marketplace::auth::{
    duplicate_refusal, enroll, fresh_temporary_key, get_my_profile, get_user_profile, login,
    picture_key, register, registration_answer, temporary_key, update_profile_picture,
    validate_registration,
};
use marketplace::database::Database;
use marketplace::error::ErrorKind;
use marketplace::images::ImageHost;
use marketplace::outside::verify_password;
use marketplace::session::{Session, SessionValue};
use marketplace::structs::{LoginRequest, NewUser, ProfilePictureUpdate, User};

fn form(email: &str, password: &str, name: Option<&str>) -> NewUser {
    NewUser {
        email: email.to_string(),
        password: password.to_string(),
        name: name.map(|n| n.to_string()),
        pin_code: Some("4711".to_string()),
        profile_picture: None,
    }
}

fn stored_user(id: i32, email: &str, name: Option<&str>) -> User {
    User {
        id,
        email: email.to_string(),
        password_hash: "$2y$05$bvIG6Nmid91Mu9RcmmWZfO5HJIMCT8riNW0hEp8f6/FuA2/mHZFpe".to_string(),
        created_at: 1_700_000_000_000_000,
        pin_code: Some("0000".to_string()),
        name: name.map(|n| n.to_string()),
        profile_picture: None,
    }
}

fn refusal_of(new_user: &NewUser) -> Option<String> {
    validate_registration(new_user).map(|answer| {
        assert!(!answer.success);
        assert_eq!(answer.user_id, None);
        answer.message
    })
}

#[test]
fn an_email_needs_an_at_sign() {
    let expected = Some("Invalid email format".to_string());
    assert_eq!(refusal_of(&form("", "secret1", None)), expected);
    assert_eq!(refusal_of(&form("a.x.com", "secret1", None)), expected);
    assert_eq!(refusal_of(&form("@", "secret1", None)), None);
    assert_eq!(refusal_of(&form("a@x.com", "secret1", None)), None);
}

#[test]
fn a_password_needs_six_bytes() {
    let expected = Some("Password must be at least 6 characters long".to_string());
    assert_eq!(refusal_of(&form("a@x.com", "", None)), expected);
    assert_eq!(refusal_of(&form("a@x.com", "12345", None)), expected);
    assert_eq!(refusal_of(&form("a@x.com", "123456", None)), None);
    assert_eq!(refusal_of(&form("a@x.com", "\u{e9}\u{e9}\u{e9}", None)), None);
    assert_eq!(refusal_of(&form("a@x.com", "\u{e9}\u{e9}a", None)), expected);
}

#[test]
fn a_name_that_is_given_is_not_blank() {
    let expected = Some("Name cannot be empty".to_string());
    assert_eq!(refusal_of(&form("a@x.com", "secret1", Some(""))), expected);
    assert_eq!(refusal_of(&form("a@x.com", "secret1", Some("  \t\n"))), expected);
    assert_eq!(refusal_of(&form("a@x.com", "secret1", Some("\u{a0}\u{2003}"))), expected);
    assert_eq!(refusal_of(&form("a@x.com", "secret1", Some(" Bo "))), None);
    assert_eq!(refusal_of(&form("a@x.com", "secret1", None)), None);
}

#[test]
fn the_first_flaw_is_reported() {
    assert_eq!(
        refusal_of(&form("nobody", "1", Some(" "))),
        Some("Invalid email format".to_string())
    );
    assert_eq!(
        refusal_of(&form("a@x.com", "1", Some(" "))),
        Some("Password must be at least 6 characters long".to_string())
    );
}

#[test]
fn a_registered_email_is_refused() {
    let refused = duplicate_refusal(true).unwrap();
    assert!(!refused.success);
    assert_eq!(refused.message, "Email already registered");
    assert_eq!(refused.user_id, None);
    assert!(duplicate_refusal(false).is_none());

    let mut db = Database::restore(vec![stored_user(1, "a@x.com", None)], Vec::new()).unwrap();
    let mut images = ImageHost::new("https://images.example/");
    let mut session = Session::new();
    let answer = register(&mut db, &mut session, &mut images, form("a@x.com", "secret1", None))
        .unwrap();
    assert!(!answer.success);
    assert_eq!(answer.message, "Email already registered");
    assert_eq!(session.user_id, SessionValue::Absent);
    assert!(db.find_user_by_id(2).is_none());
}

#[test]
fn a_refused_registration_changes_nothing() {
    let mut db = Database::new();
    let mut images = ImageHost::new("https://images.example/");
    let mut session = Session::new();
    let mut flawed = form("a@x.com", "short", None);
    flawed.profile_picture = Some("image".to_string());
    let answer = register(&mut db, &mut session, &mut images, flawed).unwrap();
    assert!(!answer.success);
    assert_eq!(answer.message, "Password must be at least 6 characters long");
    assert_eq!(session.user_id, SessionValue::Absent);
    assert_eq!(images.len(), 0);
    assert!(db.find_user_by_email(&"a@x.com".to_string()).is_none());
}

#[test]
fn a_registration_stores_the_user_with_a_hash() {
    let mut db = Database::new();
    db.set_clock(1_234);
    let mut images = ImageHost::new("https://images.example/");
    let mut session = Session::new();
    let answer = register(&mut db, &mut session, &mut images, form("a@x.com", "secret1", Some("Ann")))
        .unwrap();
    assert!(answer.success);
    assert_eq!(answer.user_id, Some(1));

    let user = db.find_user_by_email(&"a@x.com".to_string()).unwrap();
    assert_eq!(user.id, 1);
    assert_eq!(user.name, Some("Ann".to_string()));
    assert_eq!(user.pin_code, Some("4711".to_string()));
    assert_eq!(user.profile_picture, None);
    assert_eq!(user.created_at, 1_234);
    assert_ne!(user.password_hash, "secret1");
    assert_eq!(verify_password("secret1", &user.password_hash), Some(true));
    assert_eq!(images.len(), 0);
}

#[test]
fn whoever_registered_can_log_in() {
    let mut db = Database::restore(vec![stored_user(4, "z@x.com", None)], Vec::new()).unwrap();
    let mut images = ImageHost::new("https://images.example/");
    let mut session = Session::new();
    let registered = register(&mut db, &mut session, &mut images, form("b@x.com", "hunter22", None))
        .unwrap();
    assert_eq!(registered.user_id, Some(5));

    let mut later = Session::new();
    let request = LoginRequest { email: "b@x.com".to_string(), password: "hunter22".to_string() };
    let welcomed = login(&db, &mut later, request).unwrap();
    assert!(welcomed.success);
    assert_eq!(welcomed.user_id, registered.user_id);
    assert_eq!(later.user_id, SessionValue::UserId(5));
}

#[test]
fn the_picture_of_a_registration_is_uploaded_under_a_temporary_key() {
    let mut db = Database::new();
    let mut images = ImageHost::new("https://images.example/");
    let mut session = Session::new();
    let mut new_user = form("a@x.com", "secret1", None);
    new_user.profile_picture = Some("image-bytes".to_string());
    let answer = register(&mut db, &mut session, &mut images, new_user).unwrap();
    assert!(answer.success);
    assert_eq!(images.len(), 1);

    let picture = db.find_user_by_id(1).unwrap().profile_picture.unwrap();
    let prefix = "https://images.example/profile_pictures/temp_";
    assert!(picture.starts_with(prefix));
    let key = &picture["https://images.example/".len()..];
    assert_eq!(images.image(key), Some("image-bytes".to_string()));
}

#[test]
fn a_failed_upload_stops_the_registration() {
    let mut db = Database::new();
    let mut images = ImageHost::new("https://images.example/");
    images.set_reachable(false);
    let mut session = Session::new();
    let mut new_user = form("a@x.com", "secret1", None);
    new_user.profile_picture = Some("image-bytes".to_string());
    let e = register(&mut db, &mut session, &mut images, new_user).unwrap_err();
    assert_eq!(e.kind, ErrorKind::UpstreamFailure);
    assert_eq!(e.message, "Image upload failed");
    assert!(db.find_user_by_email(&"a@x.com".to_string()).is_none());
    assert_eq!(session.user_id, SessionValue::Absent);
}

#[test]
fn a_registration_fails_where_the_session_cannot_be_written() {
    let mut db = Database::new();
    let mut images = ImageHost::new("https://images.example/");
    let mut session = Session { user_id: SessionValue::Absent, other_keys: Vec::new(), reachable: false };
    let e = register(&mut db, &mut session, &mut images, form("a@x.com", "secret1", None))
        .unwrap_err();
    assert_eq!(e.kind, ErrorKind::UpstreamFailure);
    assert_eq!(e.message, "Failed to set session");
    assert_eq!(db.find_user_by_email(&"a@x.com".to_string()).unwrap().id, 1);
}

#[test]
fn no_user_is_stored_once_the_identifiers_are_used_up() {
    let last = stored_user(i32::MAX - 1, "z@x.com", None);
    let mut db = Database::restore(vec![last], Vec::new()).unwrap();
    let mut session = Session::new();
    let e = enroll(&mut db, &mut session, form("a@x.com", "secret1", None), "hash".to_string(), None)
        .unwrap_err();
    assert_eq!(e.kind, ErrorKind::UpstreamFailure);
    assert_eq!(e.message, "Database error");
    assert!(db.find_user_by_email(&"a@x.com".to_string()).is_none());
    assert_eq!(session.user_id, SessionValue::Absent);
}

#[test]
fn enrolling_stores_what_it_is_given() {
    let mut db = Database::new();
    let mut session = Session::new();
    let answer = enroll(
        &mut db,
        &mut session,
        form("a@x.com", "secret1", Some("Ann")),
        "the-hash".to_string(),
        Some("https://images.example/p.png".to_string()),
    )
    .unwrap();
    assert!(answer.success);
    assert_eq!(answer.message, "Registration successful");
    assert_eq!(answer.user_id, Some(1));
    assert_eq!(session.user_id, SessionValue::UserId(1));
    let user = db.find_user_by_id(1).unwrap();
    assert_eq!(user.email, "a@x.com");
    assert_eq!(user.password_hash, "the-hash");
    assert_eq!(user.profile_picture, Some("https://images.example/p.png".to_string()));
}

#[test]
fn the_answers_of_a_registration() {
    let welcomed = registration_answer(12, true).unwrap();
    assert!(welcomed.success);
    assert_eq!(welcomed.message, "Registration successful");
    assert_eq!(welcomed.user_id, Some(12));
    let failed = registration_answer(12, false).unwrap_err();
    assert_eq!(failed.kind, ErrorKind::UpstreamFailure);
    assert_eq!(failed.message, "Failed to set session");
}

#[test]
fn the_keys_of_pictures() {
    assert_eq!(temporary_key("abc"), "profile_pictures/temp_abc");
    assert_eq!(temporary_key(""), "profile_pictures/temp_");
    assert_eq!(picture_key(1), "profile_pictures/user_1");
    assert_eq!(picture_key(0), "profile_pictures/user_0");
    assert_eq!(picture_key(120), "profile_pictures/user_120");
    assert_eq!(picture_key(-45), "profile_pictures/user_-45");
    assert_eq!(picture_key(i32::MAX), "profile_pictures/user_2147483647");
    assert_eq!(picture_key(i32::MIN), "profile_pictures/user_-2147483648");
}

#[test]
fn fresh_keys_differ() {
    let first = fresh_temporary_key();
    let second = fresh_temporary_key();
    assert!(first.starts_with("profile_pictures/temp_"));
    assert_eq!(first.len(), "profile_pictures/temp_".len() + 36);
    assert_ne!(first, second);
}

#[test]
fn a_profile_holds_no_password_hash() {
    let db = Database::restore(vec![stored_user(3, "c@x.com", Some("Cy"))], Vec::new()).unwrap();
    let profile = get_user_profile(&db, 3).unwrap();
    assert_eq!(profile.id, 3);
    assert_eq!(profile.email, "c@x.com");
    assert_eq!(profile.name, Some("Cy".to_string()));
    assert_eq!(profile.pin_code, Some("0000".to_string()));
    assert_eq!(profile.profile_picture, None);

    let mine = get_my_profile(&db, &Session::of_user(3)).unwrap();
    assert_eq!(mine.id, 3);
    assert_eq!(mine.email, "c@x.com");
}

#[test]
fn the_profile_of_an_unknown_user_is_a_failure_of_the_store() {
    let db = Database::new();
    let e = get_user_profile(&db, 3).unwrap_err();
    assert_eq!(e.kind, ErrorKind::UpstreamFailure);
    assert_eq!(e.message, "Database error");
    let e = get_my_profile(&db, &Session::of_user(3)).unwrap_err();
    assert_eq!(e.kind, ErrorKind::UpstreamFailure);
}

#[test]
fn my_profile_needs_a_session() {
    let db = Database::restore(vec![stored_user(3, "c@x.com", None)], Vec::new()).unwrap();
    let e = get_my_profile(&db, &Session::new()).unwrap_err();
    assert_eq!(e.kind, ErrorKind::Unauthenticated);
}

#[test]
fn a_new_picture_takes_the_place_of_the_old_one() {
    let mut db = Database::restore(vec![stored_user(3, "c@x.com", None)], Vec::new()).unwrap();
    let mut images = ImageHost::new("https://images.example/");
    let session = Session::of_user(3);

    let first = ProfilePictureUpdate { profile_picture: "first".to_string() };
    let profile = update_profile_picture(&mut db, &session, &mut images, first).unwrap();
    assert_eq!(
        profile.profile_picture,
        Some("https://images.example/profile_pictures/user_3".to_string())
    );
    assert_eq!(profile.id, 3);
    assert_eq!(profile.email, "c@x.com");
    assert_eq!(images.image("profile_pictures/user_3"), Some("first".to_string()));

    let second = ProfilePictureUpdate { profile_picture: "second".to_string() };
    update_profile_picture(&mut db, &session, &mut images, second).unwrap();
    assert_eq!(images.len(), 1);
    assert_eq!(images.image("profile_pictures/user_3"), Some("second".to_string()));
    assert_eq!(
        db.find_user_by_id(3).unwrap().profile_picture,
        Some("https://images.example/profile_pictures/user_3".to_string())
    );
}

#[test]
fn a_failed_upload_leaves_the_picture_as_it_was() {
    let mut user = stored_user(3, "c@x.com", None);
    user.profile_picture = Some("https://images.example/old".to_string());
    let mut db = Database::restore(vec![user], Vec::new()).unwrap();
    let mut images = ImageHost::new("https://images.example/");
    images.set_reachable(false);
    let update = ProfilePictureUpdate { profile_picture: "new".to_string() };
    let e = update_profile_picture(&mut db, &Session::of_user(3), &mut images, update).unwrap_err();
    assert_eq!(e.kind, ErrorKind::UpstreamFailure);
    assert_eq!(e.message, "Image upload failed");
    assert_eq!(
        db.find_user_by_id(3).unwrap().profile_picture,
        Some("https://images.example/old".to_string())
    );
    assert_eq!(images.len(), 0);
}

#[test]
fn a_picture_needs_a_session_and_a_user() {
    let mut db = Database::new();
    let mut images = ImageHost::new("https://images.example/");
    let update = ProfilePictureUpdate { profile_picture: "new".to_string() };
    let e = update_profile_picture(&mut db, &Session::new(), &mut images, update.clone())
        .unwrap_err();
    assert_eq!(e.kind, ErrorKind::Unauthenticated);
    assert_eq!(images.len(), 0);

    let e = update_profile_picture(&mut db, &Session::of_user(8), &mut images, update).unwrap_err();
    assert_eq!(e.kind, ErrorKind::UpstreamFailure);
    assert_eq!(e.message, "Database error");
}
