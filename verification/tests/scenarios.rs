use marketplace::auth::{login, register};
use marketplace::database::Database;
use marketplace::error::ErrorKind;
use marketplace::images::ImageHost;
use marketplace::posts::{create_post, delete_post, list_my_posts, list_offers, list_requests};
use marketplace::session::{Session, SessionValue};
use marketplace::structs::{LoginRequest, NewPostForm, NewUser, PostType};

fn new_user(email: &str, password: &str) -> NewUser {
    NewUser {
        email: email.to_string(),
        password: password.to_string(),
        name: None,
        pin_code: None,
        profile_picture: None,
    }
}

fn credentials(email: &str, password: &str) -> LoginRequest {
    LoginRequest { email: email.to_string(), password: password.to_string() }
}

fn couch() -> NewPostForm {
    NewPostForm {
        description: "couch".to_string(),
        categories: "[\"furniture\"]".to_string(),
        post_type: PostType::Offer,
        pin_code: None,
    }
}

#[test]
fn register_then_login_with_wrong_and_right_password() {
    let mut db = Database::new();
    let mut images = ImageHost::new("https://images.example/");
    let mut session = Session::new();

    let registered = register(&mut db, &mut session, &mut images, new_user("a@x.com", "secret1"))
        .unwrap();
    assert!(registered.success);
    assert_eq!(registered.user_id, Some(1));
    assert_eq!(registered.message, "Registration successful");
    assert_eq!(session.user_id, SessionValue::UserId(1));

    let mut other = Session::new();
    let refused = login(&db, &mut other, credentials("a@x.com", "wrong")).unwrap();
    assert!(!refused.success);
    assert_eq!(refused.message, "Invalid credentials");
    assert_eq!(refused.user_id, None);
    assert_eq!(other.user_id, SessionValue::Absent);

    let welcomed = login(&db, &mut other, credentials("a@x.com", "secret1")).unwrap();
    assert!(welcomed.success);
    assert_eq!(welcomed.user_id, Some(1));
    assert_eq!(welcomed.message, "Login successful");
    assert_eq!(other.user_id, SessionValue::UserId(1));
}

#[test]
fn created_offer_is_among_my_offers_and_not_my_requests() {
    let mut db = Database::new();
    let mut images = ImageHost::new("https://images.example/");
    let mut session = Session::new();
    register(&mut db, &mut session, &mut images, new_user("a@x.com", "secret1")).unwrap();

    let post = create_post(&mut db, &session, couch()).unwrap();
    assert_eq!(post.id, 1);
    assert_eq!(post.post_type, PostType::Offer);
    assert_eq!(post.description, "couch");
    assert_eq!(post.categories, vec!["furniture".to_string()]);
    assert_eq!(post.user_id, 1);

    let offers = list_offers(&db, &session).unwrap();
    assert_eq!(offers.len(), 1);
    assert_eq!(offers[0].id, 1);
    assert_eq!(offers[0].post_type, PostType::Offer);

    let requests = list_requests(&db, &session).unwrap();
    assert!(requests.is_empty());
}

#[test]
fn only_the_owner_deletes_a_post() {
    let mut db = Database::new();
    let mut images = ImageHost::new("https://images.example/");
    let mut first = Session::new();
    let mut second = Session::new();
    register(&mut db, &mut first, &mut images, new_user("a@x.com", "secret1")).unwrap();
    register(&mut db, &mut second, &mut images, new_user("b@x.com", "secret2")).unwrap();
    assert_eq!(second.user_id, SessionValue::UserId(2));
    create_post(&mut db, &first, couch()).unwrap();

    let refused = delete_post(&mut db, &second, 1).unwrap_err();
    assert_eq!(refused.kind, ErrorKind::NotFound);
    assert_eq!(refused.message, "Post with id 1 not found for deletion.");
    assert_eq!(list_my_posts(&db, &first).unwrap().len(), 1);

    let deleted = delete_post(&mut db, &first, 1).unwrap();
    assert!(deleted.success);
    assert_eq!(deleted.id, 1);
    assert_eq!(deleted.message, "Post with id 1 deleted successfully.");
    assert!(list_my_posts(&db, &first).unwrap().is_empty());
}
