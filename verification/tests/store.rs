use marketplace::database::Database;
use marketplace::rows::PostRecord;
use marketplace::error::{AppError, ErrorKind};
use marketplace::images::ImageHost;
use marketplace::structs::{NewPost, Post, PostType, User};

fn user(id: i32, email: &str) -> User {
    User {
        id,
        email: email.to_string(),
        password_hash: "hash".to_string(),
        created_at: 0,
        pin_code: None,
        name: None,
        profile_picture: None,
    }
}

fn record(id: i32, owner: i32) -> PostRecord {
    PostRecord {
        id,
        description: "d".to_string(),
        categories: Vec::new(),
        user_id: owner,
        post_type: "offer".to_string(),
        pin_code: None,
    }
}

#[test]
fn a_new_store_gives_the_identifier_one() {
    let mut db = Database::new();
    let id = db
        .insert_user("a@x.com".to_string(), "hash".to_string(), None, None, None)
        .unwrap();
    assert_eq!(id, 1);
    let id = db
        .insert_user("b@x.com".to_string(), "hash".to_string(), None, None, None)
        .unwrap();
    assert_eq!(id, 2);
    let post = NewPost {
        description: "x".to_string(),
        categories: vec!["c".to_string()],
        post_type: PostType::Request,
        pin_code: None,
    };
    let stored = db.create(2, post.clone()).unwrap();
    assert_eq!(stored.id, 1);
    assert_eq!(stored.user_id, 2);
    assert_eq!(stored.post_type, "request");
    assert_eq!(stored.categories, vec!["c".to_string()]);
    assert_eq!(db.create(1, post).unwrap().id, 2);
}

#[test]
fn the_store_keeps_emails_unique() {
    let mut db = Database::new();
    db.insert_user("a@x.com".to_string(), "hash".to_string(), None, None, None).unwrap();
    let e: AppError = db
        .insert_user("a@x.com".to_string(), "other".to_string(), None, None, None)
        .unwrap_err();
    assert_eq!(e.kind, ErrorKind::UpstreamFailure);
    assert_eq!(e.message, "Database error");
    assert_eq!(db.find_user_by_email(&"a@x.com".to_string()).unwrap().password_hash, "hash");
    assert!(db.find_user_by_id(2).is_none());
}

#[test]
fn the_store_dates_users_by_its_clock() {
    let mut db = Database::new();
    db.insert_user("a@x.com".to_string(), "hash".to_string(), None, None, None).unwrap();
    db.set_clock(77);
    db.insert_user("b@x.com".to_string(), "hash".to_string(), None, None, None).unwrap();
    assert_eq!(db.find_user_by_id(1).unwrap().created_at, 0);
    assert_eq!(db.find_user_by_id(2).unwrap().created_at, 77);
}

#[test]
fn a_store_is_restored_only_from_rows_in_order() {
    assert!(Database::restore(Vec::new(), Vec::new()).is_some());
    assert!(Database::restore(vec![user(2, "a@x.com"), user(5, "b@x.com")], Vec::new()).is_some());
    assert!(Database::restore(vec![user(5, "a@x.com"), user(2, "b@x.com")], Vec::new()).is_none());
    assert!(Database::restore(vec![user(2, "a@x.com"), user(2, "b@x.com")], Vec::new()).is_none());
    assert!(Database::restore(vec![user(0, "a@x.com")], Vec::new()).is_none());
    assert!(Database::restore(vec![user(-1, "a@x.com")], Vec::new()).is_none());
    assert!(Database::restore(vec![user(i32::MAX, "a@x.com")], Vec::new()).is_none());
    assert!(Database::restore(vec![user(1, "a@x.com"), user(2, "a@x.com")], Vec::new()).is_none());
    assert!(Database::restore(
        vec![user(1, "a@x.com"), user(2, "b@x.com"), user(3, "a@x.com")],
        Vec::new()
    )
    .is_none());
    assert!(Database::restore(Vec::new(), vec![record(1, 1), record(3, 1)]).is_some());
    assert!(Database::restore(Vec::new(), vec![record(3, 1), record(3, 1)]).is_none());
    assert!(Database::restore(Vec::new(), vec![record(3, 1), record(1, 1)]).is_none());
    assert!(Database::restore(Vec::new(), vec![record(0, 1)]).is_none());
    assert!(Database::restore(Vec::new(), vec![record(i32::MAX, 1)]).is_none());
}

#[test]
fn a_restored_store_goes_on_after_its_last_identifiers() {
    let mut db = Database::restore(vec![user(4, "a@x.com")], vec![record(10, 4)]).unwrap();
    let id = db
        .insert_user("b@x.com".to_string(), "hash".to_string(), None, None, None)
        .unwrap();
    assert_eq!(id, 5);
    let post = NewPost {
        description: "x".to_string(),
        categories: Vec::new(),
        post_type: PostType::Offer,
        pin_code: None,
    };
    assert_eq!(db.create(5, post).unwrap().id, 11);
}

#[test]
fn update_and_delete_say_how_many_rows_they_touched() {
    let mut db = Database::restore(
        vec![user(1, "a@x.com"), user(2, "b@x.com")],
        vec![record(1, 1), record(2, 2)],
    )
    .unwrap();
    let sent = Post {
        id: 2,
        description: "new".to_string(),
        categories: vec!["k".to_string()],
        user_id: 1,
        post_type: PostType::Request,
        pin_code: None,
        user_name: None,
        profile_picture: None,
    };
    assert_eq!(db.update(&sent, 1), 0);
    assert_eq!(db.list_by_owner(2)[0].description, "d");
    assert_eq!(db.update(&sent, 2), 1);
    let row = &db.list_by_owner(2)[0];
    assert_eq!(row.description, "new");
    assert_eq!(row.post_type, "request");
    assert_eq!(row.user_id, 2);
    assert_eq!(row.id, 2);

    assert_eq!(db.delete(2, 1), 0);
    assert_eq!(db.delete(3, 2), 0);
    assert_eq!(db.delete(2, 2), 1);
    assert_eq!(db.delete(2, 2), 0);
    assert_eq!(db.list_community().len(), 1);
}

#[test]
fn the_picture_of_an_unknown_user_is_not_set() {
    let mut db = Database::restore(vec![user(1, "a@x.com")], Vec::new()).unwrap();
    assert!(db.set_profile_picture(2, "url".to_string()).is_none());
    let profile = db.set_profile_picture(1, "url".to_string()).unwrap();
    assert_eq!(profile.profile_picture, Some("url".to_string()));
    assert_eq!(profile.email, "a@x.com");
    assert_eq!(db.find_user_by_id(1).unwrap().profile_picture, Some("url".to_string()));
}

#[test]
fn the_image_host_keeps_one_image_for_each_key() {
    let mut images = ImageHost::new("https://cdn.example/");
    assert_eq!(images.len(), 0);
    assert_eq!(images.image("a"), None);
    assert_eq!(images.upload("one", "a").unwrap(), "https://cdn.example/a");
    assert_eq!(images.upload("two", "b").unwrap(), "https://cdn.example/b");
    assert_eq!(images.upload("three", "a").unwrap(), "https://cdn.example/a");
    assert_eq!(images.len(), 2);
    assert_eq!(images.image("a"), Some("three".to_string()));
    assert_eq!(images.image("b"), Some("two".to_string()));

    images.set_reachable(false);
    let e = images.upload("four", "a").unwrap_err();
    assert_eq!(e.kind, ErrorKind::UpstreamFailure);
    assert_eq!(e.message, "Image upload failed");
    assert_eq!(images.image("a"), Some("three".to_string()));
    images.set_reachable(true);
    assert_eq!(images.upload("four", "a").unwrap(), "https://cdn.example/a");
    assert_eq!(images.image("a"), Some("four".to_string()));
}

#[test]
fn each_kind_of_failure_has_its_status() {
    assert_eq!(ErrorKind::BadInput.status_code(), 400);
    assert_eq!(ErrorKind::Unauthenticated.status_code(), 401);
    assert_eq!(ErrorKind::NotFound.status_code(), 404);
    assert_eq!(ErrorKind::UpstreamFailure.status_code(), 500);
    let e = AppError::new(ErrorKind::NotFound, "gone");
    assert_eq!(e.status_code(), 404);
    assert_eq!(e.to_string(), "gone");
    assert_eq!(AppError::upstream("down").kind, ErrorKind::UpstreamFailure);
    assert_eq!(AppError::bad_categories().message, "Invalid categories format");
    assert_eq!(AppError::unauthenticated().clone().message, "Authentication required");
}
