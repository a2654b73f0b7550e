use vstd::prelude::*;
use crate::auth::{
    account_of, enrolled, logged_in, login_answer, session_after, verdict, LoginVerdict,
};
use crate::composer::{composed, composed_all, created, shown_owner};
use crate::database::{lemma_stored_user_is_found, owned_post_stands_at, DatabaseModel};
use crate::rows::{joined, newest_first, oldest_first, PostFilter, PostRowModel};
use crate::error::AppErrorModel;
use crate::outside::{json_string_list, password_check};
use crate::posts::{
    not_deleted_message, not_updated_message, post_created, post_deleted, post_stored,
    post_updated,
};
use crate::session::SessionModel;
use crate::structs::{
    lemma_tag_round_trip, AuthResponseModel, LoginRequestModel, NewPostFormModel, NewPostModel,
    NewUserModel, PostModel, PostType,
};

verus! {

/// Whether the identifiers of rows grow from each row to the next.
pub open spec fn rows_ascend(rows: Seq<PostRowModel>) -> bool {
    forall|i: int, j: int| 0 <= i < j < rows.len() ==> rows[i].id < rows[j].id
}

/// Whether the identifiers of rows fall from each row to the next.
pub open spec fn rows_descend(rows: Seq<PostRowModel>) -> bool {
    forall|i: int, j: int| 0 <= i < j < rows.len() ==> rows[i].id > rows[j].id
}

/// Whether the identifiers of posts grow from each post to the next.
pub open spec fn posts_ascend(posts: Seq<PostModel>) -> bool {
    forall|i: int, j: int| 0 <= i < j < posts.len() ==> posts[i].id < posts[j].id
}

/// Whether the identifiers of posts fall from each post to the next.
pub open spec fn posts_descend(posts: Seq<PostModel>) -> bool {
    forall|i: int, j: int| 0 <= i < j < posts.len() ==> posts[i].id > posts[j].id
}

/// A row is among rows exactly if it is the last of them or among the
/// others.
proof fn lemma_last_or_before<R>(rows: Seq<R>, x: R)
    requires
        rows.len() > 0,
    ensures
        rows.contains(x) <==> (rows.drop_last().contains(x) || x == rows.last()),
{
    if rows.contains(x) {
        let i = choose|i: int| 0 <= i < rows.len() && rows[i] == x;
        if i < rows.len() - 1 {
            assert(rows.drop_last()[i] == x);
        }
    }
    if rows.drop_last().contains(x) {
        let i = choose|i: int| 0 <= i < rows.drop_last().len() && rows.drop_last()[i] == x;
        assert(rows[i] == x);
    }
    if x == rows.last() {
        assert(rows[rows.len() - 1] == x);
    }
}

/// A selection, the oldest first, holds exactly the rows that pass the
/// test.
pub proof fn lemma_oldest_first_members<R>(rows: Seq<R>, keep: spec_fn(R) -> bool, x: R)
    ensures
        oldest_first(rows, keep).contains(x) <==> (rows.contains(x) && keep(x)),
    decreases rows.len(),
{
    if rows.len() > 0 {
        let before = oldest_first(rows.drop_last(), keep);
        lemma_oldest_first_members(rows.drop_last(), keep, x);
        lemma_last_or_before(rows, x);
        if keep(rows.last()) {
            let all = before.push(rows.last());
            lemma_last_or_before(all, x);
            assert(all.drop_last() =~= before);
        }
    }
}

/// A selection, the newest first, holds exactly the rows that pass the
/// test.
pub proof fn lemma_newest_first_members<R>(rows: Seq<R>, keep: spec_fn(R) -> bool, x: R)
    ensures
        newest_first(rows, keep).contains(x) <==> (rows.contains(x) && keep(x)),
    decreases rows.len(),
{
    if rows.len() > 0 {
        let after = newest_first(rows.drop_last(), keep);
        lemma_newest_first_members(rows.drop_last(), keep, x);
        lemma_last_or_before(rows, x);
        if keep(rows.last()) {
            let all = seq![rows.last()] + after;
            if all.contains(x) {
                let i = choose|i: int| 0 <= i < all.len() && all[i] == x;
                if i > 0 {
                    assert(after[i - 1] == x);
                }
            }
            if after.contains(x) {
                let i = choose|i: int| 0 <= i < after.len() && after[i] == x;
                assert(all[i + 1] == x);
            }
            if x == rows.last() {
                assert(all[0] == x);
            }
        }
    }
}

/// A selection of rows in ascending order, the oldest first, is in
/// ascending order.
pub proof fn lemma_oldest_first_ascends(rows: Seq<PostRowModel>, keep: spec_fn(PostRowModel) -> bool)
    requires
        rows_ascend(rows),
    ensures
        rows_ascend(oldest_first(rows, keep)),
    decreases rows.len(),
{
    if rows.len() > 0 {
        let head = rows.drop_last();
        let before = oldest_first(head, keep);
        assert(rows_ascend(head)) by {
            assert forall|i: int, j: int| 0 <= i < j < head.len() implies head[i].id < head[j].id by {
                assert(rows[i].id < rows[j].id);
            }
        }
        lemma_oldest_first_ascends(head, keep);
        if keep(rows.last()) {
            let all = before.push(rows.last());
            assert forall|i: int, j: int| 0 <= i < j < all.len() implies all[i].id < all[j].id by {
                if j == before.len() {
                    lemma_oldest_first_members(head, keep, before[i]);
                    assert(before.contains(before[i]));
                    let k = choose|k: int| 0 <= k < head.len() && head[k] == before[i];
                    assert(rows[k].id < rows[rows.len() - 1].id);
                } else {
                    assert(before[i].id < before[j].id);
                }
            }
        }
    }
}

/// A selection of rows in ascending order, the newest first, is in
/// descending order.
pub proof fn lemma_newest_first_descends(
    rows: Seq<PostRowModel>,
    keep: spec_fn(PostRowModel) -> bool,
)
    requires
        rows_ascend(rows),
    ensures
        rows_descend(newest_first(rows, keep)),
    decreases rows.len(),
{
    if rows.len() > 0 {
        let head = rows.drop_last();
        let after = newest_first(head, keep);
        assert(rows_ascend(head)) by {
            assert forall|i: int, j: int| 0 <= i < j < head.len() implies head[i].id < head[j].id by {
                assert(rows[i].id < rows[j].id);
            }
        }
        lemma_newest_first_descends(head, keep);
        if keep(rows.last()) {
            let all = seq![rows.last()] + after;
            assert forall|i: int, j: int| 0 <= i < j < all.len() implies all[i].id > all[j].id by {
                if i == 0 {
                    lemma_newest_first_members(head, keep, after[j - 1]);
                    assert(after.contains(after[j - 1]));
                    let k = choose|k: int| 0 <= k < head.len() && head[k] == after[j - 1];
                    assert(rows[k].id < rows[rows.len() - 1].id);
                } else {
                    assert(after[i - 1].id > after[j - 1].id);
                }
            }
        }
    }
}

/// In a store that is in order, the rows stand in ascending order of their
/// identifiers.
pub proof fn lemma_rows_ascend(db: DatabaseModel)
    requires
        db.wf(),
    ensures
        rows_ascend(db.rows()),
{
    assert forall|i: int, j: int| 0 <= i < j < db.rows().len() implies db.rows()[i].id
        < db.rows()[j].id by {
        assert(db.posts[i].id < db.posts[j].id);
    }
}

/// The posts that rows show have the rows' identifiers, so they stand in
/// the rows' order.
pub proof fn lemma_composed_keeps_order(rows: Seq<PostRowModel>)
    ensures
        rows_ascend(rows) ==> posts_ascend(composed_all(rows)),
        rows_descend(rows) ==> posts_descend(composed_all(rows)),
{
    if rows_ascend(rows) {
        assert forall|i: int, j: int| 0 <= i < j < rows.len() implies composed_all(rows)[i].id
            < composed_all(rows)[j].id by {
            assert(rows[i].id < rows[j].id);
        }
    }
    if rows_descend(rows) {
        assert forall|i: int, j: int| 0 <= i < j < rows.len() implies composed_all(rows)[i].id
            > composed_all(rows)[j].id by {
            assert(rows[i].id > rows[j].id);
        }
    }
}

/// Every post of a user that is listed by type is among the posts of the
/// user that are listed without regard to type: the listing by type is a
/// part of the other. The two come in opposite orders: by type the
/// identifiers ascend, without it they descend.
pub proof fn lemma_listing_by_type_within_listing(
    db: DatabaseModel,
    user_id: i32,
    post_type: PostType,
)
    requires
        db.wf(),
    ensures
        forall|row: PostRowModel|
            db.list_by_owner_and_type(user_id, post_type).contains(row)
                ==> db.list_by_owner(user_id).contains(row),
        forall|post: PostModel|
            composed_all(db.list_by_owner_and_type(user_id, post_type)).contains(post)
                ==> composed_all(db.list_by_owner(user_id)).contains(post),
        rows_ascend(db.list_by_owner_and_type(user_id, post_type)),
        rows_descend(db.list_by_owner(user_id)),
        posts_ascend(composed_all(db.list_by_owner_and_type(user_id, post_type))),
        posts_descend(composed_all(db.list_by_owner(user_id))),
{
    let by_type = (PostFilter { owner: Some(user_id), post_type: Some(post_type) }).keeps();
    let by_owner = (PostFilter { owner: Some(user_id), post_type: None }).keeps();
    let typed = db.list_by_owner_and_type(user_id, post_type);
    let all = db.list_by_owner(user_id);
    assert forall|row: PostRowModel| typed.contains(row) implies all.contains(row) by {
        lemma_oldest_first_members(db.rows(), by_type, row);
        lemma_newest_first_members(db.rows(), by_owner, row);
    }
    assert forall|post: PostModel| composed_all(typed).contains(post) implies composed_all(
        all,
    ).contains(post) by {
        let i = choose|i: int| 0 <= i < composed_all(typed).len() && composed_all(typed)[i] == post;
        assert(typed.contains(typed[i]));
        let k = choose|k: int| 0 <= k < all.len() && all[k] == typed[i];
        assert(composed_all(all)[k] == post);
    }
    lemma_rows_ascend(db);
    lemma_oldest_first_ascends(db.rows(), by_type);
    lemma_newest_first_descends(db.rows(), by_owner);
    lemma_composed_keeps_order(typed);
    lemma_composed_keeps_order(all);
}

/// Whoever registered can log in. Once an admitted registration is stored
/// with a hash that fits its password, the store is in order, and a login
/// with the same email and password is accepted for the identifier that the
/// registration got: it makes the session name that user and welcomes the
/// user, or fails only because the session cannot be written.
pub proof fn lemma_registered_user_logs_in(
    db: DatabaseModel,
    session: SessionModel,
    user: NewUserModel,
    password_hash: Seq<char>,
    picture: Option<Seq<char>>,
    later: SessionModel,
)
    requires
        db.wf(),
        db.can_store_user(user.email),
        password_check(user.password, password_hash) == Some(true),
    ensures
        ({
            let after = enrolled(db, session, user, password_hash, picture).0;
            let request = LoginRequestModel { email: user.email, password: user.password };
            let id = db.next_user_id;
            &&& after.wf()
            &&& verdict(account_of(after.find_email(user.email)), user.password)
                == LoginVerdict::Accepted(id)
            &&& logged_in(after, later, request) == (
                session_after(later, id),
                login_answer(LoginVerdict::Accepted(id), later.reachable),
            )
            &&& later.reachable ==> logged_in(after, later, request).1 == Ok::<
                AuthResponseModel,
                AppErrorModel,
            >(AuthResponseModel::welcome("Login successful"@, id))
        }),
{
    let stored = db.user_for(user.email, password_hash, user.name, user.pin_code, picture);
    lemma_stored_user_is_found(db, stored);
}

/// A login with an email that no user has and a login with the email of a
/// user and a password that does not fit are answered alike: the session
/// stays as it was, and the answer is the same refusal, character for
/// character.
pub proof fn lemma_login_refusals_alike(
    db: DatabaseModel,
    session: SessionModel,
    unknown: LoginRequestModel,
    wrong: LoginRequestModel,
)
    requires
        db.find_email(unknown.email) is None,
        db.find_email(wrong.email) matches Some(user) && password_check(
            wrong.password,
            user.password_hash,
        ) == Some(false),
    ensures
        logged_in(db, session, unknown) == logged_in(db, session, wrong),
        logged_in(db, session, unknown) == (
            session,
            Ok::<AuthResponseModel, AppErrorModel>(
                AuthResponseModel::refusal("Invalid credentials"@),
            ),
        ),
{
}

/// Only its owner changes or deletes a post. For a caller whom the session
/// names and who does not own the post, an update and a deletion both leave
/// the store as it was and answer `NotFound`, as they would if the post did
/// not exist: never `Unauthenticated`, never success.
pub proof fn lemma_only_owner_changes_post(
    db: DatabaseModel,
    session: SessionModel,
    place: int,
    post: PostModel,
)
    requires
        db.wf(),
        0 <= place < db.posts.len(),
        post.id == db.posts[place].id,
        session.identity() matches Some(caller) && caller != db.posts[place].user_id,
    ensures
        post_updated(db, session, post) == (
            db,
            Err::<PostModel, AppErrorModel>(
                AppErrorModel::not_found(not_updated_message(post.id)),
            ),
        ),
        post_deleted(db, session, post.id).0 == db,
        post_deleted(db, session, post.id).1 is Err,
        post_deleted(db, session, post.id).1->Err_0 == AppErrorModel::not_found(
            not_deleted_message(post.id),
        ),
{
    let caller = session.identity()->0;
    assert forall|i: int| !owned_post_stands_at(db.posts, i, post.id, caller) by {
        if owned_post_stands_at(db.posts, i, post.id, caller) {
            if i < place {
                assert(db.posts[i].id < db.posts[place].id);
            }
            if place < i {
                assert(db.posts[place].id < db.posts[i].id);
            }
        }
    }
}

/// A post whose categories are no JSON array of strings is not created:
/// for a caller whom the session names, the answer is `BadInput` and the
/// store is as it was, so no row of it is kept.
pub proof fn lemma_malformed_categories_store_nothing(
    db: DatabaseModel,
    session: SessionModel,
    form: NewPostFormModel,
)
    requires
        session.identity() is Some,
        json_string_list(form.categories) is None,
    ensures
        post_created(db, session, form) == (
            db,
            Err::<PostModel, AppErrorModel>(AppErrorModel::bad_categories()),
        ),
{
}

/// A post that was created is listed as it was created. Where the store
/// takes a post, the answer shows the description, categories, type and PIN
/// that were sent, with the owner's current name and picture; and every
/// listing that covers the post shows exactly that: the owner's posts, all
/// posts and all posts of its type show it first, the owner's posts of its
/// type show it last.
pub proof fn lemma_created_post_is_listed(db: DatabaseModel, user_id: i32, post: NewPostModel)
    requires
        db.wf(),
        db.can_store_post(user_id),
    ensures
        ({
            let (after, answer) = post_stored(db, user_id, post);
            let owner = after.find_user(user_id);
            &&& after.wf()
            &&& owner is Some
            &&& answer matches Ok(view) && {
                &&& view.id == db.next_post_id
                &&& view.user_id == user_id
                &&& view.description == post.description
                &&& view.categories == post.categories
                &&& view.post_type == post.post_type
                &&& view.pin_code == post.pin_code
                &&& view.user_name == owner->0.name
                &&& view.profile_picture == owner->0.profile_picture
                &&& composed_all(after.list_by_owner(user_id)).first() == view
                &&& composed_all(after.list_community()).first() == view
                &&& composed_all(after.list_community_by_type(post.post_type)).first() == view
                &&& composed_all(after.list_by_owner_and_type(user_id, post.post_type)).last()
                    == view
                &&& after.list_by_owner(user_id).len() > 0
                &&& after.list_community().len() > 0
                &&& after.list_community_by_type(post.post_type).len() > 0
                &&& after.list_by_owner_and_type(user_id, post.post_type).len() > 0
            }
        }),
{
    let record = db.post_for(user_id, post);
    let after = db.with_post(record);
    let owner = db.find_user(user_id);
    let row = joined(record, owner);
    let view = created(record, post.post_type, shown_owner(owner));
    lemma_tag_round_trip(post.post_type);
    assert(composed(row) == view);
    assert(after.users == db.users);
    assert(after.rows() =~= db.rows().push(row)) by {
        assert forall|i: int| 0 <= i < after.rows().len() implies after.rows()[i] == db.rows().push(
            row,
        )[i] by {
            assert(after.find_user(after.posts[i].user_id) == db.find_user(
                after.posts[i].user_id,
            ));
        }
    }
    assert(after.rows().last() == row);
    assert(after.rows().drop_last() =~= db.rows());
    assert forall|i: int| 0 <= i < after.posts.len() implies 1 <= (#[trigger] after.posts[i]).id
        < after.next_post_id by {
        if i < db.posts.len() {
            assert(1 <= db.posts[i].id < db.next_post_id);
        }
    }
    assert forall|i: int, j: int| 0 <= i < j < after.posts.len() implies (
    #[trigger] after.posts[i]).id < (#[trigger] after.posts[j]).id by {
        if j == db.posts.len() {
            assert(1 <= db.posts[i].id < db.next_post_id);
        } else {
            assert(db.posts[i].id < db.posts[j].id);
        }
    }
    assert forall|i: int| 0 <= i < after.users.len() implies 1 <= (#[trigger] after.users[i]).id
        < after.next_user_id by {
        assert(1 <= db.users[i].id < db.next_user_id);
    }
}

/// An update by the owner changes the content of one post and nothing else.
/// The post keeps its identifier and its owner and takes the description,
/// categories, type and PIN that were sent; every other post and every user
/// stays as it was, and the store stays in order.
pub proof fn lemma_update_changes_content_only(db: DatabaseModel, post: PostModel, owner: i32)
    requires
        db.wf(),
        db.find_owned_post(post.id, owner) is Some,
    ensures
        ({
            let place = db.find_owned_post(post.id, owner)->0;
            let after = db.updated(post, owner);
            &&& after.wf()
            &&& after.users == db.users
            &&& after.posts.len() == db.posts.len()
            &&& 0 <= place < db.posts.len()
            &&& after.posts[place].id == post.id
            &&& after.posts[place].user_id == owner
            &&& after.posts[place].description == post.description
            &&& after.posts[place].categories == post.categories
            &&& after.posts[place].post_type == post.post_type.tag()
            &&& after.posts[place].pin_code == post.pin_code
            &&& forall|i: int|
                0 <= i < db.posts.len() && i != place ==> after.posts[i] == db.posts[i]
        }),
{
    let place = db.find_owned_post(post.id, owner)->0;
    let after = db.updated(post, owner);
    assert(owned_post_stands_at(db.posts, place, post.id, owner));
    assert forall|i: int| 0 <= i < after.posts.len() implies 1 <= (#[trigger] after.posts[i]).id
        < after.next_post_id by {
        assert(1 <= db.posts[i].id < db.next_post_id);
    }
    assert forall|i: int, j: int| 0 <= i < j < after.posts.len() implies (
    #[trigger] after.posts[i]).id < (#[trigger] after.posts[j]).id by {
        assert(db.posts[i].id < db.posts[j].id);
    }
}

/// A deletion by the owner removes one post and nothing else. No post with
/// the identifier is left, so no listing shows it any more; every other
/// post and every user stays as it was, and the store stays in order.
pub proof fn lemma_delete_removes_one_post(db: DatabaseModel, id: i32, owner: i32)
    requires
        db.wf(),
        db.find_owned_post(id, owner) is Some,
    ensures
        ({
            let place = db.find_owned_post(id, owner)->0;
            let after = db.deleted(id, owner);
            &&& after.wf()
            &&& after.users == db.users
            &&& 0 <= place < db.posts.len()
            &&& after.posts == db.posts.remove(place)
            &&& forall|i: int| 0 <= i < after.posts.len() ==> (#[trigger] after.posts[i]).id != id
            &&& forall|i: int| 0 <= i < after.rows().len() ==> (#[trigger] after.rows()[i]).id != id
        }),
{
    let place = db.find_owned_post(id, owner)->0;
    let after = db.deleted(id, owner);
    assert(owned_post_stands_at(db.posts, place, id, owner));
    assert forall|i: int| 0 <= i < after.posts.len() implies 1 <= (#[trigger] after.posts[i]).id
        < after.next_post_id && after.posts[i].id != id by {
        if i < place {
            assert(after.posts[i] == db.posts[i]);
            assert(db.posts[i].id < db.posts[place].id);
        } else {
            assert(after.posts[i] == db.posts[i + 1]);
            assert(db.posts[place].id < db.posts[i + 1].id);
        }
    }
    assert forall|i: int, j: int| 0 <= i < j < after.posts.len() implies (
    #[trigger] after.posts[i]).id < (#[trigger] after.posts[j]).id by {
        let a = if i < place { i } else { i + 1 };
        let b = if j < place { j } else { j + 1 };
        assert(after.posts[i] == db.posts[a]);
        assert(after.posts[j] == db.posts[b]);
        assert(db.posts[a].id < db.posts[b].id);
    }
    assert forall|i: int| 0 <= i < after.rows().len() implies (#[trigger] after.rows()[i]).id
        != id by {
        assert(after.posts[i].id != id);
    }
}

} // verus!
