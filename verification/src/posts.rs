use vstd::prelude::*;
use crate::composer::{composed_all, created, post_models, shown_owner};
use crate::database::{store_failure, Database, DatabaseModel};
use crate::rows::{PostFilter, PostRowModel};
use crate::error::{AppError, AppErrorModel, ErrorKind};
use crate::outside::{json_string_list, parse_categories};
use crate::session::{get_my_user_id, Session, SessionModel};
use crate::structs::{
    DeleteResponse, DeleteResponseModel, NewPost, NewPostForm, NewPostFormModel, NewPostModel, Post,
    PostModel, PostType,
};
use crate::text::{decimal_text, join3, number_text};

verus! {

/// What a listing returns, as mathematical values.
pub open spec fn listed(r: Result<Vec<Post>, AppError>) -> Result<Seq<PostModel>, AppErrorModel> {
    match r {
        Ok(posts) => Ok(post_models(posts@)),
        Err(e) => Err(e@),
    }
}

/// What an operation on one post returns, as mathematical values.
pub open spec fn shown(r: Result<Post, AppError>) -> Result<PostModel, AppErrorModel> {
    match r {
        Ok(post) => Ok(post@),
        Err(e) => Err(e@),
    }
}

/// What a deletion returns, as mathematical values.
pub open spec fn removed(r: Result<DeleteResponse, AppError>) -> Result<
    DeleteResponseModel,
    AppErrorModel,
> {
    match r {
        Ok(answer) => Ok(answer@),
        Err(e) => Err(e@),
    }
}

/// The listings that are open to a caller whom the session names.
#[derive(Clone, Copy, Debug, PartialEq, Eq, Structural)]
pub enum Listing {
    /// The caller's own posts.
    MyPosts,
    /// The caller's own offers.
    MyOffers,
    /// The caller's own requests.
    MyRequests,
    /// The posts of all users.
    CommunityPosts,
    /// The offers of all users.
    CommunityOffers,
    /// The requests of all users.
    CommunityRequests,
}

impl Listing {
    /// The posts that the listing covers for the given caller. A listing of
    /// the caller's own posts is scoped to the caller; a listing of the
    /// community covers the posts of all users.
    pub open spec fn covers(self, caller: i32) -> PostFilter {
        match self {
            Listing::MyPosts => PostFilter { owner: Some(caller), post_type: None },
            Listing::MyOffers => PostFilter {
                owner: Some(caller),
                post_type: Some(PostType::Offer),
            },
            Listing::MyRequests => PostFilter {
                owner: Some(caller),
                post_type: Some(PostType::Request),
            },
            Listing::CommunityPosts => PostFilter { owner: None, post_type: None },
            Listing::CommunityOffers => PostFilter {
                owner: None,
                post_type: Some(PostType::Offer),
            },
            Listing::CommunityRequests => PostFilter {
                owner: None,
                post_type: Some(PostType::Request),
            },
        }
    }

    /// The posts that the listing covers for the given caller.
    pub fn filter(&self, caller: i32) -> (r: PostFilter)
        ensures
            r == self.covers(caller),
    {
        match self {
            Listing::MyPosts => PostFilter { owner: Some(caller), post_type: None },
            Listing::MyOffers => PostFilter {
                owner: Some(caller),
                post_type: Some(PostType::Offer),
            },
            Listing::MyRequests => PostFilter {
                owner: Some(caller),
                post_type: Some(PostType::Request),
            },
            Listing::CommunityPosts => PostFilter { owner: None, post_type: None },
            Listing::CommunityOffers => PostFilter {
                owner: None,
                post_type: Some(PostType::Offer),
            },
            Listing::CommunityRequests => PostFilter {
                owner: None,
                post_type: Some(PostType::Request),
            },
        }
    }
}

/// The posts of one user, whoever asks.
pub fn posts_of(user_id: i32) -> (r: PostFilter)
    ensures
        r == (PostFilter { owner: Some(user_id), post_type: None }),
{
    PostFilter { owner: Some(user_id), post_type: None }
}

/// What a listing asks of the store: the posts that it covers for the user
/// whom the session names, or `Unauthenticated` where the session names
/// none. The listings of the community need a session too, whoever it names.
pub open spec fn scope_of(listing: Listing, session: SessionModel) -> Result<
    PostFilter,
    AppErrorModel,
> {
    match session.identity() {
        Some(caller) => Ok(listing.covers(caller)),
        None => Err(AppErrorModel::unauthenticated()),
    }
}

/// What a listing asks of the store, as mathematical values.
pub open spec fn scoped(r: Result<PostFilter, AppError>) -> Result<PostFilter, AppErrorModel> {
    match r {
        Ok(filter) => Ok(filter),
        Err(e) => Err(e@),
    }
}

/// What a listing asks of the store for the caller whom the session names.
pub fn listing_scope(listing: Listing, session: &Session) -> (r: Result<PostFilter, AppError>)
    ensures
        scoped(r) == scope_of(listing, session@),
{
    let caller = get_my_user_id(session)?;
    Ok(listing.filter(caller))
}

/// What a listing answers that is open to the caller only: the posts that
/// the rows show, where the session names a user; else `Unauthenticated`.
pub open spec fn listing_for(session: SessionModel, rows: spec_fn(i32) -> Seq<PostRowModel>)
    -> Result<Seq<PostModel>, AppErrorModel> {
    match session.identity() {
        Some(user_id) => Ok(composed_all(rows(user_id))),
        None => Err(AppErrorModel::unauthenticated()),
    }
}

/// The posts of a listing, as they are shown, for the caller whom the
/// session names.
pub fn list_posts(db: &Database, session: &Session, listing: Listing) -> (r: Result<
    Vec<Post>,
    AppError,
>)
    requires
        db.wf(),
    ensures
        listed(r) == listing_for(session@, |caller: i32| db@.select(listing.covers(caller))),
{
    let filter = listing_scope(listing, session)?;
    Ok(Post::from_rows(db.select(filter)))
}

/// The caller's own posts, the newest first. Needs a session that names a
/// user.
pub fn list_my_posts(db: &Database, session: &Session) -> (r: Result<Vec<Post>, AppError>)
    requires
        db.wf(),
    ensures
        listed(r) == listing_for(session@, |user_id: i32| db@.list_by_owner(user_id)),
{
    list_posts(db, session, Listing::MyPosts)
}

/// The posts of the user with the given identifier, the newest first. Open
/// to everyone who knows the identifier: no session is asked for.
pub fn list_user_posts(db: &Database, user_id: i32) -> (r: Result<Vec<Post>, AppError>)
    requires
        db.wf(),
    ensures
        listed(r) == Ok::<Seq<PostModel>, AppErrorModel>(composed_all(db@.list_by_owner(user_id))),
{
    Ok(Post::from_rows(db.select(posts_of(user_id))))
}

/// The caller's own offers, the oldest first. Needs a session that names a
/// user.
pub fn list_offers(db: &Database, session: &Session) -> (r: Result<Vec<Post>, AppError>)
    requires
        db.wf(),
    ensures
        listed(r) == listing_for(
            session@,
            |user_id: i32| db@.list_by_owner_and_type(user_id, PostType::Offer),
        ),
{
    list_posts(db, session, Listing::MyOffers)
}

/// The caller's own requests, the oldest first. Needs a session that names
/// a user.
pub fn list_requests(db: &Database, session: &Session) -> (r: Result<Vec<Post>, AppError>)
    requires
        db.wf(),
    ensures
        listed(r) == listing_for(
            session@,
            |user_id: i32| db@.list_by_owner_and_type(user_id, PostType::Request),
        ),
{
    list_posts(db, session, Listing::MyRequests)
}

/// The posts of all users, the newest first. Needs a session that names a
/// user, whoever it is.
pub fn list_community_posts(db: &Database, session: &Session) -> (r: Result<Vec<Post>, AppError>)
    requires
        db.wf(),
    ensures
        listed(r) == listing_for(session@, |user_id: i32| db@.list_community()),
{
    list_posts(db, session, Listing::CommunityPosts)
}

/// The offers of all users, the newest first. Needs a session that names a
/// user, whoever it is.
pub fn list_community_offers(db: &Database, session: &Session) -> (r: Result<Vec<Post>, AppError>)
    requires
        db.wf(),
    ensures
        listed(r) == listing_for(
            session@,
            |user_id: i32| db@.list_community_by_type(PostType::Offer),
        ),
{
    list_posts(db, session, Listing::CommunityOffers)
}

/// The requests of all users, the newest first. Needs a session that names
/// a user, whoever it is.
pub fn list_community_requests(db: &Database, session: &Session) -> (r: Result<
    Vec<Post>,
    AppError,
>)
    requires
        db.wf(),
    ensures
        listed(r) == listing_for(
            session@,
            |user_id: i32| db@.list_community_by_type(PostType::Request),
        ),
{
    list_posts(db, session, Listing::CommunityRequests)
}

/// The post that a form asks for, once its categories are read.
pub open spec fn form_content(form: NewPostFormModel, categories: Seq<Seq<char>>) -> NewPostModel {
    NewPostModel {
        description: form.description,
        categories,
        post_type: form.post_type,
        pin_code: form.pin_code,
    }
}

/// The store and the answer after the given user stores a post: where the
/// store takes it, the store holds it under the next identifier, and the
/// answer shows it with the owner's name and picture; where not, the store
/// is as before and the answer is the store's failure.
pub open spec fn post_stored(db: DatabaseModel, user_id: i32, post: NewPostModel) -> (
    DatabaseModel,
    Result<PostModel, AppErrorModel>,
) {
    if db.can_store_post(user_id) {
        let record = db.post_for(user_id, post);
        let after = db.with_post(record);
        (after, Ok(created(record, post.post_type, shown_owner(after.find_user(user_id)))))
    } else {
        (db, Err(store_failure()))
    }
}

/// The store and the answer after `create_post`. Without a user in the
/// session nothing is stored and the failure is `Unauthenticated`; with
/// categories that are no JSON array of strings nothing is stored and the
/// failure is `BadInput`; else the post is stored for the session's user.
pub open spec fn post_created(db: DatabaseModel, session: SessionModel, form: NewPostFormModel)
    -> (DatabaseModel, Result<PostModel, AppErrorModel>) {
    match post_prepared(session, form) {
        Err(e) => (db, Err(e)),
        Ok((user_id, post)) => post_stored(db, user_id, post),
    }
}

/// What is stored for a form, and for whom: the post with its categories
/// read, for the user whom the session names. Without a user in the session
/// the failure is `Unauthenticated`, whatever the form holds; with
/// categories that are no JSON array of strings it is `BadInput`.
pub open spec fn post_prepared(session: SessionModel, form: NewPostFormModel) -> Result<
    (i32, NewPostModel),
    AppErrorModel,
> {
    match session.identity() {
        None => Err(AppErrorModel::unauthenticated()),
        Some(user_id) => match json_string_list(form.categories) {
            None => Err(AppErrorModel::bad_categories()),
            Some(categories) => Ok((user_id, form_content(form, categories))),
        },
    }
}

/// What is stored for a form, as mathematical values.
pub open spec fn prepared(r: Result<(i32, NewPost), AppError>) -> Result<
    (i32, NewPostModel),
    AppErrorModel,
> {
    match r {
        Ok((user_id, post)) => Ok((user_id, post@)),
        Err(e) => Err(e@),
    }
}

/// Decides, before anything is stored, what is stored for a form and for
/// whom: resolves the caller and reads the categories.
pub fn prepare_post(session: &Session, form: NewPostForm) -> (r: Result<(i32, NewPost), AppError>)
    ensures
        prepared(r) == post_prepared(session@, form@),
{
    let user_id = get_my_user_id(session)?;
    let categories = parse_categories(form.categories.as_str())?;
    Ok(
        (
            user_id,
            NewPost {
                description: form.description,
                categories,
                post_type: form.post_type,
                pin_code: form.pin_code,
            },
        ),
    )
}

/// Stores a post, whose categories are already read, for the given user,
/// and shows it as created.
pub fn store_post(db: &mut Database, user_id: i32, post: NewPost) -> (r: Result<Post, AppError>)
    requires
        old(db).wf(),
    ensures
        final(db).wf(),
        (final(db)@, shown(r)) == post_stored(old(db)@, user_id, post@),
{
    let post_type = post.post_type;
    let record = db.create(user_id, post)?;
    let owner = match db.find_user_by_id(user_id) {
        Some(user) => Some(user.profile()),
        None => None,
    };
    Ok(Post::from_created(record, post_type, owner))
}

/// Creates a post for the session's user from a form whose categories are
/// the JSON text of an array of strings.
pub fn create_post(db: &mut Database, session: &Session, form: NewPostForm) -> (r: Result<
    Post,
    AppError,
>)
    requires
        old(db).wf(),
    ensures
        final(db).wf(),
        (final(db)@, shown(r)) == post_created(old(db)@, session@, form@),
{
    let (user_id, post) = prepare_post(session, form)?;
    store_post(db, user_id, post)
}

/// The message of a deletion that took place.
pub open spec fn deleted_message(id: i32) -> Seq<char> {
    "Post with id "@ + decimal_text(id as int) + " deleted successfully."@
}

/// The message of a deletion that found no post of the caller.
pub open spec fn not_deleted_message(id: i32) -> Seq<char> {
    "Post with id "@ + decimal_text(id as int) + " not found for deletion."@
}

/// The message of an update that found no post of the caller.
pub open spec fn not_updated_message(id: i32) -> Seq<char> {
    "Post with id "@ + decimal_text(id as int) + " not found for update."@
}

/// What a deletion answers that touched the given number of rows: success
/// where it touched any, `NotFound` where it touched none.
pub open spec fn deletion(id: i32, affected: u64) -> Result<DeleteResponseModel, AppErrorModel> {
    if affected > 0 {
        Ok(DeleteResponseModel { success: true, id, message: deleted_message(id) })
    } else {
        Err(AppErrorModel::not_found(not_deleted_message(id)))
    }
}

/// What an update answers that touched the given number of rows: the post
/// as it was sent where it touched any, `NotFound` where it touched none.
pub open spec fn revision(post: PostModel, affected: u64) -> Result<PostModel, AppErrorModel> {
    if affected > 0 {
        Ok(post)
    } else {
        Err(AppErrorModel::not_found(not_updated_message(post.id)))
    }
}

/// The answer to a deletion, given how many rows the store says it touched.
/// No touched row is never a silent success: it is `NotFound`.
pub fn deletion_outcome(id: i32, affected: u64) -> (r: Result<DeleteResponse, AppError>)
    ensures
        removed(r) == deletion(id, affected),
{
    let number = number_text(id);
    if affected > 0 {
        Ok(
            DeleteResponse {
                success: true,
                id,
                message: join3("Post with id ", number.as_str(), " deleted successfully."),
            },
        )
    } else {
        Err(
            AppError {
                kind: ErrorKind::NotFound,
                message: join3("Post with id ", number.as_str(), " not found for deletion."),
            },
        )
    }
}

/// The answer to an update, given how many rows the store says it touched.
/// No touched row is never a silent success: it is `NotFound`.
pub fn update_outcome(post: Post, affected: u64) -> (r: Result<Post, AppError>)
    ensures
        shown(r) == revision(post@, affected),
{
    if affected > 0 {
        Ok(post)
    } else {
        let number = number_text(post.id);
        Err(
            AppError {
                kind: ErrorKind::NotFound,
                message: join3("Post with id ", number.as_str(), " not found for update."),
            },
        )
    }
}

/// The store and the answer after `delete_post`. Without a user in the
/// session nothing changes and the failure is `Unauthenticated`; else the
/// post is removed if the session's user owns it, and `NotFound` is the
/// answer for a post of another owner as for one that does not exist.
pub open spec fn post_deleted(db: DatabaseModel, session: SessionModel, id: i32) -> (
    DatabaseModel,
    Result<DeleteResponseModel, AppErrorModel>,
) {
    match session.identity() {
        None => (db, Err(AppErrorModel::unauthenticated())),
        Some(user_id) => (db.deleted(id, user_id), deletion(id, db.affected(id, user_id))),
    }
}

/// The store and the answer after `update_post`. Without a user in the
/// session nothing changes and the failure is `Unauthenticated`; else the
/// post is changed if the session's user owns it, and `NotFound` is the
/// answer for a post of another owner as for one that does not exist.
pub open spec fn post_updated(db: DatabaseModel, session: SessionModel, post: PostModel) -> (
    DatabaseModel,
    Result<PostModel, AppErrorModel>,
) {
    match session.identity() {
        None => (db, Err(AppErrorModel::unauthenticated())),
        Some(user_id) => (
            db.updated(post, user_id),
            revision(post, db.affected(post.id, user_id)),
        ),
    }
}

/// Deletes the post with the given identifier on behalf of the session's
/// user. Only the owner of a post can delete it.
pub fn delete_post(db: &mut Database, session: &Session, id: i32) -> (r: Result<
    DeleteResponse,
    AppError,
>)
    requires
        old(db).wf(),
    ensures
        final(db).wf(),
        (final(db)@, removed(r)) == post_deleted(old(db)@, session@, id),
{
    let user_id = get_my_user_id(session)?;
    let affected = db.delete(id, user_id);
    deletion_outcome(id, affected)
}

/// Gives the stored post with the given post's identifier the given post's
/// description, categories, type and PIN, on behalf of the session's user,
/// and returns the post as it was sent. Only the owner of a post can change
/// it; its identifier and owner never change.
pub fn update_post(db: &mut Database, session: &Session, post: Post) -> (r: Result<Post, AppError>)
    requires
        old(db).wf(),
    ensures
        final(db).wf(),
        (final(db)@, shown(r)) == post_updated(old(db)@, session@, post@),
{
    let user_id = get_my_user_id(session)?;
    let affected = db.update(&post, user_id);
    update_outcome(post, affected)
}

} // verus!
