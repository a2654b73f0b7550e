use vstd::prelude::*;
use crate::error::{AppError, AppErrorModel};
use crate::structs::{
    opt_user, NewPost, NewPostModel, Post, PostModel, PostType, User, UserModel, UserProfile,
};
use crate::rows::{
    joined, newest_first, oldest_first, record_models, row_models, Order, PostFilter, PostRecord,
    PostRecordModel, PostRow, PostRowModel,
};
use crate::text::{copy_opt_text, copy_texts, opt_text};

verus! {

/// The message of every failure of the store.
pub open spec fn store_failure() -> AppErrorModel {
    AppErrorModel::upstream("Database error"@)
}

/// Whether the user at the given place of a list has the given identifier.
pub open spec fn user_stands_at(users: Seq<UserModel>, i: int, id: i32) -> bool {
    0 <= i < users.len() && users[i].id == id
}

/// Whether the user at the given place of a list has the given email.
pub open spec fn email_stands_at(users: Seq<UserModel>, i: int, email: Seq<char>) -> bool {
    0 <= i < users.len() && users[i].email == email
}

/// Whether the post at the given place of a list has the given identifier
/// and the given owner.
pub open spec fn owned_post_stands_at(posts: Seq<PostRecordModel>, i: int, id: i32, owner: i32)
    -> bool {
    0 <= i < posts.len() && posts[i].id == id && posts[i].user_id == owner
}

/// The user of a list with the given identifier.
pub open spec fn user_with_id(users: Seq<UserModel>, id: i32) -> Option<UserModel> {
    if exists|i: int| user_stands_at(users, i, id) {
        Some(users[choose|i: int| user_stands_at(users, i, id)])
    } else {
        None
    }
}

/// The user of a list with the given email.
pub open spec fn user_with_email(users: Seq<UserModel>, email: Seq<char>) -> Option<UserModel> {
    if exists|i: int| email_stands_at(users, i, email) {
        Some(users[choose|i: int| email_stands_at(users, i, email)])
    } else {
        None
    }
}

/// The place in a list of the post with the given identifier and owner.
pub open spec fn owned_post_place(posts: Seq<PostRecordModel>, id: i32, owner: i32) -> Option<int> {
    if exists|i: int| owned_post_stands_at(posts, i, id, owner) {
        Some(choose|i: int| owned_post_stands_at(posts, i, id, owner))
    } else {
        None
    }
}

/// What the store holds, as mathematical values: the users and the posts,
/// each in the order of their identifiers, the identifiers that the next
/// user and the next post will get, and the time on the store's clock, in
/// microseconds since the Unix epoch.
pub struct DatabaseModel {
    pub users: Seq<UserModel>,
    pub posts: Seq<PostRecordModel>,
    pub next_user_id: i32,
    pub next_post_id: i32,
    pub now: i64,
}

impl DatabaseModel {
    /// What the store keeps true: identifiers are positive, below the next
    /// one to be given, and ascending, so none occurs twice; and no two
    /// users share an email.
    pub open spec fn wf(self) -> bool {
        &&& 1 <= self.next_user_id
        &&& 1 <= self.next_post_id
        &&& forall|i: int|
            0 <= i < self.users.len() ==> 1 <= (#[trigger] self.users[i]).id < self.next_user_id
        &&& forall|i: int, j: int|
            0 <= i < j < self.users.len() ==> (#[trigger] self.users[i]).id < (
            #[trigger] self.users[j]).id
        &&& forall|i: int, j: int|
            0 <= i < j < self.users.len() ==> (#[trigger] self.users[i]).email != (
            #[trigger] self.users[j]).email
        &&& forall|i: int|
            0 <= i < self.posts.len() ==> 1 <= (#[trigger] self.posts[i]).id < self.next_post_id
        &&& forall|i: int, j: int|
            0 <= i < j < self.posts.len() ==> (#[trigger] self.posts[i]).id < (
            #[trigger] self.posts[j]).id
    }

    /// The store that holds nothing.
    pub open spec fn empty() -> DatabaseModel {
        DatabaseModel {
            users: Seq::empty(),
            posts: Seq::empty(),
            next_user_id: 1,
            next_post_id: 1,
            now: 0,
        }
    }

    /// The user with the given identifier.
    pub open spec fn find_user(self, id: i32) -> Option<UserModel> {
        user_with_id(self.users, id)
    }

    /// The user with the given email.
    pub open spec fn find_email(self, email: Seq<char>) -> Option<UserModel> {
        user_with_email(self.users, email)
    }

    /// The place of the post with the given identifier, if the given user
    /// owns it. A post of another owner is as absent as one that does not
    /// exist.
    pub open spec fn find_owned_post(self, id: i32, owner: i32) -> Option<int> {
        owned_post_place(self.posts, id, owner)
    }

    /// Every post joined with its owner's record, in ascending order of the
    /// posts' identifiers.
    pub open spec fn rows(self) -> Seq<PostRowModel> {
        Seq::new(
            self.posts.len(),
            |i: int| joined(self.posts[i], self.find_user(self.posts[i].user_id)),
        )
    }

    /// The rows that a filter asks for, in the order that goes with it.
    pub open spec fn select(self, filter: PostFilter) -> Seq<PostRowModel> {
        match filter.ordering() {
            Order::NewestFirst => newest_first(self.rows(), filter.keeps()),
            Order::OldestFirst => oldest_first(self.rows(), filter.keeps()),
        }
    }

    /// The posts of one owner, the newest first.
    pub open spec fn list_by_owner(self, user_id: i32) -> Seq<PostRowModel> {
        newest_first(self.rows(), (PostFilter { owner: Some(user_id), post_type: None }).keeps())
    }

    /// The posts of one owner and one type, the oldest first.
    pub open spec fn list_by_owner_and_type(self, user_id: i32, post_type: PostType) -> Seq<
        PostRowModel,
    > {
        oldest_first(
            self.rows(),
            (PostFilter { owner: Some(user_id), post_type: Some(post_type) }).keeps(),
        )
    }

    /// All posts, the newest first.
    pub open spec fn list_community(self) -> Seq<PostRowModel> {
        newest_first(self.rows(), (PostFilter { owner: None, post_type: None }).keeps())
    }

    /// All posts of one type, the newest first.
    pub open spec fn list_community_by_type(self, post_type: PostType) -> Seq<PostRowModel> {
        newest_first(self.rows(), (PostFilter { owner: None, post_type: Some(post_type) }).keeps())
    }

    /// Whether a user with the given email can be added: the email is free
    /// and an identifier is left.
    pub open spec fn can_store_user(self, email: Seq<char>) -> bool {
        self.find_email(email) is None && self.next_user_id < i32::MAX
    }

    /// The record that a new user gets: the next identifier, and the time
    /// on the store's clock as the time of creation.
    pub open spec fn user_for(
        self,
        email: Seq<char>,
        password_hash: Seq<char>,
        name: Option<Seq<char>>,
        pin_code: Option<Seq<char>>,
        profile_picture: Option<Seq<char>>,
    ) -> UserModel {
        UserModel {
            id: self.next_user_id,
            email,
            password_hash,
            created_at: self.now,
            pin_code,
            name,
            profile_picture,
        }
    }

    /// The store with one more user, who got the next identifier.
    pub open spec fn with_user(self, user: UserModel) -> DatabaseModel {
        DatabaseModel {
            users: self.users.push(user),
            next_user_id: (self.next_user_id + 1) as i32,
            ..self
        }
    }

    /// The store in which the user at the given place has the given profile
    /// picture.
    pub open spec fn with_picture(self, i: int, url: Seq<char>) -> DatabaseModel {
        DatabaseModel {
            users: self.users.update(
                i,
                UserModel { profile_picture: Some(url), ..self.users[i] },
            ),
            ..self
        }
    }

    /// The store after the user with the given identifier got the given
    /// profile picture: as before where there is no such user.
    pub open spec fn with_picture_of(self, user_id: i32, url: Seq<char>) -> DatabaseModel {
        if exists|i: int| user_stands_at(self.users, i, user_id) {
            self.with_picture(choose|i: int| user_stands_at(self.users, i, user_id), url)
        } else {
            self
        }
    }

    /// Whether a post of the given owner can be added: the owner exists and
    /// an identifier is left.
    pub open spec fn can_store_post(self, owner: i32) -> bool {
        self.find_user(owner) is Some && self.next_post_id < i32::MAX
    }

    /// The record that a new post of the given owner gets.
    pub open spec fn post_for(self, owner: i32, post: NewPostModel) -> PostRecordModel {
        PostRecordModel {
            id: self.next_post_id,
            description: post.description,
            categories: post.categories,
            user_id: owner,
            post_type: post.post_type.tag(),
            pin_code: post.pin_code,
        }
    }

    /// The store with one more post, which got the next identifier.
    pub open spec fn with_post(self, post: PostRecordModel) -> DatabaseModel {
        DatabaseModel {
            posts: self.posts.push(post),
            next_post_id: (self.next_post_id + 1) as i32,
            ..self
        }
    }

    /// The store in which the post at the given place has the content of
    /// the given post. Identifier and owner stay.
    pub open spec fn with_post_changed(self, i: int, post: PostModel) -> DatabaseModel {
        DatabaseModel {
            posts: self.posts.update(
                i,
                PostRecordModel {
                    description: post.description,
                    categories: post.categories,
                    post_type: post.post_type.tag(),
                    pin_code: post.pin_code,
                    ..self.posts[i]
                },
            ),
            ..self
        }
    }

    /// The store without the post at the given place.
    pub open spec fn without_post(self, i: int) -> DatabaseModel {
        DatabaseModel { posts: self.posts.remove(i), ..self }
    }

    /// The store after an update of the post with the given post's
    /// identifier on behalf of the given user: changed where that user owns
    /// the post, and as before where not.
    pub open spec fn updated(self, post: PostModel, owner: i32) -> DatabaseModel {
        match self.find_owned_post(post.id, owner) {
            Some(i) => self.with_post_changed(i, post),
            None => self,
        }
    }

    /// The store after a deletion of the post with the given identifier on
    /// behalf of the given user: without it where that user owns the post,
    /// and as before where not.
    pub open spec fn deleted(self, id: i32, owner: i32) -> DatabaseModel {
        match self.find_owned_post(id, owner) {
            Some(i) => self.without_post(i),
            None => self,
        }
    }

    /// How many rows an update or a deletion of the given post on behalf of
    /// the given user touches: one where that user owns the post, else none.
    pub open spec fn affected(self, id: i32, owner: i32) -> u64 {
        if self.find_owned_post(id, owner) is Some {
            1
        } else {
            0
        }
    }
}

/// The store that holds the given users and posts and nothing else: the
/// next identifiers follow the last that are in use, and the clock stands at
/// zero.
pub open spec fn restored(users: Seq<UserModel>, posts: Seq<PostRecordModel>) -> DatabaseModel {
    DatabaseModel {
        users,
        posts,
        next_user_id: if users.len() == 0 {
            1
        } else {
            (users.last().id + 1) as i32
        },
        next_post_id: if posts.len() == 0 {
            1
        } else {
            (posts.last().id + 1) as i32
        },
        now: 0,
    }
}

/// Whether a store can hold exactly the given users and posts: the
/// identifiers of each list are positive and ascending, the greatest
/// possible identifier is not in use, and no two users share an email.
pub open spec fn restorable(users: Seq<UserModel>, posts: Seq<PostRecordModel>) -> bool {
    &&& forall|i: int| 0 <= i < users.len() ==> 1 <= (#[trigger] users[i]).id < i32::MAX
    &&& forall|i: int, j: int|
        0 <= i < j < users.len() ==> (#[trigger] users[i]).id < (#[trigger] users[j]).id
    &&& forall|i: int, j: int|
        0 <= i < j < users.len() ==> (#[trigger] users[i]).email != (#[trigger] users[j]).email
    &&& forall|i: int| 0 <= i < posts.len() ==> 1 <= (#[trigger] posts[i]).id < i32::MAX
    &&& forall|i: int, j: int|
        0 <= i < j < posts.len() ==> (#[trigger] posts[i]).id < (#[trigger] posts[j]).id
}

/// The views of a list of users.
pub open spec fn user_models(users: Seq<User>) -> Seq<UserModel> {
    Seq::new(users.len(), |i: int| users[i]@)
}

/// The store of users and posts, held in memory. It stands for the
/// relational store: it gives out identifiers, keeps emails unique, refuses
/// a post whose owner it does not know, and changes or deletes a post only
/// for its owner.
#[derive(Debug)]
pub struct Database {
    users: Vec<User>,
    posts: Vec<PostRecord>,
    next_user_id: i32,
    next_post_id: i32,
    now: i64,
}

impl View for Database {
    type V = DatabaseModel;

    closed spec fn view(&self) -> DatabaseModel {
        DatabaseModel {
            users: user_models(self.users@),
            posts: record_models(self.posts@),
            next_user_id: self.next_user_id,
            next_post_id: self.next_post_id,
            now: self.now,
        }
    }
}

impl Database {
    /// Whether the store is in order.
    pub open spec fn wf(&self) -> bool {
        self@.wf()
    }

    /// A store that holds nothing. The first user and the first post will
    /// get the identifier 1.
    pub fn new() -> (r: Database)
        ensures
            r.wf(),
            r@ == DatabaseModel::empty(),
    {
        let r = Database {
            users: Vec::new(),
            posts: Vec::new(),
            next_user_id: 1,
            next_post_id: 1,
            now: 0,
        };
        assert(r@.users =~= Seq::empty());
        assert(r@.posts =~= Seq::empty());
        r
    }

    /// Whether the identifiers of the users are positive, ascending and
    /// below the greatest possible one.
    fn users_in_order(users: &Vec<User>) -> (r: bool)
        ensures
            r == {
                let models = user_models(users@);
                &&& forall|i: int| 0 <= i < models.len() ==> 1 <= (#[trigger] models[i]).id < i32::MAX
                &&& forall|i: int, j: int|
                    0 <= i < j < models.len() ==> (#[trigger] models[i]).id < (
                    #[trigger] models[j]).id
            },
    {
        let ghost models = user_models(users@);
        let mut k: usize = 0;
        while k < users.len()
            invariant
                k <= users.len(),
                models == user_models(users@),
                forall|i: int| 0 <= i < k ==> 1 <= (#[trigger] models[i]).id < i32::MAX,
                forall|i: int, j: int|
                    0 <= i < j < k ==> (#[trigger] models[i]).id < (#[trigger] models[j]).id,
            decreases users.len() - k,
        {
            let id: i32 = users[k].id;
            if id < 1 || id == i32::MAX {
                assert(!(1 <= models[k as int].id < i32::MAX));
                return false;
            }
            if k > 0 && users[k - 1].id >= id {
                assert(!(models[k - 1].id < models[k as int].id));
                return false;
            }
            proof {
                assert forall|i: int, j: int| 0 <= i < j < k + 1 implies (#[trigger] models[i]).id
                    < (#[trigger] models[j]).id by {
                    if j == k && i < k - 1 {
                        assert(models[i].id < models[k - 1].id);
                    }
                }
            }
            k = k + 1;
        }
        true
    }

    /// Whether the identifiers of the posts are positive, ascending and
    /// below the greatest possible one.
    fn posts_in_order(posts: &Vec<PostRecord>) -> (r: bool)
        ensures
            r == {
                let models = record_models(posts@);
                &&& forall|i: int| 0 <= i < models.len() ==> 1 <= (#[trigger] models[i]).id < i32::MAX
                &&& forall|i: int, j: int|
                    0 <= i < j < models.len() ==> (#[trigger] models[i]).id < (
                    #[trigger] models[j]).id
            },
    {
        let ghost models = record_models(posts@);
        let mut k: usize = 0;
        while k < posts.len()
            invariant
                k <= posts.len(),
                models == record_models(posts@),
                forall|i: int| 0 <= i < k ==> 1 <= (#[trigger] models[i]).id < i32::MAX,
                forall|i: int, j: int|
                    0 <= i < j < k ==> (#[trigger] models[i]).id < (#[trigger] models[j]).id,
            decreases posts.len() - k,
        {
            let id: i32 = posts[k].id;
            if id < 1 || id == i32::MAX {
                assert(!(1 <= models[k as int].id < i32::MAX));
                return false;
            }
            if k > 0 && posts[k - 1].id >= id {
                assert(!(models[k - 1].id < models[k as int].id));
                return false;
            }
            proof {
                assert forall|i: int, j: int| 0 <= i < j < k + 1 implies (#[trigger] models[i]).id
                    < (#[trigger] models[j]).id by {
                    if j == k && i < k - 1 {
                        assert(models[i].id < models[k - 1].id);
                    }
                }
            }
            k = k + 1;
        }
        true
    }

    /// Whether no two of the users share an email.
    fn emails_differ(users: &Vec<User>) -> (r: bool)
        ensures
            r == {
                let models = user_models(users@);
                forall|i: int, j: int|
                    0 <= i < j < models.len() ==> (#[trigger] models[i]).email != (
                    #[trigger] models[j]).email
            },
    {
        let ghost models = user_models(users@);
        let mut k: usize = 0;
        while k < users.len()
            invariant
                k <= users.len(),
                models == user_models(users@),
                forall|i: int, j: int|
                    0 <= i < j < k ==> (#[trigger] models[i]).email != (#[trigger] models[j]).email,
            decreases users.len() - k,
        {
            let mut m: usize = 0;
            while m < k
                invariant
                    m <= k,
                    k < users.len(),
                    models == user_models(users@),
                    forall|i: int| 0 <= i < m ==> (#[trigger] models[i]).email != models[k as int].email,
                decreases k - m,
            {
                if users[m].email == users[k].email {
                    assert(models[m as int].email == models[k as int].email);
                    return false;
                }
                m = m + 1;
            }
            k = k + 1;
        }
        true
    }

    /// A store that holds exactly the given users and posts, where there
    /// can be such a store. The posts need not have an owner among the
    /// users, and may carry any tag for their type.
    pub fn restore(users: Vec<User>, posts: Vec<PostRecord>) -> (r: Option<Database>)
        ensures
            match r {
                Some(db) => restorable(user_models(users@), record_models(posts@)) && db.wf()
                    && db@ == restored(user_models(users@), record_models(posts@)),
                None => !restorable(user_models(users@), record_models(posts@)),
            },
    {
        if !Database::users_in_order(&users) || !Database::emails_differ(&users)
            || !Database::posts_in_order(&posts) {
            return None;
        }
        let ghost user_list = user_models(users@);
        let ghost post_list = record_models(posts@);
        let next_user_id: i32 = if users.len() == 0 {
            1
        } else {
            assert(1 <= user_list[users.len() - 1].id < i32::MAX);
            users[users.len() - 1].id + 1
        };
        let next_post_id: i32 = if posts.len() == 0 {
            1
        } else {
            assert(1 <= post_list[posts.len() - 1].id < i32::MAX);
            posts[posts.len() - 1].id + 1
        };
        let db = Database { users, posts, next_user_id, next_post_id, now: 0 };
        proof {
            assert(db@.users =~= user_list);
            assert(db@.posts =~= post_list);
            assert forall|i: int| 0 <= i < user_list.len() implies (#[trigger] user_list[i]).id
                < db@.next_user_id by {
                if i < user_list.len() - 1 {
                    assert(user_list[i].id < user_list[user_list.len() - 1].id);
                }
            }
            assert forall|i: int| 0 <= i < post_list.len() implies (#[trigger] post_list[i]).id
                < db@.next_post_id by {
                if i < post_list.len() - 1 {
                    assert(post_list[i].id < post_list[post_list.len() - 1].id);
                }
            }
        }
        Some(db)
    }

    /// Sets the store's clock, by which it dates the users that it adds.
    pub fn set_clock(&mut self, now: i64)
        requires
            old(self).wf(),
        ensures
            final(self).wf(),
            final(self)@ == (DatabaseModel { now, ..old(self)@ }),
    {
        self.now = now;
    }

    /// The place of the user with the given identifier.
    fn user_position(&self, id: i32) -> (r: Option<usize>)
        ensures
            match r {
                Some(i) => user_stands_at(self@.users, i as int, id),
                None => forall|i: int| !user_stands_at(self@.users, i, id),
            },
    {
        let mut i: usize = 0;
        while i < self.users.len()
            invariant
                i <= self.users.len(),
                forall|k: int| 0 <= k < i ==> !user_stands_at(self@.users, k, id),
            decreases self.users.len() - i,
        {
            if self.users[i].id == id {
                return Some(i);
            }
            i = i + 1;
        }
        None
    }

    /// The place of the user with the given email.
    fn email_position(&self, email: &String) -> (r: Option<usize>)
        ensures
            match r {
                Some(i) => email_stands_at(self@.users, i as int, email@),
                None => forall|i: int| !email_stands_at(self@.users, i, email@),
            },
    {
        let mut i: usize = 0;
        while i < self.users.len()
            invariant
                i <= self.users.len(),
                forall|k: int| 0 <= k < i ==> !email_stands_at(self@.users, k, email@),
            decreases self.users.len() - i,
        {
            if self.users[i].email == *email {
                return Some(i);
            }
            i = i + 1;
        }
        None
    }

    /// The place of the post with the given identifier and owner.
    fn owned_post_position(&self, id: i32, owner: i32) -> (r: Option<usize>)
        ensures
            match r {
                Some(i) => owned_post_stands_at(self@.posts, i as int, id, owner),
                None => forall|i: int| !owned_post_stands_at(self@.posts, i, id, owner),
            },
    {
        let mut i: usize = 0;
        while i < self.posts.len()
            invariant
                i <= self.posts.len(),
                forall|k: int| 0 <= k < i ==> !owned_post_stands_at(self@.posts, k, id, owner),
            decreases self.posts.len() - i,
        {
            if self.posts[i].id == id && self.posts[i].user_id == owner {
                return Some(i);
            }
            i = i + 1;
        }
        None
    }

    /// The user with the given identifier, where there is one.
    pub fn find_user_by_id(&self, id: i32) -> (r: Option<User>)
        requires
            self.wf(),
        ensures
            opt_user(r) == self@.find_user(id),
    {
        match self.user_position(id) {
            Some(i) => {
                proof {
                    lemma_user_unique(self@, i as int, id);
                }
                Some(self.users[i].clone())
            },
            None => None,
        }
    }

    /// The user with the given email, where there is one.
    pub fn find_user_by_email(&self, email: &String) -> (r: Option<User>)
        requires
            self.wf(),
        ensures
            opt_user(r) == self@.find_email(email@),
    {
        match self.email_position(email) {
            Some(i) => {
                proof {
                    lemma_email_unique(self@, i as int, email@);
                }
                Some(self.users[i].clone())
            },
            None => None,
        }
    }

    /// Adds a user, who gets the next identifier and is dated by the
    /// store's clock. Fails, and changes nothing, exactly where the email is
    /// taken or no identifier is left.
    pub fn insert_user(
        &mut self,
        email: String,
        password_hash: String,
        name: Option<String>,
        pin_code: Option<String>,
        profile_picture: Option<String>,
    ) -> (r: Result<i32, AppError>)
        requires
            old(self).wf(),
        ensures
            final(self).wf(),
            match r {
                Ok(id) => old(self)@.can_store_user(email@) && id == old(self)@.next_user_id
                    && final(self)@ == old(self)@.with_user(
                    old(self)@.user_for(
                        email@,
                        password_hash@,
                        opt_text(name),
                        opt_text(pin_code),
                        opt_text(profile_picture),
                    ),
                ),
                Err(e) => !old(self)@.can_store_user(email@) && final(self)@ == old(self)@ && e@
                    == store_failure(),
            },
    {
        if self.next_user_id == i32::MAX {
            return Err(AppError::upstream("Database error"));
        }
        match self.email_position(&email) {
            Some(i) => {
                proof {
                    lemma_email_unique(self@, i as int, email@);
                }
                Err(AppError::upstream("Database error"))
            },
            None => {
                let id: i32 = self.next_user_id;
                let user = User {
                    id,
                    email,
                    password_hash,
                    created_at: self.now,
                    pin_code,
                    name,
                    profile_picture,
                };
                let ghost before = self@;
                self.users.push(user);
                self.next_user_id = id + 1;
                proof {
                    assert(self@.users =~= before.users.push(user@));
                    assert(self@.posts =~= before.posts);
                    assert forall|i: int, j: int| 0 <= i < j < self@.users.len() implies (
                    #[trigger] self@.users[i]).email != (#[trigger] self@.users[j]).email by {
                        if j == before.users.len() {
                            assert(!email_stands_at(before.users, i, email@));
                        }
                    }
                }
                Ok(id)
            },
        }
    }

    /// Gives the user with the given identifier a profile picture and
    /// returns the user's profile as it then is. Where there is no such
    /// user, nothing changes and nothing is returned.
    pub fn set_profile_picture(&mut self, user_id: i32, url: String) -> (r: Option<UserProfile>)
        requires
            old(self).wf(),
        ensures
            final(self).wf(),
            final(self)@ == old(self)@.with_picture_of(user_id, url@),
            match r {
                Some(profile) => old(self)@.find_user(user_id) matches Some(user) && profile@ == (
                UserModel { profile_picture: Some(url@), ..user }).profile(),
                None => old(self)@.find_user(user_id) is None,
            },
    {
        match self.user_position(user_id) {
            Some(i) => {
                let ghost before = self@;
                proof {
                    lemma_user_unique(before, i as int, user_id);
                }
                let mut user = self.users[i].clone();
                user.profile_picture = Some(url);
                let profile = user.profile();
                self.users.set(i, user);
                proof {
                    assert(self@.users =~= before.with_picture(i as int, url@).users);
                    assert(self@.posts =~= before.posts);
                }
                Some(profile)
            },
            None => None,
        }
    }

    /// The post at the given place, joined with its owner's record.
    fn row_at(&self, i: usize) -> (r: PostRow)
        requires
            self.wf(),
            i < self@.posts.len(),
        ensures
            r@ == self@.rows()[i as int],
    {
        let post = &self.posts[i];
        let owner = self.find_user_by_id(post.user_id);
        let (user_name, profile_picture) = match owner {
            Some(user) => (user.name, user.profile_picture),
            None => (None, None),
        };
        PostRow {
            id: post.id,
            description: post.description.clone(),
            categories: copy_texts(&post.categories),
            user_id: post.user_id,
            post_type: post.post_type.clone(),
            pin_code: copy_opt_text(&post.pin_code),
            user_name,
            profile_picture,
        }
    }

    /// Whether the filter asks for the post at the given place.
    fn passes(&self, i: usize, filter: &PostFilter) -> (r: bool)
        requires
            i < self@.posts.len(),
        ensures
            r == (filter.keeps())(self@.rows()[i as int]),
    {
        let post = &self.posts[i];
        let owner_fits = match filter.owner {
            Some(owner) => post.user_id == owner,
            None => true,
        };
        let type_fits = match filter.post_type {
            Some(post_type) => post.post_type == post_type.to_string(),
            None => true,
        };
        owner_fits && type_fits
    }

    /// The rows that the filter asks for, the newest first.
    fn select_newest_first(&self, filter: PostFilter) -> (r: Vec<PostRow>)
        requires
            self.wf(),
        ensures
            row_models(r@) == newest_first(self@.rows(), filter.keeps()),
    {
        let mut out: Vec<PostRow> = Vec::new();
        let mut i: usize = self.posts.len();
        let ghost rows = self@.rows();
        let ghost keep = filter.keeps();
        proof {
            assert(rows.take(i as int) =~= rows);
            assert(row_models(out@) =~= Seq::empty());
            assert(Seq::<PostRowModel>::empty() + newest_first(rows, keep) =~= newest_first(
                rows,
                keep,
            ));
        }
        while i > 0
            invariant
                self.wf(),
                i <= self@.posts.len(),
                rows == self@.rows(),
                keep == filter.keeps(),
                row_models(out@) + newest_first(rows.take(i as int), keep) == newest_first(
                    rows,
                    keep,
                ),
            decreases i,
        {
            i = i - 1;
            let ghost before = row_models(out@);
            proof {
                let head = rows.take(i as int + 1);
                assert(head.last() == rows[i as int]);
                assert(head.drop_last() =~= rows.take(i as int));
            }
            if self.passes(i, &filter) {
                let row = self.row_at(i);
                out.push(row);
                proof {
                    assert(row_models(out@) =~= before + seq![rows[i as int]]);
                    assert(row_models(out@) + newest_first(rows.take(i as int), keep) =~= before
                        + newest_first(rows.take(i as int + 1), keep));
                }
            }
        }
        proof {
            assert(row_models(out@) + Seq::<PostRowModel>::empty() =~= row_models(out@));
        }
        out
    }

    /// The rows that the filter asks for, the oldest first.
    fn select_oldest_first(&self, filter: PostFilter) -> (r: Vec<PostRow>)
        requires
            self.wf(),
        ensures
            row_models(r@) == oldest_first(self@.rows(), filter.keeps()),
    {
        let mut out: Vec<PostRow> = Vec::new();
        let mut i: usize = 0;
        let ghost rows = self@.rows();
        let ghost keep = filter.keeps();
        proof {
            assert(row_models(out@) =~= Seq::empty());
        }
        while i < self.posts.len()
            invariant
                self.wf(),
                i <= self@.posts.len(),
                self@.posts.len() == self.posts.len(),
                rows == self@.rows(),
                keep == filter.keeps(),
                row_models(out@) == oldest_first(rows.take(i as int), keep),
            decreases self.posts.len() - i,
        {
            let ghost before = row_models(out@);
            proof {
                let head = rows.take(i as int + 1);
                assert(head.last() == rows[i as int]);
                assert(head.drop_last() =~= rows.take(i as int));
            }
            if self.passes(i, &filter) {
                let row = self.row_at(i);
                out.push(row);
                proof {
                    assert(row_models(out@) =~= before.push(rows[i as int]));
                }
            }
            i = i + 1;
        }
        proof {
            assert(rows.take(i as int) =~= rows);
        }
        out
    }

    /// The rows that the filter asks for, in the order that goes with it.
    pub fn select(&self, filter: PostFilter) -> (r: Vec<PostRow>)
        requires
            self.wf(),
        ensures
            row_models(r@) == self@.select(filter),
    {
        match filter.order() {
            Order::NewestFirst => self.select_newest_first(filter),
            Order::OldestFirst => self.select_oldest_first(filter),
        }
    }

    /// The posts of one owner, the newest first.
    pub fn list_by_owner(&self, user_id: i32) -> (r: Vec<PostRow>)
        requires
            self.wf(),
        ensures
            row_models(r@) == self@.list_by_owner(user_id),
    {
        self.select(PostFilter { owner: Some(user_id), post_type: None })
    }

    /// The posts of one owner and one type, the oldest first.
    pub fn list_by_owner_and_type(&self, user_id: i32, post_type: PostType) -> (r: Vec<PostRow>)
        requires
            self.wf(),
        ensures
            row_models(r@) == self@.list_by_owner_and_type(user_id, post_type),
    {
        self.select(PostFilter { owner: Some(user_id), post_type: Some(post_type) })
    }

    /// All posts, the newest first.
    pub fn list_community(&self) -> (r: Vec<PostRow>)
        requires
            self.wf(),
        ensures
            row_models(r@) == self@.list_community(),
    {
        self.select(PostFilter { owner: None, post_type: None })
    }

    /// All posts of one type, the newest first.
    pub fn list_community_by_type(&self, post_type: PostType) -> (r: Vec<PostRow>)
        requires
            self.wf(),
        ensures
            row_models(r@) == self@.list_community_by_type(post_type),
    {
        self.select(PostFilter { owner: None, post_type: Some(post_type) })
    }

    /// Adds a post of the given owner, which gets the next identifier, and
    /// returns it as stored. Fails, and changes nothing, exactly where the
    /// store knows no such owner or no identifier is left.
    pub fn create(&mut self, owner_id: i32, post: NewPost) -> (r: Result<PostRecord, AppError>)
        requires
            old(self).wf(),
        ensures
            final(self).wf(),
            match r {
                Ok(record) => old(self)@.can_store_post(owner_id) && record@ == old(
                    self,
                )@.post_for(owner_id, post@) && final(self)@ == old(self)@.with_post(record@),
                Err(e) => !old(self)@.can_store_post(owner_id) && final(self)@ == old(self)@ && e@
                    == store_failure(),
            },
    {
        if self.next_post_id == i32::MAX {
            return Err(AppError::upstream("Database error"));
        }
        match self.user_position(owner_id) {
            None => Err(AppError::upstream("Database error")),
            Some(_) => {
                let id: i32 = self.next_post_id;
                let record = PostRecord {
                    id,
                    description: post.description,
                    categories: post.categories,
                    user_id: owner_id,
                    post_type: post.post_type.to_string(),
                    pin_code: post.pin_code,
                };
                let stored = record.clone();
                let ghost before = self@;
                self.posts.push(record);
                self.next_post_id = id + 1;
                proof {
                    assert(self@.posts =~= before.posts.push(stored@));
                    assert(self@.users =~= before.users);
                }
                Ok(stored)
            },
        }
    }

    /// Gives the post with the given post's identifier the given post's
    /// description, categories, type and PIN, if the given user owns it, and
    /// says how many rows that touched: one, or none where no post has both
    /// that identifier and that owner.
    pub fn update(&mut self, post: &Post, owner_id: i32) -> (r: u64)
        requires
            old(self).wf(),
        ensures
            final(self).wf(),
            r == old(self)@.affected(post.id, owner_id),
            final(self)@ == old(self)@.updated(post@, owner_id),
    {
        match self.owned_post_position(post.id, owner_id) {
            Some(i) => {
                let ghost before = self@;
                proof {
                    lemma_post_unique(before, i as int, post.id, owner_id);
                }
                let record = PostRecord {
                    id: self.posts[i].id,
                    description: post.description.clone(),
                    categories: copy_texts(&post.categories),
                    user_id: self.posts[i].user_id,
                    post_type: post.post_type.to_string(),
                    pin_code: copy_opt_text(&post.pin_code),
                };
                self.posts.set(i, record);
                proof {
                    assert(self@.posts =~= before.with_post_changed(i as int, post@).posts);
                    assert(self@.users =~= before.users);
                }
                1
            },
            None => 0,
        }
    }

    /// Removes the post with the given identifier, if the given user owns
    /// it, and says how many rows that touched: one, or none where no post
    /// has both that identifier and that owner.
    pub fn delete(&mut self, id: i32, owner_id: i32) -> (r: u64)
        requires
            old(self).wf(),
        ensures
            final(self).wf(),
            r == old(self)@.affected(id, owner_id),
            final(self)@ == old(self)@.deleted(id, owner_id),
    {
        match self.owned_post_position(id, owner_id) {
            Some(i) => {
                let ghost before = self@;
                proof {
                    lemma_post_unique(before, i as int, id, owner_id);
                }
                self.posts.remove(i);
                proof {
                    assert(self@.posts =~= before.posts.remove(i as int));
                    assert(self@.users =~= before.users);
                }
                1
            },
            None => 0,
        }
    }
}

/// In a store that is in order, the user with a given identifier stands at
/// one place only.
pub proof fn lemma_user_unique(db: DatabaseModel, i: int, id: i32)
    requires
        db.wf(),
        user_stands_at(db.users, i, id),
    ensures
        db.find_user(id) == Some(db.users[i]),
        forall|j: int| user_stands_at(db.users, j, id) ==> j == i,
{
    assert forall|j: int| user_stands_at(db.users, j, id) implies j == i by {
        if j < i {
            assert(db.users[j].id < db.users[i].id);
        }
        if i < j {
            assert(db.users[i].id < db.users[j].id);
        }
    }
}

/// In a store that is in order, the user with a given email stands at one
/// place only.
pub proof fn lemma_email_unique(db: DatabaseModel, i: int, email: Seq<char>)
    requires
        db.wf(),
        email_stands_at(db.users, i, email),
    ensures
        db.find_email(email) == Some(db.users[i]),
        forall|j: int| email_stands_at(db.users, j, email) ==> j == i,
{
    assert forall|j: int| email_stands_at(db.users, j, email) implies j == i by {
        if j < i {
            assert(db.users[j].email != db.users[i].email);
        }
        if i < j {
            assert(db.users[i].email != db.users[j].email);
        }
    }
}

/// A user that the store takes leaves it in order, and is then the user
/// that it finds under the user's email and under the user's identifier.
/// Every user that it held before it still finds.
pub proof fn lemma_stored_user_is_found(db: DatabaseModel, user: UserModel)
    requires
        db.wf(),
        db.can_store_user(user.email),
        user.id == db.next_user_id,
    ensures
        db.with_user(user).wf(),
        db.with_user(user).find_email(user.email) == Some(user),
        db.with_user(user).find_user(user.id) == Some(user),
        forall|id: i32| db.find_user(id) is Some ==> db.with_user(user).find_user(id) == db.find_user(id),
{
    let after = db.with_user(user);
    let place = db.users.len() as int;
    assert(after.users[place] == user);
    assert forall|i: int, j: int| 0 <= i < j < after.users.len() implies (
    #[trigger] after.users[i]).email != (#[trigger] after.users[j]).email by {
        if j == place {
            assert(!email_stands_at(db.users, i, user.email));
        } else {
            assert(db.users[i].email != db.users[j].email);
        }
    }
    assert forall|i: int, j: int| 0 <= i < j < after.users.len() implies (
    #[trigger] after.users[i]).id < (#[trigger] after.users[j]).id by {
        if j == place {
            assert(db.users[i].id < db.next_user_id);
        } else {
            assert(db.users[i].id < db.users[j].id);
        }
    }
    assert forall|i: int| 0 <= i < after.users.len() implies 1 <= (#[trigger] after.users[i]).id
        < after.next_user_id by {
        if i < place {
            assert(1 <= db.users[i].id < db.next_user_id);
        }
    }
    assert forall|i: int| 0 <= i < after.posts.len() implies 1 <= (#[trigger] after.posts[i]).id
        < after.next_post_id by {
        assert(1 <= db.posts[i].id < db.next_post_id);
    }
    assert(email_stands_at(after.users, place, user.email));
    lemma_email_unique(after, place, user.email);
    assert(user_stands_at(after.users, place, user.id));
    lemma_user_unique(after, place, user.id);
    assert forall|id: i32| db.find_user(id) is Some implies after.find_user(id) == db.find_user(
        id,
    ) by {
        let i = choose|i: int| user_stands_at(db.users, i, id);
        lemma_user_unique(db, i, id);
        assert(user_stands_at(after.users, i, id));
        lemma_user_unique(after, i, id);
    }
}

/// In a store that is in order, the post with a given identifier stands at
/// one place only.
pub proof fn lemma_post_unique(db: DatabaseModel, i: int, id: i32, owner: i32)
    requires
        db.wf(),
        owned_post_stands_at(db.posts, i, id, owner),
    ensures
        db.find_owned_post(id, owner) == Some(i),
        forall|j: int| 0 <= j < db.posts.len() && db.posts[j].id == id ==> j == i,
{
    assert forall|j: int| 0 <= j < db.posts.len() && db.posts[j].id == id implies j == i by {
        if j < i {
            assert(db.posts[j].id < db.posts[i].id);
        }
        if i < j {
            assert(db.posts[i].id < db.posts[j].id);
        }
    }
}

} // verus!
