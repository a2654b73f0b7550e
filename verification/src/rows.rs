use vstd::prelude::*;
use crate::structs::{PostType, UserModel};
use crate::text::{copy_opt_text, copy_texts, opt_text, texts};

verus! {

/// A post as the store keeps it. The type is kept as its tag, so a row may
/// carry a tag that is neither `offer` nor `request`.
#[derive(Debug)]
pub struct PostRecord {
    pub id: i32,
    pub description: String,
    pub categories: Vec<String>,
    pub user_id: i32,
    pub post_type: String,
    pub pin_code: Option<String>,
}

/// What a `PostRecord` holds, as mathematical values.
pub struct PostRecordModel {
    pub id: i32,
    pub description: Seq<char>,
    pub categories: Seq<Seq<char>>,
    pub user_id: i32,
    pub post_type: Seq<char>,
    pub pin_code: Option<Seq<char>>,
}

impl View for PostRecord {
    type V = PostRecordModel;

    open spec fn view(&self) -> PostRecordModel {
        PostRecordModel {
            id: self.id,
            description: self.description@,
            categories: texts(self.categories@),
            user_id: self.user_id,
            post_type: self.post_type@,
            pin_code: opt_text(self.pin_code),
        }
    }
}

impl Clone for PostRecord {
    fn clone(&self) -> (r: Self)
        ensures
            r@ == self@,
    {
        PostRecord {
            id: self.id,
            description: self.description.clone(),
            categories: copy_texts(&self.categories),
            user_id: self.user_id,
            post_type: self.post_type.clone(),
            pin_code: copy_opt_text(&self.pin_code),
        }
    }
}

/// A stored post together with what the store knows of its owner: the row
/// that every listing returns. The owner's fields are absent where the
/// owner's record is.
#[derive(Debug)]
pub struct PostRow {
    pub id: i32,
    pub description: String,
    pub categories: Vec<String>,
    pub user_id: i32,
    pub post_type: String,
    pub pin_code: Option<String>,
    pub user_name: Option<String>,
    pub profile_picture: Option<String>,
}

/// What a `PostRow` holds, as mathematical values.
pub struct PostRowModel {
    pub id: i32,
    pub description: Seq<char>,
    pub categories: Seq<Seq<char>>,
    pub user_id: i32,
    pub post_type: Seq<char>,
    pub pin_code: Option<Seq<char>>,
    pub user_name: Option<Seq<char>>,
    pub profile_picture: Option<Seq<char>>,
}

impl View for PostRow {
    type V = PostRowModel;

    open spec fn view(&self) -> PostRowModel {
        PostRowModel {
            id: self.id,
            description: self.description@,
            categories: texts(self.categories@),
            user_id: self.user_id,
            post_type: self.post_type@,
            pin_code: opt_text(self.pin_code),
            user_name: opt_text(self.user_name),
            profile_picture: opt_text(self.profile_picture),
        }
    }
}

impl Clone for PostRow {
    fn clone(&self) -> (r: Self)
        ensures
            r@ == self@,
    {
        PostRow {
            id: self.id,
            description: self.description.clone(),
            categories: copy_texts(&self.categories),
            user_id: self.user_id,
            post_type: self.post_type.clone(),
            pin_code: copy_opt_text(&self.pin_code),
            user_name: copy_opt_text(&self.user_name),
            profile_picture: copy_opt_text(&self.profile_picture),
        }
    }
}

/// A stored post next to its owner's record, as a left join gives it: where
/// there is no owner, the owner's fields are absent and the row stands.
pub open spec fn joined(post: PostRecordModel, owner: Option<UserModel>) -> PostRowModel {
    PostRowModel {
        id: post.id,
        description: post.description,
        categories: post.categories,
        user_id: post.user_id,
        post_type: post.post_type,
        pin_code: post.pin_code,
        user_name: match owner {
            Some(user) => user.name,
            None => None,
        },
        profile_picture: match owner {
            Some(user) => user.profile_picture,
            None => None,
        },
    }
}

/// The order in which a listing comes.
#[derive(Clone, Copy, Debug, PartialEq, Eq, Structural)]
pub enum Order {
    /// Descending by identifier.
    NewestFirst,
    /// Ascending by identifier.
    OldestFirst,
}

/// Which posts a listing asks for: those of one owner or of all, of one type
/// or of both.
#[derive(Clone, Copy, Debug)]
pub struct PostFilter {
    pub owner: Option<i32>,
    pub post_type: Option<PostType>,
}

impl PostFilter {
    /// The order that goes with the filter. The posts of one owner and one
    /// type are for going through and come the oldest first; every other
    /// listing shows what is recent and comes the newest first.
    pub open spec fn ordering(self) -> Order {
        if self.owner is Some && self.post_type is Some {
            Order::OldestFirst
        } else {
            Order::NewestFirst
        }
    }

    /// The order that goes with the filter.
    pub fn order(&self) -> (r: Order)
        ensures
            r == self.ordering(),
    {
        if self.owner.is_some() && self.post_type.is_some() {
            Order::OldestFirst
        } else {
            Order::NewestFirst
        }
    }

    /// Whether a post of the given owner, stored under the given tag, is
    /// asked for. A type is matched by its exact tag.
    pub open spec fn accepts(self, user_id: i32, tag: Seq<char>) -> bool {
        &&& self.owner matches Some(owner) ==> user_id == owner
        &&& self.post_type matches Some(post_type) ==> tag == post_type.tag()
    }

    /// The same test on a row.
    pub open spec fn keeps(self) -> spec_fn(PostRowModel) -> bool {
        |row: PostRowModel| self.accepts(row.user_id, row.post_type)
    }
}

/// Of rows in ascending order, those that pass a test, last row first.
pub open spec fn newest_first<R>(rows: Seq<R>, keep: spec_fn(R) -> bool) -> Seq<R>
    decreases rows.len(),
{
    if rows.len() == 0 {
        Seq::empty()
    } else if keep(rows.last()) {
        seq![rows.last()] + newest_first(rows.drop_last(), keep)
    } else {
        newest_first(rows.drop_last(), keep)
    }
}

/// Of rows in ascending order, those that pass a test, first row first.
pub open spec fn oldest_first<R>(rows: Seq<R>, keep: spec_fn(R) -> bool) -> Seq<R>
    decreases rows.len(),
{
    if rows.len() == 0 {
        Seq::empty()
    } else if keep(rows.last()) {
        oldest_first(rows.drop_last(), keep).push(rows.last())
    } else {
        oldest_first(rows.drop_last(), keep)
    }
}

/// The views of a list of stored posts.
pub open spec fn record_models(posts: Seq<PostRecord>) -> Seq<PostRecordModel> {
    Seq::new(posts.len(), |i: int| posts[i]@)
}

/// The views of a list of rows.
pub open spec fn row_models(rows: Seq<PostRow>) -> Seq<PostRowModel> {
    Seq::new(rows.len(), |i: int| rows[i]@)
}

} // verus!
