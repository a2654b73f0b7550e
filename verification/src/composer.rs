use vstd::prelude::*;
use crate::rows::{row_models, PostRecord, PostRecordModel, PostRow, PostRowModel};
use crate::structs::{Post, PostModel, PostType, UserModel, UserProfile, UserProfileModel};

verus! {

/// The post that a row shows: every field as it is stored, and the type
/// that the stored tag stands for, which is `Request` for any tag but
/// `offer`.
pub open spec fn composed(row: PostRowModel) -> PostModel {
    PostModel {
        id: row.id,
        description: row.description,
        categories: row.categories,
        user_id: row.user_id,
        post_type: PostType::of_tag(row.post_type),
        pin_code: row.pin_code,
        user_name: row.user_name,
        profile_picture: row.profile_picture,
    }
}

/// The posts that rows show, in the rows' order.
pub open spec fn composed_all(rows: Seq<PostRowModel>) -> Seq<PostModel> {
    Seq::new(rows.len(), |i: int| composed(rows[i]))
}

/// The views of a list of posts.
pub open spec fn post_models(posts: Seq<Post>) -> Seq<PostModel> {
    Seq::new(posts.len(), |i: int| posts[i]@)
}

/// The profile of a user, where there is a user.
pub open spec fn shown_owner(owner: Option<UserModel>) -> Option<UserProfileModel> {
    match owner {
        Some(user) => Some(user.profile()),
        None => None,
    }
}

/// What an optional profile holds, as mathematical values.
pub open spec fn opt_profile(profile: Option<UserProfile>) -> Option<UserProfileModel> {
    match profile {
        Some(p) => Some(p@),
        None => None,
    }
}

/// The post that is shown for a post just stored: the stored fields, the
/// type that was asked for, and the owner's name and picture as the owner's
/// profile has them. Where the profile could not be read, the two are
/// absent.
pub open spec fn created(
    record: PostRecordModel,
    post_type: PostType,
    owner: Option<UserProfileModel>,
) -> PostModel {
    PostModel {
        id: record.id,
        description: record.description,
        categories: record.categories,
        user_id: record.user_id,
        post_type,
        pin_code: record.pin_code,
        user_name: match owner {
            Some(profile) => profile.name,
            None => None,
        },
        profile_picture: match owner {
            Some(profile) => profile.profile_picture,
            None => None,
        },
    }
}

impl Post {
    /// The post that a row shows.
    pub fn from_row(row: PostRow) -> (r: Post)
        ensures
            r@ == composed(row@),
    {
        let post_type = PostType::from_tag(row.post_type.as_str());
        Post {
            id: row.id,
            description: row.description,
            categories: row.categories,
            user_id: row.user_id,
            post_type,
            pin_code: row.pin_code,
            user_name: row.user_name,
            profile_picture: row.profile_picture,
        }
    }

    /// The posts that rows show, in the rows' order.
    pub fn from_rows(rows: Vec<PostRow>) -> (r: Vec<Post>)
        ensures
            post_models(r@) == composed_all(row_models(rows@)),
    {
        let mut out: Vec<Post> = Vec::new();
        let mut i: usize = 0;
        while i < rows.len()
            invariant
                i <= rows.len(),
                out@.len() == i,
                forall|k: int| 0 <= k < i ==> out@[k]@ == composed(rows@[k]@),
            decreases rows.len() - i,
        {
            out.push(Post::from_row(rows[i].clone()));
            i = i + 1;
        }
        assert(post_models(out@) =~= composed_all(row_models(rows@)));
        out
    }

    /// The post that is shown for a post just stored. The owner's profile
    /// is read after the post is stored; where that reading gave nothing,
    /// the post is shown all the same, without the owner's name and picture.
    pub fn from_created(record: PostRecord, post_type: PostType, owner: Option<UserProfile>) -> (r:
        Post)
        ensures
            r@ == created(record@, post_type, opt_profile(owner)),
    {
        let (user_name, profile_picture) = match owner {
            Some(profile) => (profile.name, profile.profile_picture),
            None => (None, None),
        };
        Post {
            id: record.id,
            description: record.description,
            categories: record.categories,
            user_id: record.user_id,
            post_type,
            pin_code: record.pin_code,
            user_name,
            profile_picture,
        }
    }
}

} // verus!
