use vstd::prelude::*;
use vstd::string::*;
use crate::text::{copy_opt_text, copy_texts, opt_text, owned, texts};

verus! {

/// Whether a post offers something or asks for something.
#[derive(Clone, Copy, Debug, PartialEq, Eq, Structural)]
pub enum PostType {
    Offer,
    Request,
}

impl PostType {
    /// The lower-case tag under which the type is stored and sent.
    pub open spec fn tag(self) -> Seq<char> {
        match self {
            PostType::Offer => "offer"@,
            PostType::Request => "request"@,
        }
    }

    /// The type that a stored tag stands for. Any tag other than `offer`
    /// reads as a request, also one that is neither.
    pub open spec fn of_tag(tag: Seq<char>) -> PostType {
        if tag == "offer"@ {
            PostType::Offer
        } else {
            PostType::Request
        }
    }

    /// The tag of the type as a string: `offer` or `request`.
    pub fn to_string(&self) -> (r: String)
        ensures
            r@ == self.tag(),
    {
        match self {
            PostType::Offer => owned("offer"),
            PostType::Request => owned("request"),
        }
    }

    /// Reads a stored tag. Unknown tags fall back to `Request`.
    pub fn from_tag(tag: &str) -> (r: PostType)
        ensures
            r == PostType::of_tag(tag@),
    {
        if owned(tag) == owned("offer") {
            PostType::Offer
        } else {
            PostType::Request
        }
    }
}

/// Reading back the tag of a type gives the type.
pub proof fn lemma_tag_round_trip(post_type: PostType)
    ensures
        PostType::of_tag(post_type.tag()) == post_type,
        post_type.tag() == "offer"@ <==> post_type == PostType::Offer,
        post_type.tag() == "request"@ <==> post_type == PostType::Request,
{
    reveal_strlit("offer");
    reveal_strlit("request");
    assert("offer"@.len() == 5);
    assert("request"@.len() == 7);
}

/// A post as it is shown: the stored post with its owner's display name and
/// profile picture.
#[derive(Debug)]
pub struct Post {
    pub id: i32,
    pub description: String,
    pub categories: Vec<String>,
    pub user_id: i32,
    pub post_type: PostType,
    pub pin_code: Option<String>,
    pub user_name: Option<String>,
    pub profile_picture: Option<String>,
}

/// What a `Post` holds, as mathematical values.
pub struct PostModel {
    pub id: i32,
    pub description: Seq<char>,
    pub categories: Seq<Seq<char>>,
    pub user_id: i32,
    pub post_type: PostType,
    pub pin_code: Option<Seq<char>>,
    pub user_name: Option<Seq<char>>,
    pub profile_picture: Option<Seq<char>>,
}

impl View for Post {
    type V = PostModel;

    open spec fn view(&self) -> PostModel {
        PostModel {
            id: self.id,
            description: self.description@,
            categories: texts(self.categories@),
            user_id: self.user_id,
            post_type: self.post_type,
            pin_code: opt_text(self.pin_code),
            user_name: opt_text(self.user_name),
            profile_picture: opt_text(self.profile_picture),
        }
    }
}

impl Clone for Post {
    fn clone(&self) -> (r: Self)
        ensures
            r@ == self@,
    {
        Post {
            id: self.id,
            description: self.description.clone(),
            categories: copy_texts(&self.categories),
            user_id: self.user_id,
            post_type: self.post_type,
            pin_code: copy_opt_text(&self.pin_code),
            user_name: copy_opt_text(&self.user_name),
            profile_picture: copy_opt_text(&self.profile_picture),
        }
    }
}

/// The content of a post to be created, categories already parsed.
#[derive(Debug)]
pub struct NewPost {
    pub description: String,
    pub categories: Vec<String>,
    pub post_type: PostType,
    pub pin_code: Option<String>,
}

/// What a `NewPost` holds, as mathematical values.
pub struct NewPostModel {
    pub description: Seq<char>,
    pub categories: Seq<Seq<char>>,
    pub post_type: PostType,
    pub pin_code: Option<Seq<char>>,
}

impl View for NewPost {
    type V = NewPostModel;

    open spec fn view(&self) -> NewPostModel {
        NewPostModel {
            description: self.description@,
            categories: texts(self.categories@),
            post_type: self.post_type,
            pin_code: opt_text(self.pin_code),
        }
    }
}

impl Clone for NewPost {
    fn clone(&self) -> (r: Self)
        ensures
            r@ == self@,
    {
        NewPost {
            description: self.description.clone(),
            categories: copy_texts(&self.categories),
            post_type: self.post_type,
            pin_code: copy_opt_text(&self.pin_code),
        }
    }
}

/// The content of a post as a form sends it: the categories are still one
/// string, the JSON text of an array of strings.
#[derive(Debug)]
pub struct NewPostForm {
    pub description: String,
    pub categories: String,
    pub post_type: PostType,
    pub pin_code: Option<String>,
}

/// What a `NewPostForm` holds, as mathematical values.
pub struct NewPostFormModel {
    pub description: Seq<char>,
    pub categories: Seq<char>,
    pub post_type: PostType,
    pub pin_code: Option<Seq<char>>,
}

impl View for NewPostForm {
    type V = NewPostFormModel;

    open spec fn view(&self) -> NewPostFormModel {
        NewPostFormModel {
            description: self.description@,
            categories: self.categories@,
            post_type: self.post_type,
            pin_code: opt_text(self.pin_code),
        }
    }
}

impl Clone for NewPostForm {
    fn clone(&self) -> (r: Self)
        ensures
            r@ == self@,
    {
        NewPostForm {
            description: self.description.clone(),
            categories: self.categories.clone(),
            post_type: self.post_type,
            pin_code: copy_opt_text(&self.pin_code),
        }
    }
}

/// The answer to a deletion that took place.
#[derive(Debug)]
pub struct DeleteResponse {
    pub success: bool,
    pub id: i32,
    pub message: String,
}

/// What a `DeleteResponse` holds, as mathematical values.
pub struct DeleteResponseModel {
    pub success: bool,
    pub id: i32,
    pub message: Seq<char>,
}

impl View for DeleteResponse {
    type V = DeleteResponseModel;

    open spec fn view(&self) -> DeleteResponseModel {
        DeleteResponseModel { success: self.success, id: self.id, message: self.message@ }
    }
}

impl Clone for DeleteResponse {
    fn clone(&self) -> (r: Self)
        ensures
            r@ == self@,
    {
        DeleteResponse { success: self.success, id: self.id, message: self.message.clone() }
    }
}

/// A user as the credential store keeps it. `created_at` counts the
/// microseconds since the Unix epoch.
#[derive(Debug)]
pub struct User {
    pub id: i32,
    pub email: String,
    pub password_hash: String,
    pub created_at: i64,
    pub pin_code: Option<String>,
    pub name: Option<String>,
    pub profile_picture: Option<String>,
}

/// What a `User` holds, as mathematical values.
pub struct UserModel {
    pub id: i32,
    pub email: Seq<char>,
    pub password_hash: Seq<char>,
    pub created_at: i64,
    pub pin_code: Option<Seq<char>>,
    pub name: Option<Seq<char>>,
    pub profile_picture: Option<Seq<char>>,
}

impl UserModel {
    /// What of a user may be shown: everything but the password hash and the
    /// time of creation.
    pub open spec fn profile(self) -> UserProfileModel {
        UserProfileModel {
            id: self.id,
            email: self.email,
            name: self.name,
            pin_code: self.pin_code,
            profile_picture: self.profile_picture,
        }
    }
}

impl View for User {
    type V = UserModel;

    open spec fn view(&self) -> UserModel {
        UserModel {
            id: self.id,
            email: self.email@,
            password_hash: self.password_hash@,
            created_at: self.created_at,
            pin_code: opt_text(self.pin_code),
            name: opt_text(self.name),
            profile_picture: opt_text(self.profile_picture),
        }
    }
}

impl Clone for User {
    fn clone(&self) -> (r: Self)
        ensures
            r@ == self@,
    {
        User {
            id: self.id,
            email: self.email.clone(),
            password_hash: self.password_hash.clone(),
            created_at: self.created_at,
            pin_code: copy_opt_text(&self.pin_code),
            name: copy_opt_text(&self.name),
            profile_picture: copy_opt_text(&self.profile_picture),
        }
    }
}

impl User {
    /// The profile of the user: the record without its password hash.
    pub fn profile(&self) -> (r: UserProfile)
        ensures
            r@ == self@.profile(),
    {
        UserProfile {
            id: self.id,
            email: self.email.clone(),
            name: copy_opt_text(&self.name),
            pin_code: copy_opt_text(&self.pin_code),
            profile_picture: copy_opt_text(&self.profile_picture),
        }
    }
}

/// What an optional user holds, as mathematical values.
pub open spec fn opt_user(user: Option<User>) -> Option<UserModel> {
    match user {
        Some(u) => Some(u@),
        None => None,
    }
}

/// What of a user is shown to clients. It never holds the password hash.
#[derive(Debug)]
pub struct UserProfile {
    pub id: i32,
    pub email: String,
    pub name: Option<String>,
    pub pin_code: Option<String>,
    pub profile_picture: Option<String>,
}

/// What a `UserProfile` holds, as mathematical values.
pub struct UserProfileModel {
    pub id: i32,
    pub email: Seq<char>,
    pub name: Option<Seq<char>>,
    pub pin_code: Option<Seq<char>>,
    pub profile_picture: Option<Seq<char>>,
}

impl View for UserProfile {
    type V = UserProfileModel;

    open spec fn view(&self) -> UserProfileModel {
        UserProfileModel {
            id: self.id,
            email: self.email@,
            name: opt_text(self.name),
            pin_code: opt_text(self.pin_code),
            profile_picture: opt_text(self.profile_picture),
        }
    }
}

impl Clone for UserProfile {
    fn clone(&self) -> (r: Self)
        ensures
            r@ == self@,
    {
        UserProfile {
            id: self.id,
            email: self.email.clone(),
            name: copy_opt_text(&self.name),
            pin_code: copy_opt_text(&self.pin_code),
            profile_picture: copy_opt_text(&self.profile_picture),
        }
    }
}

/// A registration as a form sends it. `profile_picture` is the image itself,
/// in whatever encoding the image host takes.
#[derive(Debug)]
pub struct NewUser {
    pub email: String,
    pub password: String,
    pub name: Option<String>,
    pub pin_code: Option<String>,
    pub profile_picture: Option<String>,
}

/// What a `NewUser` holds, as mathematical values.
pub struct NewUserModel {
    pub email: Seq<char>,
    pub password: Seq<char>,
    pub name: Option<Seq<char>>,
    pub pin_code: Option<Seq<char>>,
    pub profile_picture: Option<Seq<char>>,
}

impl View for NewUser {
    type V = NewUserModel;

    open spec fn view(&self) -> NewUserModel {
        NewUserModel {
            email: self.email@,
            password: self.password@,
            name: opt_text(self.name),
            pin_code: opt_text(self.pin_code),
            profile_picture: opt_text(self.profile_picture),
        }
    }
}

impl Clone for NewUser {
    fn clone(&self) -> (r: Self)
        ensures
            r@ == self@,
    {
        NewUser {
            email: self.email.clone(),
            password: self.password.clone(),
            name: copy_opt_text(&self.name),
            pin_code: copy_opt_text(&self.pin_code),
            profile_picture: copy_opt_text(&self.profile_picture),
        }
    }
}

/// The credentials of a login.
#[derive(Debug)]
pub struct LoginRequest {
    pub email: String,
    pub password: String,
}

/// What a `LoginRequest` holds, as mathematical values.
pub struct LoginRequestModel {
    pub email: Seq<char>,
    pub password: Seq<char>,
}

impl View for LoginRequest {
    type V = LoginRequestModel;

    open spec fn view(&self) -> LoginRequestModel {
        LoginRequestModel { email: self.email@, password: self.password@ }
    }
}

impl Clone for LoginRequest {
    fn clone(&self) -> (r: Self)
        ensures
            r@ == self@,
    {
        LoginRequest { email: self.email.clone(), password: self.password.clone() }
    }
}

/// The answer of the operations on identity. A refusal that the client
/// caused is an answer with `success` false, not an error.
#[derive(Debug)]
pub struct AuthResponse {
    pub success: bool,
    pub message: String,
    pub user_id: Option<i32>,
}

/// What an `AuthResponse` holds, as mathematical values.
pub struct AuthResponseModel {
    pub success: bool,
    pub message: Seq<char>,
    pub user_id: Option<i32>,
}

impl AuthResponseModel {
    /// The answer that refuses with the given message.
    pub open spec fn refusal(message: Seq<char>) -> AuthResponseModel {
        AuthResponseModel { success: false, message, user_id: None }
    }

    /// The answer that accepts the given user with the given message.
    pub open spec fn welcome(message: Seq<char>, user_id: i32) -> AuthResponseModel {
        AuthResponseModel { success: true, message, user_id: Some(user_id) }
    }
}

impl View for AuthResponse {
    type V = AuthResponseModel;

    open spec fn view(&self) -> AuthResponseModel {
        AuthResponseModel { success: self.success, message: self.message@, user_id: self.user_id }
    }
}

impl Clone for AuthResponse {
    fn clone(&self) -> (r: Self)
        ensures
            r@ == self@,
    {
        AuthResponse { success: self.success, message: self.message.clone(), user_id: self.user_id }
    }
}

impl AuthResponse {
    /// The answer that refuses with the given message.
    pub fn refusal(message: &str) -> (r: AuthResponse)
        ensures
            r@ == AuthResponseModel::refusal(message@),
    {
        AuthResponse { success: false, message: owned(message), user_id: None }
    }

    /// The answer that accepts the given user with the given message.
    pub fn welcome(message: &str, user_id: i32) -> (r: AuthResponse)
        ensures
            r@ == AuthResponseModel::welcome(message@, user_id),
    {
        AuthResponse { success: true, message: owned(message), user_id: Some(user_id) }
    }
}

/// A new profile picture as a form sends it: the image itself.
#[derive(Debug)]
pub struct ProfilePictureUpdate {
    pub profile_picture: String,
}

/// What a `ProfilePictureUpdate` holds, as mathematical values.
pub struct ProfilePictureUpdateModel {
    pub profile_picture: Seq<char>,
}

impl View for ProfilePictureUpdate {
    type V = ProfilePictureUpdateModel;

    open spec fn view(&self) -> ProfilePictureUpdateModel {
        ProfilePictureUpdateModel { profile_picture: self.profile_picture@ }
    }
}

impl Clone for ProfilePictureUpdate {
    fn clone(&self) -> (r: Self)
        ensures
            r@ == self@,
    {
        ProfilePictureUpdate { profile_picture: self.profile_picture.clone() }
    }
}

} // verus!
