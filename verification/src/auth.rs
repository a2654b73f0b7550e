use vstd::prelude::*;
use vstd::string::*;
use crate::database::{lemma_stored_user_is_found, store_failure, Database, DatabaseModel};
use crate::error::{AppError, AppErrorModel};
use crate::images::{ImageHost, ImageHostModel};
use crate::outside::{hash_password, password_check, uuid_v4, verify_password};
use crate::session::{established, get_my_user_id, Session, SessionModel};
use crate::structs::{
    AuthResponse, AuthResponseModel, LoginRequest, LoginRequestModel, NewUser, NewUserModel,
    ProfilePictureUpdate, ProfilePictureUpdateModel, UserModel, UserProfile, UserProfileModel,
};
use crate::text::{blank, decimal_text, has_char, is_blank, join2, number_text, opt_text};

verus! {

/// What an operation on identity returns, as mathematical values.
pub open spec fn answered(r: Result<AuthResponse, AppError>) -> Result<
    AuthResponseModel,
    AppErrorModel,
> {
    match r {
        Ok(answer) => Ok(answer@),
        Err(e) => Err(e@),
    }
}

/// What an operation on a profile returns, as mathematical values.
pub open spec fn profiled(r: Result<UserProfile, AppError>) -> Result<
    UserProfileModel,
    AppErrorModel,
> {
    match r {
        Ok(profile) => Ok(profile@),
        Err(e) => Err(e@),
    }
}

/// What an optional answer holds, as mathematical values.
pub open spec fn opt_answer(r: Option<AuthResponse>) -> Option<AuthResponseModel> {
    match r {
        Some(answer) => Some(answer@),
        None => None,
    }
}

/// How many bytes a password fills, which is the length that counts.
pub open spec fn password_length(password: Seq<char>) -> nat {
    vstd::utf8::encode_utf8(password).len()
}

/// What is wrong with a registration by its form alone, as the message to
/// send: an email that is empty or has no `@`, then a password of under six
/// bytes, then a name that is given but blank. Nothing where all is well.
pub open spec fn registration_flaw(user: NewUserModel) -> Option<Seq<char>> {
    if !user.email.contains('@') || user.email.len() == 0 {
        Some("Invalid email format"@)
    } else if password_length(user.password) < 6 {
        Some("Password must be at least 6 characters long"@)
    } else if user.name matches Some(name) && is_blank(name) {
        Some("Name cannot be empty"@)
    } else {
        None
    }
}

/// Why a registration is refused, as the message to send: for its form, or
/// because its email is registered already. Nothing where it is admitted.
pub open spec fn registration_refusal(db: DatabaseModel, user: NewUserModel) -> Option<Seq<char>> {
    match registration_flaw(user) {
        Some(message) => Some(message),
        None => if db.find_email(user.email) is Some {
            Some("Email already registered"@)
        } else {
            None
        },
    }
}

/// Checks the form of a registration. A flaw is answered with a refusal
/// that names it, never with an error.
pub fn validate_registration(new_user: &NewUser) -> (r: Option<AuthResponse>)
    ensures
        opt_answer(r) == match registration_flaw(new_user@) {
            Some(message) => Some(AuthResponseModel::refusal(message)),
            None => None,
        },
{
    if !has_char(new_user.email.as_str(), '@') || new_user.email.as_str().is_empty() {
        return Some(AuthResponse::refusal("Invalid email format"));
    }
    if new_user.password.as_str().as_bytes().len() < 6 {
        return Some(AuthResponse::refusal("Password must be at least 6 characters long"));
    }
    match &new_user.name {
        Some(name) => {
            if blank(name.as_str()) {
                return Some(AuthResponse::refusal("Name cannot be empty"));
            }
        },
        None => {},
    }
    None
}

/// The refusal of a registration whose email is registered already, where
/// the store found one; nothing where it found none.
pub fn duplicate_refusal(found: bool) -> (r: Option<AuthResponse>)
    ensures
        opt_answer(r) == if found {
            Some(AuthResponseModel::refusal("Email already registered"@))
        } else {
            None
        },
{
    if found {
        Some(AuthResponse::refusal("Email already registered"))
    } else {
        None
    }
}

/// The key under which the picture of a registration is uploaded, before
/// the user has an identifier: a fixed prefix and a token.
pub open spec fn temporary_picture_key(token: Seq<char>) -> Seq<char> {
    "profile_pictures/temp_"@ + token
}

/// The key under which the picture of a user is uploaded. It depends on
/// the user alone, so a later picture takes the place of an earlier one.
pub open spec fn user_picture_key(user_id: i32) -> Seq<char> {
    "profile_pictures/user_"@ + decimal_text(user_id as int)
}

/// The key under which the picture of a registration is uploaded.
pub fn temporary_key(token: &str) -> (r: String)
    ensures
        r@ == temporary_picture_key(token@),
{
    join2("profile_pictures/temp_", token)
}

/// A key for the picture of a registration, with a random token that was
/// not used before.
pub fn fresh_temporary_key() -> (r: String)
    ensures
        exists|token: Seq<char>| r@ == temporary_picture_key(token),
{
    let token = uuid_v4();
    temporary_key(token.as_str())
}

/// The key under which the picture of a user is uploaded.
pub fn picture_key(user_id: i32) -> (r: String)
    ensures
        r@ == user_picture_key(user_id),
{
    let number = number_text(user_id);
    join2("profile_pictures/user_", number.as_str())
}

/// The answer to a registration whose user was stored under the given
/// identifier, given whether the session could be written.
pub fn registration_answer(user_id: i32, written: bool) -> (r: Result<AuthResponse, AppError>)
    ensures
        answered(r) == established(
            written,
            AuthResponseModel::welcome("Registration successful"@, user_id),
        ),
{
    if written {
        Ok(AuthResponse::welcome("Registration successful", user_id))
    } else {
        Err(AppError::upstream("Failed to set session"))
    }
}

/// The session after an attempt to write a user to it.
pub open spec fn session_after(session: SessionModel, user_id: i32) -> SessionModel {
    if session.reachable {
        session.naming(user_id)
    } else {
        session
    }
}

/// The store, the session and the answer after an admitted registration is
/// stored with the given password hash and picture address. Where the store
/// takes the user, the user gets the next identifier, the session is
/// written, and the answer welcomes the user, or is the failure to write
/// the session; the user stays stored in either case. Where the store does
/// not take the user, nothing changes and the answer is the store's
/// failure.
pub open spec fn enrolled(
    db: DatabaseModel,
    session: SessionModel,
    user: NewUserModel,
    password_hash: Seq<char>,
    picture: Option<Seq<char>>,
) -> (DatabaseModel, SessionModel, Result<AuthResponseModel, AppErrorModel>) {
    if db.can_store_user(user.email) {
        let record = db.user_for(user.email, password_hash, user.name, user.pin_code, picture);
        (
            db.with_user(record),
            session_after(session, record.id),
            established(
                session.reachable,
                AuthResponseModel::welcome("Registration successful"@, record.id),
            ),
        )
    } else {
        (db, session, Err(store_failure()))
    }
}

/// Stores the user of an admitted registration, with the hash of the
/// password and the address of the uploaded picture, and makes the session
/// name the new user.
pub fn enroll(
    db: &mut Database,
    session: &mut Session,
    new_user: NewUser,
    password_hash: String,
    picture: Option<String>,
) -> (r: Result<AuthResponse, AppError>)
    requires
        old(db).wf(),
    ensures
        final(db).wf(),
        (final(db)@, final(session)@, answered(r)) == enrolled(
            old(db)@,
            old(session)@,
            new_user@,
            password_hash@,
            opt_text(picture),
        ),
{
    let user_id = db.insert_user(
        new_user.email,
        password_hash,
        new_user.name,
        new_user.pin_code,
        picture,
    )?;
    let written = session.insert(user_id);
    registration_answer(user_id, written)
}

/// What becomes of the credentials of a login.
#[derive(Clone, Copy, Debug, PartialEq, Eq, Structural)]
pub enum LoginVerdict {
    /// The password fits the account with this identifier.
    Accepted(i32),
    /// There is no such account, or the password does not fit it. The two
    /// are not told apart.
    Rejected,
    /// The stored hash could not be checked.
    Failed,
}

/// What becomes of a login to an account that exists, given what the check
/// of the password against its hash gave.
pub open spec fn judged(user_id: i32, check: Option<bool>) -> LoginVerdict {
    match check {
        Some(true) => LoginVerdict::Accepted(user_id),
        Some(false) => LoginVerdict::Rejected,
        None => LoginVerdict::Failed,
    }
}

/// What a login needs of an account: its identifier and its password hash.
pub open spec fn account_of(user: Option<UserModel>) -> Option<(i32, Seq<char>)> {
    match user {
        Some(u) => Some((u.id, u.password_hash)),
        None => None,
    }
}

/// An account as it is handed in, as mathematical values.
pub open spec fn opt_account(account: Option<(i32, String)>) -> Option<(i32, Seq<char>)> {
    match account {
        Some((id, hash)) => Some((id, hash@)),
        None => None,
    }
}

/// What becomes of a password for the account that the store found under
/// an email, if it found one.
pub open spec fn verdict(account: Option<(i32, Seq<char>)>, password: Seq<char>) -> LoginVerdict {
    match account {
        Some((user_id, password_hash)) => judged(user_id, password_check(password, password_hash)),
        None => LoginVerdict::Rejected,
    }
}

/// What becomes of a login to an account that exists, given what the check
/// of the password against its hash gave.
pub fn judge(user_id: i32, check: Option<bool>) -> (r: LoginVerdict)
    ensures
        r == judged(user_id, check),
{
    match check {
        Some(true) => LoginVerdict::Accepted(user_id),
        Some(false) => LoginVerdict::Rejected,
        None => LoginVerdict::Failed,
    }
}

/// What becomes of a password for the account, identifier and password
/// hash, that the store found under an email, if it found one.
pub fn judge_credentials(account: Option<(i32, String)>, password: &str) -> (r: LoginVerdict)
    ensures
        r == verdict(opt_account(account), password@),
{
    match account {
        Some((user_id, password_hash)) => judge(
            user_id,
            verify_password(password, password_hash.as_str()),
        ),
        None => LoginVerdict::Rejected,
    }
}

/// What a login answers to a verdict, given whether the session could be
/// written where the verdict asked for it. The answer to a rejection is the
/// same whatever its reason.
pub open spec fn login_answer(verdict: LoginVerdict, written: bool) -> Result<
    AuthResponseModel,
    AppErrorModel,
> {
    match verdict {
        LoginVerdict::Accepted(user_id) => established(
            written,
            AuthResponseModel::welcome("Login successful"@, user_id),
        ),
        LoginVerdict::Rejected => Ok(AuthResponseModel::refusal("Invalid credentials"@)),
        LoginVerdict::Failed => Err(AppErrorModel::upstream("Failed to verify password"@)),
    }
}

/// The session and the answer after a login that was judged as given. Only
/// an accepted login writes the session.
pub open spec fn concluded(session: SessionModel, verdict: LoginVerdict) -> (
    SessionModel,
    Result<AuthResponseModel, AppErrorModel>,
) {
    match verdict {
        LoginVerdict::Accepted(user_id) => (
            session_after(session, user_id),
            login_answer(verdict, session.reachable),
        ),
        _ => (session, login_answer(verdict, false)),
    }
}

/// The session and the answer after `login`.
pub open spec fn logged_in(db: DatabaseModel, session: SessionModel, request: LoginRequestModel)
    -> (SessionModel, Result<AuthResponseModel, AppErrorModel>) {
    concluded(session, verdict(account_of(db.find_email(request.email)), request.password))
}

/// The answer of a login to a verdict, given whether the session could be
/// written where the verdict asked for it.
pub fn answer_login(verdict: LoginVerdict, written: bool) -> (r: Result<AuthResponse, AppError>)
    ensures
        answered(r) == login_answer(verdict, written),
{
    match verdict {
        LoginVerdict::Accepted(user_id) => {
            if written {
                Ok(AuthResponse::welcome("Login successful", user_id))
            } else {
                Err(AppError::upstream("Failed to set session"))
            }
        },
        LoginVerdict::Rejected => Ok(AuthResponse::refusal("Invalid credentials")),
        LoginVerdict::Failed => Err(AppError::upstream("Failed to verify password")),
    }
}

/// Carries out what was judged of a login. An accepted login makes the
/// session name the user, any other leaves the session alone.
pub fn conclude_login(session: &mut Session, verdict: LoginVerdict) -> (r: Result<
    AuthResponse,
    AppError,
>)
    ensures
        (final(session)@, answered(r)) == concluded(old(session)@, verdict),
{
    let written = match verdict {
        LoginVerdict::Accepted(user_id) => session.insert(user_id),
        _ => false,
    };
    answer_login(verdict, written)
}

/// Logs a user in: looks the account up by email, checks the password
/// against the stored hash, and on success makes the session name the user.
/// An unknown email and a wrong password get the same refusal.
pub fn login(db: &Database, session: &mut Session, request: LoginRequest) -> (r: Result<
    AuthResponse,
    AppError,
>)
    requires
        db.wf(),
    ensures
        (final(session)@, answered(r)) == logged_in(db@, old(session)@, request@),
{
    let account = match db.find_user_by_email(&request.email) {
        Some(user) => Some((user.id, user.password_hash)),
        None => None,
    };
    let verdict = judge_credentials(account, request.password.as_str());
    conclude_login(session, verdict)
}

/// One run of an admitted registration, in which hashing the password gave
/// `password_hash` and the token for the picture's key was `token`: the
/// picture, if there is one, is uploaded under its temporary key, and the
/// user is stored with the address that the host gave. Where the upload
/// fails, nothing is stored.
pub open spec fn registration_ran(
    db: DatabaseModel,
    session: SessionModel,
    images: ImageHostModel,
    user: NewUserModel,
    after: (DatabaseModel, SessionModel, ImageHostModel),
    answer: Result<AuthResponseModel, AppErrorModel>,
    password_hash: Seq<char>,
    token: Seq<char>,
) -> bool {
    &&& password_check(user.password, password_hash) == Some(true)
    &&& match user.profile_picture {
        None => after.2 == images && (after.0, after.1, answer) == enrolled(
            db,
            session,
            user,
            password_hash,
            None,
        ),
        Some(data) => {
            let (host, upload) = images.uploaded(data, temporary_picture_key(token));
            &&& after.2 == host
            &&& match upload {
                Ok(url) => (after.0, after.1, answer) == enrolled(
                    db,
                    session,
                    user,
                    password_hash,
                    Some(url),
                ),
                Err(e) => after.0 == db && after.1 == session && answer == Err::<
                    AuthResponseModel,
                    AppErrorModel,
                >(e),
            }
        },
    }
}

/// What holds after `register`. A registration that is refused changes
/// nothing and is answered with the refusal. One that is admitted either
/// fails at hashing, with nothing changed, or runs as `registration_ran`
/// says for some hash that fits the password and some token.
pub open spec fn registered(
    db: DatabaseModel,
    session: SessionModel,
    images: ImageHostModel,
    user: NewUserModel,
    after: (DatabaseModel, SessionModel, ImageHostModel),
    answer: Result<AuthResponseModel, AppErrorModel>,
) -> bool {
    match registration_refusal(db, user) {
        Some(message) => after == (db, session, images) && answer == Ok::<
            AuthResponseModel,
            AppErrorModel,
        >(AuthResponseModel::refusal(message)),
        None => {
            ||| after == (db, session, images) && answer == Err::<
                AuthResponseModel,
                AppErrorModel,
            >(AppErrorModel::upstream("Failed to hash password"@))
            ||| exists|password_hash: Seq<char>, token: Seq<char>|
                registration_ran(
                    db,
                    session,
                    images,
                    user,
                    after,
                    answer,
                    password_hash,
                    token,
                )
        },
    }
}

/// Registers a user. The form is checked, then the email against the
/// store; a flaw of either is answered with a refusal and changes nothing.
/// Then the password is hashed, the picture, if one was sent, is uploaded
/// under a temporary key, the user is stored, and the session is made to
/// name the new user.
pub fn register(
    db: &mut Database,
    session: &mut Session,
    images: &mut ImageHost,
    new_user: NewUser,
) -> (r: Result<AuthResponse, AppError>)
    requires
        old(db).wf(),
        old(images).wf(),
    ensures
        final(db).wf(),
        final(images).wf(),
        registered(
            old(db)@,
            old(session)@,
            old(images)@,
            new_user@,
            (final(db)@, final(session)@, final(images)@),
            answered(r),
        ),
        r matches Ok(answer) ==> (answer.success ==> (answer.user_id matches Some(user_id)
            && verdict(account_of(final(db)@.find_email(new_user@.email)), new_user@.password)
            == LoginVerdict::Accepted(user_id))),
{
    match validate_registration(&new_user) {
        Some(refusal) => {
            return Ok(refusal);
        },
        None => {},
    }
    let existing = db.find_user_by_email(&new_user.email);
    match duplicate_refusal(existing.is_some()) {
        Some(refusal) => {
            return Ok(refusal);
        },
        None => {},
    }
    let password_hash = hash_password(new_user.password.as_str())?;
    let ghost mut token: Seq<char> = Seq::empty();
    let picture = match &new_user.profile_picture {
        Some(data) => {
            let key = fresh_temporary_key();
            proof {
                token = choose|token: Seq<char>| key@ == temporary_picture_key(token);
            }
            match images.upload(data.as_str(), key.as_str()) {
                Ok(url) => Some(url),
                Err(e) => {
                    proof {
                        assert(registration_ran(
                            old(db)@,
                            old(session)@,
                            old(images)@,
                            new_user@,
                            (db@, session@, images@),
                            Err(e@),
                            password_hash@,
                            token,
                        ));
                    }
                    return Err(e);
                },
            }
        },
        None => None,
    };
    let ghost hash = password_hash@;
    let ghost user = new_user@;
    let ghost stored = db@.user_for(user.email, hash, user.name, user.pin_code, opt_text(picture));
    proof {
        if db@.can_store_user(user.email) {
            lemma_stored_user_is_found(db@, stored);
        }
    }
    let r = enroll(db, session, new_user, password_hash, picture);
    proof {
        assert(registration_ran(
            old(db)@,
            old(session)@,
            old(images)@,
            user,
            (db@, session@, images@),
            answered(r),
            hash,
            token,
        ));
    }
    r
}

/// What is shown of the user with the given identifier: the profile, or the
/// store's failure where it knows no such user.
pub open spec fn profile_of(db: DatabaseModel, user_id: i32) -> Result<
    UserProfileModel,
    AppErrorModel,
> {
    match db.find_user(user_id) {
        Some(user) => Ok(user.profile()),
        None => Err(store_failure()),
    }
}

/// The profile of the user with the given identifier. Open to everyone who
/// knows the identifier: no session is asked for. The password hash is not
/// part of a profile.
pub fn get_user_profile(db: &Database, user_id: i32) -> (r: Result<UserProfile, AppError>)
    requires
        db.wf(),
    ensures
        profiled(r) == profile_of(db@, user_id),
{
    match db.find_user_by_id(user_id) {
        Some(user) => Ok(user.profile()),
        None => Err(AppError::upstream("Database error")),
    }
}

/// The profile of the session's user. Fails with `Unauthenticated` where
/// the session names none.
pub fn get_my_profile(db: &Database, session: &Session) -> (r: Result<UserProfile, AppError>)
    requires
        db.wf(),
    ensures
        profiled(r) == match session@.identity() {
            Some(user_id) => profile_of(db@, user_id),
            None => Err(AppErrorModel::unauthenticated()),
        },
{
    let user_id = get_my_user_id(session)?;
    get_user_profile(db, user_id)
}

/// The store, the host and the answer after `update_profile_picture`.
/// Without a user in the session nothing changes and the failure is
/// `Unauthenticated`. Else the picture is uploaded under the user's own key;
/// where the upload fails, the store keeps the picture that it had and the
/// failure is the answer; where it succeeds, the user gets the address that
/// the host gave, and the answer is the profile with that address.
pub open spec fn picture_updated(
    db: DatabaseModel,
    session: SessionModel,
    images: ImageHostModel,
    update: ProfilePictureUpdateModel,
) -> (DatabaseModel, ImageHostModel, Result<UserProfileModel, AppErrorModel>) {
    match session.identity() {
        None => (db, images, Err(AppErrorModel::unauthenticated())),
        Some(user_id) => {
            let (host, upload) = images.uploaded(update.profile_picture, user_picture_key(user_id));
            match upload {
                Err(e) => (db, host, Err(e)),
                Ok(url) => (
                    db.with_picture_of(user_id, url),
                    host,
                    match db.find_user(user_id) {
                        Some(user) => Ok(
                            (UserModel { profile_picture: Some(url), ..user }).profile(),
                        ),
                        None => Err(store_failure()),
                    },
                ),
            }
        },
    }
}

/// Gives the session's user a new profile picture: uploads it under the
/// user's own key, stores the address that the host gives, and returns the
/// profile as it then is.
pub fn update_profile_picture(
    db: &mut Database,
    session: &Session,
    images: &mut ImageHost,
    update: ProfilePictureUpdate,
) -> (r: Result<UserProfile, AppError>)
    requires
        old(db).wf(),
        old(images).wf(),
    ensures
        final(db).wf(),
        final(images).wf(),
        (final(db)@, final(images)@, profiled(r)) == picture_updated(
            old(db)@,
            session@,
            old(images)@,
            update@,
        ),
{
    let user_id = get_my_user_id(session)?;
    let key = picture_key(user_id);
    let url = images.upload(update.profile_picture.as_str(), key.as_str())?;
    match db.set_profile_picture(user_id, url) {
        Some(profile) => Ok(profile),
        None => Err(AppError::upstream("Database error")),
    }
}

} // verus!
