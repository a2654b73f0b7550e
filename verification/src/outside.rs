use vstd::prelude::*;
use crate::error::{AppError, AppErrorModel};
use crate::text::texts;

verus! {

/// The error of the `bcrypt` crate. Nothing is read of it.
#[verifier::external_type_specification]
#[verifier::external_body]
pub struct ExBcryptError(bcrypt::BcryptError);

/// The error of the `serde_json` crate. Nothing is read of it.
#[verifier::external_type_specification]
#[verifier::external_body]
pub struct ExJsonError(serde_json::Error);

/// What `bcrypt::verify` makes of a password and a stored hash: whether the
/// hash is one of the password, or nothing where the hash is no bcrypt hash.
pub uninterp spec fn password_check(password: Seq<char>, hash: Seq<char>) -> Option<bool>;

/// `bcrypt::hash` at `bcrypt::DEFAULT_COST`, with a salt from the operating
/// system. The contract claims one thing of every hash that comes back:
/// `bcrypt::verify` accepts it for the same password, because it takes cost
/// and salt from the hash and computes the same digest again. Verus takes
/// this on trust. The call fails where no random salt can be had.
#[verifier::external_body]
pub(crate) fn bcrypt_hash(password: &str) -> (r: Result<String, bcrypt::BcryptError>)
    ensures
        r matches Ok(hash) ==> password_check(password@, hash@) == Some(true),
{
    bcrypt::hash(password.as_bytes(), bcrypt::DEFAULT_COST)
}

/// `bcrypt::verify`. The contract only gives its result the name
/// `password_check`; Verus takes on trust that the call depends on its two
/// arguments alone.
#[verifier::external_body]
pub(crate) fn bcrypt_verify(password: &str, hash: &str) -> (r: Result<bool, bcrypt::BcryptError>)
    ensures
        match r {
            Ok(same) => password_check(password@, hash@) == Some(same),
            Err(_) => password_check(password@, hash@) is None,
        },
{
    bcrypt::verify(password.as_bytes(), hash)
}

/// What `serde_json::from_str` reads from a text as a list of strings, or
/// nothing where the text is no JSON array of strings.
pub uninterp spec fn json_string_list(text: Seq<char>) -> Option<Seq<Seq<char>>>;

/// `serde_json::from_str` into a `Vec<String>`. The contract only gives its
/// result the name `json_string_list`; Verus takes on trust that the call
/// depends on the text alone.
#[verifier::external_body]
pub(crate) fn json_from_str(text: &str) -> (r: Result<Vec<String>, serde_json::Error>)
    ensures
        match r {
            Ok(list) => json_string_list(text@) == Some(texts(list@)),
            Err(_) => json_string_list(text@) is None,
        },
{
    serde_json::from_str::<Vec<String>>(text)
}

/// `uuid::Uuid::new_v4`, written out in its hyphenated form. The identifier
/// is random, so nothing is claimed of it. The call panics where the
/// operating system hands out no random bytes.
#[verifier::external_body]
pub(crate) fn uuid_v4() -> (r: String) {
    uuid::Uuid::new_v4().to_string()
}

/// The outcome of hashing a password: the hash, which `password_check`
/// accepts for the password, or the failure to send.
pub fn hash_password(password: &str) -> (r: Result<String, AppError>)
    ensures
        match r {
            Ok(hash) => password_check(password@, hash@) == Some(true),
            Err(e) => e@ == AppErrorModel::upstream("Failed to hash password"@),
        },
{
    match bcrypt_hash(password) {
        Ok(hash) => Ok(hash),
        Err(_) => Err(AppError::upstream("Failed to hash password")),
    }
}

/// Checks a password against a stored hash: `Some` of whether it fits, or
/// `None` where the stored text is no hash.
pub fn verify_password(password: &str, hash: &str) -> (r: Option<bool>)
    ensures
        r == password_check(password@, hash@),
{
    match bcrypt_verify(password, hash) {
        Ok(same) => Some(same),
        Err(_) => None,
    }
}

/// Reads the categories of a post from their JSON text. Succeeds exactly
/// where the text is a JSON array of strings, and then gives its strings in
/// order; any other text is bad input.
pub fn parse_categories(text: &str) -> (r: Result<Vec<String>, AppError>)
    ensures
        match r {
            Ok(list) => json_string_list(text@) == Some(texts(list@)),
            Err(e) => json_string_list(text@) is None && e@ == AppErrorModel::bad_categories(),
        },
{
    match json_from_str(text) {
        Ok(list) => Ok(list),
        Err(_) => Err(AppError::bad_categories()),
    }
}

} // verus!
