use vstd::prelude::*;
use crate::text::owned;

verus! {

/// The kinds of failure that reach the transport, as opposed to refusals
/// that are sent as an ordinary answer.
#[derive(Clone, Copy, Debug, PartialEq, Eq, Structural)]
pub enum ErrorKind {
    /// The request is malformed.
    BadInput,
    /// The session names no user.
    Unauthenticated,
    /// No post with the given identifier belongs to the caller.
    NotFound,
    /// A store, the image host or the hashing failed.
    UpstreamFailure,
}

impl ErrorKind {
    /// The HTTP status that stands for the kind.
    pub open spec fn status(self) -> u16 {
        match self {
            ErrorKind::BadInput => 400,
            ErrorKind::Unauthenticated => 401,
            ErrorKind::NotFound => 404,
            ErrorKind::UpstreamFailure => 500,
        }
    }

    /// The HTTP status that stands for the kind.
    pub fn status_code(&self) -> (r: u16)
        ensures
            r == self.status(),
    {
        match self {
            ErrorKind::BadInput => 400,
            ErrorKind::Unauthenticated => 401,
            ErrorKind::NotFound => 404,
            ErrorKind::UpstreamFailure => 500,
        }
    }
}

/// A failure of an operation: its kind and a message for the log.
#[derive(Debug)]
pub struct AppError {
    pub kind: ErrorKind,
    pub message: String,
}

/// What an `AppError` holds, as mathematical values.
pub struct AppErrorModel {
    pub kind: ErrorKind,
    pub message: Seq<char>,
}

impl AppErrorModel {
    /// The failure of an operation that needs a user when the session names
    /// none.
    pub open spec fn unauthenticated() -> AppErrorModel {
        AppErrorModel { kind: ErrorKind::Unauthenticated, message: "Authentication required"@ }
    }

    /// The failure of a post whose categories are no JSON array of strings.
    pub open spec fn bad_categories() -> AppErrorModel {
        AppErrorModel { kind: ErrorKind::BadInput, message: "Invalid categories format"@ }
    }

    /// A failure of a collaborator, with the given message.
    pub open spec fn upstream(message: Seq<char>) -> AppErrorModel {
        AppErrorModel { kind: ErrorKind::UpstreamFailure, message }
    }

    /// The absence of a post, with the given message.
    pub open spec fn not_found(message: Seq<char>) -> AppErrorModel {
        AppErrorModel { kind: ErrorKind::NotFound, message }
    }
}

impl View for AppError {
    type V = AppErrorModel;

    open spec fn view(&self) -> AppErrorModel {
        AppErrorModel { kind: self.kind, message: self.message@ }
    }
}

impl Clone for AppError {
    fn clone(&self) -> (r: Self)
        ensures
            r@ == self@,
    {
        AppError { kind: self.kind, message: self.message.clone() }
    }
}

impl AppError {
    /// A failure of the given kind with the given message.
    pub fn new(kind: ErrorKind, message: &str) -> (r: AppError)
        ensures
            r@ == (AppErrorModel { kind, message: message@ }),
    {
        AppError { kind, message: owned(message) }
    }

    /// The failure of an operation that needs a user when the session names
    /// none.
    pub fn unauthenticated() -> (r: AppError)
        ensures
            r@ == AppErrorModel::unauthenticated(),
    {
        AppError::new(ErrorKind::Unauthenticated, "Authentication required")
    }

    /// The failure of a post whose categories are no JSON array of strings.
    pub fn bad_categories() -> (r: AppError)
        ensures
            r@ == AppErrorModel::bad_categories(),
    {
        AppError::new(ErrorKind::BadInput, "Invalid categories format")
    }

    /// A failure of a collaborator, with the given message.
    pub fn upstream(message: &str) -> (r: AppError)
        ensures
            r@ == AppErrorModel::upstream(message@),
    {
        AppError::new(ErrorKind::UpstreamFailure, message)
    }

    /// The HTTP status that stands for the failure.
    pub fn status_code(&self) -> (r: u16)
        ensures
            r == self.kind.status(),
    {
        self.kind.status_code()
    }

    /// The message of the failure.
    pub fn to_string(&self) -> (r: String)
        ensures
            r@ == self.message@,
    {
        self.message.clone()
    }
}

/// What a result holds, as mathematical values, where its error is an
/// `AppError`.
pub open spec fn failure<T>(r: Result<T, AppError>) -> Option<AppErrorModel> {
    match r {
        Ok(_) => None,
        Err(e) => Some(e@),
    }
}

} // verus!
