use vstd::prelude::*;
use crate::error::{failure, AppError, AppErrorModel};
use crate::structs::{AuthResponse, AuthResponseModel};
use crate::text::{copy_texts, owned, texts};

verus! {

/// What a session holds under the key that names its user.
#[derive(Clone, Copy, Debug, PartialEq, Eq, Structural)]
pub enum SessionValue {
    /// Nothing is stored under the key.
    Absent,
    /// The identifier of the user that registered or logged in.
    UserId(i32),
    /// Something is stored under the key that is no identifier.
    Malformed,
}

/// The session of one request. It is handed to every operation that needs
/// it and belongs to that request alone.
#[derive(Debug)]
pub struct Session {
    /// What is stored under the key that names the user.
    pub user_id: SessionValue,
    /// The other keys under which the session holds data.
    pub other_keys: Vec<String>,
    /// Whether the session store answers. Where it does not, nothing can be
    /// read and nothing written.
    pub reachable: bool,
}

/// What a `Session` holds, as mathematical values.
pub struct SessionModel {
    pub user_id: SessionValue,
    pub other_keys: Seq<Seq<char>>,
    pub reachable: bool,
}

impl SessionModel {
    /// The user that the session names: the stored identifier, where the
    /// store answers and holds one.
    pub open spec fn identity(self) -> Option<i32> {
        match self.user_id {
            SessionValue::UserId(id) => if self.reachable {
                Some(id)
            } else {
                None
            },
            _ => None,
        }
    }

    /// The session after the given user was written to it.
    pub open spec fn naming(self, user_id: i32) -> SessionModel {
        SessionModel { user_id: SessionValue::UserId(user_id), ..self }
    }

    /// The session after all its data was removed.
    pub open spec fn flushed(self) -> SessionModel {
        SessionModel { user_id: SessionValue::Absent, other_keys: Seq::empty(), ..self }
    }
}

impl View for Session {
    type V = SessionModel;

    open spec fn view(&self) -> SessionModel {
        SessionModel {
            user_id: self.user_id,
            other_keys: texts(self.other_keys@),
            reachable: self.reachable,
        }
    }
}

impl Clone for Session {
    fn clone(&self) -> (r: Self)
        ensures
            r@ == self@,
    {
        Session {
            user_id: self.user_id,
            other_keys: copy_texts(&self.other_keys),
            reachable: self.reachable,
        }
    }
}

impl Session {
    /// A session that holds nothing, in a store that answers.
    pub fn new() -> (r: Session)
        ensures
            r@ == (SessionModel {
                user_id: SessionValue::Absent,
                other_keys: Seq::empty(),
                reachable: true,
            }),
    {
        let r = Session { user_id: SessionValue::Absent, other_keys: Vec::new(), reachable: true };
        assert(texts(r.other_keys@) =~= Seq::empty());
        r
    }

    /// A session that names the given user, in a store that answers.
    pub fn of_user(user_id: i32) -> (r: Session)
        ensures
            r@ == (SessionModel {
                user_id: SessionValue::UserId(user_id),
                other_keys: Seq::empty(),
                reachable: true,
            }),
    {
        let r = Session {
            user_id: SessionValue::UserId(user_id),
            other_keys: Vec::new(),
            reachable: true,
        };
        assert(texts(r.other_keys@) =~= Seq::empty());
        r
    }

    /// Reads the user that the session names.
    pub fn get(&self) -> (r: Option<i32>)
        ensures
            r == self@.identity(),
    {
        if !self.reachable {
            return None;
        }
        match self.user_id {
            SessionValue::UserId(id) => Some(id),
            _ => None,
        }
    }

    /// Writes the user that the session names. Fails, and changes nothing,
    /// exactly where the store does not answer.
    pub fn insert(&mut self, user_id: i32) -> (r: bool)
        ensures
            r == old(self)@.reachable,
            final(self)@ == if r {
                old(self)@.naming(user_id)
            } else {
                old(self)@
            },
    {
        if self.reachable {
            self.user_id = SessionValue::UserId(user_id);
            true
        } else {
            false
        }
    }

    /// Removes all data of the session, not only the user. Fails, and
    /// changes nothing, exactly where the store does not answer.
    pub fn flush(&mut self) -> (r: bool)
        ensures
            r == old(self)@.reachable,
            final(self)@ == if r {
                old(self)@.flushed()
            } else {
                old(self)@
            },
    {
        if self.reachable {
            self.user_id = SessionValue::Absent;
            self.other_keys = Vec::new();
            assert(texts(self.other_keys@) =~= Seq::empty());
            true
        } else {
            false
        }
    }
}

/// The answer to a user once the session names them, or the failure to send
/// where writing the session failed.
pub open spec fn established(written: bool, welcome: AuthResponseModel) -> Result<
    AuthResponseModel,
    AppErrorModel,
> {
    if written {
        Ok(welcome)
    } else {
        Err(AppErrorModel::upstream("Failed to set session"@))
    }
}

/// The user on whose behalf a request acts: the identifier that the session
/// names. Fails with `Unauthenticated` exactly where the session names none,
/// be it that nothing is stored, that what is stored is no identifier, or
/// that the store does not answer.
pub fn get_my_user_id(session: &Session) -> (r: Result<i32, AppError>)
    ensures
        match session@.identity() {
            Some(id) => r == Ok::<i32, AppError>(id),
            None => failure(r) == Some(AppErrorModel::unauthenticated()),
        },
{
    match session.get() {
        Some(id) => Ok(id),
        None => Err(AppError::unauthenticated()),
    }
}

/// What `check_auth` answers for a session.
pub open spec fn auth_status(session: SessionModel) -> AuthResponseModel {
    match session.identity() {
        Some(id) => AuthResponseModel::welcome("Authenticated"@, id),
        None => AuthResponseModel::refusal("Not authenticated"@),
    }
}

/// Says whether the session names a user, and which. Never fails: a session
/// without a user is an answer with `success` false.
pub fn check_auth(session: &Session) -> (r: Result<AuthResponse, AppError>)
    ensures
        r matches Ok(answer) && answer@ == auth_status(session@),
{
    match session.get() {
        Some(id) => Ok(AuthResponse::welcome("Authenticated", id)),
        None => Ok(AuthResponse::refusal("Not authenticated")),
    }
}

/// Ends the session: all its data is removed, and the answer says so.
/// Where the session store does not answer, the session stays as it was and
/// the failure is an `UpstreamFailure`.
pub fn logout(session: &mut Session) -> (r: Result<AuthResponse, AppError>)
    ensures
        match r {
            Ok(answer) => old(session)@.reachable && final(session)@ == old(session)@.flushed()
                && answer@ == (AuthResponseModel {
                success: true,
                message: "Logged out successfully"@,
                user_id: None,
            }),
            Err(e) => !old(session)@.reachable && final(session)@ == old(session)@ && e@
                == AppErrorModel::upstream("Failed to clear session"@),
        },
{
    if session.flush() {
        Ok(AuthResponse { success: true, message: owned("Logged out successfully"), user_id: None })
    } else {
        Err(AppError::upstream("Failed to clear session"))
    }
}

} // verus!
