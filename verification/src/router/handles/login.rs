//! The login handlers: the page and its state check, and the login request
//! with its second factor.

use vstd::prelude::*;
use crate::db::ids::UserId;

pub use crate::router::auth::{LoginCheck, LoginPage, LoginQuery, LoginStatus, SessionLookup};

verus! {

/// the body of a login request
#[derive(Debug)]
pub struct LoginRequest {
    pub username: String,
    pub password: String,
}

/// the answer to a successful login: the user, or the demand for a second
/// factor
#[derive(Debug)]
pub enum LoginResult {
    Success { id: UserId, username: String },
    Verify,
}

/// why a login was refused
#[derive(Debug, Clone, Copy, PartialEq, Eq, Structural)]
pub enum LoginError {
    UsernameNotFound,
    InvalidPassword,
    AlreadyAuthenticated,
    InvalidSession,
}

impl LoginError {
    /// the http status of the error: 400 for a session that is already
    /// authenticated, 404 for an unknown user, 403 otherwise
    pub fn status(&self) -> (rtn: u16)
        ensures
            rtn == match *self {
                LoginError::AlreadyAuthenticated => 400u16,
                LoginError::UsernameNotFound => 404u16,
                LoginError::InvalidPassword | LoginError::InvalidSession => 403u16,
            },
    {
        match self {
            LoginError::AlreadyAuthenticated => 400,
            LoginError::UsernameNotFound => 404,
            LoginError::InvalidPassword => 403,
            LoginError::InvalidSession => 403,
        }
    }

    /// the name of the error, as it is written in answers
    pub fn as_str(&self) -> (rtn: &'static str)
        ensures
            rtn@ == match *self {
                LoginError::UsernameNotFound => "UsernameNotFound"@,
                LoginError::InvalidPassword => "InvalidPassword"@,
                LoginError::AlreadyAuthenticated => "AlreadyAuthenticated"@,
                LoginError::InvalidSession => "InvalidSession"@,
            },
    {
        match self {
            LoginError::UsernameNotFound => "UsernameNotFound",
            LoginError::InvalidPassword => "InvalidPassword",
            LoginError::AlreadyAuthenticated => "AlreadyAuthenticated",
            LoginError::InvalidSession => "InvalidSession",
        }
    }
}

/// what looking up the session of a login request gave
#[derive(Debug, Clone, Copy, PartialEq, Eq, Structural)]
pub enum LoginSession {
    /// a usable session: the request is already logged in
    Authenticated,
    /// no session id was sent
    NoSession,
    /// a session that waits for its second factor
    Unverified,
    /// the database failed
    DbFailed,
    /// any other problem with the session
    Invalid,
}

/// what a login request does before it looks at the user
#[derive(Debug, Clone, Copy, PartialEq, Eq, Structural)]
pub enum SessionStep {
    /// go on, deleting the unverified session first when told
    Proceed { delete_session: bool },
    /// refuse the login
    Refuse(LoginError),
    /// fail with a server error
    Fail,
}

impl SessionStep {
    /// what a login request does with the session it came with: no session
    /// goes on, an unverified one is deleted first, a usable one or a bad
    /// one refuses, a database failure fails
    pub fn decide(session: LoginSession) -> (rtn: Self)
        ensures
            rtn == match session {
                LoginSession::Authenticated => SessionStep::Refuse(LoginError::AlreadyAuthenticated),
                LoginSession::NoSession => SessionStep::Proceed { delete_session: false },
                LoginSession::Unverified => SessionStep::Proceed { delete_session: true },
                LoginSession::DbFailed => SessionStep::Fail,
                LoginSession::Invalid => SessionStep::Refuse(LoginError::InvalidSession),
            },
    {
        match session {
            LoginSession::Authenticated => SessionStep::Refuse(LoginError::AlreadyAuthenticated),
            LoginSession::NoSession => SessionStep::Proceed { delete_session: false },
            LoginSession::Unverified => SessionStep::Proceed { delete_session: true },
            LoginSession::DbFailed => SessionStep::Fail,
            LoginSession::Invalid => SessionStep::Refuse(LoginError::InvalidSession),
        }
    }
}

/// the session that a successful login opens
#[derive(Debug, Clone, Copy, PartialEq, Eq, Structural)]
pub struct LoginSessionOptions {
    pub user: UserId,
    pub authenticated: bool,
    pub verified: bool,
}

/// the outcome of a login once the session was dealt with: the user must be
/// found and the password must match; a user with a one time password gets
/// an authenticated but unverified session and is asked to verify, any other
/// a verified session and its id and name
pub fn login_outcome(user: Option<(UserId, String)>, password_ok: bool, has_totp: bool) -> (rtn:
    Result<(LoginSessionOptions, LoginResult), LoginError>)
    ensures
        match user {
            None => rtn == Err::<(LoginSessionOptions, LoginResult), _>(LoginError::UsernameNotFound),
            Some((id, name)) => if !password_ok {
                rtn == Err::<(LoginSessionOptions, LoginResult), _>(LoginError::InvalidPassword)
            } else if has_totp {
                rtn matches Ok((opts, LoginResult::Verify)) && opts == (LoginSessionOptions {
                    user: id,
                    authenticated: true,
                    verified: false,
                })
            } else {
                rtn matches Ok((opts, LoginResult::Success { id: rid, username })) && opts == (
                LoginSessionOptions { user: id, authenticated: true, verified: true }) && rid == id
                    && username@ == name@
            },
        },
{
    match user {
        None => Err(LoginError::UsernameNotFound),
        Some((id, name)) => {
            if !password_ok {
                return Err(LoginError::InvalidPassword);
            }
            if has_totp {
                Ok((LoginSessionOptions { user: id, authenticated: true, verified: false }, LoginResult::Verify))
            } else {
                Ok((
                    LoginSessionOptions { user: id, authenticated: true, verified: true },
                    LoginResult::Success { id, username: name },
                ))
            }
        },
    }
}

} // verus!
