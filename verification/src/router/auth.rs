//! Login, logout and registration: the request bodies, the answers and the
//! decisions the handlers take on what the database reports.

use vstd::prelude::*;
use std::io::Error as IoError;
use crate::db::PgError;
use crate::error::ContextError;
use crate::net::header::{spec_url_decode, url_decode};
use crate::text::str_eq;

verus! {

/// why a login failed
#[derive(Debug, Clone, Copy, PartialEq, Eq, Structural)]
pub enum LoginFailed {
    UsernameNotFound,
    InvalidPassword,
}

/// the answer to a login request
#[derive(Debug, Clone, Copy, PartialEq, Eq, Structural)]
pub enum LoginResult {
    Success,
    Failed(LoginFailed),
}

impl LoginResult {
    /// the outcome of a login from what was found: the user, then whether
    /// the password matched its hash
    pub fn decide(user_found: bool, password_ok: bool) -> (rtn: Self)
        ensures
            !user_found ==> rtn == LoginResult::Failed(LoginFailed::UsernameNotFound),
            user_found && !password_ok ==> rtn == LoginResult::Failed(LoginFailed::InvalidPassword),
            user_found && password_ok ==> rtn == LoginResult::Success,
    {
        if !user_found {
            LoginResult::Failed(LoginFailed::UsernameNotFound)
        } else if !password_ok {
            LoginResult::Failed(LoginFailed::InvalidPassword)
        } else {
            LoginResult::Success
        }
    }

    /// the http status of the answer: 200, 404 for an unknown user and 403
    /// for a wrong password
    pub fn status(&self) -> (rtn: u16)
        ensures
            rtn == match *self {
                LoginResult::Success => 200u16,
                LoginResult::Failed(LoginFailed::UsernameNotFound) => 404u16,
                LoginResult::Failed(LoginFailed::InvalidPassword) => 403u16,
            },
    {
        match self {
            LoginResult::Success => 200,
            LoginResult::Failed(LoginFailed::UsernameNotFound) => 404,
            LoginResult::Failed(LoginFailed::InvalidPassword) => 403,
        }
    }
}

/// the query of the login page: where the browser came from, url encoded
#[derive(Debug)]
pub struct LoginQuery {
    pub prev: Option<String>,
}

/// the page to go back to after a login: the decoded `prev` of the query,
/// when it has one that decodes
pub open spec fn spec_get_prev(prev: Option<Seq<char>>) -> Option<Seq<char>> {
    match prev {
        Some(p) => spec_url_decode(p),
        None => None,
    }
}

impl LoginQuery {
    /// the decoded page to go back to, if any
    pub fn get_prev(&self) -> (rtn: Option<String>)
        ensures
            match rtn {
                Some(p) => spec_get_prev(
                    match self.prev {
                        Some(q) => Some(q@),
                        None => None,
                    },
                ) == Some(p@),
                None => spec_get_prev(
                    match self.prev {
                        Some(q) => Some(q@),
                        None => None,
                    },
                ) is None,
            },
    {
        match &self.prev {
            Some(prev) => url_decode(prev.as_str()),
            None => None,
        }
    }
}

/// whether the session of a request is usable
#[derive(Debug, Clone, Copy, PartialEq, Eq, Structural)]
pub enum LoginStatus {
    Active,
    Inactive,
}

/// the answer to a check of the login state
#[derive(Debug, Clone, Copy, PartialEq, Eq, Structural)]
pub struct LoginCheck {
    pub status: LoginStatus,
}

/// what looking up the session of a request gave
#[derive(Debug, Clone, Copy, PartialEq, Eq, Structural)]
pub enum SessionLookup {
    /// a valid session
    Found,
    /// no valid session, for any reason but the database
    Invalid,
    /// the database failed
    DbFailed,
}

/// what the login page answers
#[derive(Debug)]
pub enum LoginPage {
    /// the app's page, clearing the session cookie
    App,
    /// a redirect to the given target
    Redirect(String),
    /// the login state, as json
    Check(LoginCheck),
    /// a server error
    Fail,
}

/// what the login page answers: for a browser the app page when there is no
/// session, else a redirect to `prev` (or `/`); for anything else the login
/// state, or a server error when the database failed
pub open spec fn spec_login_page(is_html: bool, lookup: SessionLookup, prev: Option<Seq<char>>) -> (
    u8,
    Seq<char>,
) {
    if is_html {
        match lookup {
            SessionLookup::Found => (
                1u8,
                match spec_get_prev(prev) {
                    Some(p) => p,
                    None => "/"@,
                },
            ),
            _ => (0u8, Seq::empty()),
        }
    } else {
        match lookup {
            SessionLookup::Found => (2u8, Seq::empty()),
            SessionLookup::Invalid => (3u8, Seq::empty()),
            SessionLookup::DbFailed => (4u8, Seq::empty()),
        }
    }
}

impl LoginPage {
    /// the kind of the answer and the redirect's target
    pub open spec fn spec_parts(&self) -> (u8, Seq<char>) {
        match self {
            LoginPage::App => (0u8, Seq::empty()),
            LoginPage::Redirect(t) => (1u8, t@),
            LoginPage::Check(c) => if c.status == LoginStatus::Active {
                (2u8, Seq::empty())
            } else {
                (3u8, Seq::empty())
            },
            LoginPage::Fail => (4u8, Seq::empty()),
        }
    }

    /// what the login page answers for a request
    pub fn decide(is_html: bool, lookup: SessionLookup, query: &LoginQuery) -> (rtn: Self)
        ensures
            rtn.spec_parts() == spec_login_page(
                is_html,
                lookup,
                match query.prev {
                    Some(q) => Some(q@),
                    None => None,
                },
            ),
    {
        if is_html {
            match lookup {
                SessionLookup::Found => match query.get_prev() {
                    Some(p) => LoginPage::Redirect(p),
                    None => LoginPage::Redirect(crate::text::to_owned_string("/")),
                },
                _ => LoginPage::App,
            }
        } else {
            match lookup {
                SessionLookup::Found => LoginPage::Check(LoginCheck { status: LoginStatus::Active }),
                SessionLookup::Invalid => LoginPage::Check(LoginCheck { status: LoginStatus::Inactive }),
                SessionLookup::DbFailed => LoginPage::Fail,
            }
        }
    }
}

/// the body of a login request
#[derive(Debug)]
pub struct LoginRequest {
    pub username: String,
    pub password: String,
}

/// the body of a registration
#[derive(Debug)]
pub struct RegisterBody {
    pub token: String,
    pub username: String,
    pub password: String,
    pub confirm: String,
}

/// why a registration failed
#[derive(Debug)]
pub enum RegisterError {
    /// the requested invite was not found
    InviteNotFound,
    /// the requested invite has already been used
    InviteUsed,
    /// the requested invite has expired
    InviteExpired,
    /// the confirm does not equal password
    InvalidConfirm,
    /// the specified username already exists
    UsernameExists,
    Db(PgError),
    Error(ContextError),
    Io(IoError),
}

/// what is known of the invite of a registration
#[derive(Debug, Clone, Copy, PartialEq, Eq, Structural)]
pub struct InviteState {
    pub pending: bool,
    pub expired: bool,
}

impl RegisterError {
    /// the http status of the error: 404 for a missing invite, 400 for the
    /// errors of the request, 500 for the rest
    pub fn status(&self) -> (rtn: u16)
        ensures
            rtn == match *self {
                RegisterError::InviteNotFound => 404u16,
                RegisterError::UsernameExists | RegisterError::InvalidConfirm
                | RegisterError::InviteExpired | RegisterError::InviteUsed => 400u16,
                _ => 500u16,
            },
    {
        match self {
            RegisterError::InviteNotFound => 404,
            RegisterError::UsernameExists | RegisterError::InvalidConfirm
            | RegisterError::InviteExpired | RegisterError::InviteUsed => 400,
            _ => 500,
        }
    }

    /// the checks of a registration before the user is made, in order: the
    /// invite is there, still pending and not expired, and the password is
    /// confirmed
    pub fn check(invite: Option<InviteState>, body: &RegisterBody) -> (rtn: Result<(), Self>)
        ensures
            match invite {
                None => rtn matches Err(RegisterError::InviteNotFound),
                Some(i) => if !i.pending {
                    rtn matches Err(RegisterError::InviteUsed)
                } else if i.expired {
                    rtn matches Err(RegisterError::InviteExpired)
                } else if body.password@ != body.confirm@ {
                    rtn matches Err(RegisterError::InvalidConfirm)
                } else {
                    rtn is Ok
                },
            },
    {
        match invite {
            None => Err(RegisterError::InviteNotFound),
            Some(i) => if !i.pending {
                Err(RegisterError::InviteUsed)
            } else if i.expired {
                Err(RegisterError::InviteExpired)
            } else if !str_eq(body.password.as_str(), body.confirm.as_str()) {
                Err(RegisterError::InvalidConfirm)
            } else {
                Ok(())
            },
        }
    }
}

/// what a logout does with the session it found
#[derive(Debug, Clone, Copy, PartialEq, Eq, Structural)]
pub enum LogoutSession {
    /// a session that is valid, or known but unusable: it is deleted
    Known,
    /// no session, or one that cannot be read: nothing is deleted
    Unknown,
    /// the database failed: the logout fails
    DbFailed,
}

/// whether a logout deletes the session, `None` when it fails instead
pub fn logout_deletes(found: LogoutSession) -> (rtn: Option<bool>)
    ensures
        rtn == match found {
            LogoutSession::Known => Some(true),
            LogoutSession::Unknown => Some(false),
            LogoutSession::DbFailed => None::<bool>,
        },
{
    match found {
        LogoutSession::Known => Some(true),
        LogoutSession::Unknown => Some(false),
        LogoutSession::DbFailed => None,
    }
}

} // verus!
