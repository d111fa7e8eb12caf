//! The second factor of a login: the code sent, and the checks a session
//! passes before it is marked verified.

use vstd::prelude::*;

verus! {

/// the code of a second factor: from an authenticator, or a recovery code
#[derive(Debug)]
pub enum VerifyBody {
    Totp { code: String },
    Recovery { code: String },
}

/// why a second factor was refused
#[derive(Debug, Clone, Copy, PartialEq, Eq, Structural)]
pub enum VerifyError {
    MFANotFound,
    InvalidCode,
    InvalidRecovery,
    AlreadyVerified,
    InvalidSession,
    UserNotFound,
}

impl VerifyError {
    /// the http status of the error: 404 for a missing second factor or
    /// user, 400 otherwise
    pub fn status(&self) -> (rtn: u16)
        ensures
            rtn == (if *self is MFANotFound || *self is UserNotFound { 404u16 } else { 400u16 }),
    {
        match self {
            VerifyError::MFANotFound | VerifyError::UserNotFound => 404,
            _ => 400,
        }
    }
}

/// what looking up the session of a verification gave
#[derive(Debug, Clone, Copy, PartialEq, Eq, Structural)]
pub enum VerifySession {
    /// a session that is already usable
    Verified,
    /// a session waiting for its second factor
    Unverified,
    /// the database failed
    DbFailed,
    /// any other problem with the session
    Invalid,
}

/// whether a verification goes on with its session: `Ok(true)` goes on,
/// `Ok(false)` fails with a server error, an error refuses
pub fn session_step(session: VerifySession) -> (rtn: Result<bool, VerifyError>)
    ensures
        rtn == match session {
            VerifySession::Verified => Err::<bool, VerifyError>(VerifyError::AlreadyVerified),
            VerifySession::Unverified => Ok(true),
            VerifySession::DbFailed => Ok(false),
            VerifySession::Invalid => Err(VerifyError::InvalidSession),
        },
{
    match session {
        VerifySession::Verified => Err(VerifyError::AlreadyVerified),
        VerifySession::Unverified => Ok(true),
        VerifySession::DbFailed => Ok(false),
        VerifySession::Invalid => Err(VerifyError::InvalidSession),
    }
}

/// the checks of a code, in order: the user must have a second factor, the
/// code must match it (an authenticator code or an unused recovery code),
/// and the user must still be there
pub fn check_code(body: &VerifyBody, has_mfa: bool, code_ok: bool, user_found: bool) -> (rtn: Result<(), VerifyError>)
    ensures
        !has_mfa ==> rtn == Err::<(), VerifyError>(VerifyError::MFANotFound),
        has_mfa && !code_ok ==> rtn == Err::<(), VerifyError>(
            if *body is Totp { VerifyError::InvalidCode } else { VerifyError::InvalidRecovery },
        ),
        has_mfa && code_ok && !user_found ==> rtn == Err::<(), VerifyError>(VerifyError::UserNotFound),
        has_mfa && code_ok && user_found ==> rtn is Ok,
{
    if !has_mfa {
        return Err(VerifyError::MFANotFound);
    }
    if !code_ok {
        return match body {
            VerifyBody::Totp { .. } => Err(VerifyError::InvalidCode),
            VerifyBody::Recovery { .. } => Err(VerifyError::InvalidRecovery),
        };
    }
    if !user_found {
        return Err(VerifyError::UserNotFound);
    }
    Ok(())
}

} // verus!
