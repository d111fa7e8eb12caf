//! Authentication of peer servers: the errors of the handshake, and how a
//! peer's answer to its challenge is judged.

use vstd::prelude::*;

verus! {

/// why a peer could not authenticate
#[derive(Debug, Clone, Copy, PartialEq, Eq, Structural)]
pub enum AuthnError {
    KeyNotFound,
    ClientChallenge,
    InvalidAuthorization,
    SessionNotFound,
    UserNotFound,
    DataNotFound,
    Expired,
    InvalidData,
}

impl AuthnError {
    /// the http status of the error: 400 for what the peer sent wrong, 401
    /// for an expired session, 404 for what was not found
    pub fn status(&self) -> (rtn: u16)
        ensures
            rtn == match *self {
                AuthnError::ClientChallenge | AuthnError::InvalidData | AuthnError::InvalidAuthorization => 400u16,
                AuthnError::Expired => 401u16,
                _ => 404u16,
            },
    {
        match self {
            AuthnError::ClientChallenge | AuthnError::InvalidData | AuthnError::InvalidAuthorization => 400,
            AuthnError::Expired => 401,
            _ => 404,
        }
    }
}

/// what looking up a peer's api session found
#[derive(Debug, Clone, Copy, PartialEq, Eq, Structural)]
pub enum ApiSessionLookup {
    /// the session is already authenticated
    Authenticated,
    /// the session waits for the peer's answer to its challenge
    Unauthenticated,
    NotFound,
    UserNotFound,
    Expired,
    InvalidAuthorization,
}

/// what answering a peer's response does next
#[derive(Debug, Clone, Copy, PartialEq, Eq, Structural)]
pub enum PatchStep {
    /// nothing to do: the session is authenticated
    AlreadyAuthenticated,
    /// the peer's answer is compared with the data it was sent
    Compare,
    /// the answer is refused with this error
    Refuse(AuthnError),
}

/// what a peer's response leads to, by what its session lookup found
pub fn patch_step(lookup: ApiSessionLookup) -> (rtn: PatchStep)
    ensures
        rtn == match lookup {
            ApiSessionLookup::Authenticated => PatchStep::AlreadyAuthenticated,
            ApiSessionLookup::Unauthenticated => PatchStep::Compare,
            ApiSessionLookup::NotFound => PatchStep::Refuse(AuthnError::SessionNotFound),
            ApiSessionLookup::UserNotFound => PatchStep::Refuse(AuthnError::UserNotFound),
            ApiSessionLookup::Expired => PatchStep::Refuse(AuthnError::Expired),
            ApiSessionLookup::InvalidAuthorization => PatchStep::Refuse(AuthnError::InvalidAuthorization),
        },
{
    match lookup {
        ApiSessionLookup::Authenticated => PatchStep::AlreadyAuthenticated,
        ApiSessionLookup::Unauthenticated => PatchStep::Compare,
        ApiSessionLookup::NotFound => PatchStep::Refuse(AuthnError::SessionNotFound),
        ApiSessionLookup::UserNotFound => PatchStep::Refuse(AuthnError::UserNotFound),
        ApiSessionLookup::Expired => PatchStep::Refuse(AuthnError::Expired),
        ApiSessionLookup::InvalidAuthorization => PatchStep::Refuse(AuthnError::InvalidAuthorization),
    }
}

/// judges the data a peer decrypted against the data the server sent it:
/// `DataNotFound` when none is waiting for the session, `InvalidData` when
/// they differ; only an exact match authenticates the session
pub fn check_response(stored: Option<&[u8]>, given: &[u8]) -> (rtn: Result<(), AuthnError>)
    ensures
        match stored {
            None => rtn == Err::<(), AuthnError>(AuthnError::DataNotFound),
            Some(data) => if data@ == given@ {
                rtn is Ok
            } else {
                rtn == Err::<(), AuthnError>(AuthnError::InvalidData)
            },
        },
{
    match stored {
        None => Err(AuthnError::DataNotFound),
        Some(data) => {
            if data.len() != given.len() {
                assert(data@.len() != given@.len());
                return Err(AuthnError::InvalidData);
            }
            let mut i: usize = 0;
            while i < data.len()
                invariant
                    i <= data.len(),
                    stored == Some(data),
                    data.len() == given.len(),
                    forall|k: int| 0 <= k < i ==> data@[k] == given@[k],
                decreases data.len() - i,
            {
                if data[i] != given[i] {
                    assert(data@[i as int] != given@[i as int]);
                    return Err(AuthnError::InvalidData);
                }
                i = i + 1;
            }
            assert(data@ =~= given@);
            Ok(())
        }
    }
}

} // verus!
