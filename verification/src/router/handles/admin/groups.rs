//! Administration of groups under the current router: the errors, with the
//! status each answers with.

use vstd::prelude::*;
use crate::db::ids::{RoleId, UserId};

pub use crate::router::admin::groups::{GroupPath, NewGroup, UpdateGroup};

verus! {

/// why a group could not be read
#[derive(Debug, Clone, Copy, PartialEq, Eq, Structural)]
pub enum RetrieveGroupError {
    GroupNotFound,
}

impl RetrieveGroupError {
    /// the http status of the error: 404
    pub fn status(&self) -> (rtn: u16)
        ensures
            rtn == 404,
    {
        404
    }
}

/// why a group could not be made
#[derive(Debug)]
pub enum NewGroupError {
    GroupExists,
    UsersNotFound { ids: Vec<UserId> },
    RolesNotFound { ids: Vec<RoleId> },
}

impl NewGroupError {
    /// the http status of the error: 400 for a taken name, 404 for missing
    /// users or roles
    pub fn status(&self) -> (rtn: u16)
        ensures
            rtn == (if *self is GroupExists { 400u16 } else { 404u16 }),
    {
        match self {
            NewGroupError::GroupExists => 400,
            NewGroupError::UsersNotFound { .. } => 404,
            NewGroupError::RolesNotFound { .. } => 404,
        }
    }
}

/// why a group could not be changed
#[derive(Debug)]
pub enum UpdateGroupError {
    GroupExists,
    GroupNotFound,
    UsersNotFound { ids: Vec<UserId> },
    RolesNotFound { ids: Vec<RoleId> },
}

impl UpdateGroupError {
    /// the http status of the error: 400 for a taken name, 404 otherwise
    pub fn status(&self) -> (rtn: u16)
        ensures
            rtn == (if *self is GroupExists { 400u16 } else { 404u16 }),
    {
        match self {
            UpdateGroupError::GroupExists => 400,
            UpdateGroupError::GroupNotFound => 404,
            UpdateGroupError::UsersNotFound { .. } => 404,
            UpdateGroupError::RolesNotFound { .. } => 404,
        }
    }
}

/// why a group could not be deleted
#[derive(Debug, Clone, Copy, PartialEq, Eq, Structural)]
pub enum DeleteGroupError {
    GroupNotFound,
}

impl DeleteGroupError {
    /// the http status of the error: 404
    pub fn status(&self) -> (rtn: u16)
        ensures
            rtn == 404,
    {
        404
    }
}

} // verus!
