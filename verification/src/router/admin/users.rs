//! Administration of users: the request bodies and the errors, with the
//! status each error answers with.

use vstd::prelude::*;
use crate::db::ids::{GroupId, RoleId, UserId};

verus! {

/// the user named in the path
#[derive(Debug, Clone, Copy, PartialEq, Eq, Structural)]
pub struct UserPath {
    pub users_id: UserId,
}

/// why a user could not be read
#[derive(Debug, Clone, Copy, PartialEq, Eq, Structural)]
pub enum RetrieveUserError {
    UserNotFound,
}

impl RetrieveUserError {
    /// the http status of the error: 404
    pub fn status(&self) -> (rtn: u16)
        ensures
            rtn == 404,
    {
        404
    }
}

/// the body of a new user
#[derive(Debug)]
pub struct NewUser {
    pub username: String,
    pub password: String,
    pub groups: Vec<GroupId>,
    pub roles: Vec<RoleId>,
}

/// why a user could not be made
#[derive(Debug)]
pub enum CreateUserError {
    UsernameExists,
    GroupsNotFound { ids: Vec<GroupId> },
    RolesNotFound { ids: Vec<RoleId> },
}

impl CreateUserError {
    /// the http status of the error: 400 for a taken name, 404 for missing
    /// groups or roles
    pub fn status(&self) -> (rtn: u16)
        ensures
            rtn == (if *self is UsernameExists { 400u16 } else { 404u16 }),
    {
        match self {
            CreateUserError::UsernameExists => 400,
            CreateUserError::GroupsNotFound { .. } => 404,
            CreateUserError::RolesNotFound { .. } => 404,
        }
    }
}

/// the body of a change to a user: each part is changed only when given
#[derive(Debug)]
pub struct UpdateUser {
    pub username: Option<String>,
    pub password: Option<String>,
    pub groups: Option<Vec<GroupId>>,
    pub roles: Option<Vec<RoleId>>,
}

impl UpdateUser {
    /// whether the user's record itself changes: a new name or password
    pub fn changes_record(&self) -> (rtn: bool)
        ensures
            rtn == (self.username is Some || self.password is Some),
    {
        self.username.is_some() || self.password.is_some()
    }
}

/// why a user could not be changed
#[derive(Debug)]
pub enum UpdatedUserError {
    UserNotFound,
    UsernameExists,
    GroupsNotFound { ids: Vec<GroupId> },
    RolesNotFound { ids: Vec<RoleId> },
}

impl UpdatedUserError {
    /// the http status of the error: 400 for a taken name, 404 otherwise
    pub fn status(&self) -> (rtn: u16)
        ensures
            rtn == (if *self is UsernameExists { 400u16 } else { 404u16 }),
    {
        match self {
            UpdatedUserError::UserNotFound => 404,
            UpdatedUserError::UsernameExists => 400,
            UpdatedUserError::GroupsNotFound { .. } => 404,
            UpdatedUserError::RolesNotFound { .. } => 404,
        }
    }
}

/// why a user could not be deleted
#[derive(Debug, Clone, Copy, PartialEq, Eq, Structural)]
pub enum DeleteUserError {
    UserNotFound,
}

impl DeleteUserError {
    /// the http status of the error: 404
    pub fn status(&self) -> (rtn: u16)
        ensures
            rtn == 404,
    {
        404
    }
}

} // verus!
