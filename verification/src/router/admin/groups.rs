//! Administration of groups: the request bodies and the answers to a new
//! group or a change.

use vstd::prelude::*;
use crate::db::ids::{GroupId, RoleId, UserId};

verus! {

/// the group named in the path
#[derive(Debug, Clone, Copy, PartialEq, Eq, Structural)]
pub struct GroupPath {
    pub groups_id: GroupId,
}

/// the group that may be named in the path
#[derive(Debug, Clone, Copy, PartialEq, Eq, Structural)]
pub struct MaybeGroupPath {
    pub groups_id: Option<GroupId>,
}

/// the body of a new group
#[derive(Debug)]
pub struct NewGroup {
    pub name: String,
    pub users: Vec<UserId>,
    pub roles: Vec<RoleId>,
}

/// the body of a change to a group: each part is changed only when given
#[derive(Debug)]
pub struct UpdateGroup {
    pub name: Option<String>,
    pub users: Option<Vec<UserId>>,
    pub roles: Option<Vec<RoleId>>,
}

/// why a group could not be made or changed
#[derive(Debug)]
pub enum UpdateGroupResult {
    GroupExists,
    UsersNotFound { ids: Vec<UserId> },
    RolesNotFound { ids: Vec<RoleId> },
}

impl UpdateGroupResult {
    /// the outcome of attaching users and roles to a group that was made or
    /// changed, checked in order: the name was free, then every user was
    /// found, then every role; `None` when all went well
    pub fn decide(name_free: bool, users_not_found: Vec<UserId>, roles_not_found: Vec<RoleId>) -> (rtn:
        Option<Self>)
        ensures
            !name_free ==> rtn matches Some(UpdateGroupResult::GroupExists),
            name_free && users_not_found@.len() > 0 ==> (rtn matches Some(
                UpdateGroupResult::UsersNotFound { ids },
            ) && ids@ == users_not_found@),
            name_free && users_not_found@.len() == 0 && roles_not_found@.len() > 0 ==> (rtn matches Some(
                UpdateGroupResult::RolesNotFound { ids },
            ) && ids@ == roles_not_found@),
            name_free && users_not_found@.len() == 0 && roles_not_found@.len() == 0 ==> rtn is None,
    {
        if !name_free {
            Some(UpdateGroupResult::GroupExists)
        } else if users_not_found.len() > 0 {
            Some(UpdateGroupResult::UsersNotFound { ids: users_not_found })
        } else if roles_not_found.len() > 0 {
            Some(UpdateGroupResult::RolesNotFound { ids: roles_not_found })
        } else {
            None
        }
    }

    /// the http status of the answer: 400
    pub fn status(&self) -> (rtn: u16)
        ensures
            rtn == 400,
    {
        400
    }
}

} // verus!
