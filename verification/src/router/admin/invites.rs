//! Administration of user invites: the checks of a new batch, the tokens
//! and the sql that stores them, and the answer to a deletion.

use vstd::prelude::*;
use crate::db::{push_param_rows, spec_param_rows};
use crate::db::ids::{gen_uid, is_valid_uid, GroupId, RoleId, UserId};
use crate::text::to_owned_string;
use crate::time::Timestamp;

verus! {

/// the user that took an invite
#[derive(Debug)]
pub struct InviteUser {
    pub id: UserId,
    pub username: String,
}

/// the role an invite gives
#[derive(Debug)]
pub struct InviteRole {
    pub id: RoleId,
    pub name: String,
}

/// the group an invite joins
#[derive(Debug)]
pub struct InviteGroup {
    pub id: GroupId,
    pub name: String,
}

/// why a batch of invites could not be made
#[derive(Debug, Clone, Copy, PartialEq, Eq, Structural)]
pub enum CreateInviteError {
    InvalidAmount,
    InvalidExpiresOn,
    RoleNotFound,
    GroupNotFound,
}

/// the checks of a new batch of invites, in order: between 1 and 10 of
/// them, and an expiry, when given, after the present time
pub open spec fn spec_check_batch(amount: u32, expires_on: Option<Timestamp>, now: Timestamp) -> Option<
    bool,
> {
    if amount == 0 || amount > 10 {
        Some(true)
    } else {
        match expires_on {
            Some(e) => if !now.spec_before(e) {
                Some(false)
            } else {
                None
            },
            None => None,
        }
    }
}

impl CreateInviteError {
    /// the http status of the error: 400 for a bad request, 404 for a
    /// missing role or group
    pub fn status(&self) -> (rtn: u16)
        ensures
            rtn == (if *self is InvalidAmount || *self is InvalidExpiresOn { 400u16 } else { 404u16 }),
    {
        match self {
            CreateInviteError::InvalidAmount => 400,
            CreateInviteError::InvalidExpiresOn => 400,
            CreateInviteError::RoleNotFound => 404,
            CreateInviteError::GroupNotFound => 404,
        }
    }

    /// checks a new batch of invites: `InvalidAmount` unless between 1 and
    /// 10 are asked for, then `InvalidExpiresOn` when the expiry is not
    /// after the present time
    pub fn check_batch(amount: u32, expires_on: Option<Timestamp>, now: Timestamp) -> (rtn: Result<(), Self>)
        ensures
            match spec_check_batch(amount, expires_on, now) {
                Some(true) => rtn == Err::<(), _>(CreateInviteError::InvalidAmount),
                Some(false) => rtn == Err::<(), _>(CreateInviteError::InvalidExpiresOn),
                None => rtn is Ok,
            },
    {
        if amount == 0 || amount > 10 {
            return Err(CreateInviteError::InvalidAmount);
        }
        match expires_on {
            Some(e) => if !now.before(&e) {
                Err(CreateInviteError::InvalidExpiresOn)
            } else {
                Ok(())
            },
            None => Ok(()),
        }
    }
}

/// new random tokens for a batch of invites
pub fn gen_tokens(amount: u32) -> (rtn: Vec<String>)
    ensures
        rtn@.len() == amount,
        forall|i: int| 0 <= i < rtn@.len() ==> is_valid_uid((#[trigger] rtn@[i])@),
{
    let mut rtn: Vec<String> = Vec::new();
    let mut i: u32 = 0;
    while i < amount
        invariant
            i <= amount,
            rtn@.len() == i,
            forall|j: int| 0 <= j < rtn@.len() ==> is_valid_uid((#[trigger] rtn@[j])@),
        decreases amount - i,
    {
        rtn.push(gen_uid());
        i = i + 1;
    }
    rtn
}

/// the start of the query that stores a batch of user invites
pub open spec fn invite_insert_prefix() -> Seq<char> {
    "insert into user_invites (token, issued_on, expires_on, status, role_id, groups_id) values "@
}

/// what follows the token in each row: the issue time, expiry, status,
/// role and group are `$1` to `$5`
pub open spec fn invite_row_tail() -> Seq<char> {
    ", $1, $2, $3, $4, $5)"@
}

/// the query that stores `count` user invites, the tokens from `$6` on
pub fn invite_insert_query(count: usize) -> (rtn: String)
    requires
        count < 0x1000_0000,
    ensures
        rtn@ == invite_insert_prefix() + spec_param_rows(count as nat, 6, invite_row_tail()),
{
    let mut rtn = to_owned_string(
        "insert into user_invites (token, issued_on, expires_on, status, role_id, groups_id) values ",
    );
    push_param_rows(&mut rtn, count, 6, ", $1, $2, $3, $4, $5)");
    rtn
}

/// the invites to delete
#[derive(Debug)]
pub enum DeleteInvite {
    Single { token: String },
}

/// why invites could not be deleted
#[derive(Debug)]
pub enum DeleteError {
    NotFound { tokens: Vec<String> },
}

impl DeleteError {
    /// the http status of the error: 404
    pub fn status(&self) -> (rtn: u16)
        ensures
            rtn == 404,
    {
        404
    }

    /// the outcome of deleting one invite: it must have removed exactly one
    /// record, else its token was not found
    pub fn check_single(deleted: u64, token: String) -> (rtn: Result<(), Self>)
        ensures
            deleted == 1 ==> rtn is Ok,
            deleted != 1 ==> (rtn matches Err(DeleteError::NotFound { tokens }) && tokens@.len() == 1
                && tokens@[0]@ == token@),
    {
        if deleted != 1 {
            let mut tokens: Vec<String> = Vec::new();
            tokens.push(token);
            Err(DeleteError::NotFound { tokens })
        } else {
            Ok(())
        }
    }
}

} // verus!
