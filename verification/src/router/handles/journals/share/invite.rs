//! Invites to a share of a journal: the checks of a new batch, the sql
//! that stores it, and the answer to a deletion.

use vstd::prelude::*;
use crate::db::{push_param_rows, spec_param_rows};
use crate::db::ids::{JournalId, JournalShareId, UserId};
use crate::text::to_owned_string;
use crate::time::Timestamp;

pub use crate::router::admin::invites::{gen_tokens, spec_check_batch};

verus! {

/// the journal and share named in the path
#[derive(Debug, Clone, Copy, PartialEq, Eq, Structural)]
pub struct SharePath {
    pub journals_id: JournalId,
    pub share_id: JournalShareId,
}

/// the user that took an invite
#[derive(Debug)]
pub struct InviteUser {
    pub id: UserId,
    pub username: String,
}

/// why the invites of a share could not be listed
#[derive(Debug, Clone, Copy, PartialEq, Eq, Structural)]
pub enum SearchInvitesError {
    JournalNotFound,
    ShareNotFound,
}

impl SearchInvitesError {
    /// the http status of the error: 404
    pub fn status(&self) -> (rtn: u16)
        ensures
            rtn == 404,
    {
        404
    }
}

/// why a batch of invites could not be made
#[derive(Debug, Clone, Copy, PartialEq, Eq, Structural)]
pub enum CreateInviteError {
    JournalNotFound,
    ShareNotFound,
    InvalidAmount,
    InvalidExpiresOn,
}

impl CreateInviteError {
    /// the http status of the error: 404 for a missing journal or share,
    /// 400 for a bad request
    pub fn status(&self) -> (rtn: u16)
        ensures
            rtn == (if *self is JournalNotFound || *self is ShareNotFound { 404u16 } else { 400u16 }),
    {
        match self {
            CreateInviteError::JournalNotFound | CreateInviteError::ShareNotFound => 404,
            _ => 400,
        }
    }

    /// checks a new batch of invites: `InvalidAmount` unless between 1 and
    /// 10 are asked for, then `InvalidExpiresOn` when the expiry is not
    /// after the present time
    pub fn check_batch(amount: u32, expires_on: Option<Timestamp>, now: Timestamp) -> (rtn: Result<(), Self>)
        ensures
            match spec_check_batch(amount, expires_on, now) {
                Some(true) => rtn == Err::<(), _>(CreateInviteError::InvalidAmount),
                Some(false) => rtn == Err::<(), _>(CreateInviteError::InvalidExpiresOn),
                None => rtn is Ok,
            },
    {
        if amount == 0 || amount > 10 {
            return Err(CreateInviteError::InvalidAmount);
        }
        match expires_on {
            Some(e) => if !now.before(&e) {
                Err(CreateInviteError::InvalidExpiresOn)
            } else {
                Ok(())
            },
            None => Ok(()),
        }
    }
}

/// the start of the query that stores a batch of share invites
pub open spec fn share_invite_insert_prefix() -> Seq<char> {
    "insert into journal_share_invites (token, journal_shares_id, issued_on, status) values "@
}

/// what follows the token in each row: the share, issue time and status
/// are `$1` to `$3`
pub open spec fn share_invite_row_tail() -> Seq<char> {
    ", $1, $2, $3)"@
}

/// the query that stores `count` share invites, the tokens from `$4` on
pub fn share_invite_insert_query(count: usize) -> (rtn: String)
    requires
        count < 0x1000_0000,
    ensures
        rtn@ == share_invite_insert_prefix() + spec_param_rows(count as nat, 4, share_invite_row_tail()),
{
    let mut rtn = to_owned_string(
        "insert into journal_share_invites (token, journal_shares_id, issued_on, status) values ",
    );
    push_param_rows(&mut rtn, count, 4, ", $1, $2, $3)");
    rtn
}

/// the invites to delete
#[derive(Debug)]
pub enum DeleteInvite {
    Single { token: String },
}

/// why invites could not be deleted
#[derive(Debug)]
pub enum DeleteInviteError {
    JournalNotFound,
    ShareNotFound,
    TokensNotFound { tokens: Vec<String> },
}

impl DeleteInviteError {
    /// the http status of the error: 404
    pub fn status(&self) -> (rtn: u16)
        ensures
            rtn == 404,
    {
        404
    }

    /// the outcome of deleting one invite: it must have removed exactly one
    /// record, else its token was not found
    pub fn check_single(deleted: u64, token: String) -> (rtn: Result<(), Self>)
        ensures
            deleted == 1 ==> rtn is Ok,
            deleted != 1 ==> (rtn matches Err(DeleteInviteError::TokensNotFound { tokens })
                && tokens@.len() == 1 && tokens@[0]@ == token@),
    {
        if deleted != 1 {
            let mut tokens: Vec<String> = Vec::new();
            tokens.push(token);
            Err(DeleteInviteError::TokensNotFound { tokens })
        } else {
            Ok(())
        }
    }
}

} // verus!
