//! Sharing a journal with other users: share invites and the abilities a
//! share grants.

use vstd::prelude::*;
use crate::db::ids::{JournalId, JournalShareId};
use crate::text::str_eq;

verus! {

/// how a journal share is looked up
#[derive(Debug)]
pub enum RetrieveShare<'a> {
    JournalAndId((&'a JournalId, &'a JournalShareId)),
}

/// the state of an invite to a journal share
#[derive(Debug, Clone, Copy, PartialEq, Eq, Structural)]
pub enum JournalShareInviteStatus {
    Pending,
    Accepted,
    Rejected,
}

/// the provided status value is invalid
#[derive(Debug)]
pub struct InvalidJournalShareInviteStatus;

/// the number that stores an invite status
pub open spec fn spec_status_code(status: JournalShareInviteStatus) -> i16 {
    match status {
        JournalShareInviteStatus::Pending => 0,
        JournalShareInviteStatus::Accepted => 1,
        JournalShareInviteStatus::Rejected => 2,
    }
}

/// the invite status that a stored number stands for
pub open spec fn spec_status_from_code(value: i16) -> Option<JournalShareInviteStatus> {
    if value == 0 {
        Some(JournalShareInviteStatus::Pending)
    } else if value == 1 {
        Some(JournalShareInviteStatus::Accepted)
    } else if value == 2 {
        Some(JournalShareInviteStatus::Rejected)
    } else {
        None
    }
}

impl JournalShareInviteStatus {
    /// whether the invite is still waiting for an answer
    pub fn is_pending(&self) -> (rtn: bool)
        ensures
            rtn == (*self == JournalShareInviteStatus::Pending),
    {
        match self {
            Self::Pending => true,
            _ => false,
        }
    }

    /// the number that stores the status
    pub fn to_code(&self) -> (rtn: i16)
        ensures
            rtn == spec_status_code(*self),
    {
        match self {
            JournalShareInviteStatus::Pending => 0,
            JournalShareInviteStatus::Accepted => 1,
            JournalShareInviteStatus::Rejected => 2,
        }
    }

    /// the status that a stored number stands for
    pub fn try_from_code(value: i16) -> (rtn: Result<Self, InvalidJournalShareInviteStatus>)
        ensures
            match rtn {
                Ok(status) => spec_status_from_code(value) == Some(status),
                Err(_) => spec_status_from_code(value) is None,
            },
    {
        match value {
            0 => Ok(JournalShareInviteStatus::Pending),
            1 => Ok(JournalShareInviteStatus::Accepted),
            2 => Ok(JournalShareInviteStatus::Rejected),
            _ => Err(InvalidJournalShareInviteStatus),
        }
    }
}

/// reading back the stored number of a status gives the status, and every
/// number that reads as a status is the stored number of that status
pub proof fn lemma_status_code_roundtrip(status: JournalShareInviteStatus, value: i16)
    ensures
        spec_status_from_code(spec_status_code(status)) == Some(status),
        spec_status_from_code(value) matches Some(s) ==> spec_status_code(s) == value,
{
}

/// an ability granted by a journal share
pub struct JournalShareAbility {
    pub journal_shares_id: JournalShareId,
    pub ability: Ability,
}

/// what a journal share lets its members do
#[derive(Debug, Clone, Copy, PartialEq, Eq, Hash, Structural)]
pub enum Ability {
    JournalUpdate,
    EntryCreate,
    EntryUpdate,
    EntryDelete,
}

/// the provided string is not a valid ability
#[derive(Debug)]
pub struct InvalidAbility;

/// the text that names an ability
pub open spec fn spec_ability_str(ability: Ability) -> Seq<char> {
    match ability {
        Ability::JournalUpdate => "journal_update"@,
        Ability::EntryCreate => "entry_create"@,
        Ability::EntryUpdate => "entry_update"@,
        Ability::EntryDelete => "entry_delete"@,
    }
}

/// the ability that a text names
pub open spec fn spec_parse_ability(s: Seq<char>) -> Option<Ability> {
    if s == "journal_update"@ {
        Some(Ability::JournalUpdate)
    } else if s == "entry_create"@ {
        Some(Ability::EntryCreate)
    } else if s == "entry_update"@ {
        Some(Ability::EntryUpdate)
    } else if s == "entry_delete"@ {
        Some(Ability::EntryDelete)
    } else {
        None
    }
}

impl Ability {
    /// the text that names the ability
    pub fn as_str(&self) -> (rtn: &'static str)
        ensures
            rtn@ == spec_ability_str(*self),
    {
        match self {
            Self::JournalUpdate => "journal_update",
            Self::EntryCreate => "entry_create",
            Self::EntryUpdate => "entry_update",
            Self::EntryDelete => "entry_delete",
        }
    }

    /// the ability that a text names, or `InvalidAbility` for any other text
    pub fn parse(s: &str) -> (rtn: Result<Self, InvalidAbility>)
        ensures
            match rtn {
                Ok(a) => spec_parse_ability(s@) == Some(a),
                Err(_) => spec_parse_ability(s@) is None,
            },
    {
        if str_eq(s, "journal_update") {
            Ok(Self::JournalUpdate)
        } else if str_eq(s, "entry_create") {
            Ok(Self::EntryCreate)
        } else if str_eq(s, "entry_update") {
            Ok(Self::EntryUpdate)
        } else if str_eq(s, "entry_delete") {
            Ok(Self::EntryDelete)
        } else {
            Err(InvalidAbility)
        }
    }
}

impl std::str::FromStr for Ability {
    type Err = InvalidAbility;

    fn from_str(s: &str) -> (rtn: Result<Self, Self::Err>)
        ensures
            match rtn {
                Ok(a) => spec_parse_ability(s@) == Some(a),
                Err(_) => spec_parse_ability(s@) is None,
            },
    {
        Ability::parse(s)
    }
}

/// parsing the name of an ability gives the ability back
pub proof fn lemma_ability_roundtrip(ability: Ability)
    ensures
        spec_parse_ability(spec_ability_str(ability)) == Some(ability),
{
    reveal_strlit("journal_update");
    reveal_strlit("entry_create");
    reveal_strlit("entry_update");
    reveal_strlit("entry_delete");
    assert("journal_update"@[0] != "entry_create"@[0]);
    assert("journal_update"@[0] != "entry_update"@[0]);
    assert("journal_update"@[0] != "entry_delete"@[0]);
    assert("entry_create"@[6] != "entry_update"@[6]);
    assert("entry_create"@[6] != "entry_delete"@[6]);
    assert("entry_update"@[6] != "entry_delete"@[6]);
}

} // verus!
