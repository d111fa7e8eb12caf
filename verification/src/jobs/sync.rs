//! Sending a journal's entries to a peer server, in batches: which batch
//! comes next, what a peer's answer means for an entry, and the sql that
//! records each entry's outcome.

use vstd::prelude::*;
use crate::db::ids::{EntryId, JournalUid};
use crate::db::{push_param_rows, spec_param_rows};
use crate::text::push_str;

verus! {

/// how many entries one batch asks for
pub const BATCH_SIZE: i64 = 50;

/// how many batches one run sends at most
pub const MAX_BATCHES: u32 = 2;

/// the http status with which a peer accepts an entry
pub const CREATED: u16 = 201;

/// what one batch did: the id of the last entry it read, how many it read,
/// and the ids that the peer accepted and refused
#[derive(Debug)]
pub struct BatchResults {
    pub last_id: EntryId,
    pub counted: i64,
    pub successful: Vec<EntryId>,
    pub failed: Vec<EntryId>,
}

/// where a run of batches stands: how many batches were sent, the entry
/// the next batch starts after, and the totals so far
#[derive(Debug)]
pub struct SyncProgress {
    pub batches: u32,
    pub prev_entry: EntryId,
    pub total_successful: usize,
    pub total_failed: usize,
}

impl SyncProgress {
    /// a run that has sent nothing and starts at the first entry
    pub fn new() -> (rtn: Self)
        ensures
            rtn.batches == 0,
            rtn.prev_entry.value() == 0,
            rtn.total_successful == 0,
            rtn.total_failed == 0,
    {
        SyncProgress { batches: 0, prev_entry: EntryId::zero(), total_successful: 0, total_failed: 0 }
    }

    /// counts a finished batch and says whether another one follows: only
    /// after a full batch, which moves the start past its last entry, and
    /// only while fewer than `MAX_BATCHES` were sent
    pub fn record(&mut self, result: &BatchResults) -> (more: bool)
        requires
            old(self).batches < MAX_BATCHES,
            old(self).total_successful + result.successful.len() <= usize::MAX,
            old(self).total_failed + result.failed.len() <= usize::MAX,
        ensures
            final(self).total_successful == old(self).total_successful + result.successful.len(),
            final(self).total_failed == old(self).total_failed + result.failed.len(),
            result.counted != BATCH_SIZE ==> {
                &&& !more
                &&& final(self).batches == old(self).batches
                &&& final(self).prev_entry == old(self).prev_entry
            },
            result.counted == BATCH_SIZE ==> {
                &&& final(self).batches == old(self).batches + 1
                &&& final(self).prev_entry == result.last_id
                &&& more == (final(self).batches < MAX_BATCHES)
            },
    {
        self.total_successful = self.total_successful + result.successful.len();
        self.total_failed = self.total_failed + result.failed.len();
        if result.counted != BATCH_SIZE {
            return false;
        }
        self.prev_entry = result.last_id;
        self.batches = self.batches + 1;
        self.batches < MAX_BATCHES
    }
}

/// what a peer's answer means for the entry it was sent: accepted only
/// with `201 Created`
pub fn send_outcome(status: u16, entries_id: EntryId) -> (rtn: Result<EntryId, EntryId>)
    ensures
        rtn == (if status == CREATED { Ok::<EntryId, EntryId>(entries_id) } else { Err::<EntryId, EntryId>(entries_id) }),
{
    if status == CREATED {
        Ok(entries_id)
    } else {
        Err(entries_id)
    }
}

/// the ids that were accepted, in order
pub open spec fn spec_accepted(results: Seq<Result<EntryId, EntryId>>) -> Seq<EntryId>
    decreases results.len(),
{
    if results.len() == 0 {
        Seq::empty()
    } else {
        match results.last() {
            Ok(id) => spec_accepted(results.drop_last()).push(id),
            Err(_) => spec_accepted(results.drop_last()),
        }
    }
}

/// the ids that were refused, in order
pub open spec fn spec_refused(results: Seq<Result<EntryId, EntryId>>) -> Seq<EntryId>
    decreases results.len(),
{
    if results.len() == 0 {
        Seq::empty()
    } else {
        match results.last() {
            Ok(_) => spec_refused(results.drop_last()),
            Err(id) => spec_refused(results.drop_last()).push(id),
        }
    }
}

/// sorts the outcomes of sent entries into the accepted and the refused,
/// each in the order the outcomes came
pub fn split_outcomes(results: &Vec<Result<EntryId, EntryId>>) -> (rtn: (Vec<EntryId>, Vec<EntryId>))
    ensures
        rtn.0@ == spec_accepted(results@),
        rtn.1@ == spec_refused(results@),
{
    let mut successful: Vec<EntryId> = Vec::new();
    let mut failed: Vec<EntryId> = Vec::new();
    let mut i: usize = 0;
    while i < results.len()
        invariant
            i <= results.len(),
            successful@ == spec_accepted(results@.take(i as int)),
            failed@ == spec_refused(results@.take(i as int)),
        decreases results.len() - i,
    {
        assert(results@.take(i as int + 1).drop_last() =~= results@.take(i as int));
        match &results[i] {
            Ok(id) => successful.push(*id),
            Err(id) => failed.push(*id),
        }
        i = i + 1;
    }
    assert(results@.take(results.len() as int) =~= results@);
    (successful, failed)
}

/// every outcome lands in exactly one of the two lists: together they hold
/// as many ids as there were outcomes
pub proof fn lemma_outcomes_partition(results: Seq<Result<EntryId, EntryId>>)
    ensures
        spec_accepted(results).len() + spec_refused(results).len() == results.len(),
    decreases results.len(),
{
    if results.len() > 0 {
        lemma_outcomes_partition(results.drop_last());
    }
}

/// the statement that records the outcome of `n` entries: the peer, the
/// status and the time are `$1` to `$3`, each entry's id a parameter of its
/// own from `$4` on; an entry already recorded for the peer takes the new
/// status and time
pub open spec fn spec_synced_query(n: nat) -> Seq<char> {
    "insert into synced_entries (entries_id, user_peers_id, status, updated) values "@
        + spec_param_rows(n, 4, ", $1, $2, $3)"@)
        + " on conflict (entries_id, user_peers_id) do update set status = excluded.status, updated = excluded.updated"@
}

/// the statement that records the outcome of the given entries, or none
/// when there are none to record
pub fn update_synced_query(given: &Vec<EntryId>) -> (rtn: Option<String>)
    requires
        given.len() + 4 <= u64::MAX,
    ensures
        given.len() == 0 <==> rtn is None,
        rtn matches Some(q) ==> q@ == spec_synced_query(given.len() as nat),
{
    if given.len() == 0 {
        return None;
    }
    let mut query = String::new();
    push_str(&mut query, "insert into synced_entries (entries_id, user_peers_id, status, updated) values ");
    push_param_rows(&mut query, given.len(), 4, ", $1, $2, $3)");
    push_str(&mut query, " on conflict (entries_id, user_peers_id) do update set status = excluded.status, updated = excluded.updated");
    proof {
        assert(query@ =~= spec_synced_query(given.len() as nat));
    }
    Some(query)
}

/// the path on the peer that takes the entries of a journal
pub open spec fn spec_entries_path(uid: Seq<char>) -> Seq<char> {
    "/api/journals/"@ + uid + "/entries"@
}

/// the path on the peer that takes the entries of the journal
pub fn entries_path(journals_uid: &JournalUid) -> (rtn: String)
    ensures
        rtn@ == spec_entries_path(journals_uid@),
{
    let mut rtn = String::new();
    push_str(&mut rtn, "/api/journals/");
    push_str(&mut rtn, journals_uid.inner());
    push_str(&mut rtn, "/entries");
    proof {
        assert(rtn@ =~= spec_entries_path(journals_uid@));
    }
    rtn
}

} // verus!
