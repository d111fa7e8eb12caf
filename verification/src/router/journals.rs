//! Journals of a user: the errors of their handlers, the check of custom
//! field names, how a change sorts the custom fields it sends, the peers a
//! journal is shared with, and the answer to a sync request.

use vstd::prelude::*;
use crate::db::ids::{CustomFieldId, JournalId, UserPeerId};
use crate::journal::custom_field::Type;
use crate::text::{push_char, push_decimal, push_str, spec_decimal, str_eq, string_views, to_owned_string};

verus! {

/// the journal named in the path
#[derive(Debug, Clone, Copy, PartialEq, Eq, Structural)]
pub struct JournalPath {
    pub journals_id: JournalId,
}

/// why a journal could not be read
#[derive(Debug, Clone, Copy, PartialEq, Eq, Structural)]
pub enum RetrieveJournalError {
    JournalNotFound,
}

impl RetrieveJournalError {
    /// the http status of the error: 404
    pub fn status(&self) -> (rtn: u16)
        ensures
            rtn == 404,
    {
        404
    }
}

/// why a journal could not be made
#[derive(Debug)]
pub enum CreateJournalError {
    NameExists,
    DuplicateCustomFields { duplicates: Vec<String> },
    PeersNotFound { ids: Vec<UserPeerId> },
}

impl CreateJournalError {
    /// the http status of the error: 400
    pub fn status(&self) -> (rtn: u16)
        ensures
            rtn == 400,
    {
        400
    }
}

/// a custom field that exists, as sent in a change to a journal
#[derive(Debug)]
pub struct ExistingCustomField {
    pub id: CustomFieldId,
    pub name: String,
    pub order: i32,
    pub description: Option<String>,
}

/// a custom field to make, as sent with a journal
#[derive(Debug)]
pub struct NewCustomField<F, FR> {
    pub name: String,
    pub order: i32,
    pub config: Type<F, FR>,
    pub description: Option<String>,
}

/// a journal to make, with its custom fields and the peers to share it with
#[derive(Debug)]
pub struct NewJournal<F, FR> {
    pub name: String,
    pub description: Option<String>,
    pub custom_fields: Vec<NewCustomField<F, FR>>,
    pub peers: Vec<UserPeerId>,
}

/// a custom field as sent in a change to a journal: one it has, or a new
/// one
#[derive(Debug)]
pub enum UpdateCustomField<F, FR> {
    Existing(ExistingCustomField),
    New(NewCustomField<F, FR>),
}

/// a change to a journal: its name and description, the custom fields it
/// keeps or gets, and the peers it is shared with
#[derive(Debug)]
pub struct UpdateJournal<F, FR> {
    pub name: String,
    pub description: Option<String>,
    pub custom_fields: Vec<UpdateCustomField<F, FR>>,
    pub peers: Vec<UserPeerId>,
}

/// why a journal could not be changed
#[derive(Debug)]
pub enum UpdateJournalError {
    JournalNotFound,
    NameExists,
    CustomFieldNotFound { ids: Vec<CustomFieldId> },
    DuplicateCustomFields { duplicates: Vec<String> },
    PeersNotFound { ids: Vec<UserPeerId> },
}

impl UpdateJournalError {
    /// the http status of the error: 404 for a missing journal, 400 for the
    /// rest
    pub fn status(&self) -> (rtn: u16)
        ensures
            rtn == (if *self is JournalNotFound { 404u16 } else { 400u16 }),
    {
        match self {
            UpdateJournalError::JournalNotFound => 404,
            _ => 400,
        }
    }
}

/// the options of a sync request
#[derive(Debug)]
pub struct SyncOptions {}

/// the answer to a sync request: the peers a sync was started for, or
/// nothing to do
#[derive(Debug)]
pub enum SyncResult {
    Queued { successful: Vec<String> },
    Noop,
}

impl SyncResult {
    /// the answer from the names of the peers a sync was started for
    pub fn from_started(successful: Vec<String>) -> (rtn: Self)
        ensures
            successful@.len() == 0 ==> rtn is Noop,
            successful@.len() > 0 ==> (rtn matches SyncResult::Queued { successful: s } && s@
                == successful@),
    {
        if successful.len() == 0 {
            SyncResult::Noop
        } else {
            SyncResult::Queued { successful }
        }
    }

    /// the http status of the answer: 200
    pub fn status(&self) -> (rtn: u16)
        ensures
            rtn == 200,
    {
        200
    }
}

/// why a sync could not be started
#[derive(Debug, Clone, Copy, PartialEq, Eq, Structural)]
pub enum SyncError {
    JournalNotFound,
}

impl SyncError {
    /// the http status of the error: 404
    pub fn status(&self) -> (rtn: u16)
        ensures
            rtn == 404,
    {
        404
    }
}

/// the names that repeat an earlier name of the list, once for each repeat
pub open spec fn spec_duplicates(names: Seq<Seq<char>>) -> Seq<Seq<char>>
    decreases names.len(),
{
    if names.len() == 0 {
        Seq::empty()
    } else {
        let rest = spec_duplicates(names.drop_last());
        if names.drop_last().contains(names.last()) {
            rest.push(names.last())
        } else {
            rest
        }
    }
}

/// whether a text is among the strings
fn contains_str(list: &Vec<String>, s: &str) -> (rtn: bool)
    ensures
        rtn == string_views(list@).contains(s@),
{
    let n = list.len();
    let mut i: usize = 0;
    while i < n
        invariant
            n == list@.len(),
            i <= n,
            forall|j: int| 0 <= j < i ==> list@[j]@ != s@,
        decreases n - i,
    {
        if str_eq(list[i].as_str(), s) {
            assert(string_views(list@)[i as int] == s@);
            return true;
        }
        i = i + 1;
    }
    proof {
        if string_views(list@).contains(s@) {
            let j = choose|j: int| 0 <= j < n && string_views(list@)[j] == s@;
            assert(list@[j]@ == s@);
        }
    }
    false
}

/// the custom field names that repeat an earlier one, in order
pub fn duplicate_names(names: &Vec<String>) -> (rtn: Vec<String>)
    ensures
        string_views(rtn@) == spec_duplicates(string_views(names@)),
{
    let ghost all = string_views(names@);
    let mut seen: Vec<String> = Vec::new();
    let mut rtn: Vec<String> = Vec::new();
    let n = names.len();
    let mut i: usize = 0;
    while i < n
        invariant
            n == names@.len(),
            all == string_views(names@),
            i <= n,
            string_views(seen@) == all.take(i as int),
            string_views(rtn@) == spec_duplicates(all.take(i as int)),
        decreases n - i,
    {
        let name = names[i].as_str();
        assert(all.take(i + 1).drop_last() =~= all.take(i as int));
        assert(all.take(i + 1).last() == name@);
        if contains_str(&seen, name) {
            rtn.push(to_owned_string(name));
            assert(string_views(rtn@) =~= spec_duplicates(all.take(i as int)).push(name@));
        }
        seen.push(to_owned_string(name));
        assert(string_views(seen@) =~= all.take(i + 1));
        i = i + 1;
    }
    assert(all.take(n as int) =~= all);
    rtn
}

/// whether no name of the list repeats
pub open spec fn names_distinct(names: Seq<Seq<char>>) -> bool {
    forall|i: int, j: int| 0 <= i < j < names.len() ==> (#[trigger] names[i]) != (#[trigger] names[j])
}

/// A list of custom field names is refused for duplicates exactly when some
/// name repeats: no duplicate is reported if and only if the names are all
/// different.
pub proof fn lemma_no_duplicates_iff_distinct(names: Seq<Seq<char>>)
    ensures
        (spec_duplicates(names).len() == 0) <==> names_distinct(names),
    decreases names.len(),
{
    if names.len() > 0 {
        let t = names.drop_last();
        let x = names.last();
        lemma_no_duplicates_iff_distinct(t);
        if t.contains(x) {
            let k = choose|k: int| 0 <= k < t.len() && t[k] == x;
            assert(names[k] == names[names.len() - 1]);
        } else {
            if names_distinct(t) {
                assert forall|i: int, j: int| 0 <= i < j < names.len() implies (#[trigger] names[i]) != (
                #[trigger] names[j]) by {
                    if j == names.len() - 1 {
                        assert(names[i] == t[i]);
                    } else {
                        assert(names[i] == t[i] && names[j] == t[j]);
                    }
                }
            } else {
                let (i, j) = choose|i: int, j: int| 0 <= i < j < t.len() && (#[trigger] t[i]) == (#[trigger] t[j]);
                assert(names[i] == t[i] && names[j] == t[j]);
            }
        }
    }
}

/// the name of a known peer
pub open spec fn spec_peer_name(known: Seq<(UserPeerId, Seq<char>)>, id: UserPeerId) -> Option<Seq<char>>
    decreases known.len(),
{
    if known.len() == 0 {
        None
    } else {
        match spec_peer_name(known.drop_last(), id) {
            Some(n) => Some(n),
            None => if known.last().0 == id {
                Some(known.last().1)
            } else {
                None
            },
        }
    }
}

/// where the peers of a journal stand after some of the list: the peers
/// taken, with their names, the ids not found, and the insert query so far
pub type PeersState = (Seq<(UserPeerId, Seq<char>)>, Seq<UserPeerId>, Seq<char>);

/// the start of the query that shares a journal with its peers
pub open spec fn peers_insert_prefix() -> Seq<char> {
    "insert into journal_peers (journals_id, user_peers_id) values "@
}

/// one id of the list applied: a known id not taken yet is taken and gets a
/// row, its parameter numbered after the journal and the ids before it,
/// with `, ` before it unless it is the first of the list; a taken id is
/// passed over; an unknown id is not found
pub open spec fn spec_peers_step(st: PeersState, known: Seq<(UserPeerId, Seq<char>)>, index: int, id: UserPeerId) -> PeersState {
    match spec_peer_name(known, id) {
        Some(name) => if st.0.map_values(|p: (UserPeerId, Seq<char>)| p.0).contains(id) {
            st
        } else {
            (
                st.0.push((id, name)),
                st.1,
                st.2 + (if index != 0 {
                    ", "@
                } else {
                    Seq::empty()
                }) + "($1, "@ + seq!['$'] + spec_decimal((st.0.len() + 2) as nat) + ")"@,
            )
        },
        None => (st.0, st.1.push(id), st.2),
    }
}

/// the list of peer ids applied in order
pub open spec fn spec_peers(known: Seq<(UserPeerId, Seq<char>)>, list: Seq<UserPeerId>) -> PeersState
    decreases list.len(),
{
    if list.len() == 0 {
        (Seq::empty(), Seq::empty(), peers_insert_prefix())
    } else {
        spec_peers_step(spec_peers(known, list.drop_last()), known, list.len() - 1, list.last())
    }
}

/// the peers of a journal: the known ones taken once each, in the order of
/// the list, the ids that are not known, and the query that stores them
#[derive(Debug)]
pub struct JournalPeersPlan {
    pub taken: Vec<(UserPeerId, String)>,
    pub not_found: Vec<UserPeerId>,
    pub query: String,
}

/// the peers, with their names, as plain values
pub open spec fn peer_views(v: Seq<(UserPeerId, String)>) -> Seq<(UserPeerId, Seq<char>)> {
    v.map_values(|p: (UserPeerId, String)| (p.0, p.1@))
}

/// the ids of peers
pub open spec fn peer_ids(v: Seq<(UserPeerId, Seq<char>)>) -> Seq<UserPeerId> {
    v.map_values(|p: (UserPeerId, Seq<char>)| p.0)
}

/// the name of a known peer
fn peer_name(known: &Vec<(UserPeerId, String)>, id: UserPeerId) -> (rtn: Option<String>)
    ensures
        match rtn {
            Some(n) => spec_peer_name(peer_views(known@), id) == Some(n@),
            None => spec_peer_name(peer_views(known@), id) is None,
        },
{
    let ghost views = peer_views(known@);
    let n = known.len();
    let mut i: usize = 0;
    while i < n
        invariant
            n == known@.len(),
            views == peer_views(known@),
            i <= n,
            spec_peer_name(views.take(i as int), id) is None,
        decreases n - i,
    {
        assert(views.take(i + 1).drop_last() =~= views.take(i as int));
        if known[i].0 == id {
            let name = to_owned_string(known[i].1.as_str());
            proof {
                lemma_peer_name_prefix(views, id, i as int + 1);
            }
            return Some(name);
        }
        i = i + 1;
    }
    assert(views.take(n as int) =~= views);
    None
}

/// a peer found in a prefix of the known peers is found with the same name
/// in all of them
pub proof fn lemma_peer_name_prefix(known: Seq<(UserPeerId, Seq<char>)>, id: UserPeerId, n: int)
    requires
        0 <= n <= known.len(),
        spec_peer_name(known.take(n), id) is Some,
    ensures
        spec_peer_name(known, id) == spec_peer_name(known.take(n), id),
    decreases known.len(),
{
    if n < known.len() {
        assert(known.drop_last().take(n) =~= known.take(n));
        lemma_peer_name_prefix(known.drop_last(), id, n);
    } else {
        assert(known.take(n) =~= known);
    }
}

/// whether a peer id was taken already
fn taken_contains(taken: &Vec<(UserPeerId, String)>, id: UserPeerId) -> (rtn: bool)
    ensures
        rtn == peer_ids(peer_views(taken@)).contains(id),
{
    let ghost ids = peer_ids(peer_views(taken@));
    let n = taken.len();
    let mut i: usize = 0;
    while i < n
        invariant
            n == taken@.len(),
            ids == peer_ids(peer_views(taken@)),
            i <= n,
            forall|j: int| 0 <= j < i ==> ids[j] != id,
        decreases n - i,
    {
        if taken[i].0 == id {
            assert(ids[i as int] == id);
            return true;
        }
        i = i + 1;
    }
    false
}

/// the peers of a journal from the ids sent and the peers the user has
pub fn plan_journal_peers(list: &Vec<UserPeerId>, known: &Vec<(UserPeerId, String)>) -> (rtn: JournalPeersPlan)
    requires
        list@.len() < 0x1000_0000,
    ensures
        spec_peers(peer_views(known@), list@) == (peer_views(rtn.taken@), rtn.not_found@, rtn.query@),
{
    let ghost kv = peer_views(known@);
    let mut taken: Vec<(UserPeerId, String)> = Vec::new();
    let mut not_found: Vec<UserPeerId> = Vec::new();
    let mut query = to_owned_string("insert into journal_peers (journals_id, user_peers_id) values ");
    let n = list.len();
    let mut i: usize = 0;
    while i < n
        invariant
            n == list@.len(),
            n < 0x1000_0000,
            kv == peer_views(known@),
            i <= n,
            taken@.len() <= i,
            spec_peers(kv, list@.take(i as int)) == (peer_views(taken@), not_found@, query@),
        decreases n - i,
    {
        let id = list[i];
        assert(list@.take(i + 1).drop_last() =~= list@.take(i as int));
        let ghost st = (peer_views(taken@), not_found@, query@);
        assert(peer_ids(st.0) == st.0.map_values(|p: (UserPeerId, Seq<char>)| p.0));
        match peer_name(known, id) {
            Some(name) => {
                if !taken_contains(&taken, id) {
                    let number = taken.len() as u64 + 2;
                    taken.push((id, name));
                    assert(peer_views(taken@) =~= st.0.push((id, name@)));
                    if i != 0 {
                        push_str(&mut query, ", ");
                    }
                    let ghost sep = query@;
                    push_str(&mut query, "($1, ");
                    push_char(&mut query, '$');
                    push_decimal(&mut query, number);
                    push_str(&mut query, ")");
                    assert(query@ =~= st.2 + (if i != 0 {
                        ", "@
                    } else {
                        Seq::empty()
                    }) + "($1, "@ + seq!['$'] + spec_decimal((st.0.len() + 2) as nat) + ")"@);
                }
            },
            None => {
                not_found.push(id);
            },
        }
        i = i + 1;
    }
    assert(list@.take(n as int) =~= list@);
    JournalPeersPlan { taken, not_found, query }
}

/// a sent custom field as plain values: the id of the field it changes,
/// none for a new field, and its name
pub open spec fn spec_field_key<F, FR>(f: UpdateCustomField<F, FR>) -> (Option<CustomFieldId>, Seq<char>) {
    match f {
        UpdateCustomField::Existing(e) => (Some(e.id), e.name@),
        UpdateCustomField::New(n) => (None, n.name@),
    }
}

/// the sent custom fields as plain values
pub open spec fn field_keys<F, FR>(v: Seq<UpdateCustomField<F, FR>>) -> Seq<(Option<CustomFieldId>, Seq<char>)> {
    v.map_values(|f: UpdateCustomField<F, FR>| spec_field_key(f))
}

/// the place of the first id equal to `id`
pub open spec fn spec_find_id(ids: Seq<CustomFieldId>, id: CustomFieldId) -> Option<int>
    decreases ids.len(),
{
    if ids.len() == 0 {
        None
    } else {
        match spec_find_id(ids.drop_last(), id) {
            Some(i) => Some(i),
            None => if ids.last() == id {
                Some(ids.len() - 1)
            } else {
                None
            },
        }
    }
}

/// where sorting the sent custom fields stands: the fields of the journal
/// that no sent field named yet, the names taken, the ids not found, the
/// names given twice, and the places of the fields to change and to make
pub struct FieldsState {
    pub remaining: Seq<CustomFieldId>,
    pub names: Seq<Seq<char>>,
    pub not_found: Seq<CustomFieldId>,
    pub duplicates: Seq<Seq<char>>,
    pub updates: Seq<int>,
    pub inserts: Seq<int>,
}

/// one sent field, at place `i`, applied: a field of the journal not named
/// yet is taken from the remaining ones, else its id is not found; its name
/// must not be taken yet; it is changed (or made, when new) only while no
/// id was missing and no name was given twice
pub open spec fn spec_fields_step(st: FieldsState, i: int, key: (Option<CustomFieldId>, Seq<char>)) -> FieldsState {
    let clean = st.not_found.len() == 0 && st.duplicates.len() == 0;
    match key.0 {
        Some(id) => match spec_find_id(st.remaining, id) {
            None => FieldsState { not_found: st.not_found.push(id), ..st },
            Some(k) => if st.names.contains(key.1) {
                FieldsState { remaining: st.remaining.remove(k), duplicates: st.duplicates.push(key.1), ..st }
            } else {
                FieldsState {
                    remaining: st.remaining.remove(k),
                    names: st.names.push(key.1),
                    updates: if clean { st.updates.push(i) } else { st.updates },
                    ..st
                }
            },
        },
        None => if st.names.contains(key.1) {
            FieldsState { duplicates: st.duplicates.push(key.1), ..st }
        } else {
            FieldsState {
                names: st.names.push(key.1),
                inserts: if clean { st.inserts.push(i) } else { st.inserts },
                ..st
            }
        },
    }
}

/// the sent fields applied in order against the fields the journal has
pub open spec fn spec_fields(existing: Seq<CustomFieldId>, keys: Seq<(Option<CustomFieldId>, Seq<char>)>) -> FieldsState
    decreases keys.len(),
{
    if keys.len() == 0 {
        FieldsState {
            remaining: existing,
            names: Seq::empty(),
            not_found: Seq::empty(),
            duplicates: Seq::empty(),
            updates: Seq::empty(),
            inserts: Seq::empty(),
        }
    } else {
        spec_fields_step(spec_fields(existing, keys.drop_last()), keys.len() - 1, keys.last())
    }
}

/// what a change does with the custom fields of a journal
#[derive(Debug)]
pub enum FieldsPlan {
    /// refused: these names were given more than once
    Duplicates(Vec<String>),
    /// refused: the journal has no fields with these ids
    NotFound(Vec<CustomFieldId>),
    /// the places of the sent fields to change and to make, and the ids of
    /// the fields of the journal to delete
    Apply { updates: Vec<usize>, inserts: Vec<usize>, deletes: Vec<CustomFieldId> },
}

/// the places as integers
pub open spec fn places(v: Seq<usize>) -> Seq<int> {
    v.map_values(|u: usize| u as int)
}

/// the first place of an id
fn find_id(ids: &Vec<CustomFieldId>, id: CustomFieldId) -> (rtn: Option<usize>)
    ensures
        match rtn {
            Some(k) => spec_find_id(ids@, id) == Some(k as int),
            None => spec_find_id(ids@, id) is None,
        },
{
    let n = ids.len();
    let mut i: usize = 0;
    while i < n
        invariant
            n == ids@.len(),
            i <= n,
            spec_find_id(ids@.take(i as int), id) is None,
        decreases n - i,
    {
        assert(ids@.take(i + 1).drop_last() =~= ids@.take(i as int));
        if ids[i] == id {
            proof {
                lemma_find_id_prefix(ids@, id, i as int + 1);
            }
            return Some(i);
        }
        i = i + 1;
    }
    assert(ids@.take(n as int) =~= ids@);
    None
}

/// an id found in a prefix of the ids is found at the same place in all of
/// them
proof fn lemma_find_id_prefix(ids: Seq<CustomFieldId>, id: CustomFieldId, n: int)
    requires
        0 <= n <= ids.len(),
        spec_find_id(ids.take(n), id) is Some,
    ensures
        spec_find_id(ids, id) == spec_find_id(ids.take(n), id),
    decreases ids.len(),
{
    if n < ids.len() {
        assert(ids.drop_last().take(n) =~= ids.take(n));
        lemma_find_id_prefix(ids.drop_last(), id, n);
    } else {
        assert(ids.take(n) =~= ids);
    }
}

/// the first place of an id lies among the ids and holds it
proof fn lemma_find_id_bounds(ids: Seq<CustomFieldId>, id: CustomFieldId)
    ensures
        spec_find_id(ids, id) matches Some(k) ==> 0 <= k < ids.len() && ids[k] == id,
    decreases ids.len(),
{
    if ids.len() > 0 {
        lemma_find_id_bounds(ids.drop_last(), id);
    }
}

/// sorts the custom fields sent in a change to a journal against the ids of
/// the fields it has: names given twice are refused first, then ids it does
/// not have; else each sent field is changed or made, and the fields no
/// sent field named are deleted
pub fn plan_custom_fields<F, FR>(existing: &Vec<CustomFieldId>, fields: &Vec<UpdateCustomField<F, FR>>) -> (rtn: FieldsPlan)
    requires
        fields@.len() <= usize::MAX,
    ensures
        ({
            let st = spec_fields(existing@, field_keys(fields@));
            match rtn {
                FieldsPlan::Duplicates(d) => st.duplicates.len() > 0 && string_views(d@) == st.duplicates,
                FieldsPlan::NotFound(ids) => st.duplicates.len() == 0 && st.not_found.len() > 0 && ids@ == st.not_found,
                FieldsPlan::Apply { updates, inserts, deletes } => st.duplicates.len() == 0 && st.not_found.len() == 0
                    && places(updates@) == st.updates && places(inserts@) == st.inserts && deletes@ == st.remaining,
            }
        }),
{
    let ghost keys = field_keys(fields@);
    let mut remaining: Vec<CustomFieldId> = Vec::new();
    let mut j: usize = 0;
    while j < existing.len()
        invariant
            j <= existing.len(),
            remaining@ == existing@.take(j as int),
        decreases existing.len() - j,
    {
        remaining.push(existing[j]);
        assert(remaining@ =~= existing@.take(j + 1));
        j = j + 1;
    }
    assert(existing@.take(existing.len() as int) =~= existing@);
    let mut names: Vec<String> = Vec::new();
    let mut not_found: Vec<CustomFieldId> = Vec::new();
    let mut duplicates: Vec<String> = Vec::new();
    let mut updates: Vec<usize> = Vec::new();
    let mut inserts: Vec<usize> = Vec::new();
    let n = fields.len();
    let mut i: usize = 0;
    assert(keys.take(0) =~= Seq::<(Option<CustomFieldId>, Seq<char>)>::empty());
    assert(places(updates@) =~= Seq::<int>::empty());
    assert(places(inserts@) =~= Seq::<int>::empty());
    assert(string_views(names@) =~= Seq::<Seq<char>>::empty());
    assert(string_views(duplicates@) =~= Seq::<Seq<char>>::empty());
    while i < n
        invariant
            n == fields@.len(),
            keys == field_keys(fields@),
            i <= n,
            spec_fields(existing@, keys.take(i as int)) == (FieldsState {
                remaining: remaining@,
                names: string_views(names@),
                not_found: not_found@,
                duplicates: string_views(duplicates@),
                updates: places(updates@),
                inserts: places(inserts@),
            }),
        decreases n - i,
    {
        let ghost before = spec_fields(existing@, keys.take(i as int));
        assert(keys.take(i + 1).drop_last() =~= keys.take(i as int));
        assert(keys.take(i + 1).last() == spec_field_key(fields@[i as int]));
        let clean = not_found.len() == 0 && duplicates.len() == 0;
        match &fields[i] {
            UpdateCustomField::Existing(e) => {
                match find_id(&remaining, e.id) {
                    None => {
                        not_found.push(e.id);
                    },
                    Some(k) => {
                        proof {
                            lemma_find_id_bounds(remaining@, e.id);
                        }
                        remaining.remove(k);
                        if contains_str(&names, e.name.as_str()) {
                            duplicates.push(to_owned_string(e.name.as_str()));
                            assert(string_views(duplicates@) =~= before.duplicates.push(e.name@));
                        } else {
                            names.push(to_owned_string(e.name.as_str()));
                            assert(string_views(names@) =~= before.names.push(e.name@));
                            if clean {
                                updates.push(i);
                                assert(places(updates@) =~= before.updates.push(i as int));
                            }
                        }
                    },
                }
            },
            UpdateCustomField::New(f) => {
                if contains_str(&names, f.name.as_str()) {
                    duplicates.push(to_owned_string(f.name.as_str()));
                    assert(string_views(duplicates@) =~= before.duplicates.push(f.name@));
                } else {
                    names.push(to_owned_string(f.name.as_str()));
                    assert(string_views(names@) =~= before.names.push(f.name@));
                    if clean {
                        inserts.push(i);
                        assert(places(inserts@) =~= before.inserts.push(i as int));
                    }
                }
            },
        }
        i = i + 1;
    }
    assert(keys.take(n as int) =~= keys);
    if duplicates.len() > 0 {
        FieldsPlan::Duplicates(duplicates)
    } else if not_found.len() > 0 {
        FieldsPlan::NotFound(not_found)
    } else {
        FieldsPlan::Apply { updates, inserts, deletes: remaining }
    }
}

/// errors only pile up: a later field never clears a missing id or a name
/// given twice
proof fn lemma_fields_errors_grow(existing: Seq<CustomFieldId>, keys: Seq<(Option<CustomFieldId>, Seq<char>)>)
    requires
        keys.len() > 0,
    ensures
        spec_fields(existing, keys).not_found.len() >= spec_fields(existing, keys.drop_last()).not_found.len(),
        spec_fields(existing, keys).duplicates.len() >= spec_fields(existing, keys.drop_last()).duplicates.len(),
{
}

/// When a change to a journal's custom fields is accepted, every field it
/// sends is acted on: the ones naming an existing field are changed and
/// the new ones are made, each exactly once.
pub proof fn lemma_accepted_fields_all_applied(existing: Seq<CustomFieldId>, keys: Seq<(Option<CustomFieldId>, Seq<char>)>)
    requires
        spec_fields(existing, keys).duplicates.len() == 0,
        spec_fields(existing, keys).not_found.len() == 0,
    ensures
        ({
            let st = spec_fields(existing, keys);
            &&& st.updates.len() + st.inserts.len() == keys.len()
            &&& forall|i: int| 0 <= i < keys.len() ==> (#[trigger] keys[i]).0 is Some ==> st.updates.contains(i)
            &&& forall|i: int| 0 <= i < keys.len() ==> (#[trigger] keys[i]).0 is None ==> st.inserts.contains(i)
        }),
    decreases keys.len(),
{
    if keys.len() > 0 {
        let prev = spec_fields(existing, keys.drop_last());
        let st = spec_fields(existing, keys);
        let n = keys.len() - 1;
        lemma_fields_errors_grow(existing, keys);
        lemma_accepted_fields_all_applied(existing, keys.drop_last());
        match keys.last().0 {
            Some(id) => {
                assert(spec_find_id(prev.remaining, id) is Some);
                assert(!prev.names.contains(keys.last().1));
                assert(st.updates == prev.updates.push(n));
                assert(st.inserts == prev.inserts);
            },
            None => {
                assert(!prev.names.contains(keys.last().1));
                assert(st.inserts == prev.inserts.push(n));
                assert(st.updates == prev.updates);
            },
        }
        assert forall|i: int| 0 <= i < keys.len() implies (#[trigger] keys[i]).0 is Some ==> st.updates.contains(i) by {
            if i < n {
                assert(keys[i] == keys.drop_last()[i]);
                if keys[i].0 is Some {
                    let j = choose|j: int| 0 <= j < prev.updates.len() && prev.updates[j] == i;
                    if keys.last().0 is Some {
                        assert(st.updates[j] == i);
                    } else {
                        assert(st.updates[j] == i);
                    }
                }
            } else {
                if keys[i].0 is Some {
                    assert(st.updates[st.updates.len() - 1] == i);
                }
            }
        }
        assert forall|i: int| 0 <= i < keys.len() implies (#[trigger] keys[i]).0 is None ==> st.inserts.contains(i) by {
            if i < n {
                assert(keys[i] == keys.drop_last()[i]);
                if keys[i].0 is None {
                    let j = choose|j: int| 0 <= j < prev.inserts.len() && prev.inserts[j] == i;
                    assert(st.inserts[j] == i);
                }
            } else {
                if keys[i].0 is None {
                    assert(st.inserts[st.inserts.len() - 1] == i);
                }
            }
        }
    }
}

/// whether some sent field names the id
pub open spec fn spec_named(keys: Seq<(Option<CustomFieldId>, Seq<char>)>, id: CustomFieldId) -> bool {
    exists|i: int| 0 <= i < keys.len() && (#[trigger] keys[i]).0 == Some(id)
}

/// removing one place of a list without repeats leaves a list without
/// repeats that holds all the others
proof fn lemma_remove_distinct(s: Seq<CustomFieldId>, k: int)
    requires
        s.no_duplicates(),
        0 <= k < s.len(),
    ensures
        s.remove(k).no_duplicates(),
        forall|x: CustomFieldId| #[trigger] s.remove(k).contains(x) <==> (s.contains(x) && x != s[k]),
{
    let r = s.remove(k);
    assert forall|a: int, b: int| 0 <= a < r.len() && 0 <= b < r.len() && a != b implies r[a] != r[b] by {
        let sa = if a < k { a } else { a + 1 };
        let sb = if b < k { b } else { b + 1 };
        assert(r[a] == s[sa]);
        assert(r[b] == s[sb]);
    }
    assert forall|x: CustomFieldId| #[trigger] r.contains(x) <==> (s.contains(x) && x != s[k]) by {
        if r.contains(x) {
            let a = choose|a: int| 0 <= a < r.len() && r[a] == x;
            let sa = if a < k { a } else { a + 1 };
            assert(s[sa] == x);
        }
        if s.contains(x) && x != s[k] {
            let a = choose|a: int| 0 <= a < s.len() && s[a] == x;
            if a < k {
                assert(r[a] == x);
            } else {
                assert(r[a - 1] == x);
            }
        }
    }
}

/// When a change to a journal's custom fields is accepted, the fields that
/// are deleted are exactly the journal's fields that the change does not
/// name.
pub proof fn lemma_accepted_fields_delete_unnamed(existing: Seq<CustomFieldId>, keys: Seq<(Option<CustomFieldId>, Seq<char>)>)
    requires
        existing.no_duplicates(),
        spec_fields(existing, keys).duplicates.len() == 0,
        spec_fields(existing, keys).not_found.len() == 0,
    ensures
        spec_fields(existing, keys).remaining.no_duplicates(),
        forall|id: CustomFieldId| #[trigger] spec_fields(existing, keys).remaining.contains(id) <==> (existing.contains(id) && !spec_named(keys, id)),
    decreases keys.len(),
{
    if keys.len() > 0 {
        let t = keys.drop_last();
        let prev = spec_fields(existing, t);
        let st = spec_fields(existing, keys);
        lemma_fields_errors_grow(existing, keys);
        lemma_accepted_fields_delete_unnamed(existing, t);
        match keys.last().0 {
            Some(id) => {
                let k = spec_find_id(prev.remaining, id).unwrap();
                lemma_find_id_bounds(prev.remaining, id);
                assert(st.remaining == prev.remaining.remove(k));
                lemma_remove_distinct(prev.remaining, k);
                assert forall|x: CustomFieldId| #[trigger] st.remaining.contains(x) <==> (existing.contains(x) && !spec_named(keys, x)) by {
                    if spec_named(keys, x) && x != id {
                        let i = choose|i: int| 0 <= i < keys.len() && (#[trigger] keys[i]).0 == Some(x);
                        assert(t[i] == keys[i]);
                        assert(spec_named(t, x));
                    }
                    if spec_named(t, x) {
                        let i = choose|i: int| 0 <= i < t.len() && (#[trigger] t[i]).0 == Some(x);
                        assert(keys[i] == t[i]);
                    }
                    if x == id {
                        assert(keys[keys.len() - 1].0 == Some(x));
                    }
                }
            },
            None => {
                assert(st.remaining == prev.remaining);
                assert forall|x: CustomFieldId| #[trigger] st.remaining.contains(x) <==> (existing.contains(x) && !spec_named(keys, x)) by {
                    if spec_named(keys, x) {
                        let i = choose|i: int| 0 <= i < keys.len() && (#[trigger] keys[i]).0 == Some(x);
                        assert(i < keys.len() - 1);
                        assert(t[i] == keys[i]);
                    }
                    if spec_named(t, x) {
                        let i = choose|i: int| 0 <= i < t.len() && (#[trigger] t[i]).0 == Some(x);
                        assert(keys[i] == t[i]);
                    }
                }
            },
        }
    }
}

} // verus!
