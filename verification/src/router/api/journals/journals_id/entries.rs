//! An entry that a peer syncs: which of its files are updated, added or
//! dropped, which of its custom fields are stored, and the sql of each.

use vstd::prelude::*;
use crate::db::ids::{CustomFieldId, FileEntryId};
use crate::text::{push_char, push_decimal, push_str, spec_decimal, str_eq, string_views, to_owned_string};

verus! {

/// the view of an optional string
pub open spec fn opt_view(s: Option<String>) -> Option<Seq<char>> {
    match s {
        Some(v) => Some(v@),
        None => None,
    }
}

/// a copy of an optional text
fn copy_opt(s: &Option<String>) -> (rtn: Option<String>)
    ensures
        opt_view(rtn) == opt_view(*s),
{
    match s {
        Some(v) => Some(to_owned_string(v.as_str())),
        None => None,
    }
}

/// a file of a synced entry: its uid and its name
#[derive(Debug)]
pub struct EntryFileSync {
    pub uid: String,
    pub name: Option<String>,
}

/// a file the entry has: its uid and its id
#[derive(Debug)]
pub struct KnownFile {
    pub uid: String,
    pub id: FileEntryId,
}

/// the id of the first known file with the uid
pub open spec fn spec_known_id(known: Seq<(Seq<char>, FileEntryId)>, uid: Seq<char>) -> Option<FileEntryId>
    decreases known.len(),
{
    if known.len() == 0 {
        None
    } else {
        match spec_known_id(known.drop_last(), uid) {
            Some(id) => Some(id),
            None => if known.last().0 == uid {
                Some(known.last().1)
            } else {
                None
            },
        }
    }
}

/// the files to update (uid, id, name) and to insert (uid, name) so far
pub type FileSyncState = (Seq<(Seq<char>, FileEntryId, Option<Seq<char>>)>, Seq<(Seq<char>, Option<Seq<char>>)>);

/// one sent file applied: a file the entry has is updated with its name,
/// once; any other file is inserted, once, unless its uid is taken by a
/// file the database attaches to this entry
pub open spec fn spec_file_step(
    st: FileSyncState,
    known: Seq<(Seq<char>, FileEntryId)>,
    file: (Seq<char>, Option<Seq<char>>),
    attached_here: bool,
) -> FileSyncState {
    match spec_known_id(known, file.0) {
        Some(id) => if st.0.map_values(|u: (Seq<char>, FileEntryId, Option<Seq<char>>)| u.0).contains(file.0) {
            st
        } else {
            (st.0.push((file.0, id, file.1)), st.1)
        },
        None => if attached_here {
            st
        } else if st.1.map_values(|i: (Seq<char>, Option<Seq<char>>)| i.0).contains(file.0) {
            st
        } else {
            (st.0, st.1.push(file))
        },
    }
}

/// the sent files applied in order
pub open spec fn spec_file_sync(
    known: Seq<(Seq<char>, FileEntryId)>,
    files: Seq<(Seq<char>, Option<Seq<char>>)>,
    attached: Seq<bool>,
) -> FileSyncState
    decreases files.len(),
{
    if files.len() == 0 {
        (Seq::empty(), Seq::empty())
    } else {
        spec_file_step(
            spec_file_sync(known, files.drop_last(), attached),
            known,
            files.last(),
            attached[files.len() - 1],
        )
    }
}

/// the known files that no sent file updates, to be dropped
pub open spec fn spec_file_drops(known: Seq<(Seq<char>, FileEntryId)>, updated: Seq<Seq<char>>) -> Seq<Seq<char>>
    decreases known.len(),
{
    if known.len() == 0 {
        Seq::empty()
    } else {
        let rest = spec_file_drops(known.drop_last(), updated);
        if updated.contains(known.last().0) {
            rest
        } else {
            rest.push(known.last().0)
        }
    }
}

/// what a sync does with the files of an entry
#[derive(Debug)]
pub struct FileSyncPlan {
    /// the files the entry has that take a new name: uid, id and name
    pub updates: Vec<(String, FileEntryId, Option<String>)>,
    /// the files to insert: uid and name
    pub inserts: Vec<(String, Option<String>)>,
    /// the uids of the files the entry has that were not sent
    pub to_drop: Vec<String>,
}

/// the known files as plain values
pub open spec fn known_views(v: Seq<KnownFile>) -> Seq<(Seq<char>, FileEntryId)> {
    v.map_values(|k: KnownFile| (k.uid@, k.id))
}

/// the sent files as plain values
pub open spec fn file_views(v: Seq<EntryFileSync>) -> Seq<(Seq<char>, Option<Seq<char>>)> {
    v.map_values(|f: EntryFileSync| (f.uid@, opt_view(f.name)))
}

/// the updates as plain values
pub open spec fn update_views(v: Seq<(String, FileEntryId, Option<String>)>) -> Seq<(Seq<char>, FileEntryId, Option<Seq<char>>)> {
    v.map_values(|u: (String, FileEntryId, Option<String>)| (u.0@, u.1, opt_view(u.2)))
}

/// the inserts as plain values
pub open spec fn insert_views(v: Seq<(String, Option<String>)>) -> Seq<(Seq<char>, Option<Seq<char>>)> {
    v.map_values(|i: (String, Option<String>)| (i.0@, opt_view(i.1)))
}

/// the id of the first known file with the uid
fn known_id(known: &Vec<KnownFile>, uid: &str) -> (rtn: Option<FileEntryId>)
    ensures
        rtn == spec_known_id(known_views(known@), uid@),
{
    let ghost views = known_views(known@);
    let n = known.len();
    let mut i: usize = 0;
    while i < n
        invariant
            n == known@.len(),
            views == known_views(known@),
            i <= n,
            spec_known_id(views.take(i as int), uid@) is None,
        decreases n - i,
    {
        assert(views.take(i + 1).drop_last() =~= views.take(i as int));
        if str_eq(known[i].uid.as_str(), uid) {
            proof {
                lemma_known_id_prefix(views, uid@, i as int + 1);
            }
            return Some(known[i].id);
        }
        i = i + 1;
    }
    assert(views.take(n as int) =~= views);
    None
}

/// a uid found in a prefix of the known files is found with the same id in
/// all of them
pub proof fn lemma_known_id_prefix(known: Seq<(Seq<char>, FileEntryId)>, uid: Seq<char>, n: int)
    requires
        0 <= n <= known.len(),
        spec_known_id(known.take(n), uid) is Some,
    ensures
        spec_known_id(known, uid) == spec_known_id(known.take(n), uid),
    decreases known.len(),
{
    if n < known.len() {
        assert(known.drop_last().take(n) =~= known.take(n));
        lemma_known_id_prefix(known.drop_last(), uid, n);
    } else {
        assert(known.take(n) =~= known);
    }
}

/// whether an update names the uid
fn updates_contain(updates: &Vec<(String, FileEntryId, Option<String>)>, uid: &str) -> (rtn: bool)
    ensures
        rtn == update_views(updates@).map_values(|u: (Seq<char>, FileEntryId, Option<Seq<char>>)| u.0).contains(uid@),
{
    let ghost ids = update_views(updates@).map_values(|u: (Seq<char>, FileEntryId, Option<Seq<char>>)| u.0);
    let n = updates.len();
    let mut i: usize = 0;
    while i < n
        invariant
            n == updates@.len(),
            ids == update_views(updates@).map_values(|u: (Seq<char>, FileEntryId, Option<Seq<char>>)| u.0),
            i <= n,
            forall|j: int| 0 <= j < i ==> ids[j] != uid@,
        decreases n - i,
    {
        if str_eq(updates[i].0.as_str(), uid) {
            assert(ids[i as int] == uid@);
            return true;
        }
        i = i + 1;
    }
    false
}

/// whether an insert names the uid
fn inserts_contain(inserts: &Vec<(String, Option<String>)>, uid: &str) -> (rtn: bool)
    ensures
        rtn == insert_views(inserts@).map_values(|i: (Seq<char>, Option<Seq<char>>)| i.0).contains(uid@),
{
    let ghost ids = insert_views(inserts@).map_values(|i: (Seq<char>, Option<Seq<char>>)| i.0);
    let n = inserts.len();
    let mut i: usize = 0;
    while i < n
        invariant
            n == inserts@.len(),
            ids == insert_views(inserts@).map_values(|i: (Seq<char>, Option<Seq<char>>)| i.0),
            i <= n,
            forall|j: int| 0 <= j < i ==> ids[j] != uid@,
        decreases n - i,
    {
        if str_eq(inserts[i].0.as_str(), uid) {
            assert(ids[i as int] == uid@);
            return true;
        }
        i = i + 1;
    }
    false
}

/// what a sync does with the files of an entry, from the files the entry
/// has, the files sent, and for each sent file whether the database
/// attaches its uid to this entry
pub fn plan_file_sync(known: &Vec<KnownFile>, files: &Vec<EntryFileSync>, attached_here: &Vec<bool>) -> (rtn: FileSyncPlan)
    requires
        attached_here@.len() == files@.len(),
    ensures
        ({
            let st = spec_file_sync(known_views(known@), file_views(files@), attached_here@);
            &&& update_views(rtn.updates@) == st.0
            &&& insert_views(rtn.inserts@) == st.1
            &&& string_views(rtn.to_drop@) == spec_file_drops(
                known_views(known@),
                st.0.map_values(|u: (Seq<char>, FileEntryId, Option<Seq<char>>)| u.0),
            )
        }),
{
    let ghost kv = known_views(known@);
    let ghost fv = file_views(files@);
    let mut updates: Vec<(String, FileEntryId, Option<String>)> = Vec::new();
    let mut inserts: Vec<(String, Option<String>)> = Vec::new();
    let n = files.len();
    let mut i: usize = 0;
    while i < n
        invariant
            n == files@.len(),
            attached_here@.len() == n,
            kv == known_views(known@),
            fv == file_views(files@),
            i <= n,
            spec_file_sync(kv, fv.take(i as int), attached_here@) == (update_views(updates@), insert_views(inserts@)),
        decreases n - i,
    {
        let file = &files[i];
        let uid = file.uid.as_str();
        assert(fv.take(i + 1).drop_last() =~= fv.take(i as int));
        assert(fv.take(i + 1).last() == (file.uid@, opt_view(file.name)));
        let ghost st = (update_views(updates@), insert_views(inserts@));
        match known_id(known, uid) {
            Some(id) => {
                if !updates_contain(&updates, uid) {
                    updates.push((to_owned_string(uid), id, copy_opt(&file.name)));
                    assert(update_views(updates@) =~= st.0.push((file.uid@, id, opt_view(file.name))));
                }
            },
            None => {
                if !attached_here[i] && !inserts_contain(&inserts, uid) {
                    inserts.push((to_owned_string(uid), copy_opt(&file.name)));
                    assert(insert_views(inserts@) =~= st.1.push((file.uid@, opt_view(file.name))));
                }
            },
        }
        i = i + 1;
    }
    assert(fv.take(n as int) =~= fv);
    let ghost updated = update_views(updates@).map_values(|u: (Seq<char>, FileEntryId, Option<Seq<char>>)| u.0);
    let mut to_drop: Vec<String> = Vec::new();
    let m = known.len();
    let mut j: usize = 0;
    while j < m
        invariant
            m == known@.len(),
            kv == known_views(known@),
            updated == update_views(updates@).map_values(|u: (Seq<char>, FileEntryId, Option<Seq<char>>)| u.0),
            j <= m,
            string_views(to_drop@) == spec_file_drops(kv.take(j as int), updated),
        decreases m - j,
    {
        let uid = known[j].uid.as_str();
        assert(kv.take(j + 1).drop_last() =~= kv.take(j as int));
        assert(kv.take(j + 1).last().0 == uid@);
        if !updates_contain(&updates, uid) {
            to_drop.push(to_owned_string(uid));
            assert(string_views(to_drop@) =~= spec_file_drops(kv.take(j as int), updated).push(uid@));
        }
        j = j + 1;
    }
    assert(kv.take(m as int) =~= kv);
    FileSyncPlan { updates, inserts, to_drop }
}

/// the uids of the known files
pub open spec fn known_uids(known: Seq<(Seq<char>, FileEntryId)>) -> Seq<Seq<char>> {
    known.map_values(|k: (Seq<char>, FileEntryId)| k.0)
}

/// the uids of the sent files
pub open spec fn sent_uids(files: Seq<(Seq<char>, Option<Seq<char>>)>) -> Seq<Seq<char>> {
    files.map_values(|f: (Seq<char>, Option<Seq<char>>)| f.0)
}

/// the uids of the files to update
pub open spec fn updated_uids(updates: Seq<(Seq<char>, FileEntryId, Option<Seq<char>>)>) -> Seq<Seq<char>> {
    updates.map_values(|u: (Seq<char>, FileEntryId, Option<Seq<char>>)| u.0)
}

/// a uid has a known id exactly when some known file has it
proof fn lemma_known_id_found(known: Seq<(Seq<char>, FileEntryId)>, uid: Seq<char>)
    ensures
        spec_known_id(known, uid) is Some <==> known_uids(known).contains(uid),
    decreases known.len(),
{
    if known.len() > 0 {
        let t = known.drop_last();
        lemma_known_id_found(t, uid);
        if known_uids(t).contains(uid) {
            let k = choose|k: int| 0 <= k < known_uids(t).len() && known_uids(t)[k] == uid;
            assert(known_uids(known)[k] == uid);
        }
        if known_uids(known).contains(uid) {
            let k = choose|k: int| 0 <= k < known_uids(known).len() && known_uids(known)[k] == uid;
            if k < t.len() {
                assert(known_uids(t)[k] == uid);
            }
        }
        if known.last().0 == uid {
            assert(known_uids(known)[known.len() - 1] == uid);
        }
    }
}

/// the files updated by a sync are the known files that are sent
proof fn lemma_file_sync_updates(
    known: Seq<(Seq<char>, FileEntryId)>,
    files: Seq<(Seq<char>, Option<Seq<char>>)>,
    attached: Seq<bool>,
)
    requires
        attached.len() == files.len(),
    ensures
        forall|u: Seq<char>|
            #[trigger] updated_uids(spec_file_sync(known, files, attached).0).contains(u) <==> (known_uids(
                known,
            ).contains(u) && sent_uids(files).contains(u)),
    decreases files.len(),
{
    if files.len() > 0 {
        let t = files.drop_last();
        let f = files.last();
        lemma_file_sync_updates(known, t, attached.drop_last());
        let ta = attached.drop_last();
        assert forall|n: int| 0 <= n < t.len() implies attached[n] == ta[n] by {}
        lemma_file_sync_prefix_attached(known, t, attached, ta);
        let st = spec_file_sync(known, t, attached);
        let next = spec_file_sync(known, files, attached);
        lemma_known_id_found(known, f.0);
        assert forall|u: Seq<char>|
            #[trigger] updated_uids(next.0).contains(u) <==> (known_uids(known).contains(u) && sent_uids(
                files,
            ).contains(u)) by {
            assert(sent_uids(files).contains(u) <==> (sent_uids(t).contains(u) || f.0 == u)) by {
                if sent_uids(files).contains(u) {
                    let k = choose|k: int| 0 <= k < sent_uids(files).len() && sent_uids(files)[k] == u;
                    if k < t.len() {
                        assert(sent_uids(t)[k] == u);
                    }
                }
                if sent_uids(t).contains(u) {
                    let k = choose|k: int| 0 <= k < sent_uids(t).len() && sent_uids(t)[k] == u;
                    assert(sent_uids(files)[k] == u);
                }
                if f.0 == u {
                    assert(sent_uids(files)[files.len() - 1] == u);
                }
            }
            assert(updated_uids(st.0).contains(u) <==> (known_uids(known).contains(u) && sent_uids(t).contains(u)));
            match spec_known_id(known, f.0) {
                Some(id) => {
                    if !updated_uids(st.0).contains(f.0) {
                        let pushed = st.0.push((f.0, id, f.1));
                        assert(next.0 == pushed);
                        assert(updated_uids(pushed) =~= updated_uids(st.0).push(f.0));
                        if updated_uids(st.0).contains(u) {
                            let k = choose|k: int| 0 <= k < updated_uids(st.0).len() && updated_uids(st.0)[k] == u;
                            assert(updated_uids(pushed)[k] == u);
                        }
                        if updated_uids(pushed).contains(u) {
                            let k = choose|k: int| 0 <= k < updated_uids(pushed).len() && updated_uids(pushed)[k] == u;
                            if k < st.0.len() {
                                assert(updated_uids(st.0)[k] == u);
                            }
                        }
                        if u == f.0 {
                            assert(updated_uids(pushed)[st.0.len() as int] == u);
                        }
                    } else {
                        assert(next.0 == st.0);
                    }
                },
                None => {
                    assert(next.0 == st.0);
                },
            }
        }
    }
}

/// the answers for the files before the last do not depend on the last
proof fn lemma_file_sync_prefix_attached(
    known: Seq<(Seq<char>, FileEntryId)>,
    files: Seq<(Seq<char>, Option<Seq<char>>)>,
    a: Seq<bool>,
    b: Seq<bool>,
)
    requires
        a.len() >= files.len(),
        b.len() >= files.len(),
        forall|n: int| 0 <= n < files.len() ==> a[n] == b[n],
    ensures
        spec_file_sync(known, files, a) == spec_file_sync(known, files, b),
    decreases files.len(),
{
    if files.len() > 0 {
        lemma_file_sync_prefix_attached(known, files.drop_last(), a, b);
    }
}

/// the dropped files are the known ones whose uid was not updated
proof fn lemma_file_drops(known: Seq<(Seq<char>, FileEntryId)>, updated: Seq<Seq<char>>)
    ensures
        forall|u: Seq<char>|
            #[trigger] spec_file_drops(known, updated).contains(u) <==> (known_uids(known).contains(u)
                && !updated.contains(u)),
    decreases known.len(),
{
    if known.len() > 0 {
        let t = known.drop_last();
        let x = known.last().0;
        lemma_file_drops(t, updated);
        let rest = spec_file_drops(t, updated);
        assert forall|u: Seq<char>|
            #[trigger] spec_file_drops(known, updated).contains(u) <==> (known_uids(known).contains(u)
                && !updated.contains(u)) by {
            assert(known_uids(known).contains(u) <==> (known_uids(t).contains(u) || x == u)) by {
                if known_uids(known).contains(u) {
                    let k = choose|k: int| 0 <= k < known_uids(known).len() && known_uids(known)[k] == u;
                    if k < t.len() {
                        assert(known_uids(t)[k] == u);
                    }
                }
                if known_uids(t).contains(u) {
                    let k = choose|k: int| 0 <= k < known_uids(t).len() && known_uids(t)[k] == u;
                    assert(known_uids(known)[k] == u);
                }
                if x == u {
                    assert(known_uids(known)[known.len() - 1] == u);
                }
            }
            if !updated.contains(x) {
                let pushed = rest.push(x);
                if rest.contains(u) {
                    let k = choose|k: int| 0 <= k < rest.len() && rest[k] == u;
                    assert(pushed[k] == u);
                }
                if pushed.contains(u) {
                    let k = choose|k: int| 0 <= k < pushed.len() && pushed[k] == u;
                    if k < rest.len() {
                        assert(rest[k] == u);
                    }
                }
                if x == u {
                    assert(pushed[rest.len() as int] == u);
                }
            }
        }
    }
}

/// A sync drops exactly the files that were not sent: a uid is among the
/// files to drop if and only if the entry has a file with that uid and no
/// sent file names it.
pub proof fn lemma_file_sync_drops_unsent(
    known: Seq<(Seq<char>, FileEntryId)>,
    files: Seq<(Seq<char>, Option<Seq<char>>)>,
    attached: Seq<bool>,
)
    requires
        attached.len() == files.len(),
    ensures
        forall|u: Seq<char>|
            #[trigger] spec_file_drops(known, updated_uids(spec_file_sync(known, files, attached).0)).contains(
                u,
            ) <==> (known_uids(known).contains(u) && !sent_uids(files).contains(u)),
{
    let updated = updated_uids(spec_file_sync(known, files, attached).0);
    lemma_file_sync_updates(known, files, attached);
    lemma_file_drops(known, updated);
    assert forall|u: Seq<char>|
        #[trigger] spec_file_drops(known, updated).contains(u) <==> (known_uids(known).contains(u)
            && !sent_uids(files).contains(u)) by {
        assert(spec_file_drops(known, updated).contains(u) <==> (known_uids(known).contains(u) && !updated.contains(u)));
        assert(updated.contains(u) <==> (known_uids(known).contains(u) && sent_uids(files).contains(u)));
    }
}

/// the start of the query that inserts the files of a synced entry
pub open spec fn file_sync_insert_prefix() -> Seq<char> {
    "insert into file_entries ( entries_id, status, created, uid, name, mime_type, mime_subtype, hash ) values "@
}

/// the row of the `k`th inserted file: entry, status and time are `$1` to
/// `$3`, the uid and name of the files follow in pairs from `$4`
pub open spec fn spec_file_sync_insert_row(k: nat) -> Seq<char> {
    "($1, $2, $3, "@ + seq!['$'] + spec_decimal(4 + 2 * k) + ", "@ + seq!['$'] + spec_decimal(5 + 2 * k)
        + ", '', '', '')"@
}

/// the start of the query that renames the files of a synced entry
pub open spec fn file_sync_update_prefix() -> Seq<char> {
    "update file_entries set name = tmp_update.name, updated = $1 from (values "@
}

/// the row of the `k`th renamed file: the time is `$1`, the id and name of
/// the files follow in pairs from `$2`
pub open spec fn spec_file_sync_update_row(k: nat) -> Seq<char> {
    "("@ + seq!['$'] + spec_decimal(2 + 2 * k) + ", "@ + seq!['$'] + spec_decimal(3 + 2 * k) + ")"@
}

/// rows separated by `, `, the `k`th made by `row`
pub open spec fn spec_rows(n: nat, row: spec_fn(nat) -> Seq<char>) -> Seq<char>
    decreases n,
{
    if n == 0 {
        Seq::empty()
    } else if n == 1 {
        row(0)
    } else {
        spec_rows((n - 1) as nat, row) + ", "@ + row((n - 1) as nat)
    }
}

/// the query that inserts `count` files of a synced entry
pub fn file_sync_insert_query(count: usize) -> (rtn: String)
    requires
        count < 0x1000_0000_0000_0000,
    ensures
        rtn@ == file_sync_insert_prefix() + spec_rows(count as nat, |k: nat| spec_file_sync_insert_row(k)),
{
    let ghost row = |k: nat| spec_file_sync_insert_row(k);
    let mut rtn = to_owned_string(
        "insert into file_entries ( entries_id, status, created, uid, name, mime_type, mime_subtype, hash ) values ",
    );
    let mut i: usize = 0;
    while i < count
        invariant
            i <= count,
            count < 0x1000_0000_0000_0000,
            row == |k: nat| spec_file_sync_insert_row(k),
            rtn@ == file_sync_insert_prefix() + spec_rows(i as nat, row),
        decreases count - i,
    {
        if i > 0 {
            push_str(&mut rtn, ", ");
        }
        let ghost sep = rtn@;
        push_str(&mut rtn, "($1, $2, $3, ");
        push_char(&mut rtn, '$');
        push_decimal(&mut rtn, 4 + 2 * i as u64);
        push_str(&mut rtn, ", ");
        push_char(&mut rtn, '$');
        push_decimal(&mut rtn, 5 + 2 * i as u64);
        push_str(&mut rtn, ", '', '', '')");
        assert(rtn@ =~= sep + row(i as nat));
        if i > 0 {
            assert(rtn@ =~= file_sync_insert_prefix() + (spec_rows(i as nat, row) + ", "@ + row(i as nat)));
        } else {
            assert(rtn@ =~= file_sync_insert_prefix() + row(0));
        }
        i = i + 1;
    }
    rtn
}

/// the query that renames `count` files of a synced entry; it ends with the
/// list of values, which the statement leaves open
pub fn file_sync_update_query(count: usize) -> (rtn: String)
    requires
        count < 0x1000_0000_0000_0000,
    ensures
        rtn@ == file_sync_update_prefix() + spec_rows(count as nat, |k: nat| spec_file_sync_update_row(k)),
{
    let ghost row = |k: nat| spec_file_sync_update_row(k);
    let mut rtn = to_owned_string("update file_entries set name = tmp_update.name, updated = $1 from (values ");
    let mut i: usize = 0;
    while i < count
        invariant
            i <= count,
            count < 0x1000_0000_0000_0000,
            row == |k: nat| spec_file_sync_update_row(k),
            rtn@ == file_sync_update_prefix() + spec_rows(i as nat, row),
        decreases count - i,
    {
        if i > 0 {
            push_str(&mut rtn, ", ");
        }
        let ghost sep = rtn@;
        push_str(&mut rtn, "(");
        push_char(&mut rtn, '$');
        push_decimal(&mut rtn, 2 + 2 * i as u64);
        push_str(&mut rtn, ", ");
        push_char(&mut rtn, '$');
        push_decimal(&mut rtn, 3 + 2 * i as u64);
        push_str(&mut rtn, ")");
        assert(rtn@ =~= sep + row(i as nat));
        if i > 0 {
            assert(rtn@ =~= file_sync_update_prefix() + (spec_rows(i as nat, row) + ", "@ + row(i as nat)));
        } else {
            assert(rtn@ =~= file_sync_update_prefix() + row(0));
        }
        i = i + 1;
    }
    rtn
}

/// a custom field value of a synced entry, named by the field's uid
#[derive(Debug)]
pub struct EntryCFSync {
    pub custom_fields_uid: String,
}

/// a custom field of the journal: its uid and its id
#[derive(Debug)]
pub struct JournalField {
    pub uid: String,
    pub id: CustomFieldId,
}

/// the id of the first field with the uid
pub open spec fn spec_field_id(fields: Seq<(Seq<char>, CustomFieldId)>, uid: Seq<char>) -> Option<CustomFieldId>
    decreases fields.len(),
{
    if fields.len() == 0 {
        None
    } else {
        match spec_field_id(fields.drop_last(), uid) {
            Some(id) => Some(id),
            None => if fields.last().0 == uid {
                Some(fields.last().1)
            } else {
                None
            },
        }
    }
}

/// the start of the query that stores the custom fields of a synced entry
pub open spec fn cf_sync_prefix() -> Seq<char> {
    "with tmp_insert as ( insert into custom_field_entries (entries_id, custom_fields_id, value, created, updated) values "@
}

/// where the custom fields of a sync stand: the values stored (the index
/// of the sent value and the field's id), the uids not found, and the query
pub type CFSyncState = (Seq<(int, CustomFieldId)>, Seq<Seq<char>>, Seq<char>);

/// one sent value applied: a value of an unknown field is not found; a
/// known one gets a row, its parameters numbered after the entry and the
/// rows before it, with `, ` before it unless it is the first sent value
/// (so a first sent value that is not found leaves a `, ` before the first
/// row, and the query then does not parse)
pub open spec fn spec_cf_step(st: CFSyncState, fields: Seq<(Seq<char>, CustomFieldId)>, index: int, uid: Seq<char>) -> CFSyncState {
    match spec_field_id(fields, uid) {
        None => (st.0, st.1.push(uid), st.2),
        Some(id) => {
            let k = st.0.len();
            (
                st.0.push((index, id)),
                st.1,
                st.2 + (if index != 0 {
                    ", "@
                } else {
                    Seq::empty()
                }) + "($1, "@ + seq!['$'] + spec_decimal((2 + 4 * k) as nat) + ", "@ + seq!['$']
                    + spec_decimal((3 + 4 * k) as nat) + ", "@ + seq!['$'] + spec_decimal((4 + 4 * k) as nat)
                    + ", "@ + seq!['$'] + spec_decimal((5 + 4 * k) as nat) + ")"@,
            )
        },
    }
}

/// the sent values applied in order
pub open spec fn spec_cf_sync(fields: Seq<(Seq<char>, CustomFieldId)>, uids: Seq<Seq<char>>) -> CFSyncState
    decreases uids.len(),
{
    if uids.len() == 0 {
        (Seq::empty(), Seq::empty(), cf_sync_prefix())
    } else {
        spec_cf_step(spec_cf_sync(fields, uids.drop_last()), fields, uids.len() - 1, uids.last())
    }
}

/// what a sync does with the custom field values of an entry
#[derive(Debug)]
pub struct CFSyncPlan {
    /// the values stored: the index of the sent value and the field's id
    pub rows: Vec<(usize, CustomFieldId)>,
    /// the uids of fields the journal does not have
    pub not_found: Vec<String>,
    /// the query, without its end
    pub query: String,
}

/// the fields as plain values
pub open spec fn field_views(v: Seq<JournalField>) -> Seq<(Seq<char>, CustomFieldId)> {
    v.map_values(|f: JournalField| (f.uid@, f.id))
}

/// the uids of the sent values
pub open spec fn cf_uids(v: Seq<EntryCFSync>) -> Seq<Seq<char>> {
    v.map_values(|c: EntryCFSync| c.custom_fields_uid@)
}

/// the rows as plain values
pub open spec fn row_views(v: Seq<(usize, CustomFieldId)>) -> Seq<(int, CustomFieldId)> {
    v.map_values(|r: (usize, CustomFieldId)| (r.0 as int, r.1))
}

/// the id of the first field with the uid
fn field_id(fields: &Vec<JournalField>, uid: &str) -> (rtn: Option<CustomFieldId>)
    ensures
        rtn == spec_field_id(field_views(fields@), uid@),
{
    let ghost views = field_views(fields@);
    let n = fields.len();
    let mut i: usize = 0;
    while i < n
        invariant
            n == fields@.len(),
            views == field_views(fields@),
            i <= n,
            spec_field_id(views.take(i as int), uid@) is None,
        decreases n - i,
    {
        assert(views.take(i + 1).drop_last() =~= views.take(i as int));
        if str_eq(fields[i].uid.as_str(), uid) {
            proof {
                lemma_field_id_prefix(views, uid@, i as int + 1);
            }
            return Some(fields[i].id);
        }
        i = i + 1;
    }
    assert(views.take(n as int) =~= views);
    None
}

/// a uid found in a prefix of the fields is found with the same id in all
/// of them
pub proof fn lemma_field_id_prefix(fields: Seq<(Seq<char>, CustomFieldId)>, uid: Seq<char>, n: int)
    requires
        0 <= n <= fields.len(),
        spec_field_id(fields.take(n), uid) is Some,
    ensures
        spec_field_id(fields, uid) == spec_field_id(fields.take(n), uid),
    decreases fields.len(),
{
    if n < fields.len() {
        assert(fields.drop_last().take(n) =~= fields.take(n));
        lemma_field_id_prefix(fields.drop_last(), uid, n);
    } else {
        assert(fields.take(n) =~= fields);
    }
}

/// what a sync does with the custom field values of an entry, from the
/// fields of the journal and the values sent
pub fn plan_cf_sync(fields: &Vec<JournalField>, cfs: &Vec<EntryCFSync>) -> (rtn: CFSyncPlan)
    requires
        4 * cfs@.len() + 5 <= u64::MAX,
    ensures
        spec_cf_sync(field_views(fields@), cf_uids(cfs@)) == (row_views(rtn.rows@), string_views(rtn.not_found@), rtn.query@),
{
    let ghost fv = field_views(fields@);
    let ghost uv = cf_uids(cfs@);
    let mut rows: Vec<(usize, CustomFieldId)> = Vec::new();
    let mut not_found: Vec<String> = Vec::new();
    let mut query = to_owned_string(
        "with tmp_insert as ( insert into custom_field_entries (entries_id, custom_fields_id, value, created, updated) values ",
    );
    let n = cfs.len();
    let mut i: usize = 0;
    while i < n
        invariant
            n == cfs@.len(),
            4 * n + 5 <= u64::MAX,
            fv == field_views(fields@),
            uv == cf_uids(cfs@),
            i <= n,
            rows@.len() <= i,
            spec_cf_sync(fv, uv.take(i as int)) == (row_views(rows@), string_views(not_found@), query@),
        decreases n - i,
    {
        let uid = cfs[i].custom_fields_uid.as_str();
        assert(uv.take(i + 1).drop_last() =~= uv.take(i as int));
        assert(uv.take(i + 1).last() == uid@);
        let ghost st = (row_views(rows@), string_views(not_found@), query@);
        match field_id(fields, uid) {
            None => {
                not_found.push(to_owned_string(uid));
                assert(string_views(not_found@) =~= st.1.push(uid@));
            },
            Some(id) => {
                let k = rows.len() as u64;
                rows.push((i, id));
                assert(row_views(rows@) =~= st.0.push((i as int, id)));
                if i != 0 {
                    push_str(&mut query, ", ");
                }
                push_str(&mut query, "($1, ");
                push_char(&mut query, '$');
                push_decimal(&mut query, 2 + 4 * k);
                push_str(&mut query, ", ");
                push_char(&mut query, '$');
                push_decimal(&mut query, 3 + 4 * k);
                push_str(&mut query, ", ");
                push_char(&mut query, '$');
                push_decimal(&mut query, 4 + 4 * k);
                push_str(&mut query, ", ");
                push_char(&mut query, '$');
                push_decimal(&mut query, 5 + 4 * k);
                push_str(&mut query, ")");
                assert(query@ =~= spec_cf_step(st, fv, i as int, uid@).2);
            },
        }
        i = i + 1;
    }
    assert(uv.take(n as int) =~= uv);
    CFSyncPlan { rows, not_found, query }
}

/// what ends the query of the custom fields of a synced entry: values are
/// replaced, and the entry's other values are deleted
pub open spec fn cf_sync_suffix() -> Seq<char> {
    " on conflict (custom_fields_id, entries_id) do update set value = excluded.value, updated = excluded.updated returning custom_fields_id, entries_id ) delete from custom_field_entries using tmp_insert where custom_field_entries.entries_id = tmp_insert.entries_id and custom_field_entries.custom_fields_id != tmp_insert.custom_fields_id"@
}

impl CFSyncPlan {
    /// the whole query: the rows and its end; only run when there is a row
    pub fn full_query(&self) -> (rtn: String)
        ensures
            rtn@ == self.query@ + cf_sync_suffix(),
    {
        let mut rtn = to_owned_string(self.query.as_str());
        push_str(
            &mut rtn,
            " on conflict (custom_fields_id, entries_id) do update set value = excluded.value, updated = excluded.updated returning custom_fields_id, entries_id ) delete from custom_field_entries using tmp_insert where custom_field_entries.entries_id = tmp_insert.entries_id and custom_field_entries.custom_fields_id != tmp_insert.custom_fields_id",
        );
        rtn
    }
}

/// the start of the statement that stores the tags of a synced entry
pub open spec fn tag_sync_prefix() -> Seq<char> {
    "with tmp_insert as ( insert into entry_tags (entries_id, key, value, created, updated) values "@
}

/// the end of the statement that stores the tags of a synced entry: a tag
/// the entry has takes the sent value and time, and the entry's tags that
/// were not sent are deleted
pub open spec fn tag_sync_suffix() -> Seq<char> {
    " on conflict (entries_id, key) do update set key = excluded.key, value = excluded.value, updated = excluded.updated returning entries_id, key ) delete from entry_tags using tmp_insert where entry_tags.entries_id = tmp_insert.entries_id and entry_tags.key != tmp_insert.key"@
}

/// the row of the `k`th sent tag: the entry is `$1`, the key, value,
/// creation and update time follow in fours from `$2`
pub open spec fn spec_tag_sync_row(k: nat) -> Seq<char> {
    "($1, "@ + seq!['$'] + spec_decimal(2 + 4 * k) + ", "@ + seq!['$'] + spec_decimal(3 + 4 * k) + ", "@
        + seq!['$'] + spec_decimal(4 + 4 * k) + ", "@ + seq!['$'] + spec_decimal(5 + 4 * k) + ")"@
}

/// appends the row of the `k`th sent tag
fn push_tag_sync_row(s: &mut String, k: u64)
    requires
        k < 0x1000_0000_0000_0000,
    ensures
        final(s)@ == old(s)@ + spec_tag_sync_row(k as nat),
{
    let ghost start = s@;
    let base: u64 = 4 * k;
    push_str(s, "($1, ");
    push_char(s, '$');
    push_decimal(s, 2 + base);
    push_str(s, ", ");
    push_char(s, '$');
    push_decimal(s, 3 + base);
    push_str(s, ", ");
    push_char(s, '$');
    push_decimal(s, 4 + base);
    push_str(s, ", ");
    push_char(s, '$');
    push_decimal(s, 5 + base);
    push_str(s, ")");
    assert(s@ =~= start + spec_tag_sync_row(k as nat));
}

/// the statement that makes the tags of a synced entry the `count` sent
/// ones; with none sent, the one that deletes all of its tags
pub fn tag_sync_query(count: usize) -> (rtn: String)
    requires
        count < 0x1000_0000_0000_0000,
    ensures
        count == 0 ==> rtn@ == "delete from entry_tags where entries_id = $1"@,
        count > 0 ==> rtn@ == tag_sync_prefix() + spec_rows(count as nat, |k: nat| spec_tag_sync_row(k))
            + tag_sync_suffix(),
{
    if count == 0 {
        return to_owned_string("delete from entry_tags where entries_id = $1");
    }
    let ghost row = |k: nat| spec_tag_sync_row(k);
    let mut rtn = to_owned_string(
        "with tmp_insert as ( insert into entry_tags (entries_id, key, value, created, updated) values ",
    );
    let mut i: usize = 0;
    while i < count
        invariant
            i <= count,
            count < 0x1000_0000_0000_0000,
            row == |k: nat| spec_tag_sync_row(k),
            rtn@ == tag_sync_prefix() + spec_rows(i as nat, row),
        decreases count - i,
    {
        if i > 0 {
            push_str(&mut rtn, ", ");
        }
        let ghost sep = rtn@;
        push_tag_sync_row(&mut rtn, i as u64);
        assert(rtn@ =~= sep + row(i as nat));
        if i > 0 {
            assert(rtn@ =~= tag_sync_prefix() + (spec_rows(i as nat, row) + ", "@ + row(i as nat)));
        } else {
            assert(rtn@ =~= tag_sync_prefix() + row(0));
        }
        i = i + 1;
    }
    push_str(
        &mut rtn,
        " on conflict (entries_id, key) do update set key = excluded.key, value = excluded.value, updated = excluded.updated returning entries_id, key ) delete from entry_tags using tmp_insert where entry_tags.entries_id = tmp_insert.entries_id and entry_tags.key != tmp_insert.key",
    );
    rtn
}

/// where the sync of an entry stands
#[derive(Debug, Clone, Copy, PartialEq, Eq, Structural)]
pub enum SyncStage {
    Journal,
    Entry,
    Tags,
    CustomFields,
    Files,
    Commit,
    Done,
}

/// the outcome of the last action of a sync
#[derive(Debug, Clone, Copy, PartialEq, Eq, Structural)]
pub enum SyncEvent {
    /// the journal of the entry was looked up: whether the initiator owns
    /// it, when it exists
    Journal(Option<bool>),
    /// the database work of the step went through
    Written,
    /// the custom fields were stored: whether some sent field is not one
    /// of the journal, and whether some sent value is not valid for its
    /// field
    CustomFields { not_found: bool, invalid: bool },
    /// the files were stored: whether some sent file is not one of the
    /// entry
    Files { not_found: bool },
    /// the transaction was committed: whether that worked
    Committed(bool),
    /// a database call or a file operation failed
    Failed,
}

/// the answer to a sync
#[derive(Debug, Clone, Copy, PartialEq, Eq, Structural)]
pub enum SyncAnswer {
    JournalNotFound,
    CFNotFound,
    CFInvalid,
    FileNotFound,
    Synced,
}

/// what a sync does next
#[derive(Debug, Clone, Copy, PartialEq, Eq, Structural)]
pub enum SyncAction {
    UpsertEntry,
    UpsertTags,
    UpsertCustomFields,
    UpsertFiles,
    Commit,
    /// answer without committing
    Answer(SyncAnswer),
    /// answer with an error
    Fail,
    /// put back the files removed by the sync, then answer with an error
    RollbackAndFail,
    /// remove for good the files the sync removed, then answer `Synced`
    CleanAndAnswer,
}

/// the next stage and action of the sync of an entry
pub open spec fn spec_sync_entry_step(stage: SyncStage, event: SyncEvent) -> (SyncStage, SyncAction) {
    match (stage, event) {
        (SyncStage::Journal, SyncEvent::Journal(owned)) => if owned == Some(true) {
            (SyncStage::Entry, SyncAction::UpsertEntry)
        } else {
            (SyncStage::Done, SyncAction::Answer(SyncAnswer::JournalNotFound))
        },
        (SyncStage::Entry, SyncEvent::Written) => (SyncStage::Tags, SyncAction::UpsertTags),
        (SyncStage::Tags, SyncEvent::Written) => (SyncStage::CustomFields, SyncAction::UpsertCustomFields),
        (SyncStage::CustomFields, SyncEvent::CustomFields { not_found, invalid }) => if not_found {
            (SyncStage::Done, SyncAction::Answer(SyncAnswer::CFNotFound))
        } else if invalid {
            (SyncStage::Done, SyncAction::Answer(SyncAnswer::CFInvalid))
        } else {
            (SyncStage::Files, SyncAction::UpsertFiles)
        },
        (SyncStage::Files, SyncEvent::Files { not_found }) => if not_found {
            (SyncStage::Done, SyncAction::Answer(SyncAnswer::FileNotFound))
        } else {
            (SyncStage::Commit, SyncAction::Commit)
        },
        (SyncStage::Commit, SyncEvent::Committed(true)) => (SyncStage::Done, SyncAction::CleanAndAnswer),
        (SyncStage::Commit, _) => (SyncStage::Done, SyncAction::RollbackAndFail),
        _ => (SyncStage::Done, SyncAction::Fail),
    }
}

/// The next step of the sync of an entry sent by a peer: a journal that
/// does not exist or that another user owns is answered `JournalNotFound`;
/// then the entry and its tags are stored; a sent custom field that the
/// journal does not have is answered `CFNotFound`, else a value not valid
/// for its field `CFInvalid`; then the files are stored, and a sent file
/// the entry does not have is answered `FileNotFound`; then the
/// transaction is committed and the removed files dropped for good, or put
/// back when the commit fails. Any other failure, or an outcome that does
/// not answer the stage, fails the sync.
pub fn sync_entry_step(stage: SyncStage, event: SyncEvent) -> (rtn: (SyncStage, SyncAction))
    ensures
        rtn == spec_sync_entry_step(stage, event),
{
    match (stage, event) {
        (SyncStage::Journal, SyncEvent::Journal(owned)) => if owned == Some(true) {
            (SyncStage::Entry, SyncAction::UpsertEntry)
        } else {
            (SyncStage::Done, SyncAction::Answer(SyncAnswer::JournalNotFound))
        },
        (SyncStage::Entry, SyncEvent::Written) => (SyncStage::Tags, SyncAction::UpsertTags),
        (SyncStage::Tags, SyncEvent::Written) => (SyncStage::CustomFields, SyncAction::UpsertCustomFields),
        (SyncStage::CustomFields, SyncEvent::CustomFields { not_found, invalid }) => if not_found {
            (SyncStage::Done, SyncAction::Answer(SyncAnswer::CFNotFound))
        } else if invalid {
            (SyncStage::Done, SyncAction::Answer(SyncAnswer::CFInvalid))
        } else {
            (SyncStage::Files, SyncAction::UpsertFiles)
        },
        (SyncStage::Files, SyncEvent::Files { not_found }) => if not_found {
            (SyncStage::Done, SyncAction::Answer(SyncAnswer::FileNotFound))
        } else {
            (SyncStage::Commit, SyncAction::Commit)
        },
        (SyncStage::Commit, SyncEvent::Committed(true)) => (SyncStage::Done, SyncAction::CleanAndAnswer),
        (SyncStage::Commit, _) => (SyncStage::Done, SyncAction::RollbackAndFail),
        _ => (SyncStage::Done, SyncAction::Fail),
    }
}

/// A peer only ever writes into a journal of its own user: the entry is
/// stored only at the journal stage, on a journal the initiator owns; and
/// a sync is only answered `Synced` after its commit went through.
pub proof fn lemma_sync_owned_journal_only(stage: SyncStage, event: SyncEvent)
    ensures
        spec_sync_entry_step(stage, event).1 is UpsertEntry ==> stage is Journal && event
            == SyncEvent::Journal(Some(true)),
        spec_sync_entry_step(stage, event).1 is CleanAndAnswer ==> stage is Commit && event
            == SyncEvent::Committed(true),
        spec_sync_entry_step(stage, event).1 != SyncAction::Answer(SyncAnswer::Synced),
{
}

} // verus!
