//! Entries of the default journal: the request bodies, the cleaning of
//! their text, the sql that stores their tags and files, and how an update
//! reconciles the tags an entry has with the tags it is sent.

pub mod files;
pub mod flow;
pub mod listing;

use vstd::prelude::*;
use crate::db::ids::FileEntryId;
use crate::journal::{spec_entry_tag, EntryTag};
use crate::text::{push_char, push_decimal, push_str, spec_decimal, spec_trim, str_eq, string_views, to_owned_string, trim};
use crate::time::Timestamp;

verus! {

/// what the client sent to know a file again
#[derive(Debug)]
pub struct ClientData {
    pub key: String,
}

/// a record with data attached to it
#[derive(Debug)]
pub struct Attached<T, E> {
    pub inner: T,
    pub attached: E,
}

impl<T, E> Attached<T, E> {
    /// the record with its attached data
    pub fn from_parts(inner: T, attached: E) -> (rtn: Self)
        ensures
            rtn.inner == inner,
            rtn.attached == attached,
    {
        Attached { inner, attached }
    }
}

/// a tag of an entry as the client sends it
#[derive(Debug)]
pub struct TagEntryBody {
    pub key: String,
    pub value: Option<String>,
}

/// a file of an entry that exists already
#[derive(Debug)]
pub struct ExistingFileEntryBody {
    pub id: FileEntryId,
    pub name: Option<String>,
}

/// a new file of an entry
#[derive(Debug)]
pub struct NewFileEntryBody {
    pub key: String,
    pub name: Option<String>,
}

/// a file of an updated entry
#[derive(Debug)]
pub enum UpdatedFileEntryBody {
    New(NewFileEntryBody),
    Existing(ExistingFileEntryBody),
}

/// the view of an optional string
pub open spec fn opt_str(s: Option<String>) -> Option<Seq<char>> {
    match s {
        Some(v) => Some(v@),
        None => None,
    }
}

/// tags as plain values
pub open spec fn tag_views(tags: Seq<EntryTag>) -> Seq<(Seq<char>, Option<Seq<char>>, Timestamp, Option<Timestamp>)> {
    tags.map_values(|t: EntryTag| spec_entry_tag(t))
}

/// sent tags as plain values
pub open spec fn sent_views(tags: Seq<TagEntryBody>) -> Seq<(Seq<char>, Option<Seq<char>>)> {
    tags.map_values(|t: TagEntryBody| spec_tag_body(t))
}

/// a text trimmed, or `None` when nothing is left
pub open spec fn spec_non_empty(s: Seq<char>) -> Option<Seq<char>> {
    let t = spec_trim(s);
    if t.len() == 0 {
        None
    } else {
        Some(t)
    }
}

/// an optional text trimmed, or `None` when nothing is left
pub open spec fn spec_opt_non_empty(s: Option<Seq<char>>) -> Option<Seq<char>> {
    match s {
        Some(v) => spec_non_empty(v),
        None => None,
    }
}

/// the text trimmed, or `None` when nothing is left
pub fn non_empty_str(given: String) -> (rtn: Option<String>)
    ensures
        opt_str(rtn) == spec_non_empty(given@),
{
    let trimmed = trim(given.as_str());
    if trimmed.unicode_len() == 0 {
        None
    } else {
        Some(to_owned_string(trimmed))
    }
}

/// the optional text trimmed, or `None` when nothing is left
pub fn opt_non_empty_str(given: Option<String>) -> (rtn: Option<String>)
    ensures
        opt_str(rtn) == spec_opt_non_empty(opt_str(given)),
{
    match given {
        Some(value) => non_empty_str(value),
        None => None,
    }
}

/// a tag as sent, as plain values
pub open spec fn spec_tag_body(t: TagEntryBody) -> (Seq<char>, Option<Seq<char>>) {
    (t.key@, opt_str(t.value))
}

/// the tags of a new entry: those whose key is not blank, key and value
/// trimmed, a blank value dropped, all made at the given time
pub open spec fn spec_new_tags(tags: Seq<(Seq<char>, Option<Seq<char>>)>, created: Timestamp) -> Seq<
    (Seq<char>, Option<Seq<char>>, Timestamp, Option<Timestamp>),
>
    decreases tags.len(),
{
    if tags.len() == 0 {
        Seq::empty()
    } else {
        let rest = spec_new_tags(tags.drop_last(), created);
        match spec_non_empty(tags.last().0) {
            None => rest,
            Some(key) => rest.push((key, spec_opt_non_empty(tags.last().1), created, None)),
        }
    }
}

/// a copy of an optional text
pub fn copy_opt_str(s: &Option<String>) -> (rtn: Option<String>)
    ensures
        opt_str(rtn) == opt_str(*s),
{
    match s {
        Some(v) => Some(to_owned_string(v.as_str())),
        None => None,
    }
}

/// the tags of a new entry from the tags sent
pub fn new_entry_tags(tags: &Vec<TagEntryBody>, created: Timestamp) -> (rtn: Vec<EntryTag>)
    ensures
        tag_views(rtn@) == spec_new_tags(
            sent_views(tags@),
            created,
        ),
{
    let ghost sent = sent_views(tags@);
    let mut rtn: Vec<EntryTag> = Vec::new();
    let n = tags.len();
    let mut i: usize = 0;
    while i < n
        invariant
            n == tags@.len(),
            sent == sent_views(tags@),
            i <= n,
            tag_views(rtn@) == spec_new_tags(
                sent.take(i as int),
                created,
            ),
        decreases n - i,
    {
        let tag = &tags[i];
        assert(sent.take(i + 1).drop_last() =~= sent.take(i as int));
        assert(sent.take(i + 1).last() == spec_tag_body(*tag));
        let ghost before = tag_views(rtn@);
        match non_empty_str(to_owned_string(tag.key.as_str())) {
            None => {},
            Some(k) => {
                let value = opt_non_empty_str(copy_opt_str(&tag.value));
                rtn.push(EntryTag { key: k, value, created, updated: None });
                assert(tag_views(rtn@) =~= before.push(
                    spec_entry_tag(rtn@.last()),
                ));
            },
        }
        i = i + 1;
    }
    assert(sent.take(n as int) =~= sent);
    rtn
}

/// the text of a query parameter: `$` and its number
pub open spec fn spec_param(n: nat) -> Seq<char> {
    seq!['$'] + spec_decimal(n)
}

/// appends the text of a query parameter
fn push_param(s: &mut String, n: u64)
    ensures
        final(s)@ == old(s)@ + spec_param(n as nat),
{
    push_char(s, '$');
    push_decimal(s, n);
    assert(s@ =~= old(s)@ + spec_param(n as nat));
}

/// the start of the query that inserts the tags of an entry
pub open spec fn tag_insert_prefix() -> Seq<char> {
    "insert into entry_tags (entries_id, key, value, created) values "@
}

/// the row of the `i`th tag: the entry is `$1` and the time `$2`, the key
/// and value of the tags follow in pairs from `$3`
pub open spec fn spec_tag_row(i: nat) -> Seq<char> {
    "($1, "@ + spec_param(3 + 2 * i) + ", "@ + spec_param(4 + 2 * i) + ", $2)"@
}

/// the rows of the first `n` tags, separated by `, `
pub open spec fn spec_tag_rows(n: nat) -> Seq<char>
    decreases n,
{
    if n == 0 {
        Seq::empty()
    } else if n == 1 {
        spec_tag_row(0)
    } else {
        spec_tag_rows((n - 1) as nat) + ", "@ + spec_tag_row((n - 1) as nat)
    }
}

/// the query that inserts `n` tags of an entry
pub open spec fn spec_tag_insert_query(n: nat) -> Seq<char> {
    tag_insert_prefix() + spec_tag_rows(n)
}

/// the query that inserts `count` tags of an entry, with the entry as `$1`,
/// the time as `$2` and each tag's key and value after them
pub fn tag_insert_query(count: usize) -> (rtn: String)
    requires
        count < 0x4000_0000_0000_0000,
    ensures
        rtn@ == spec_tag_insert_query(count as nat),
{
    let mut rtn = to_owned_string("insert into entry_tags (entries_id, key, value, created) values ");
    let mut i: usize = 0;
    while i < count
        invariant
            i <= count,
            count < 0x4000_0000_0000_0000,
            rtn@ == tag_insert_prefix() + spec_tag_rows(i as nat),
        decreases count - i,
    {
        let ghost before = rtn@;
        if i > 0 {
            push_str(&mut rtn, ", ");
        }
        let ghost sep = rtn@;
        push_str(&mut rtn, "($1, ");
        push_param(&mut rtn, 3 + 2 * i as u64);
        push_str(&mut rtn, ", ");
        push_param(&mut rtn, 4 + 2 * i as u64);
        push_str(&mut rtn, ", $2)");
        assert(rtn@ =~= sep + spec_tag_row(i as nat));
        if i > 0 {
            assert(rtn@ =~= tag_insert_prefix() + (spec_tag_rows(i as nat) + ", "@ + spec_tag_row(
                i as nat,
            )));
        } else {
            assert(rtn@ =~= tag_insert_prefix() + spec_tag_row(0));
        }
        i = i + 1;
    }
    rtn
}

/// what an update adds to the tag insert: a tag that exists takes the new
/// value and the time as its change
pub open spec fn tag_upsert_suffix() -> Seq<char> {
    " on conflict (entries_id, key) do update set value = EXCLUDED.value, updated = EXCLUDED.created"@
}

/// the query that inserts or updates `count` tags of an entry
pub fn tag_upsert_query(count: usize) -> (rtn: String)
    requires
        count < 0x4000_0000_0000_0000,
    ensures
        rtn@ == spec_tag_insert_query(count as nat) + tag_upsert_suffix(),
{
    let mut rtn = tag_insert_query(count);
    push_str(
        &mut rtn,
        " on conflict (entries_id, key) do update set value = EXCLUDED.value, updated = EXCLUDED.created",
    );
    rtn
}

/// the start of the query that inserts the files of an entry
pub open spec fn file_insert_prefix() -> Seq<char> {
    "insert into file_entries ( uid, entries_id, name, mime_type, mime_subtype, created ) values "@
}

/// the row of the `i`th file: the entry is `$1` and the time `$2`, the
/// uid, name, mime type and subtype of the files follow in fours from `$3`
pub open spec fn spec_file_row(i: nat) -> Seq<char> {
    "("@ + spec_param(3 + 4 * i) + ", $1, "@ + spec_param(4 + 4 * i) + ", "@ + spec_param(5 + 4 * i)
        + ", "@ + spec_param(6 + 4 * i) + ", $2)"@
}

/// the rows of the first `n` files, separated by `, `
pub open spec fn spec_file_rows(n: nat) -> Seq<char>
    decreases n,
{
    if n == 0 {
        Seq::empty()
    } else if n == 1 {
        spec_file_row(0)
    } else {
        spec_file_rows((n - 1) as nat) + ", "@ + spec_file_row((n - 1) as nat)
    }
}

/// the query that inserts `n` files of an entry and returns their ids
pub open spec fn spec_file_insert_query(n: nat) -> Seq<char> {
    file_insert_prefix() + spec_file_rows(n) + " returning id"@
}

/// appends the row of the `i`th file
fn push_file_row(s: &mut String, i: u64)
    requires
        i < 0x1000_0000_0000_0000,
    ensures
        final(s)@ == old(s)@ + spec_file_row(i as nat),
{
    let ghost start = s@;
    push_str(s, "(");
    push_param(s, 3 + 4 * i);
    push_str(s, ", $1, ");
    push_param(s, 4 + 4 * i);
    push_str(s, ", ");
    push_param(s, 5 + 4 * i);
    push_str(s, ", ");
    push_param(s, 6 + 4 * i);
    push_str(s, ", $2)");
    assert(s@ =~= start + spec_file_row(i as nat));
}

/// the query that inserts `count` files of an entry and returns their ids,
/// with the entry as `$1`, the time as `$2` and each file's uid, name, mime
/// type and subtype after them
pub fn file_insert_query(count: usize) -> (rtn: String)
    requires
        count < 0x1000_0000_0000_0000,
    ensures
        rtn@ == spec_file_insert_query(count as nat),
{
    let mut rtn = to_owned_string(
        "insert into file_entries ( uid, entries_id, name, mime_type, mime_subtype, created ) values ",
    );
    let mut i: usize = 0;
    while i < count
        invariant
            i <= count,
            count < 0x1000_0000_0000_0000,
            rtn@ == file_insert_prefix() + spec_file_rows(i as nat),
        decreases count - i,
    {
        if i > 0 {
            push_str(&mut rtn, ", ");
        }
        let ghost sep = rtn@;
        push_file_row(&mut rtn, i as u64);
        if i > 0 {
            assert(rtn@ =~= file_insert_prefix() + (spec_file_rows(i as nat) + ", "@
                + spec_file_row(i as nat)));
        } else {
            assert(rtn@ =~= file_insert_prefix() + spec_file_row(0));
        }
        i = i + 1;
    }
    push_str(&mut rtn, " returning id");
    rtn
}

/// a tag as plain values: key, value, creation and last change
pub type TagView = (Seq<char>, Option<Seq<char>>, Timestamp, Option<Timestamp>);

/// the first tag with the given key
pub open spec fn spec_find_key(tags: Seq<TagView>, key: Seq<char>) -> Option<int>
    decreases tags.len(),
{
    if tags.len() == 0 {
        None
    } else {
        match spec_find_key(tags.drop_last(), key) {
            Some(i) => Some(i),
            None => if tags.last().0 == key {
                Some(tags.len() - 1)
            } else {
                None
            },
        }
    }
}

/// where an update of tags stands: the tags the entry still has that no
/// sent tag named yet, the tags to store (changed or new) and the tags left
/// as they were
pub type TagUpdate = (Seq<TagView>, Seq<TagView>, Seq<TagView>);

/// one sent tag applied to an update: a blank key is passed over; a key the
/// entry has takes the sent value, with the time as its change, unless the
/// value is the same; a key it does not have makes a new tag
pub open spec fn spec_tag_step(st: TagUpdate, sent: (Seq<char>, Option<Seq<char>>), now: Timestamp) -> TagUpdate {
    match spec_non_empty(sent.0) {
        None => st,
        Some(key) => {
            let value = spec_opt_non_empty(sent.1);
            match spec_find_key(st.0, key) {
                Some(i) => {
                    let found = st.0[i];
                    if found.1 != value {
                        (st.0.remove(i), st.1.push((found.0, value, found.2, Some(now))), st.2)
                    } else {
                        (st.0.remove(i), st.1, st.2.push(found))
                    }
                },
                None => (st.0, st.1.push((key, value, now, None)), st.2),
            }
        },
    }
}

/// the sent tags applied in order to the tags an entry has
pub open spec fn spec_reconcile(current: Seq<TagView>, sent: Seq<(Seq<char>, Option<Seq<char>>)>, now: Timestamp) -> TagUpdate
    decreases sent.len(),
{
    if sent.len() == 0 {
        (current, Seq::empty(), Seq::empty())
    } else {
        spec_tag_step(spec_reconcile(current, sent.drop_last(), now), sent.last(), now)
    }
}

/// the outcome of an update of an entry's tags
#[derive(Debug)]
pub struct TagChanges {
    /// the tags to store, changed or new, in the order they were sent
    pub changed: Vec<EntryTag>,
    /// the tags that stay as they were
    pub unchanged: Vec<EntryTag>,
    /// the keys of the tags to delete
    pub removed: Vec<String>,
}

/// whether two optional texts are the same
pub fn opt_str_eq(a: &Option<String>, b: &Option<String>) -> (rtn: bool)
    ensures
        rtn == (opt_str(*a) == opt_str(*b)),
{
    match (a, b) {
        (Some(x), Some(y)) => str_eq(x.as_str(), y.as_str()),
        (None, None) => true,
        _ => false,
    }
}

/// the first tag with the given key
fn find_key(tags: &Vec<EntryTag>, key: &str) -> (rtn: Option<usize>)
    ensures
        match rtn {
            Some(j) => spec_find_key(tag_views(tags@), key@) == Some(j as int),
            None => spec_find_key(tag_views(tags@), key@) is None,
        },
{
    let ghost views = tag_views(tags@);
    let n = tags.len();
    let mut i: usize = 0;
    while i < n
        invariant
            n == tags@.len(),
            views == tag_views(tags@),
            i <= n,
            spec_find_key(views.take(i as int), key@) is None,
        decreases n - i,
    {
        assert(views.take(i + 1).drop_last() =~= views.take(i as int));
        if str_eq(tags[i].key.as_str(), key) {
            assert(views.take(i + 1).last().0 == key@);
            proof {
                lemma_find_key_prefix(views, key@, i as int + 1);
            }
            return Some(i);
        }
        i = i + 1;
    }
    assert(views.take(n as int) =~= views);
    None
}

/// the first tag found with a key lies among the tags and has the key; none
/// is found only when no tag has it
pub proof fn lemma_find_key_bounds(tags: Seq<TagView>, key: Seq<char>)
    ensures
        match spec_find_key(tags, key) {
            Some(i) => 0 <= i < tags.len() && tags[i].0 == key,
            None => forall|j: int| 0 <= j < tags.len() ==> (#[trigger] tags[j]).0 != key,
        },
    decreases tags.len(),
{
    if tags.len() > 0 {
        lemma_find_key_bounds(tags.drop_last(), key);
        if spec_find_key(tags.drop_last(), key) is None {
            assert forall|j: int| 0 <= j < tags.len() - 1 implies (#[trigger] tags[j]).0 != key by {
                assert(tags[j] == tags.drop_last()[j]);
            }
        }
    }
}

/// a key found in a prefix of the tags is found at the same place in all
/// of them
pub proof fn lemma_find_key_prefix(tags: Seq<TagView>, key: Seq<char>, n: int)
    requires
        0 <= n <= tags.len(),
        spec_find_key(tags.take(n), key) is Some,
    ensures
        spec_find_key(tags, key) == spec_find_key(tags.take(n), key),
    decreases tags.len(),
{
    if n < tags.len() {
        assert(tags.drop_last().take(n) =~= tags.take(n));
        lemma_find_key_prefix(tags.drop_last(), key, n);
    } else {
        assert(tags.take(n) =~= tags);
    }
}

/// the keys of tags
pub open spec fn spec_keys(tags: Seq<TagView>) -> Seq<Seq<char>> {
    tags.map_values(|t: TagView| t.0)
}

/// updates the tags of an entry: each sent tag, in order, changes, keeps or
/// adds a tag; the tags that no sent tag named are removed
pub fn reconcile_tags(current: Vec<EntryTag>, sent: &Vec<TagEntryBody>, now: Timestamp) -> (rtn: TagChanges)
    ensures
        ({
            let st = spec_reconcile(
                tag_views(current@),
                sent_views(sent@),
                now,
            );
            &&& tag_views(rtn.changed@) == st.1
            &&& tag_views(rtn.unchanged@) == st.2
            &&& string_views(rtn.removed@) == spec_keys(st.0)
        }),
{
    let ghost cur0 = tag_views(current@);
    let ghost sent_v = sent_views(sent@);
    let mut cur = current;
    let mut changed: Vec<EntryTag> = Vec::new();
    let mut unchanged: Vec<EntryTag> = Vec::new();
    let n = sent.len();
    let mut i: usize = 0;
    while i < n
        invariant
            n == sent@.len(),
            sent_v == sent_views(sent@),
            i <= n,
            spec_reconcile(cur0, sent_v.take(i as int), now) == (
                tag_views(cur@),
                tag_views(changed@),
                tag_views(unchanged@),
            ),
        decreases n - i,
    {
        let tag = &sent[i];
        assert(sent_v.take(i + 1).drop_last() =~= sent_v.take(i as int));
        assert(sent_v.take(i + 1).last() == spec_tag_body(*tag));
        let ghost cur_v = tag_views(cur@);
        let ghost ch_v = tag_views(changed@);
        let ghost un_v = tag_views(unchanged@);
        let ghost sent_i = sent_v.take(i + 1).last();
        assert(spec_reconcile(cur0, sent_v.take(i + 1), now) == spec_tag_step(
            (cur_v, ch_v, un_v),
            sent_i,
            now,
        ));
        match non_empty_str(to_owned_string(tag.key.as_str())) {
            None => {
                assert(spec_non_empty(sent_i.0) is None);
            },
            Some(key) => {
                let value = opt_non_empty_str(copy_opt_str(&tag.value));
                assert(spec_non_empty(sent_i.0) == Some(key@));
                assert(spec_opt_non_empty(sent_i.1) == opt_str(value));
                proof {
                    lemma_find_key_bounds(cur_v, key@);
                }
                let key_str = key.as_str();
                let found_at = find_key(&cur, key_str);
                assert(key_str@ == key@);
                assert(tag_views(cur@) == cur_v);
                match found_at {
                    Some(idx) => {
                        let found = cur.remove(idx);
                        let ghost fv = spec_entry_tag(found);
                        assert(fv == cur_v[idx as int]);
                        assert(fv.1 == opt_str(found.value));
                        assert(spec_find_key(cur_v, key@) == Some(idx as int));
                        assert(tag_views(cur@) =~= cur_v.remove(
                            idx as int,
                        ));
                        if !opt_str_eq(&found.value, &value) {
                            let EntryTag { key: fkey, value: _, created, updated: _ } = found;
                            changed.push(EntryTag { key: fkey, value, created, updated: Some(now) });
                            assert(tag_views(changed@) =~= ch_v.push(
                                spec_entry_tag(changed@.last()),
                            ));
                            assert((tag_views(cur@), tag_views(changed@), tag_views(unchanged@)) == spec_tag_step((cur_v, ch_v, un_v), sent_i, now));
                        } else {
                            unchanged.push(found);
                            assert(tag_views(unchanged@) =~= un_v.push(
                                spec_entry_tag(unchanged@.last()),
                            ));
                            assert((tag_views(cur@), tag_views(changed@), tag_views(unchanged@)) == spec_tag_step((cur_v, ch_v, un_v), sent_i, now));
                        }
                    },
                    None => {
                        changed.push(EntryTag { key, value, created: now, updated: None });
                        assert(tag_views(changed@) =~= ch_v.push(
                            spec_entry_tag(changed@.last()),
                        ));
                        assert((tag_views(cur@), tag_views(changed@), tag_views(unchanged@)) == spec_tag_step((cur_v, ch_v, un_v), sent_i, now));
                    },
                }
            },
        }
        i = i + 1;
    }
    assert(sent_v.take(n as int) =~= sent_v);
    let ghost cur_keys = spec_keys(tag_views(cur@));
    let mut removed: Vec<String> = Vec::new();
    let m = cur.len();
    let mut j: usize = 0;
    while j < m
        invariant
            m == cur@.len(),
            cur_keys == spec_keys(tag_views(cur@)),
            j <= m,
            removed@.len() == j,
            forall|k: int| 0 <= k < j ==> (#[trigger] removed@[k])@ == cur_keys[k],
        decreases m - j,
    {
        assert(cur_keys[j as int] == cur@[j as int].key@);
        removed.push(to_owned_string(cur[j].key.as_str()));
        j = j + 1;
    }
    assert(string_views(removed@) =~= cur_keys);
    TagChanges { changed, unchanged, removed }
}

/// whether a sent tag (after trimming) names the key
pub open spec fn spec_named(sent: Seq<(Seq<char>, Option<Seq<char>>)>, key: Seq<char>) -> bool {
    exists|j: int| 0 <= j < sent.len() && spec_non_empty((#[trigger] sent[j]).0) == Some(key)
}

/// whether no two tags share a key
pub open spec fn keys_distinct(tags: Seq<TagView>) -> bool {
    forall|i: int, j: int| 0 <= i < j < tags.len() ==> (#[trigger] tags[i]).0 != (#[trigger] tags[j]).0
}

/// removing a tag from tags with distinct keys removes exactly its key and
/// keeps the rest distinct
proof fn lemma_remove_key(tags: Seq<TagView>, i: int)
    requires
        keys_distinct(tags),
        0 <= i < tags.len(),
    ensures
        keys_distinct(tags.remove(i)),
        forall|k: Seq<char>|
            spec_keys(tags.remove(i)).contains(k) <==> (spec_keys(tags).contains(k) && k != tags[i].0),
{
    let r = tags.remove(i);
    assert forall|a: int, b: int| 0 <= a < b < r.len() implies (#[trigger] r[a]).0 != (#[trigger] r[b]).0 by {
        let a2 = if a < i { a } else { a + 1 };
        let b2 = if b < i { b } else { b + 1 };
        assert(r[a] == tags[a2] && r[b] == tags[b2]);
    }
    assert forall|k: Seq<char>|
        spec_keys(r).contains(k) <==> (spec_keys(tags).contains(k) && k != tags[i].0) by {
        if spec_keys(r).contains(k) {
            let a = choose|a: int| 0 <= a < spec_keys(r).len() && spec_keys(r)[a] == k;
            let a2 = if a < i { a } else { a + 1 };
            assert(r[a] == tags[a2]);
            assert(spec_keys(tags)[a2] == k);
            assert(a2 != i);
        }
        if spec_keys(tags).contains(k) && k != tags[i].0 {
            let a2 = choose|a2: int| 0 <= a2 < spec_keys(tags).len() && spec_keys(tags)[a2] == k;
            assert(a2 != i);
            let a = if a2 < i { a2 } else { a2 - 1 };
            assert(r[a] == tags[a2]);
            assert(spec_keys(r)[a] == k);
        }
    }
}

/// Tag updates remove exactly the tags that no sent tag names: when the
/// tags of an entry have distinct keys, a key is among the removed keys if
/// and only if the entry had it and no sent tag, trimmed, names it.
pub proof fn lemma_reconcile_removes_unnamed(current: Seq<TagView>, sent: Seq<(Seq<char>, Option<Seq<char>>)>, now: Timestamp)
    requires
        keys_distinct(current),
    ensures
        keys_distinct(spec_reconcile(current, sent, now).0),
        forall|k: Seq<char>|
            #[trigger] spec_keys(spec_reconcile(current, sent, now).0).contains(k) <==> (spec_keys(
                current,
            ).contains(k) && !spec_named(sent, k)),
    decreases sent.len(),
{
    if sent.len() == 0 {
        assert forall|k: Seq<char>| !spec_named(sent, k) by {}
    } else {
        let prev = sent.drop_last();
        lemma_reconcile_removes_unnamed(current, prev, now);
        let st = spec_reconcile(current, prev, now);
        let last = sent.last();
        assert forall|k: Seq<char>| spec_named(sent, k) <==> (spec_named(prev, k) || spec_non_empty(last.0) == Some(k)) by {
            if spec_named(sent, k) {
                let j = choose|j: int| 0 <= j < sent.len() && spec_non_empty((#[trigger] sent[j]).0) == Some(k);
                if j < sent.len() - 1 {
                    assert(prev[j] == sent[j]);
                }
            }
            if spec_named(prev, k) {
                let j = choose|j: int| 0 <= j < prev.len() && spec_non_empty((#[trigger] prev[j]).0) == Some(k);
                assert(sent[j] == prev[j]);
            }
            if spec_non_empty(last.0) == Some(k) {
                assert(sent[sent.len() - 1] == last);
            }
        }
        let next = spec_reconcile(current, sent, now);
        assert(next == spec_tag_step(st, last, now));
        match spec_non_empty(last.0) {
            None => {
                assert(next == st);
            },
            Some(key) => {
                lemma_find_key_bounds(st.0, key);
                match spec_find_key(st.0, key) {
                    Some(i) => {
                        lemma_remove_key(st.0, i);
                        assert(next.0 == st.0.remove(i));
                        assert forall|k: Seq<char>|
                            spec_keys(next.0).contains(k) <==> (spec_keys(current).contains(k)
                                && !spec_named(sent, k)) by {
                            assert(st.0[i].0 == key);
                            assert(spec_keys(st.0.remove(i)).contains(k) <==> (spec_keys(st.0).contains(k) && k != key));
                            assert(spec_keys(st.0).contains(k) <==> (spec_keys(current).contains(k) && !spec_named(prev, k)));
                            assert(spec_named(sent, k) <==> (spec_named(prev, k) || spec_non_empty(last.0) == Some(k)));
                        }
                    },
                    None => {
                        assert(!spec_keys(st.0).contains(key)) by {
                            if spec_keys(st.0).contains(key) {
                                let a = choose|a: int| 0 <= a < spec_keys(st.0).len() && spec_keys(st.0)[a] == key;
                                assert(st.0[a].0 == key);
                            }
                        }
                        assert(next.0 == st.0);
                    },
                }
            },
        }
    }
}

} // verus!
