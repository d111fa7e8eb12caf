//! The listing of a journal's entries: the database gives one row for each
//! tag of an entry (or one row without a tag), rows of one entry next to
//! each other, and the listing folds them back into one record per entry.

use vstd::prelude::*;
use crate::config::StrMap;
use crate::db::ids::EntryId;

verus! {

/// a row of the listing: an entry's id, its other columns, and one of its
/// tags, or no tag when the entry has none
#[derive(Debug)]
pub struct EntryRow<H> {
    pub id: EntryId,
    pub head: H,
    pub key: Option<String>,
    pub value: Option<String>,
}

/// an entry of the listing with the tags its rows gave
#[derive(Debug)]
pub struct EntryPartial<H> {
    pub id: EntryId,
    pub head: H,
    pub tags: StrMap<Option<String>>,
}

/// an entry of the listing as its id, its other columns and its tags
pub open spec fn spec_partial<H>(p: EntryPartial<H>) -> (EntryId, H, Map<Seq<char>, Option<String>>) {
    (p.id, p.head, p.tags@)
}

/// the tags with the tag of a row added, when the row has one
pub open spec fn spec_row_tags<H>(tags: Map<Seq<char>, Option<String>>, row: EntryRow<H>) -> Map<
    Seq<char>,
    Option<String>,
> {
    match row.key {
        Some(k) => tags.insert(k@, row.value),
        None => tags,
    }
}

/// the entries that the rows give, in row order: a row whose id is that
/// of the entry before it adds its tag to that entry, any other row starts
/// a new entry with its own columns and tag
pub open spec fn spec_group_rows<H>(rows: Seq<EntryRow<H>>) -> Seq<(EntryId, H, Map<Seq<char>, Option<String>>)>
    decreases rows.len(),
{
    if rows.len() == 0 {
        Seq::empty()
    } else {
        let before = spec_group_rows(rows.drop_last());
        let row = rows.last();
        if before.len() > 0 && before.last().0 == row.id {
            before.update(
                before.len() - 1,
                (row.id, before.last().1, spec_row_tags(before.last().2, row)),
            )
        } else {
            before.push((row.id, row.head, spec_row_tags(Map::empty(), row)))
        }
    }
}

/// the entries so far: those done and the one being filled
pub open spec fn spec_listed<H>(found: Seq<EntryPartial<H>>, current: Option<EntryPartial<H>>) -> Seq<
    (EntryId, H, Map<Seq<char>, Option<String>>),
> {
    let done = found.map_values(|p: EntryPartial<H>| spec_partial(p));
    match current {
        Some(c) => done.push(spec_partial(c)),
        None => done,
    }
}

/// a new entry of the listing from its first row
fn start_entry<H>(row: EntryRow<H>) -> (rtn: EntryPartial<H>)
    ensures
        spec_partial(rtn) == (row.id, row.head, spec_row_tags(Map::empty(), row)),
{
    let mut tags: StrMap<Option<String>> = StrMap::new();
    if let Some(k) = row.key {
        tags.insert(k, row.value);
    }
    EntryPartial { id: row.id, head: row.head, tags }
}

/// Folds the rows of the listing into its entries, in row order: each run
/// of rows with one id gives one entry, with the columns of its first row
/// and the tags of all its rows.
pub fn group_entry_rows<H>(rows: Vec<EntryRow<H>>) -> (rtn: Vec<EntryPartial<H>>)
    ensures
        rtn@.map_values(|p: EntryPartial<H>| spec_partial(p)) == spec_group_rows(rows@),
{
    let ghost all = rows@;
    let mut rows = rows;
    let mut found: Vec<EntryPartial<H>> = Vec::new();
    let mut current: Option<EntryPartial<H>> = None;
    while rows.len() > 0
        invariant
            rows@.len() <= all.len(),
            rows@ == all.subrange(all.len() - rows@.len(), all.len() as int),
            spec_listed(found@, current) == spec_group_rows(all.subrange(0, all.len() - rows@.len())),
            current is None ==> found@.len() == 0 && rows@.len() == all.len(),
        decreases rows@.len(),
    {
        let ghost k = all.len() - rows@.len();
        let ghost before = found@;
        let row = rows.remove(0);
        let ghost r = row;
        assert(rows@ == all.subrange(all.len() - rows@.len(), all.len() as int));
        assert(r == all[k]);
        let ghost taken = all.subrange(0, k + 1);
        assert(taken.drop_last() == all.subrange(0, k));
        assert(taken.last() == r);
        match current {
            Some(mut c) => {
                if c.id == row.id {
                    let ghost old_c = spec_partial(c);
                    if let Some(k) = row.key {
                        c.tags.insert(k, row.value);
                    }
                    assert(spec_partial(c) == (r.id, old_c.1, spec_row_tags(old_c.2, r)));
                    current = Some(c);
                    let ghost done = before.map_values(|p: EntryPartial<H>| spec_partial(p));
                    assert(spec_listed(found@, current) =~= done.push(old_c).update(
                        done.len() as int,
                        spec_partial(c),
                    ));
                } else {
                    found.push(c);
                    current = Some(start_entry(row));
                    assert(found@.map_values(|p: EntryPartial<H>| spec_partial(p)) =~= before.map_values(
                        |p: EntryPartial<H>| spec_partial(p),
                    ).push(spec_partial(c)));
                }
            },
            None => {
                current = Some(start_entry(row));
                assert(all.subrange(0, k) =~= Seq::<EntryRow<H>>::empty());
                assert(found@.map_values(|p: EntryPartial<H>| spec_partial(p)) =~= Seq::empty());
            },
        }
    }
    assert(all.subrange(0, all.len() as int) =~= all);
    if let Some(c) = current {
        let ghost before = found@;
        found.push(c);
        assert(found@.map_values(|p: EntryPartial<H>| spec_partial(p)) =~= before.map_values(
            |p: EntryPartial<H>| spec_partial(p),
        ).push(spec_partial(c)));
    }
    found
}

/// Each entry of the listing comes from one run of rows: no two entries
/// next to each other have the same id, and there are no more entries
/// than rows.
pub proof fn lemma_group_rows_runs<H>(rows: Seq<EntryRow<H>>)
    ensures
        spec_group_rows(rows).len() <= rows.len(),
        forall|i: int|
            0 <= i < spec_group_rows(rows).len() - 1 ==> (#[trigger] spec_group_rows(rows)[i]).0
                != spec_group_rows(rows)[i + 1].0,
        rows.len() > 0 ==> spec_group_rows(rows).len() > 0 && spec_group_rows(rows).last().0
            == rows.last().id,
    decreases rows.len(),
{
    if rows.len() > 0 {
        lemma_group_rows_runs(rows.drop_last());
    }
}

} // verus!
