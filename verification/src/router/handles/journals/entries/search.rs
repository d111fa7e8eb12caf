//! The search of a journal's entries: its query, and the sql it runs.

use vstd::prelude::*;
use crate::db::ids::{CustomFieldId, JournalId};
use crate::journal::custom_field::Type;
use crate::journal::CustomField;
use crate::text::{push_str, to_owned_string};

verus! {

/// the journal named in the path of a search
#[derive(Debug, Clone, Copy, PartialEq, Eq, Structural)]
pub struct JournalPath {
    pub journals_id: JournalId,
}

/// how many days of entries a search covers
#[derive(Debug, Clone, Copy, PartialEq, Eq, Structural)]
pub enum SearchSize {
    Month,
    HalfYear,
    Year,
}

impl SearchSize {
    /// the number of days
    pub open spec fn spec_days(&self) -> i32 {
        match self {
            SearchSize::Month => 31,
            SearchSize::HalfYear => 183,
            SearchSize::Year => 366,
        }
    }

    /// the number of days: 31, half of 366, or 366
    pub fn days(&self) -> (rtn: i32)
        ensures
            rtn == self.spec_days(),
    {
        match self {
            SearchSize::Month => 31,
            SearchSize::HalfYear => 183,
            SearchSize::Year => 366,
        }
    }

    /// whether the results are read in batches of the given size: when the
    /// search covers more days than a batch holds
    pub fn in_batches(&self, batch_size: i32) -> (rtn: bool)
        ensures
            rtn == (self.spec_days() > batch_size),
    {
        self.days() > batch_size
    }
}

impl Default for SearchSize {
    /// a search covers a year unless told otherwise
    fn default() -> (rtn: Self)
        ensures
            rtn == SearchSize::Year,
    {
        SearchSize::Year
    }
}

/// why a search failed
#[derive(Debug, Clone, Copy, PartialEq, Eq, Structural)]
pub enum SearchEntriesError {
    JournalNotFound,
    InvalidEndDate,
}

impl SearchEntriesError {
    /// the http status of the error: 404 for a missing journal, 400 for an
    /// end date before the start date
    pub fn status(&self) -> (rtn: u16)
        ensures
            rtn == match *self {
                SearchEntriesError::JournalNotFound => 404u16,
                SearchEntriesError::InvalidEndDate => 400u16,
            },
    {
        match self {
            SearchEntriesError::JournalNotFound => 404,
            SearchEntriesError::InvalidEndDate => 400,
        }
    }
}

/// the query of a search: the dates are days from the common era, as
/// chrono's `num_days_from_ce` gives them
#[derive(Debug, Clone, Copy, PartialEq, Eq, Structural)]
pub struct SearchQuery {
    pub start_date: Option<i32>,
    pub end_date: Option<i32>,
    pub size: SearchSize,
}

/// the columns and table of a search
pub open spec fn search_select() -> Seq<char> {
    "select entries.id, entries.uid, entries.journals_id, entries.users_id, entries.title, entries.entry_date, entries.created, entries.updated from entries "@
}

/// the sql of a search: the entries of the journal `$1`, from the start
/// date and up to the end date where they are given (as the next
/// parameters, in that order), latest first
pub open spec fn spec_search_sql(has_start: bool, has_end: bool) -> Seq<char> {
    search_select() + " where entries.journals_id = $1"@ + (if has_start {
        " and entries.entry_date >= $2"@
    } else {
        Seq::empty()
    }) + (if has_end {
        if has_start {
            " and entries.entry_date <= $3"@
        } else {
            " and entries.entry_date <= $2"@
        }
    } else {
        Seq::empty()
    }) + " order by entries.entry_date desc"@
}

/// the sql of a search and the dates that follow the journal as its
/// parameters
#[derive(Debug)]
pub struct SearchPlan {
    pub sql: String,
    pub dates: Vec<i32>,
}

/// the sql of a search of a journal's entries, or `InvalidEndDate` when
/// both dates are given and the end comes before the start
pub fn search_plan(query: &SearchQuery) -> (rtn: Result<SearchPlan, SearchEntriesError>)
    ensures
        match (query.start_date, query.end_date) {
            (Some(s), Some(e)) if s > e => rtn == Err::<SearchPlan, _>(SearchEntriesError::InvalidEndDate),
            _ => rtn matches Ok(plan) && plan.sql@ == spec_search_sql(
                query.start_date is Some,
                query.end_date is Some,
            ) && plan.dates@ == (match query.start_date {
                Some(s) => seq![s],
                None => Seq::empty(),
            }) + (match query.end_date {
                Some(e) => seq![e],
                None => Seq::empty(),
            }),
        },
{
    if let (Some(s), Some(e)) = (query.start_date, query.end_date) {
        if s > e {
            return Err(SearchEntriesError::InvalidEndDate);
        }
    }
    let mut sql = to_owned_string(
        "select entries.id, entries.uid, entries.journals_id, entries.users_id, entries.title, entries.entry_date, entries.created, entries.updated from entries ",
    );
    push_str(&mut sql, " where entries.journals_id = $1");
    let ghost base = sql@;
    let mut dates: Vec<i32> = Vec::new();
    match query.start_date {
        Some(s) => {
            push_str(&mut sql, " and entries.entry_date >= $2");
            dates.push(s);
        },
        None => {},
    }
    let ghost with_start = sql@;
    match query.end_date {
        Some(e) => {
            if query.start_date.is_some() {
                push_str(&mut sql, " and entries.entry_date <= $3");
            } else {
                push_str(&mut sql, " and entries.entry_date <= $2");
            }
            dates.push(e);
        },
        None => {},
    }
    let ghost with_end = sql@;
    push_str(&mut sql, " order by entries.entry_date desc");
    assert(with_start =~= base + (if query.start_date is Some {
        " and entries.entry_date >= $2"@
    } else {
        Seq::empty()
    }));
    assert(with_end =~= with_start + (if query.end_date is Some {
        if query.start_date is Some {
            " and entries.entry_date <= $3"@
        } else {
            " and entries.entry_date <= $2"@
        }
    } else {
        Seq::empty()
    }));
    assert(dates@ =~= (match query.start_date {
        Some(s) => seq![s],
        None => Seq::empty(),
    }) + (match query.end_date {
        Some(e) => seq![e],
        None => Seq::empty(),
    }));
    Ok(SearchPlan { sql, dates })
}

/// a custom field of the searched journal as the search answers it: its
/// id, name, description and kind
#[derive(Debug)]
pub struct CustomFieldPartial<F, FR> {
    pub id: CustomFieldId,
    pub name: String,
    pub description: Option<String>,
    pub config: Type<F, FR>,
}

impl<F, FR> CustomFieldPartial<F, FR> {
    /// the part of a custom field that a search answers
    pub fn from_field(field: CustomField<F, FR>) -> (rtn: Self)
        ensures
            rtn.id == field.id,
            rtn.name == field.name,
            rtn.description == field.description,
            rtn.config == field.config,
    {
        CustomFieldPartial { id: field.id, name: field.name, description: field.description, config: field.config }
    }
}

/// whether `part` stands in `s` from the position `at` on
pub open spec fn part_at(s: Seq<char>, part: Seq<char>, at: int) -> bool {
    0 <= at && at + part.len() <= s.len() && s.subrange(at, at + part.len()) == part
}

/// A search keeps the entries of its journal that lie on or after the
/// start date and on or before the end date, where they are given, latest
/// first: the sql selects the entries of the journal `$1`; whenever a start
/// date is given, with or without an end date, it then requires the entry
/// date to be at least `$2`, the parameter that holds the start date;
/// whenever an end date is given it then requires the entry date to be at
/// most the parameter that holds the end date, the one after the start
/// date's; it restricts nothing else, and ends ordering by entry date,
/// latest first.
pub proof fn lemma_search_sql_bounds(has_start: bool, has_end: bool)
    ensures
        ({
            let sql = spec_search_sql(has_start, has_end);
            let head = search_select() + " where entries.journals_id = $1"@;
            let low = " and entries.entry_date >= $2"@;
            let high = if has_start {
                " and entries.entry_date <= $3"@
            } else {
                " and entries.entry_date <= $2"@
            };
            let order = " order by entries.entry_date desc"@;
            let low_len: int = if has_start { low.len() as int } else { 0 };
            let high_len: int = if has_end { high.len() as int } else { 0 };
            &&& part_at(sql, head, 0)
            &&& has_start ==> part_at(sql, low, head.len() as int)
            &&& has_end ==> part_at(sql, high, head.len() + low_len)
            &&& part_at(sql, order, head.len() + low_len + high_len)
            &&& sql.len() == head.len() + low_len + high_len + order.len()
        }),
{
    let sql = spec_search_sql(has_start, has_end);
    let head = search_select() + " where entries.journals_id = $1"@;
    let low = " and entries.entry_date >= $2"@;
    let high = if has_start {
        " and entries.entry_date <= $3"@
    } else {
        " and entries.entry_date <= $2"@
    };
    let order = " order by entries.entry_date desc"@;
    let lows: Seq<char> = if has_start { low } else { Seq::empty() };
    let highs: Seq<char> = if has_end { high } else { Seq::empty() };
    assert(sql =~= head + lows + highs + order);
    assert(sql.subrange(0, head.len() as int) =~= head);
    let a: int = head.len() as int;
    let b: int = a + lows.len();
    let c: int = b + highs.len();
    assert(sql.subrange(a, b) =~= lows);
    assert(sql.subrange(b, c) =~= highs);
    assert(sql.subrange(c, sql.len() as int) =~= order);
}

} // verus!
