//! Database helpers: parameter conversions and error classification.

pub mod ids;
pub mod test_data;

use vstd::prelude::*;
use crate::router::admin::roles::{Ability, Scope};
use crate::text::{push_char, push_decimal, push_str, spec_decimal, str_eq};

pub use tokio_postgres::Error as PgError;

verus! {

/// a database error, carried through the library unread
#[verifier::external_type_specification]
#[verifier::external_body]
pub struct ExPgError(tokio_postgres::Error);

/// a port, stored by the database as a 4 byte integer
#[derive(Debug)]
pub struct U16toI32<'a>(pub &'a u16);

impl<'a> U16toI32<'a> {
    /// the integer that is stored: the same number
    pub fn value(&self) -> (rtn: i32)
        ensures
            rtn == *self.0,
    {
        *self.0 as i32
    }
}

/// a small count, stored by the database as a 2 byte integer
#[derive(Debug)]
pub struct U8toI16<'a>(pub &'a u8);

impl<'a> U8toI16<'a> {
    /// the integer that is stored: the same number
    pub fn value(&self) -> (rtn: i16)
        ensures
            rtn == *self.0,
    {
        *self.0 as i16
    }
}

/// bytes stored by the database as `bytea`
#[derive(Debug)]
pub struct ToBytea<'a>(pub &'a [u8]);

impl<'a> ToBytea<'a> {
    /// the bytes that are stored
    pub fn bytes(&self) -> (rtn: &'a [u8])
        ensures
            rtn@ == self.0@,
    {
        self.0
    }
}

/// a value made from the bytes of a `bytea` column, by the type's own
/// `TryFrom`
pub fn try_from_bytea<'a, T>(given: &'a [u8]) -> (rtn: Result<T, T::Error>)
    where
        T: TryFrom<&'a [u8]>,
    ensures
        <T as vstd::std_specs::convert::TryFromSpec<&'a [u8]>>::obeys_try_from_spec() ==> rtn
            == <T as vstd::std_specs::convert::TryFromSpec<&'a [u8]>>::try_from_spec(given),
{
    T::try_from(given)
}

/// a value made from an integer column, by the type's own `TryFrom`; for
/// the integer types, `Ok` exactly when the number fits
pub fn try_from_int<T>(given: i32) -> (rtn: Result<T, T::Error>)
    where
        T: TryFrom<i32>,
    ensures
        <T as vstd::std_specs::convert::TryFromSpec<i32>>::obeys_try_from_spec() ==> rtn
            == <T as vstd::std_specs::convert::TryFromSpec<i32>>::try_from_spec(given),
{
    T::try_from(given)
}

/// what a database error says of a violation: the five characters of the
/// sql state the server sent and the constraint it names, or `None` when
/// the error did not come from the server
pub uninterp spec fn spec_db_violation(error: PgError) -> Option<(Seq<char>, Option<Seq<char>>)>;

/// Calls `tokio_postgres::Error::as_db_error`, then `DbError::code` (its
/// five characters) and `DbError::constraint` on the server's error. As
/// tokio-postgres's source shows, these read fields of the error alone;
/// what they give is named `spec_db_violation`.
#[verifier::external_body]
fn db_violation<'a>(error: &'a PgError) -> (rtn: Option<(&'a str, Option<&'a str>)>)
    ensures
        spec_db_violation(*error) == match rtn {
            None => None,
            Some((code, constraint)) => Some(
                (
                    code@,
                    match constraint {
                        Some(c) => Some(c@),
                        None => None,
                    },
                ),
            ),
        },
{
    match error.as_db_error() {
        Some(db_error) => Some((db_error.code().code(), db_error.constraint())),
        None => None,
    }
}

/// the sql state of a unique violation
pub open spec fn unique_violation() -> Seq<char> {
    "23505"@
}

/// the sql state of a foreign key violation
pub open spec fn foreign_key_violation() -> Seq<char> {
    "23503"@
}

/// the database errors that the library tells apart: the violated
/// constraint of a unique or foreign key violation
#[derive(Debug)]
pub enum ErrorKind<'a> {
    /// a UNIQUE_VIOLATION, with the constraint that caused it
    Unique(&'a str),
    /// a FOREIGN_KEY_VIOLATION, with the constraint that caused it
    ForeignKey(&'a str),
}

impl<'a> ErrorKind<'a> {
    /// the kind of an error from its sql state and violated constraint:
    /// only the two violations with a named constraint have one
    pub open spec fn spec_from_parts(code: Seq<char>, constraint: Option<Seq<char>>) -> Option<
        (bool, Seq<char>),
    > {
        match constraint {
            None => None,
            Some(name) => if code == unique_violation() {
                Some((true, name))
            } else if code == foreign_key_violation() {
                Some((false, name))
            } else {
                None
            },
        }
    }

    /// whether the kind is a unique violation, and its constraint
    pub open spec fn spec_parts(&self) -> (bool, Seq<char>) {
        match self {
            ErrorKind::Unique(name) => (true, name@),
            ErrorKind::ForeignKey(name) => (false, name@),
        }
    }

    /// the kind of an error from its sql state and violated constraint
    pub fn from_parts(code: &str, constraint: Option<&'a str>) -> (rtn: Option<Self>)
        ensures
            match rtn {
                Some(kind) => Self::spec_from_parts(
                    code@,
                    match constraint {
                        Some(c) => Some(c@),
                        None => None,
                    },
                ) == Some(kind.spec_parts()),
                None => Self::spec_from_parts(
                    code@,
                    match constraint {
                        Some(c) => Some(c@),
                        None => None,
                    },
                ) is None,
            },
    {
        match constraint {
            None => None,
            Some(name) => if str_eq(code, "23505") {
                Some(ErrorKind::Unique(name))
            } else if str_eq(code, "23503") {
                Some(ErrorKind::ForeignKey(name))
            } else {
                None
            },
        }
    }

    /// the kind of a database error, if it is one the library tells apart:
    /// a unique or foreign key violation that names its constraint
    pub fn check(error: &'a PgError) -> (rtn: Option<Self>)
        ensures
            match spec_db_violation(*error) {
                None => rtn is None,
                Some((code, constraint)) => match Self::spec_from_parts(code, constraint) {
                    None => rtn is None,
                    Some(p) => rtn matches Some(k) && k.spec_parts() == p,
                },
            },
    {
        match db_violation(error) {
            None => None,
            Some((code, constraint)) => Self::from_parts(code, constraint),
        }
    }
}

/// the row of an insert that takes one parameter of its own, number
/// `first + i` for the `i`th row, followed by the rest of the row
pub open spec fn spec_param_row(i: nat, first: nat, tail: Seq<char>) -> Seq<char> {
    seq!['(', '$'] + spec_decimal(first + i) + tail
}

/// the first `n` such rows, separated by `, `
pub open spec fn spec_param_rows(n: nat, first: nat, tail: Seq<char>) -> Seq<char>
    decreases n,
{
    if n == 0 {
        Seq::empty()
    } else if n == 1 {
        spec_param_row(0, first, tail)
    } else {
        spec_param_rows((n - 1) as nat, first, tail) + ", "@ + spec_param_row((n - 1) as nat, first, tail)
    }
}

/// appends `count` rows that each take one parameter of their own, the
/// first numbered `first`, each followed by `tail`
pub fn push_param_rows(s: &mut String, count: usize, first: u64, tail: &str)
    requires
        first + count <= u64::MAX,
    ensures
        final(s)@ == old(s)@ + spec_param_rows(count as nat, first as nat, tail@),
{
    let ghost start = s@;
    let mut i: usize = 0;
    while i < count
        invariant
            i <= count,
            first + count <= u64::MAX,
            s@ == start + spec_param_rows(i as nat, first as nat, tail@),
        decreases count - i,
    {
        if i > 0 {
            push_str(s, ", ");
        }
        let ghost sep = s@;
        push_char(s, '(');
        push_char(s, '$');
        push_decimal(s, first + i as u64);
        push_str(s, tail);
        assert(s@ =~= sep + spec_param_row(i as nat, first as nat, tail@));
        if i > 0 {
            assert(s@ =~= start + (spec_param_rows(i as nat, first as nat, tail@) + ", "@
                + spec_param_row(i as nat, first as nat, tail@)));
        } else {
            assert(s@ =~= start + spec_param_row(0, first as nat, tail@));
        }
        i = i + 1;
    }
}

/// every ability, in their order
pub open spec fn spec_all_abilities() -> Seq<Ability> {
    seq![Ability::Create, Ability::Read, Ability::Update, Ability::Delete]
}

fn all_abilities() -> (rtn: Vec<Ability>)
    ensures
        rtn@ == spec_all_abilities(),
{
    let rtn = vec![Ability::Create, Ability::Read, Ability::Update, Ability::Delete];
    assert(rtn@ =~= spec_all_abilities());
    rtn
}

/// the permissions of the admin role that the server makes at its first
/// start: every scope, in their order, with every ability
pub fn default_admin_permissions() -> (rtn: Vec<(Scope, Vec<Ability>)>)
    ensures
        rtn@.len() == 5,
        forall|i: int| 0 <= i < 5 ==> (#[trigger] rtn@[i]).0.spec_index() == i && rtn@[i].1@ == spec_all_abilities(),
{
    let mut rtn: Vec<(Scope, Vec<Ability>)> = Vec::new();
    let mut i: usize = 0;
    while i < 5
        invariant
            i <= 5,
            rtn@.len() == i,
            forall|k: int| 0 <= k < i ==> (#[trigger] rtn@[k]).0.spec_index() == k && rtn@[k].1@ == spec_all_abilities(),
        decreases 5 - i,
    {
        rtn.push((Scope::from_index(i), all_abilities()));
        i = i + 1;
    }
    rtn
}

} // verus!
