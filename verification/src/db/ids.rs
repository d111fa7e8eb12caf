//! Identifiers of database records and helpers over lists of them.

use std::collections::{HashMap, HashSet};
use vstd::prelude::*;
use vstd::std_specs::hash::obeys_key_model;

verus! {

broadcast use vstd::std_specs::hash::group_hash_axioms;

/// the given integer is below zero and cannot be an id
#[derive(Debug)]
pub struct InvalidIdInteger;

/// the given text is not the decimal form of an id
#[derive(Debug)]
pub struct InvalidIdString;

/// the given text is not a uid: wrong length or a character outside the
/// uid alphabet
#[derive(Debug)]
pub struct InvalidUidString;

/// the number of characters in a uid
pub const UID_SIZE: usize = 16;

/// whether a character belongs to the uid alphabet: ascii letters, digits
/// and `_`
pub open spec fn is_uid_char(c: char) -> bool {
    c == '_' || ('0' <= c && c <= '9') || ('a' <= c && c <= 'z') || ('A' <= c && c <= 'Z')
}

/// whether a text is a valid uid: exactly `UID_SIZE` characters, all of the
/// uid alphabet
pub open spec fn is_valid_uid(s: Seq<char>) -> bool {
    s.len() == UID_SIZE && forall|i: int| 0 <= i < s.len() ==> is_uid_char(#[trigger] s[i])
}

/// checks that the given text is a valid uid
pub fn check_uid(given: &str) -> (rtn: bool)
    ensures
        rtn == is_valid_uid(given@),
{
    let len = given.unicode_len();
    let mut count: usize = 0;
    while count < len
        invariant
            len == given@.len(),
            count <= len,
            forall|i: int| 0 <= i < count ==> is_uid_char(#[trigger] given@[i]),
        decreases len - count,
    {
        let ch = given.get_char(count);
        if !(ch == '_' || ('0' <= ch && ch <= '9') || ('a' <= ch && ch <= 'z') || ('A' <= ch && ch <= 'Z')) {
            return false;
        }
        count = count + 1;
    }
    count == UID_SIZE
}

/// Calls `nanoid::format` with nanoid's default random source. As nanoid's
/// source shows, it draws random bytes until it has `size` characters, each
/// of the alphabet; the characters are random and not named. The alphabet
/// must be ascii, so that its length in bytes counts characters, and hold
/// between 1 and 255 characters; the size must not be zero, or the call
/// would never return.
#[verifier::external_body]
fn nanoid_format(alphabet: &[char], size: usize) -> (rtn: String)
    requires
        1 <= alphabet@.len() <= 255,
        forall|i: int| 0 <= i < alphabet@.len() ==> (#[trigger] alphabet@[i]) as u32 <= 127,
        size >= 1,
    ensures
        rtn@.len() == size,
        forall|i: int| 0 <= i < rtn@.len() ==> alphabet@.contains(#[trigger] rtn@[i]),
{
    nanoid::format(nanoid::rngs::default, alphabet, size)
}

/// the characters of generated uids: digits, upper and lower case ascii
/// letters and `_`
pub fn uid_alphabet() -> (rtn: Vec<char>)
    ensures
        rtn@.len() == 63,
        forall|i: int| 0 <= i < rtn@.len() ==> is_uid_char(#[trigger] rtn@[i]),
        forall|c: char| is_uid_char(c) ==> rtn@.contains(c),
{
    let mut rtn: Vec<char> = Vec::new();
    let ranges: [(u8, u8); 3] = [(48, 57), (65, 90), (97, 122)];
    let mut r: usize = 0;
    while r < 3
        invariant
            r <= 3,
            ranges@ == seq![(48u8, 57u8), (65u8, 90u8), (97u8, 122u8)],
            rtn@.len() == (if r == 0 { 0nat } else if r == 1 { 10nat } else if r == 2 { 36nat } else { 62nat }),
            forall|i: int| 0 <= i < rtn@.len() ==> is_uid_char(#[trigger] rtn@[i]),
            forall|c: char|
                (r >= 1 && '0' <= c <= '9') || (r >= 2 && 'A' <= c <= 'Z') || (r >= 3 && 'a' <= c
                    <= 'z') ==> rtn@.contains(c),
        decreases 3 - r,
    {
        let (lo, hi) = ranges[r];
        let mut b: u8 = lo;
        let ghost start = rtn@;
        while b <= hi
            invariant
                lo <= b <= hi + 1,
                hi < 255,
                (lo, hi) == ranges@[r as int],
                r < 3,
                ranges@ == seq![(48u8, 57u8), (65u8, 90u8), (97u8, 122u8)],
                rtn@.len() == start.len() + (b - lo),
                rtn@.subrange(0, start.len() as int) == start,
                forall|i: int| 0 <= i < rtn@.len() ==> is_uid_char(#[trigger] rtn@[i]),
                forall|k: int| 0 <= k < b - lo ==> (#[trigger] rtn@[start.len() + k]) as u32 == lo + k,
            decreases hi + 1 - b,
        {
            let c = b as char;
            rtn.push(c);
            b = b + 1;
        }
        assert forall|c: char|
            (r + 1 >= 1 && '0' <= c <= '9') || (r + 1 >= 2 && 'A' <= c <= 'Z') || (r + 1 >= 3 && 'a'
                <= c <= 'z') implies rtn@.contains(c) by {
            if lo as u32 <= c as u32 <= hi as u32 {
                let k = c as u32 - lo as u32;
                assert(rtn@[start.len() + k] == c);
            } else {
                assert(start.contains(c));
                let j = choose|j: int| 0 <= j < start.len() && start[j] == c;
                assert(rtn@[j] == c);
            }
        }
        r = r + 1;
    }
    let ghost before = rtn@;
    rtn.push('_');
    assert forall|c: char| is_uid_char(c) implies rtn@.contains(c) by {
        if c == '_' {
            assert(rtn@[62] == c);
        } else {
            assert(before.contains(c));
            let j = choose|j: int| 0 <= j < before.len() && before[j] == c;
            assert(rtn@[j] == c);
        }
    }
    rtn
}

/// a new random uid
pub fn gen_uid() -> (rtn: String)
    ensures
        is_valid_uid(rtn@),
{
    let alphabet = uid_alphabet();
    let rtn = nanoid_format(alphabet.as_slice(), UID_SIZE);
    assert forall|i: int| 0 <= i < rtn@.len() implies is_uid_char(#[trigger] rtn@[i]) by {
        let j = choose|j: int| 0 <= j < alphabet@.len() && alphabet@[j] == rtn@[i];
        assert(is_uid_char(alphabet@[j]));
    }
    rtn
}

/// database id of a record; never below zero
#[derive(Debug, Clone, Copy, PartialEq, Eq, Hash, Structural)]
pub struct UserId(i64);

impl UserId {
    /// the integer value of the id
    pub closed spec fn value(self) -> i64 {
        self.0
    }

    /// creates the id, refusing integers below zero
    pub fn new(value: i64) -> (rtn: Result<Self, InvalidIdInteger>)
        ensures
            match rtn {
                Ok(id) => value >= 0 && id.value() == value,
                Err(_) => value < 0,
            },
    {
        if value < 0 {
            Err(InvalidIdInteger)
        } else {
            Ok(UserId(value))
        }
    }

    /// the id zero
    pub fn zero() -> (rtn: Self)
        ensures
            rtn.value() == 0,
    {
        UserId(0)
    }

    /// whether the id is zero
    pub fn is_zero(&self) -> (rtn: bool)
        ensures
            rtn == (self.value() == 0),
    {
        self.0 == 0
    }

    /// the integer value of the id
    pub fn inner(&self) -> (rtn: &i64)
        ensures
            *rtn == self.value(),
    {
        &self.0
    }
}

/// database id of a record; never below zero
#[derive(Debug, Clone, Copy, PartialEq, Eq, Hash, Structural)]
pub struct GroupId(i64);

impl GroupId {
    /// the integer value of the id
    pub closed spec fn value(self) -> i64 {
        self.0
    }

    /// creates the id, refusing integers below zero
    pub fn new(value: i64) -> (rtn: Result<Self, InvalidIdInteger>)
        ensures
            match rtn {
                Ok(id) => value >= 0 && id.value() == value,
                Err(_) => value < 0,
            },
    {
        if value < 0 {
            Err(InvalidIdInteger)
        } else {
            Ok(GroupId(value))
        }
    }

    /// the id zero
    pub fn zero() -> (rtn: Self)
        ensures
            rtn.value() == 0,
    {
        GroupId(0)
    }

    /// whether the id is zero
    pub fn is_zero(&self) -> (rtn: bool)
        ensures
            rtn == (self.value() == 0),
    {
        self.0 == 0
    }

    /// the integer value of the id
    pub fn inner(&self) -> (rtn: &i64)
        ensures
            *rtn == self.value(),
    {
        &self.0
    }
}

/// database id of a record; never below zero
#[derive(Debug, Clone, Copy, PartialEq, Eq, Hash, Structural)]
pub struct JournalId(i64);

impl JournalId {
    /// the integer value of the id
    pub closed spec fn value(self) -> i64 {
        self.0
    }

    /// creates the id, refusing integers below zero
    pub fn new(value: i64) -> (rtn: Result<Self, InvalidIdInteger>)
        ensures
            match rtn {
                Ok(id) => value >= 0 && id.value() == value,
                Err(_) => value < 0,
            },
    {
        if value < 0 {
            Err(InvalidIdInteger)
        } else {
            Ok(JournalId(value))
        }
    }

    /// the id zero
    pub fn zero() -> (rtn: Self)
        ensures
            rtn.value() == 0,
    {
        JournalId(0)
    }

    /// whether the id is zero
    pub fn is_zero(&self) -> (rtn: bool)
        ensures
            rtn == (self.value() == 0),
    {
        self.0 == 0
    }

    /// the integer value of the id
    pub fn inner(&self) -> (rtn: &i64)
        ensures
            *rtn == self.value(),
    {
        &self.0
    }
}

/// database id of a record; never below zero
#[derive(Debug, Clone, Copy, PartialEq, Eq, Hash, Structural)]
pub struct EntryId(i64);

impl EntryId {
    /// the integer value of the id
    pub closed spec fn value(self) -> i64 {
        self.0
    }

    /// creates the id, refusing integers below zero
    pub fn new(value: i64) -> (rtn: Result<Self, InvalidIdInteger>)
        ensures
            match rtn {
                Ok(id) => value >= 0 && id.value() == value,
                Err(_) => value < 0,
            },
    {
        if value < 0 {
            Err(InvalidIdInteger)
        } else {
            Ok(EntryId(value))
        }
    }

    /// the id zero
    pub fn zero() -> (rtn: Self)
        ensures
            rtn.value() == 0,
    {
        EntryId(0)
    }

    /// whether the id is zero
    pub fn is_zero(&self) -> (rtn: bool)
        ensures
            rtn == (self.value() == 0),
    {
        self.0 == 0
    }

    /// the integer value of the id
    pub fn inner(&self) -> (rtn: &i64)
        ensures
            *rtn == self.value(),
    {
        &self.0
    }
}

/// database id of a record; never below zero
#[derive(Debug, Clone, Copy, PartialEq, Eq, Hash, Structural)]
pub struct FileEntryId(i64);

impl FileEntryId {
    /// the integer value of the id
    pub closed spec fn value(self) -> i64 {
        self.0
    }

    /// creates the id, refusing integers below zero
    pub fn new(value: i64) -> (rtn: Result<Self, InvalidIdInteger>)
        ensures
            match rtn {
                Ok(id) => value >= 0 && id.value() == value,
                Err(_) => value < 0,
            },
    {
        if value < 0 {
            Err(InvalidIdInteger)
        } else {
            Ok(FileEntryId(value))
        }
    }

    /// the id zero
    pub fn zero() -> (rtn: Self)
        ensures
            rtn.value() == 0,
    {
        FileEntryId(0)
    }

    /// whether the id is zero
    pub fn is_zero(&self) -> (rtn: bool)
        ensures
            rtn == (self.value() == 0),
    {
        self.0 == 0
    }

    /// the integer value of the id
    pub fn inner(&self) -> (rtn: &i64)
        ensures
            *rtn == self.value(),
    {
        &self.0
    }
}

/// database id of a record; never below zero
#[derive(Debug, Clone, Copy, PartialEq, Eq, Hash, Structural)]
pub struct RoleId(i64);

impl RoleId {
    /// the integer value of the id
    pub closed spec fn value(self) -> i64 {
        self.0
    }

    /// creates the id, refusing integers below zero
    pub fn new(value: i64) -> (rtn: Result<Self, InvalidIdInteger>)
        ensures
            match rtn {
                Ok(id) => value >= 0 && id.value() == value,
                Err(_) => value < 0,
            },
    {
        if value < 0 {
            Err(InvalidIdInteger)
        } else {
            Ok(RoleId(value))
        }
    }

    /// the id zero
    pub fn zero() -> (rtn: Self)
        ensures
            rtn.value() == 0,
    {
        RoleId(0)
    }

    /// whether the id is zero
    pub fn is_zero(&self) -> (rtn: bool)
        ensures
            rtn == (self.value() == 0),
    {
        self.0 == 0
    }

    /// the integer value of the id
    pub fn inner(&self) -> (rtn: &i64)
        ensures
            *rtn == self.value(),
    {
        &self.0
    }
}

/// database id of a record; never below zero
#[derive(Debug, Clone, Copy, PartialEq, Eq, Hash, Structural)]
pub struct PermissionId(i64);

impl PermissionId {
    /// the integer value of the id
    pub closed spec fn value(self) -> i64 {
        self.0
    }

    /// creates the id, refusing integers below zero
    pub fn new(value: i64) -> (rtn: Result<Self, InvalidIdInteger>)
        ensures
            match rtn {
                Ok(id) => value >= 0 && id.value() == value,
                Err(_) => value < 0,
            },
    {
        if value < 0 {
            Err(InvalidIdInteger)
        } else {
            Ok(PermissionId(value))
        }
    }

    /// the id zero
    pub fn zero() -> (rtn: Self)
        ensures
            rtn.value() == 0,
    {
        PermissionId(0)
    }

    /// whether the id is zero
    pub fn is_zero(&self) -> (rtn: bool)
        ensures
            rtn == (self.value() == 0),
    {
        self.0 == 0
    }

    /// the integer value of the id
    pub fn inner(&self) -> (rtn: &i64)
        ensures
            *rtn == self.value(),
    {
        &self.0
    }
}

/// database id of a record; never below zero
#[derive(Debug, Clone, Copy, PartialEq, Eq, Hash, Structural)]
pub struct CustomFieldId(i64);

impl CustomFieldId {
    /// the integer value of the id
    pub closed spec fn value(self) -> i64 {
        self.0
    }

    /// creates the id, refusing integers below zero
    pub fn new(value: i64) -> (rtn: Result<Self, InvalidIdInteger>)
        ensures
            match rtn {
                Ok(id) => value >= 0 && id.value() == value,
                Err(_) => value < 0,
            },
    {
        if value < 0 {
            Err(InvalidIdInteger)
        } else {
            Ok(CustomFieldId(value))
        }
    }

    /// the id zero
    pub fn zero() -> (rtn: Self)
        ensures
            rtn.value() == 0,
    {
        CustomFieldId(0)
    }

    /// whether the id is zero
    pub fn is_zero(&self) -> (rtn: bool)
        ensures
            rtn == (self.value() == 0),
    {
        self.0 == 0
    }

    /// the integer value of the id
    pub fn inner(&self) -> (rtn: &i64)
        ensures
            *rtn == self.value(),
    {
        &self.0
    }
}

/// database id of a record; never below zero
#[derive(Debug, Clone, Copy, PartialEq, Eq, Hash, Structural)]
pub struct JournalShareId(i64);

impl JournalShareId {
    /// the integer value of the id
    pub closed spec fn value(self) -> i64 {
        self.0
    }

    /// creates the id, refusing integers below zero
    pub fn new(value: i64) -> (rtn: Result<Self, InvalidIdInteger>)
        ensures
            match rtn {
                Ok(id) => value >= 0 && id.value() == value,
                Err(_) => value < 0,
            },
    {
        if value < 0 {
            Err(InvalidIdInteger)
        } else {
            Ok(JournalShareId(value))
        }
    }

    /// the id zero
    pub fn zero() -> (rtn: Self)
        ensures
            rtn.value() == 0,
    {
        JournalShareId(0)
    }

    /// whether the id is zero
    pub fn is_zero(&self) -> (rtn: bool)
        ensures
            rtn == (self.value() == 0),
    {
        self.0 == 0
    }

    /// the integer value of the id
    pub fn inner(&self) -> (rtn: &i64)
        ensures
            *rtn == self.value(),
    {
        &self.0
    }
}

/// database id of a record; never below zero
#[derive(Debug, Clone, Copy, PartialEq, Eq, Hash, Structural)]
pub struct RemoteServerId(i64);

impl RemoteServerId {
    /// the integer value of the id
    pub closed spec fn value(self) -> i64 {
        self.0
    }

    /// creates the id, refusing integers below zero
    pub fn new(value: i64) -> (rtn: Result<Self, InvalidIdInteger>)
        ensures
            match rtn {
                Ok(id) => value >= 0 && id.value() == value,
                Err(_) => value < 0,
            },
    {
        if value < 0 {
            Err(InvalidIdInteger)
        } else {
            Ok(RemoteServerId(value))
        }
    }

    /// the id zero
    pub fn zero() -> (rtn: Self)
        ensures
            rtn.value() == 0,
    {
        RemoteServerId(0)
    }

    /// whether the id is zero
    pub fn is_zero(&self) -> (rtn: bool)
        ensures
            rtn == (self.value() == 0),
    {
        self.0 == 0
    }

    /// the integer value of the id
    pub fn inner(&self) -> (rtn: &i64)
        ensures
            *rtn == self.value(),
    {
        &self.0
    }
}

/// database id of a record; never below zero
#[derive(Debug, Clone, Copy, PartialEq, Eq, Hash, Structural)]
pub struct UserPeerId(i64);

impl UserPeerId {
    /// the integer value of the id
    pub closed spec fn value(self) -> i64 {
        self.0
    }

    /// creates the id, refusing integers below zero
    pub fn new(value: i64) -> (rtn: Result<Self, InvalidIdInteger>)
        ensures
            match rtn {
                Ok(id) => value >= 0 && id.value() == value,
                Err(_) => value < 0,
            },
    {
        if value < 0 {
            Err(InvalidIdInteger)
        } else {
            Ok(UserPeerId(value))
        }
    }

    /// the id zero
    pub fn zero() -> (rtn: Self)
        ensures
            rtn.value() == 0,
    {
        UserPeerId(0)
    }

    /// whether the id is zero
    pub fn is_zero(&self) -> (rtn: bool)
        ensures
            rtn == (self.value() == 0),
    {
        self.0 == 0
    }

    /// the integer value of the id
    pub fn inner(&self) -> (rtn: &i64)
        ensures
            *rtn == self.value(),
    {
        &self.0
    }
}

/// database id of a record; never below zero
#[derive(Debug, Clone, Copy, PartialEq, Eq, Hash, Structural)]
pub struct UserClientId(i64);

impl UserClientId {
    /// the integer value of the id
    pub closed spec fn value(self) -> i64 {
        self.0
    }

    /// creates the id, refusing integers below zero
    pub fn new(value: i64) -> (rtn: Result<Self, InvalidIdInteger>)
        ensures
            match rtn {
                Ok(id) => value >= 0 && id.value() == value,
                Err(_) => value < 0,
            },
    {
        if value < 0 {
            Err(InvalidIdInteger)
        } else {
            Ok(UserClientId(value))
        }
    }

    /// the id zero
    pub fn zero() -> (rtn: Self)
        ensures
            rtn.value() == 0,
    {
        UserClientId(0)
    }

    /// whether the id is zero
    pub fn is_zero(&self) -> (rtn: bool)
        ensures
            rtn == (self.value() == 0),
    {
        self.0 == 0
    }

    /// the integer value of the id
    pub fn inner(&self) -> (rtn: &i64)
        ensures
            *rtn == self.value(),
    {
        &self.0
    }
}

/// generated text id of a record: `UID_SIZE` characters of the uid alphabet
#[derive(Debug, Clone)]
pub struct UserUid(String);

impl View for UserUid {
    type V = Seq<char>;

    closed spec fn view(&self) -> Seq<char> {
        self.0@
    }
}

impl UserUid {
    /// a new random uid
    pub fn gen() -> (rtn: Self)
        ensures
            rtn.wf(),
    {
        UserUid(gen_uid())
    }

    /// whether the uid holds a valid text
    pub closed spec fn wf(&self) -> bool {
        is_valid_uid(self.0@)
    }

    /// creates the uid from the given text, refusing a text that is not a
    /// valid uid
    pub fn new(given: String) -> (rtn: Result<Self, InvalidUidString>)
        ensures
            match rtn {
                Ok(uid) => is_valid_uid(given@) && uid@ == given@ && uid.wf(),
                Err(_) => !is_valid_uid(given@),
            },
    {
        if !check_uid(given.as_str()) {
            Err(InvalidUidString)
        } else {
            Ok(UserUid(given))
        }
    }

    /// the text of the uid
    pub fn inner(&self) -> (rtn: &str)
        ensures
            rtn@ == self@,
    {
        self.0.as_str()
    }
}

/// generated text id of a record: `UID_SIZE` characters of the uid alphabet
#[derive(Debug, Clone)]
pub struct GroupUid(String);

impl View for GroupUid {
    type V = Seq<char>;

    closed spec fn view(&self) -> Seq<char> {
        self.0@
    }
}

impl GroupUid {
    /// a new random uid
    pub fn gen() -> (rtn: Self)
        ensures
            rtn.wf(),
    {
        GroupUid(gen_uid())
    }

    /// whether the uid holds a valid text
    pub closed spec fn wf(&self) -> bool {
        is_valid_uid(self.0@)
    }

    /// creates the uid from the given text, refusing a text that is not a
    /// valid uid
    pub fn new(given: String) -> (rtn: Result<Self, InvalidUidString>)
        ensures
            match rtn {
                Ok(uid) => is_valid_uid(given@) && uid@ == given@ && uid.wf(),
                Err(_) => !is_valid_uid(given@),
            },
    {
        if !check_uid(given.as_str()) {
            Err(InvalidUidString)
        } else {
            Ok(GroupUid(given))
        }
    }

    /// the text of the uid
    pub fn inner(&self) -> (rtn: &str)
        ensures
            rtn@ == self@,
    {
        self.0.as_str()
    }
}

/// generated text id of a record: `UID_SIZE` characters of the uid alphabet
#[derive(Debug, Clone)]
pub struct JournalUid(String);

impl View for JournalUid {
    type V = Seq<char>;

    closed spec fn view(&self) -> Seq<char> {
        self.0@
    }
}

impl JournalUid {
    /// a new random uid
    pub fn gen() -> (rtn: Self)
        ensures
            rtn.wf(),
    {
        JournalUid(gen_uid())
    }

    /// whether the uid holds a valid text
    pub closed spec fn wf(&self) -> bool {
        is_valid_uid(self.0@)
    }

    /// creates the uid from the given text, refusing a text that is not a
    /// valid uid
    pub fn new(given: String) -> (rtn: Result<Self, InvalidUidString>)
        ensures
            match rtn {
                Ok(uid) => is_valid_uid(given@) && uid@ == given@ && uid.wf(),
                Err(_) => !is_valid_uid(given@),
            },
    {
        if !check_uid(given.as_str()) {
            Err(InvalidUidString)
        } else {
            Ok(JournalUid(given))
        }
    }

    /// the text of the uid
    pub fn inner(&self) -> (rtn: &str)
        ensures
            rtn@ == self@,
    {
        self.0.as_str()
    }
}

/// generated text id of a record: `UID_SIZE` characters of the uid alphabet
#[derive(Debug, Clone)]
pub struct EntryUid(String);

impl View for EntryUid {
    type V = Seq<char>;

    closed spec fn view(&self) -> Seq<char> {
        self.0@
    }
}

impl EntryUid {
    /// a new random uid
    pub fn gen() -> (rtn: Self)
        ensures
            rtn.wf(),
    {
        EntryUid(gen_uid())
    }

    /// whether the uid holds a valid text
    pub closed spec fn wf(&self) -> bool {
        is_valid_uid(self.0@)
    }

    /// creates the uid from the given text, refusing a text that is not a
    /// valid uid
    pub fn new(given: String) -> (rtn: Result<Self, InvalidUidString>)
        ensures
            match rtn {
                Ok(uid) => is_valid_uid(given@) && uid@ == given@ && uid.wf(),
                Err(_) => !is_valid_uid(given@),
            },
    {
        if !check_uid(given.as_str()) {
            Err(InvalidUidString)
        } else {
            Ok(EntryUid(given))
        }
    }

    /// the text of the uid
    pub fn inner(&self) -> (rtn: &str)
        ensures
            rtn@ == self@,
    {
        self.0.as_str()
    }
}

/// generated text id of a record: `UID_SIZE` characters of the uid alphabet
#[derive(Debug, Clone)]
pub struct FileEntryUid(String);

impl View for FileEntryUid {
    type V = Seq<char>;

    closed spec fn view(&self) -> Seq<char> {
        self.0@
    }
}

impl FileEntryUid {
    /// a new random uid
    pub fn gen() -> (rtn: Self)
        ensures
            rtn.wf(),
    {
        FileEntryUid(gen_uid())
    }

    /// whether the uid holds a valid text
    pub closed spec fn wf(&self) -> bool {
        is_valid_uid(self.0@)
    }

    /// creates the uid from the given text, refusing a text that is not a
    /// valid uid
    pub fn new(given: String) -> (rtn: Result<Self, InvalidUidString>)
        ensures
            match rtn {
                Ok(uid) => is_valid_uid(given@) && uid@ == given@ && uid.wf(),
                Err(_) => !is_valid_uid(given@),
            },
    {
        if !check_uid(given.as_str()) {
            Err(InvalidUidString)
        } else {
            Ok(FileEntryUid(given))
        }
    }

    /// the text of the uid
    pub fn inner(&self) -> (rtn: &str)
        ensures
            rtn@ == self@,
    {
        self.0.as_str()
    }
}

/// generated text id of a record: `UID_SIZE` characters of the uid alphabet
#[derive(Debug, Clone)]
pub struct RoleUid(String);

impl View for RoleUid {
    type V = Seq<char>;

    closed spec fn view(&self) -> Seq<char> {
        self.0@
    }
}

impl RoleUid {
    /// a new random uid
    pub fn gen() -> (rtn: Self)
        ensures
            rtn.wf(),
    {
        RoleUid(gen_uid())
    }

    /// whether the uid holds a valid text
    pub closed spec fn wf(&self) -> bool {
        is_valid_uid(self.0@)
    }

    /// creates the uid from the given text, refusing a text that is not a
    /// valid uid
    pub fn new(given: String) -> (rtn: Result<Self, InvalidUidString>)
        ensures
            match rtn {
                Ok(uid) => is_valid_uid(given@) && uid@ == given@ && uid.wf(),
                Err(_) => !is_valid_uid(given@),
            },
    {
        if !check_uid(given.as_str()) {
            Err(InvalidUidString)
        } else {
            Ok(RoleUid(given))
        }
    }

    /// the text of the uid
    pub fn inner(&self) -> (rtn: &str)
        ensures
            rtn@ == self@,
    {
        self.0.as_str()
    }
}

/// generated text id of a record: `UID_SIZE` characters of the uid alphabet
#[derive(Debug, Clone)]
pub struct CustomFieldUid(String);

impl View for CustomFieldUid {
    type V = Seq<char>;

    closed spec fn view(&self) -> Seq<char> {
        self.0@
    }
}

impl CustomFieldUid {
    /// a new random uid
    pub fn gen() -> (rtn: Self)
        ensures
            rtn.wf(),
    {
        CustomFieldUid(gen_uid())
    }

    /// whether the uid holds a valid text
    pub closed spec fn wf(&self) -> bool {
        is_valid_uid(self.0@)
    }

    /// creates the uid from the given text, refusing a text that is not a
    /// valid uid
    pub fn new(given: String) -> (rtn: Result<Self, InvalidUidString>)
        ensures
            match rtn {
                Ok(uid) => is_valid_uid(given@) && uid@ == given@ && uid.wf(),
                Err(_) => !is_valid_uid(given@),
            },
    {
        if !check_uid(given.as_str()) {
            Err(InvalidUidString)
        } else {
            Ok(CustomFieldUid(given))
        }
    }

    /// the text of the uid
    pub fn inner(&self) -> (rtn: &str)
        ensures
            rtn@ == self@,
    {
        self.0.as_str()
    }
}

/// the elements of `s` in the order of their first occurrence, each once
pub open spec fn first_occurrences<K>(s: Seq<K>) -> Seq<K>
    decreases s.len(),
{
    if s.len() == 0 {
        Seq::empty()
    } else {
        let prev = first_occurrences(s.drop_last());
        if prev.contains(s.last()) {
            prev
        } else {
            prev.push(s.last())
        }
    }
}

/// the ids of `s` that `known` does not hold, every occurrence in order
pub open spec fn unclaimed<K>(s: Seq<K>, known: Set<K>) -> Seq<K>
    decreases s.len(),
{
    if s.len() == 0 {
        Seq::empty()
    } else {
        let prev = s.drop_last();
        if known.contains(s.last()) {
            unclaimed(prev, known)
        } else {
            unclaimed(prev, known).push(s.last())
        }
    }
}

proof fn lemma_first_occurrences_push<K>(s: Seq<K>, x: K)
    ensures
        first_occurrences(s.push(x)) == (if first_occurrences(s).contains(x) {
            first_occurrences(s)
        } else {
            first_occurrences(s).push(x)
        }),
{
    assert(s.push(x).drop_last() =~= s);
}

proof fn lemma_unclaimed_push<K>(s: Seq<K>, known: Set<K>, x: K)
    ensures
        unclaimed(s.push(x), known) == (if known.contains(x) {
            unclaimed(s, known)
        } else {
            unclaimed(s, known).push(x)
        }),
{
    assert(s.push(x).drop_last() =~= s);
}

/// adding an element to a sequence adds it to the sequence's set
proof fn lemma_push_to_set<K>(s: Seq<K>, x: K)
    ensures
        s.push(x).to_set() == s.to_set().insert(x),
{
    let f = s.push(x);
    assert forall|y: K| f.to_set().contains(y) <==> s.to_set().insert(x).contains(y) by {
        if f.contains(y) {
            let i = choose|i: int| 0 <= i < f.len() && f[i] == y;
            if i < s.len() {
                assert(s[i] == y);
            }
        }
        if s.contains(y) {
            let i = choose|i: int| 0 <= i < s.len() && s[i] == y;
            assert(f[i] == y);
        }
        if y == x {
            assert(f[f.len() - 1] == y);
        }
    }
    assert(f.to_set() =~= s.to_set().insert(x));
}

/// what `first_occurrences` keeps are exactly the elements of the input,
/// each once
pub proof fn lemma_first_occurrences_props<K>(s: Seq<K>)
    ensures
        first_occurrences(s).no_duplicates(),
        first_occurrences(s).to_set() == s.to_set(),
    decreases s.len(),
{
    if s.len() > 0 {
        let p = s.drop_last();
        lemma_first_occurrences_props(p);
        let fp = first_occurrences(p);
        assert(s =~= p.push(s.last()));
        assert(s.to_set() =~= p.to_set().insert(s.last())) by {
            assert forall|x: K| s.to_set().contains(x) <==> p.to_set().insert(s.last()).contains(x) by {
                if s.contains(x) {
                    let i = choose|i: int| 0 <= i < s.len() && s[i] == x;
                    if i < p.len() {
                        assert(p[i] == x);
                    }
                }
                if p.contains(x) {
                    let i = choose|i: int| 0 <= i < p.len() && p[i] == x;
                    assert(s[i] == x);
                }
                if x == s.last() {
                    assert(s[s.len() - 1] == x);
                }
            }
        }
        if !fp.contains(s.last()) {
            let f = fp.push(s.last());
            assert(f.to_set() =~= fp.to_set().insert(s.last())) by {
                assert forall|x: K| f.to_set().contains(x) <==> fp.to_set().insert(s.last()).contains(x) by {
                    if f.contains(x) {
                        let i = choose|i: int| 0 <= i < f.len() && f[i] == x;
                        if i < fp.len() {
                            assert(fp[i] == x);
                        }
                    }
                    if fp.contains(x) {
                        let i = choose|i: int| 0 <= i < fp.len() && fp[i] == x;
                        assert(f[i] == x);
                    }
                    if x == s.last() {
                        assert(f[f.len() - 1] == x);
                    }
                }
            }
        } else {
            assert(fp.to_set().contains(s.last()));
            assert(fp.to_set() =~= fp.to_set().insert(s.last()));
        }
    } else {
        assert(s.to_set() =~= Set::empty());
        assert(first_occurrences(s).to_set() =~= Set::empty());
    }
}

/// creates a list of unique ids from a given list
///
/// without a map of known ids, every id of `ids` goes into the set and,
/// once, in the order of its first occurrence, into the list. with a map of
/// known ids, the returned map holds the known ids that were given, with
/// their records moved out of `current`, which keeps the missing ones; the
/// set and the list hold the unknown ids, as without a map. a known id
/// stays known however often it is given.
pub fn unique_ids<K, V>(
    ids: Vec<K>,
    current: Option<&mut HashMap<K, V>>,
) -> (rtn: (HashSet<K>, Vec<K>, HashMap<K, V>)) where K: Eq + std::hash::Hash + Copy
    requires
        obeys_key_model::<K>(),
    ensures
        match current {
            Some(cur) => {
                let known = cur@;
                &&& rtn.1@ == first_occurrences(unclaimed(ids@, known.dom()))
                &&& rtn.0@ == unclaimed(ids@, known.dom()).to_set()
                &&& rtn.2@ == known.restrict(ids@.to_set())
                &&& final(cur)@ == known.remove_keys(ids@.to_set())
            },
            None => {
                &&& rtn.1@ == first_occurrences(ids@)
                &&& rtn.0@ == ids@.to_set()
                &&& rtn.2@ == Map::<K, V>::empty()
            },
        },
        rtn.1@.no_duplicates(),
        rtn.1@.to_set() == rtn.0@,
{
    let mut set: HashSet<K> = HashSet::with_capacity(ids.len());
    let mut list: Vec<K> = Vec::with_capacity(ids.len());
    let mut common: HashMap<K, V> = HashMap::new();
    let len = ids.len();
    if let Some(current) = current {
        let ghost known = current@;
        let mut idx: usize = 0;
        while idx < len
            invariant
                idx <= len,
                len == ids@.len(),
                obeys_key_model::<K>(),
                set@ == unclaimed(ids@.take(idx as int), known.dom()).to_set(),
                list@ == first_occurrences(unclaimed(ids@.take(idx as int), known.dom())),
                common@ == known.restrict(ids@.take(idx as int).to_set()),
                current@ == known.remove_keys(ids@.take(idx as int).to_set()),
            decreases len - idx,
        {
            let id = ids[idx];
            let ghost prev = ids@.take(idx as int);
            assert(ids@.take(idx + 1) =~= prev.push(id));
            proof {
                lemma_unclaimed_push(prev, known.dom(), id);
                lemma_first_occurrences_props(unclaimed(prev, known.dom()));
                lemma_push_to_set(unclaimed(prev, known.dom()), id);
                lemma_push_to_set(prev, id);
            }
            if let Some(record) = current.remove(&id) {
                common.insert(id, record);
            } else if !common.contains_key(&id) {
                if set.insert(id) {
                    list.push(id);
                }
            }
            proof {
                lemma_first_occurrences_push(unclaimed(prev, known.dom()), id);
            }
            assert(set@ =~= unclaimed(ids@.take(idx + 1), known.dom()).to_set());
            assert(common@ =~= known.restrict(ids@.take(idx + 1).to_set()));
            assert(current@ =~= known.remove_keys(ids@.take(idx + 1).to_set()));
            idx = idx + 1;
        }
        assert(ids@.take(len as int) =~= ids@);
        proof {
            lemma_first_occurrences_props(unclaimed(ids@, known.dom()));
        }
        (set, list, common)
    } else {
        let mut idx: usize = 0;
        while idx < len
            invariant
                idx <= len,
                len == ids@.len(),
                obeys_key_model::<K>(),
                set@ == ids@.take(idx as int).to_set(),
                list@ == first_occurrences(ids@.take(idx as int)),
                common@ == Map::<K, V>::empty(),
            decreases len - idx,
        {
            let id = ids[idx];
            let ghost prev = ids@.take(idx as int);
            assert(ids@.take(idx + 1) =~= prev.push(id));
            proof {
                lemma_first_occurrences_props(prev);
                lemma_first_occurrences_push(prev, id);
                lemma_push_to_set(prev, id);
            }
            if set.insert(id) {
                list.push(id);
            }
            assert(set@ =~= ids@.take(idx + 1).to_set());
            idx = idx + 1;
        }
        assert(ids@.take(len as int) =~= ids@);
        proof {
            lemma_first_occurrences_props(ids@);
        }
        (set, list, common)
    }
}

} // verus!
