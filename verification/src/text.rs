//! Text helpers shared by the modules: comparison, building and decimal
//! digits.

use vstd::prelude::*;
use vstd::string::*;

verus! {

/// Calls `String::push`: the string afterwards is the old one followed by
/// the character.
#[verifier::external_body]
pub(crate) fn push_char(s: &mut String, c: char)
    ensures
        final(s)@ == old(s)@.push(c),
{
    s.push(c);
}

/// appends a text to a string
pub fn push_str(s: &mut String, t: &str)
    ensures
        final(s)@ == old(s)@ + t@,
{
    s.append(t);
}

/// an owned copy of a text
pub fn to_owned_string(t: &str) -> (rtn: String)
    ensures
        rtn@ == t@,
{
    let mut rtn = String::new();
    rtn.append(t);
    rtn
}

/// whether two texts hold the same characters
pub fn str_eq(a: &str, b: &str) -> (rtn: bool)
    ensures
        rtn == (a@ == b@),
{
    let n = a.unicode_len();
    if n != b.unicode_len() {
        return false;
    }
    let mut i: usize = 0;
    while i < n
        invariant
            n == a@.len(),
            n == b@.len(),
            i <= n,
            forall|j: int| 0 <= j < i ==> a@[j] == b@[j],
        decreases n - i,
    {
        if a.get_char(i) != b.get_char(i) {
            return false;
        }
        i = i + 1;
    }
    assert(a@ =~= b@);
    true
}

/// the texts of a sequence of strings
pub open spec fn string_views(v: Seq<String>) -> Seq<Seq<char>> {
    v.map_values(|s: String| s@)
}

/// the decimal digit of a value below ten
pub open spec fn digit_char(d: int) -> char {
    (48 + d) as char
}

/// the decimal text of a natural number, without leading zeros
pub open spec fn spec_decimal(n: nat) -> Seq<char>
    decreases n,
{
    if n < 10 {
        seq![digit_char(n as int)]
    } else {
        spec_decimal(n / 10).push(digit_char((n % 10) as int))
    }
}

fn digit(d: u64) -> (c: char)
    requires
        d < 10,
    ensures
        c == digit_char(d as int),
{
    match d {
        0 => '0',
        1 => '1',
        2 => '2',
        3 => '3',
        4 => '4',
        5 => '5',
        6 => '6',
        7 => '7',
        8 => '8',
        _ => '9',
    }
}

/// appends the decimal text of a number to a string
pub fn push_decimal(s: &mut String, n: u64)
    ensures
        final(s)@ == old(s)@ + spec_decimal(n as nat),
    decreases n,
{
    if n < 10 {
        push_char(s, digit(n));
    } else {
        push_decimal(s, n / 10);
        push_char(s, digit(n % 10));
    }
}

/// the decimal text of a number
pub fn decimal_string(n: u64) -> (rtn: String)
    ensures
        rtn@ == spec_decimal(n as nat),
{
    let mut rtn = String::new();
    push_decimal(&mut rtn, n);
    assert(rtn@ =~= spec_decimal(n as nat));
    rtn
}

/// whether a character has Unicode's `White_Space` property, as
/// `char::is_whitespace` documents
pub open spec fn is_white_space(c: char) -> bool {
    let n = c as u32;
    ||| 9 <= n <= 13
    ||| n == 32
    ||| n == 0x85
    ||| n == 0xA0
    ||| n == 0x1680
    ||| 0x2000 <= n <= 0x200A
    ||| n == 0x2028
    ||| n == 0x2029
    ||| n == 0x202F
    ||| n == 0x205F
    ||| n == 0x3000
}

/// the text without its leading white space
pub open spec fn spec_trim_start(s: Seq<char>) -> Seq<char>
    decreases s.len(),
{
    if s.len() > 0 && is_white_space(s[0]) {
        spec_trim_start(s.drop_first())
    } else {
        s
    }
}

/// the text without its trailing white space
pub open spec fn spec_trim_end(s: Seq<char>) -> Seq<char>
    decreases s.len(),
{
    if s.len() > 0 && is_white_space(s.last()) {
        spec_trim_end(s.drop_last())
    } else {
        s
    }
}

/// what `str::trim` returns for a text: the text without its leading and
/// trailing white space
pub open spec fn spec_trim(s: Seq<char>) -> Seq<char> {
    spec_trim_end(spec_trim_start(s))
}

/// Calls `str::trim`. As std documents, it gives the text with leading and
/// trailing white space, by Unicode's `White_Space` property, removed.
#[verifier::external_body]
pub(crate) fn trim(s: &str) -> (rtn: &str)
    ensures
        rtn@ == spec_trim(s@),
{
    s.trim()
}

/// a character with ascii upper case letters turned into lower case
pub open spec fn spec_ascii_lower(c: char) -> char {
    if 'A' <= c && c <= 'Z' {
        ((c as u32) + 32) as char
    } else {
        c
    }
}

/// the text with ascii upper case letters turned into lower case
pub open spec fn spec_ascii_lowercase(s: Seq<char>) -> Seq<char> {
    s.map_values(|c: char| spec_ascii_lower(c))
}

fn ascii_lower(c: char) -> (rtn: char)
    ensures
        rtn == spec_ascii_lower(c),
{
    match c {
        'A' => 'a',
        'B' => 'b',
        'C' => 'c',
        'D' => 'd',
        'E' => 'e',
        'F' => 'f',
        'G' => 'g',
        'H' => 'h',
        'I' => 'i',
        'J' => 'j',
        'K' => 'k',
        'L' => 'l',
        'M' => 'm',
        'N' => 'n',
        'O' => 'o',
        'P' => 'p',
        'Q' => 'q',
        'R' => 'r',
        'S' => 's',
        'T' => 't',
        'U' => 'u',
        'V' => 'v',
        'W' => 'w',
        'X' => 'x',
        'Y' => 'y',
        'Z' => 'z',
        _ => c,
    }
}

/// the text with ascii upper case letters turned into lower case
pub fn ascii_lowercase(s: &str) -> (rtn: String)
    ensures
        rtn@ == spec_ascii_lowercase(s@),
{
    let mut rtn = String::new();
    let n = s.unicode_len();
    let mut i: usize = 0;
    while i < n
        invariant
            i <= n,
            n == s@.len(),
            rtn@ == spec_ascii_lowercase(s@.take(i as int)),
        decreases n - i,
    {
        let c = ascii_lower(s.get_char(i));
        push_char(&mut rtn, c);
        assert(spec_ascii_lowercase(s@.take(i + 1)) =~= spec_ascii_lowercase(s@.take(i as int)).push(c));
        i = i + 1;
    }
    assert(s@.take(n as int) =~= s@);
    rtn
}

/// the pieces of a text between the occurrences of a separator, as
/// `str::split` gives them: one more piece than there are separators, empty
/// pieces kept
pub open spec fn spec_split(s: Seq<char>, sep: char) -> Seq<Seq<char>>
    decreases s.len(),
{
    if s.len() == 0 {
        seq![Seq::empty()]
    } else {
        let rest = spec_split(s.drop_last(), sep);
        if s.last() == sep {
            rest.push(Seq::empty())
        } else {
            rest.update(rest.len() - 1, rest.last().push(s.last()))
        }
    }
}

/// a split always has at least one piece
pub proof fn lemma_split_nonempty(s: Seq<char>, sep: char)
    ensures
        spec_split(s, sep).len() >= 1,
    decreases s.len(),
{
    if s.len() > 0 {
        lemma_split_nonempty(s.drop_last(), sep);
    }
}

/// pieces joined back with a separator between each two
pub open spec fn spec_join(pieces: Seq<Seq<char>>, sep: char) -> Seq<char>
    decreases pieces.len(),
{
    if pieces.len() == 0 {
        Seq::empty()
    } else if pieces.len() == 1 {
        pieces[0]
    } else {
        spec_join(pieces.drop_last(), sep).push(sep) + pieces.last()
    }
}

/// Splitting loses nothing: the pieces of a text joined back with the
/// separator give the text, and no piece holds the separator.
pub proof fn lemma_split_join(s: Seq<char>, sep: char)
    ensures
        spec_join(spec_split(s, sep), sep) == s,
        forall|i: int, j: int|
            0 <= i < spec_split(s, sep).len() && 0 <= j < spec_split(s, sep)[i].len() ==> (#[trigger] spec_split(s, sep)[i][j]) != sep,
    decreases s.len(),
{
    if s.len() > 0 {
        let t = s.drop_last();
        let c = s.last();
        lemma_split_join(t, sep);
        lemma_split_nonempty(t, sep);
        let rest = spec_split(t, sep);
        let n = rest.len();
        if c == sep {
            let r = rest.push(Seq::empty());
            assert(r.drop_last() =~= rest);
            assert(spec_join(r, sep) =~= t.push(sep) + Seq::<char>::empty());
            assert(t.push(sep) + Seq::<char>::empty() =~= s);
            assert forall|i: int, j: int| 0 <= i < r.len() && 0 <= j < r[i].len() implies (#[trigger] r[i][j]) != sep by {
                assert(r[i] == rest[i]);
            }
        } else {
            let r = rest.update(n - 1, rest.last().push(c));
            if n == 1 {
                assert(spec_join(r, sep) =~= rest[0].push(c));
                assert(rest[0] == spec_join(rest, sep));
                assert(rest[0].push(c) =~= s);
            } else {
                assert(r.drop_last() =~= rest.drop_last());
                assert(spec_join(r, sep) =~= spec_join(rest.drop_last(), sep).push(sep) + rest.last().push(c));
                assert(spec_join(rest, sep) == spec_join(rest.drop_last(), sep).push(sep) + rest.last());
                assert(spec_join(rest.drop_last(), sep).push(sep) + rest.last().push(c) =~= (spec_join(
                    rest.drop_last(),
                    sep,
                ).push(sep) + rest.last()).push(c));
                assert(t.push(c) =~= s);
            }
            assert forall|i: int, j: int| 0 <= i < r.len() && 0 <= j < r[i].len() implies (#[trigger] r[i][j]) != sep by {
                if i < n - 1 {
                    assert(r[i] == rest[i]);
                } else if j < rest.last().len() {
                    assert(r[i][j] == rest[n - 1][j]);
                }
            }
        }
    }
}

/// splits a text at every occurrence of a separator
pub fn split_char(s: &str, sep: char) -> (rtn: Vec<String>)
    ensures
        string_views(rtn@) == spec_split(s@, sep),
{
    let n = s.unicode_len();
    let mut pieces: Vec<String> = Vec::new();
    let mut cur = String::new();
    let mut i: usize = 0;
    assert(s@.take(0) =~= Seq::<char>::empty());
    while i < n
        invariant
            i <= n,
            n == s@.len(),
            string_views(pieces@).push(cur@) == spec_split(s@.take(i as int), sep),
        decreases n - i,
    {
        let c = s.get_char(i);
        let ghost before = string_views(pieces@).push(cur@);
        assert(s@.take(i + 1).drop_last() =~= s@.take(i as int));
        if c == sep {
            let mut next = String::new();
            std::mem::swap(&mut next, &mut cur);
            pieces.push(next);
            assert(string_views(pieces@).push(cur@) =~= before.push(Seq::empty()));
        } else {
            push_char(&mut cur, c);
            assert(string_views(pieces@).push(cur@) =~= before.update(
                before.len() - 1,
                before.last().push(c),
            ));
        }
        i = i + 1;
    }
    assert(s@.take(n as int) =~= s@);
    pieces.push(cur);
    assert(string_views(pieces@) =~= spec_split(s@, sep));
    pieces
}

/// the decimal text of an integer, with a `-` before a negative one
pub open spec fn spec_signed_decimal(n: int) -> Seq<char> {
    if n < 0 {
        seq!['-'] + spec_decimal((-n) as nat)
    } else {
        spec_decimal(n as nat)
    }
}

/// appends the decimal text of a signed number
pub fn push_signed_decimal(s: &mut String, n: i64)
    ensures
        final(s)@ == old(s)@ + spec_signed_decimal(n as int),
{
    if n < 0 {
        push_char(s, '-');
        let magnitude: u64 = if n == i64::MIN {
            9_223_372_036_854_775_808u64
        } else {
            (-n) as u64
        };
        push_decimal(s, magnitude);
        assert(final(s)@ =~= old(s)@ + spec_signed_decimal(n as int)) by {
            assert(magnitude == -n);
        }
    } else {
        push_decimal(s, n as u64);
    }
}

/// the pieces of a text between separators, each trimmed, without the ones
/// that trim to nothing
pub open spec fn spec_trimmed_pieces(pieces: Seq<Seq<char>>) -> Seq<Seq<char>>
    decreases pieces.len(),
{
    if pieces.len() == 0 {
        Seq::empty()
    } else {
        let rest = spec_trimmed_pieces(pieces.drop_last());
        let t = spec_trim(pieces.last());
        if t.len() == 0 {
            rest
        } else {
            rest.push(t)
        }
    }
}

/// the pieces of a text between separators, each trimmed, without empty
/// ones
pub fn trimmed_pieces(s: &str, sep: char) -> (rtn: Vec<String>)
    ensures
        string_views(rtn@) == spec_trimmed_pieces(spec_split(s@, sep)),
{
    let pieces = split_char(s, sep);
    let ghost all = string_views(pieces@);
    let mut rtn: Vec<String> = Vec::new();
    let n = pieces.len();
    let mut i: usize = 0;
    while i < n
        invariant
            n == pieces@.len(),
            all == string_views(pieces@),
            i <= n,
            string_views(rtn@) == spec_trimmed_pieces(all.take(i as int)),
        decreases n - i,
    {
        assert(all.take(i + 1).drop_last() =~= all.take(i as int));
        assert(all.take(i + 1).last() == pieces@[i as int]@);
        let t = trim(pieces[i].as_str());
        if t.unicode_len() != 0 {
            rtn.push(to_owned_string(t));
            assert(string_views(rtn@) =~= spec_trimmed_pieces(all.take(i as int)).push(t@));
        }
        i = i + 1;
    }
    assert(all.take(n as int) =~= all);
    rtn
}

} // verus!
