//! Upper-case hexadecimal encoding of byte strings and its inverse.

use vstd::prelude::*;
use crate::text::push_char;

verus! {

/// the digit that stands for a nibble value below 16
pub open spec fn hex_digit(n: int) -> char {
    if n < 10 {
        (48 + n) as char
    } else {
        (55 + n) as char
    }
}

/// whether a character is accepted as a hexadecimal digit (either case)
pub open spec fn is_hex_char(c: char) -> bool {
    ('0' <= c && c <= '9') || ('a' <= c && c <= 'f') || ('A' <= c && c <= 'F')
}

/// the nibble value of a hexadecimal digit
pub open spec fn hex_value(c: char) -> int {
    if '0' <= c && c <= '9' {
        c as int - 48
    } else if 'a' <= c && c <= 'f' {
        c as int - 87
    } else {
        c as int - 55
    }
}

/// the upper-case hex text of a byte string: two digits per byte, high
/// nibble first
pub open spec fn spec_to_hex(bytes: Seq<u8>) -> Seq<char> {
    Seq::new(
        2 * bytes.len(),
        |i: int|
            if i % 2 == 0 {
                hex_digit((bytes[i / 2] / 16) as int)
            } else {
                hex_digit((bytes[i / 2] % 16) as int)
            },
    )
}

/// the bytes that a hex text stands for, when it has an even number of
/// characters that are all hex digits
pub open spec fn spec_from_hex(s: Seq<char>) -> Option<Seq<u8>> {
    if s.len() % 2 == 0 && (forall|i: int| 0 <= i < s.len() ==> is_hex_char(#[trigger] s[i])) {
        Some(Seq::new(s.len() / 2, |i: int| (hex_value(s[2 * i]) * 16 + hex_value(s[2 * i + 1])) as u8))
    } else {
        None
    }
}

/// the digit of a nibble
fn nibble_char(n: u8) -> (c: char)
    requires
        n < 16,
    ensures
        c == hex_digit(n as int),
{
    match n {
        0 => '0',
        1 => '1',
        2 => '2',
        3 => '3',
        4 => '4',
        5 => '5',
        6 => '6',
        7 => '7',
        8 => '8',
        9 => '9',
        10 => 'A',
        11 => 'B',
        12 => 'C',
        13 => 'D',
        14 => 'E',
        _ => 'F',
    }
}

/// encodes the given bytes as upper-case hexadecimal text
pub fn to_hex_str(bytes: &[u8]) -> (rtn: String)
    ensures
        rtn@ == spec_to_hex(bytes@),
{
    let mut rtn = String::new();
    let len = bytes.len();
    let mut idx: usize = 0;
    while idx < len
        invariant
            idx <= len,
            len == bytes@.len(),
            rtn@.len() == 2 * idx,
            forall|i: int| 0 <= i < 2 * idx ==> rtn@[i] == #[trigger] spec_to_hex(bytes@)[i],
        decreases len - idx,
    {
        let byte = bytes[idx];
        let upper = (byte & 0xF0) >> 4;
        let lower = byte & 0x0F;
        assert(upper == byte / 16 && lower == byte % 16) by (bit_vector)
            requires
                upper == (byte & 0xF0) >> 4,
                lower == byte & 0x0F,
        ;
        push_char(&mut rtn, nibble_char(upper));
        push_char(&mut rtn, nibble_char(lower));
        idx = idx + 1;
    }
    assert(rtn@ =~= spec_to_hex(bytes@));
    rtn
}

/// the nibble value of a hexadecimal digit, either case, or `None` for any
/// other character
pub fn from_hex_char(ch: char) -> (rtn: Option<u8>)
    ensures
        rtn == (if is_hex_char(ch) { Some(hex_value(ch) as u8) } else { None::<u8> }),
        rtn matches Some(v) ==> v < 16,
{
    match ch {
        '0' => Some(0),
        '1' => Some(1),
        '2' => Some(2),
        '3' => Some(3),
        '4' => Some(4),
        '5' => Some(5),
        '6' => Some(6),
        '7' => Some(7),
        '8' => Some(8),
        '9' => Some(9),
        'a' | 'A' => Some(10),
        'b' | 'B' => Some(11),
        'c' | 'C' => Some(12),
        'd' | 'D' => Some(13),
        'e' | 'E' => Some(14),
        'f' | 'F' => Some(15),
        _ => None,
    }
}

/// decodes hexadecimal text (either case) into bytes; `None` when the text
/// has an odd number of characters or holds a character that is not a hex
/// digit
pub fn from_hex_str(hex: &str) -> (rtn: Option<Vec<u8>>)
    ensures
        match rtn {
            Some(v) => spec_from_hex(hex@) == Some(v@),
            None => spec_from_hex(hex@) is None,
        },
{
    let n = hex.unicode_len();
    if n % 2 != 0 {
        return None;
    }
    let mut rtn: Vec<u8> = Vec::new();
    let mut idx: usize = 0;
    while idx < n
        invariant
            n == hex@.len(),
            n % 2 == 0,
            idx % 2 == 0,
            idx <= n,
            rtn@.len() == idx / 2,
            forall|i: int| 0 <= i < idx ==> is_hex_char(#[trigger] hex@[i]),
            forall|i: int|
                0 <= i < idx / 2 ==> #[trigger] rtn@[i] == (hex_value(hex@[2 * i]) * 16
                    + hex_value(hex@[2 * i + 1])) as u8,
        decreases n - idx,
    {
        let upper = hex.get_char(idx);
        let lower = hex.get_char(idx + 1);
        let Some(upper_nibble) = from_hex_char(upper) else {
            return None;
        };
        let Some(lower_nibble) = from_hex_char(lower) else {
            return None;
        };
        let byte = (upper_nibble << 4) | lower_nibble;
        assert(byte == upper_nibble * 16 + lower_nibble) by (bit_vector)
            requires
                byte == (upper_nibble << 4) | lower_nibble,
                upper_nibble < 16,
                lower_nibble < 16,
        ;
        rtn.push(byte);
        idx = idx + 2;
    }
    assert(rtn@ =~= spec_from_hex(hex@).unwrap());
    Some(rtn)
}

/// decoding the hex text of any byte string gives the byte string back
pub proof fn lemma_hex_roundtrip(bytes: Seq<u8>)
    ensures
        spec_from_hex(spec_to_hex(bytes)) == Some(bytes),
{
    let s = spec_to_hex(bytes);
    assert forall|i: int| 0 <= i < s.len() implies is_hex_char(#[trigger] s[i]) by {
        assert(0 <= bytes[i / 2] / 16 < 16);
    }
    let d = spec_from_hex(s).unwrap();
    assert forall|i: int| 0 <= i < bytes.len() implies #[trigger] d[i] == bytes[i] by {
        assert((2 * i) / 2 == i);
        assert((2 * i + 1) / 2 == i);
        assert((2 * i) % 2 == 0);
        assert((2 * i + 1) % 2 == 1);
        let b = bytes[i];
        assert(b == (b / 16) * 16 + b % 16);
    }
    assert(d =~= bytes);
}

} // verus!
