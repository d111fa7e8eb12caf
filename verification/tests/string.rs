use tj2::hex::{from_hex_char, from_hex_str, to_hex_str};

#[test]
fn to_hex() {
    let bytes = vec![0x01, 0x09, 0x0a, 0x0f, 0x10, 0x90, 0xa0, 0xf0, 0x11, 0x99, 0xaa, 0xff];
    let expected = String::from("01090A0F1090A0F01199AAFF");

    let result = to_hex_str(&bytes);

    assert_eq!(expected, result);
}

#[test]
fn from_hex() {
    let hex = String::from("01090A0F1090A0F01199AAFF");
    let expected = Some(vec![0x01, 0x09, 0x0a, 0x0f, 0x10, 0x90, 0xa0, 0xf0, 0x11, 0x99, 0xaa, 0xff]);

    let result = from_hex_str(&hex);

    assert_eq!(expected, result);
}

#[test]
fn hex_roundtrip_of_all_bytes() {
    let bytes: Vec<u8> = (0u16..256).map(|b| b as u8).collect();
    let text = to_hex_str(&bytes);
    assert_eq!(text.len(), 512);
    assert_eq!(from_hex_str(&text), Some(bytes));
}

#[test]
fn from_hex_accepts_lower_case() {
    assert_eq!(from_hex_str("ab0f"), Some(vec![0xab, 0x0f]));
}

#[test]
fn from_hex_rejects_odd_length() {
    assert_eq!(from_hex_str("abc"), None);
}

#[test]
fn from_hex_rejects_non_digit() {
    assert_eq!(from_hex_str("zz"), None);
    assert_eq!(from_hex_str("0g"), None);
}

#[test]
fn from_hex_of_empty_text() {
    assert_eq!(from_hex_str(""), Some(vec![]));
    assert_eq!(to_hex_str(&[]), String::new());
}

#[test]
fn hex_char_values() {
    assert_eq!(from_hex_char('0'), Some(0));
    assert_eq!(from_hex_char('9'), Some(9));
    assert_eq!(from_hex_char('a'), Some(10));
    assert_eq!(from_hex_char('F'), Some(15));
    assert_eq!(from_hex_char('g'), None);
}
