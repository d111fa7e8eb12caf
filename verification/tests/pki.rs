use tj2::pki::{PrivateKey, PrivateKeyError};
use tj2::time::{Timestamp, MAX_TIMESTAMP_SECS};

#[test]
fn key_parts_must_be_a_valid_time() {
    let key = PrivateKey::from_parts(60, [7u8; 32]).unwrap();
    assert_eq!(*key.created(), Timestamp { secs: 60, nanos: 0 });
    assert_eq!(key.secret(), &[7u8; 32]);
    assert!(matches!(PrivateKey::from_parts(MAX_TIMESTAMP_SECS + 1, [0u8; 32]), Err(PrivateKeyError::InvalidTimestamp)));
    assert!(PrivateKey::from_parts(MAX_TIMESTAMP_SECS, [0u8; 32]).is_ok());
}

#[test]
fn stored_key_form() {
    let key = PrivateKey::from_parts(1, [0x11u8; 32]).unwrap();
    let bytes = key.as_bytes().unwrap();
    let mut expected = vec![2u8];
    expected.extend_from_slice(&[0x11u8; 32]);
    assert_eq!(bytes, expected);
    let key = PrivateKey::from_parts(-1, [0u8; 32]).unwrap();
    assert_eq!(key.as_bytes().unwrap()[0], 1);
}

#[test]
fn stored_key_reads_back() {
    let key = PrivateKey::generate().unwrap();
    let bytes = key.as_bytes().unwrap();
    let read = PrivateKey::from_bytes(&bytes).unwrap();
    assert_eq!(read.created().secs, key.created().secs);
    assert_eq!(read.created().nanos, 0);
    assert_eq!(read.secret(), key.secret());
}

#[test]
fn stored_key_refusals() {
    assert!(matches!(PrivateKey::from_bytes(&[2u8, 1, 2, 3]), Err(PrivateKeyError::Decode(_))));
    assert!(matches!(PrivateKey::from_bytes(&[]), Err(PrivateKeyError::Decode(_))));
}

#[test]
fn stored_key_with_a_time_out_of_range() {
    let zigzag: u64 = ((MAX_TIMESTAMP_SECS + 1) as u64) * 2;
    let mut bytes = vec![253u8];
    bytes.extend_from_slice(&zigzag.to_le_bytes());
    bytes.extend_from_slice(&[0u8; 32]);
    assert!(matches!(PrivateKey::from_bytes(&bytes), Err(PrivateKeyError::InvalidTimestamp)));
}
