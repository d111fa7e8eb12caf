use tj2::time::{from_epoch_offset, Timestamp, MAX_TIMESTAMP_SECS, MIN_TIMESTAMP_SECS};

#[test]
fn clock_offsets_from_the_epoch() {
    assert_eq!(from_epoch_offset(false, 60, 5), Some(Timestamp { secs: 60, nanos: 5 }));
    assert_eq!(from_epoch_offset(true, 60, 0), Some(Timestamp { secs: -60, nanos: 0 }));
    assert_eq!(from_epoch_offset(true, 60, 250_000_000), Some(Timestamp { secs: -61, nanos: 750_000_000 }));
    assert_eq!(
        from_epoch_offset(false, MAX_TIMESTAMP_SECS as u64, 0),
        Some(Timestamp { secs: MAX_TIMESTAMP_SECS, nanos: 0 })
    );
    assert_eq!(from_epoch_offset(false, MAX_TIMESTAMP_SECS as u64 + 1, 0), None);
    let min = (-MIN_TIMESTAMP_SECS) as u64;
    assert_eq!(from_epoch_offset(true, min, 0), Some(Timestamp { secs: MIN_TIMESTAMP_SECS, nanos: 0 }));
    assert_eq!(from_epoch_offset(true, min, 1), None);
}
