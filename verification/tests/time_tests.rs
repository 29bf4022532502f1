use prosody::time::{compact_seconds_to_epoch, time_to_compact_seconds, TimeConversionError};

#[test]
fn rounds_half_second_up() {
    assert_eq!(time_to_compact_seconds(100, 500_000_000), Ok(101));
    assert_eq!(time_to_compact_seconds(100, 499_999_999), Ok(100));
    assert_eq!(time_to_compact_seconds(0, 0), Ok(0));
}

#[test]
fn rejects_times_outside_range() {
    assert_eq!(
        time_to_compact_seconds(-1, 0),
        Err(TimeConversionError::OutOfRange { epoch_seconds: -1 })
    );
    assert_eq!(
        time_to_compact_seconds(4_294_967_296, 0),
        Err(TimeConversionError::OutOfRange { epoch_seconds: 4_294_967_296 })
    );
    assert_eq!(
        time_to_compact_seconds(4_294_967_295, 600_000_000),
        Err(TimeConversionError::RoundingOverflow)
    );
    assert_eq!(time_to_compact_seconds(4_294_967_295, 0), Ok(u32::MAX));
}

#[test]
fn whole_seconds_round_trip() {
    for t in [0u32, 1, 1_700_000_000, u32::MAX] {
        assert_eq!(time_to_compact_seconds(compact_seconds_to_epoch(t), 0), Ok(t));
    }
}
