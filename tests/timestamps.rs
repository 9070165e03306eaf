use metastore_model::Timestamp;

#[test]
fn timestamp_of_epoch_is_zero() {
    assert_eq!(Timestamp { days: 0, seconds_of_day: 0 }.timestamp(), 0);
}

#[test]
fn timestamp_formula() {
    assert_eq!(Timestamp { days: 18_628, seconds_of_day: 3_600 }.timestamp(), 1_609_462_800);
    assert_eq!(Timestamp { days: -1, seconds_of_day: 86_399 }.timestamp(), -1);
}

#[test]
fn from_timestamp_splits_days_and_seconds() {
    assert_eq!(Timestamp::from_timestamp(86_401), Timestamp { days: 1, seconds_of_day: 1 });
    assert_eq!(Timestamp::from_timestamp(-1), Timestamp { days: -1, seconds_of_day: 86_399 });
    assert_eq!(Timestamp::from_timestamp(-86_400), Timestamp { days: -1, seconds_of_day: 0 });
}

#[test]
fn from_timestamp_extremes_round_trip() {
    for s in [i64::MIN, i64::MIN + 1, -86_401, 0, 86_399, i64::MAX] {
        assert_eq!(Timestamp::from_timestamp(s).timestamp(), s);
    }
}

#[test]
fn validity_of_timestamps() {
    assert!(Timestamp { days: 0, seconds_of_day: 86_399 }.is_valid());
    assert!(!Timestamp { days: 0, seconds_of_day: 86_400 }.is_valid());
    assert!(!Timestamp { days: i64::MAX, seconds_of_day: 0 }.is_valid());
    assert!(Timestamp::from_timestamp(i64::MIN).is_valid());
}
