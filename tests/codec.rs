use italo_api::{
    encode_date_time, extract_date, extract_utc_time, Malformed, UtcDateTime,
    MAX_EPOCH_SECONDS, MIN_EPOCH_SECONDS,
};

fn at_millis(ms: i64) -> UtcDateTime {
    UtcDateTime::from_timestamp_millis(ms).unwrap()
}

#[test]
fn encode_writes_seconds_with_zero_offset() {
    assert_eq!(encode_date_time(&at_millis(1700000000000)), "/Date(1700000000+0000)/");
}

#[test]
fn encode_rounds_down_to_the_second() {
    assert_eq!(encode_date_time(&at_millis(1700000000999)), "/Date(1700000000+0000)/");
    assert_eq!(encode_date_time(&at_millis(-1500)), "/Date(-2+0000)/");
    assert_eq!(encode_date_time(&at_millis(0)), "/Date(0+0000)/");
}

#[test]
fn decode_ignores_the_offset() {
    let t = extract_utc_time("/Date(1700000000+0100)/").unwrap();
    assert_eq!(t.timestamp(), 1700000000);
    assert_eq!(t.timestamp_millis(), 1700000000000);
}

#[test]
fn decode_of_encode_gives_the_instant_back() {
    for ms in [0i64, 1700000000000, -86400000, 1000 * MIN_EPOCH_SECONDS, 1000 * MAX_EPOCH_SECONDS] {
        let t = at_millis(ms);
        assert_eq!(extract_utc_time(&encode_date_time(&t)).unwrap(), t);
    }
}

#[test]
fn decode_of_encode_drops_the_milliseconds() {
    let t = at_millis(1500);
    assert_eq!(extract_utc_time(&encode_date_time(&t)).unwrap().timestamp_millis(), 1000);
}

#[test]
fn decode_without_open_paren_fails() {
    let e = extract_utc_time("/Date1700000000+0000/").unwrap_err();
    assert_eq!(e.kind(), Malformed::MissingOpenParen);
    assert_eq!(e.fragment(), "/Date1700000000+0000/");
}

#[test]
fn decode_without_plus_fails() {
    let e = extract_utc_time("/Date(1700000000-0000)/").unwrap_err();
    assert_eq!(e.kind(), Malformed::MissingOffsetSign);
    assert_eq!(e.fragment(), "1700000000-0000)/");
}

#[test]
fn decode_of_non_numeric_epoch_fails() {
    let e = extract_utc_time("/Date(17a0+0000)/").unwrap_err();
    assert_eq!(e.kind(), Malformed::InvalidEpoch);
    assert_eq!(e.fragment(), "17a0");
    assert_eq!(extract_utc_time("/Date(+0000)/").unwrap_err().kind(), Malformed::InvalidEpoch);
    assert_eq!(extract_utc_time("/Date(-+0000)/").unwrap_err().kind(), Malformed::InvalidEpoch);
    assert_eq!(extract_utc_time("").unwrap_err().kind(), Malformed::MissingOpenParen);
}

#[test]
fn decode_of_out_of_range_epoch_fails() {
    let e = extract_utc_time("/Date(99999999999999999999999+0000)/").unwrap_err();
    assert_eq!(e.kind(), Malformed::EpochOutOfRange);
    assert_eq!(e.fragment(), "99999999999999999999999");
    let past = format!("/Date({}+0000)/", MAX_EPOCH_SECONDS + 1);
    assert_eq!(extract_utc_time(&past).unwrap_err().kind(), Malformed::EpochOutOfRange);
    let ok = format!("/Date({}+0000)/", MIN_EPOCH_SECONDS);
    assert_eq!(extract_utc_time(&ok).unwrap().timestamp(), MIN_EPOCH_SECONDS);
}

#[test]
fn decode_of_negative_epoch() {
    assert_eq!(extract_utc_time("/Date(-86400+0000)/").unwrap().timestamp(), -86400);
}

#[test]
fn range_bounds_match_chrono() {
    assert!(chrono::DateTime::from_timestamp(MIN_EPOCH_SECONDS, 0).is_some());
    assert!(chrono::DateTime::from_timestamp(MIN_EPOCH_SECONDS - 1, 0).is_none());
    assert!(chrono::DateTime::from_timestamp(MAX_EPOCH_SECONDS, 0).is_some());
    assert!(chrono::DateTime::from_timestamp(MAX_EPOCH_SECONDS + 1, 0).is_none());
    assert!(UtcDateTime::from_timestamp(MIN_EPOCH_SECONDS).is_some());
    assert!(UtcDateTime::from_timestamp(MIN_EPOCH_SECONDS - 1).is_none());
    assert!(UtcDateTime::from_timestamp(MAX_EPOCH_SECONDS).is_some());
    assert!(UtcDateTime::from_timestamp(MAX_EPOCH_SECONDS + 1).is_none());
    assert!(UtcDateTime::from_timestamp_millis(MAX_EPOCH_SECONDS * 1000 + 999).is_some());
    assert!(UtcDateTime::from_timestamp_millis(MIN_EPOCH_SECONDS * 1000 - 1).is_none());
}

#[test]
fn stored_window_decodes_to_the_instant() {
    let mut r = italo_api::JourneyRequest::default();
    r.set_interval_start_date_time(UtcDateTime::from_timestamp(1700000000).unwrap());
    let stored = r
        .payload_fields()
        .into_iter()
        .find(|(k, _)| *k == italo_api::RequestField::IntervalStartDateTime)
        .unwrap();
    match stored.1 {
        italo_api::FieldValue::Text(s) => {
            assert_eq!(extract_utc_time(&s).unwrap().timestamp(), 1700000000)
        }
        other => panic!("unexpected {:?}", other),
    }
    assert_eq!(extract_utc_time("1700000000").unwrap_err().kind(), Malformed::MissingOpenParen);
}

#[test]
fn response_dates_count_milliseconds() {
    let d = extract_date("/Date(1700000000000+0000)/").unwrap();
    assert_eq!((d.year, d.month, d.day), (2023, 11, 14));
    let e = extract_date("/Date(0+0100)/").unwrap();
    assert_eq!((e.year, e.month, e.day), (1970, 1, 1));
    let b = extract_date("/Date(-1+0000)/").unwrap();
    assert_eq!((b.year, b.month, b.day), (1969, 12, 31));
    assert_eq!(
        extract_date("/Date(99999999999999999+0000)/").unwrap_err().kind(),
        Malformed::EpochOutOfRange
    );
}

#[test]
fn response_dates_at_edges() {
    let leap = extract_date("/Date(951782400000+0000)/").unwrap();
    assert_eq!((leap.year, leap.month, leap.day), (2000, 2, 29));
    let before = extract_date("/Date(-86400001+0000)/").unwrap();
    assert_eq!((before.year, before.month, before.day), (1969, 12, 30));
    let first = extract_date(&format!("/Date({}+0000)/", MIN_EPOCH_SECONDS * 1000)).unwrap();
    assert_eq!((first.year, first.month, first.day), (-262143, 1, 1));
    let last = extract_date(&format!("/Date({}+0000)/", MAX_EPOCH_SECONDS * 1000 + 999)).unwrap();
    assert_eq!((last.year, last.month, last.day), (262142, 12, 31));
    assert_eq!(
        extract_date(&format!("/Date({}+0000)/", MIN_EPOCH_SECONDS * 1000 - 1)).unwrap_err().kind(),
        Malformed::EpochOutOfRange
    );
}
