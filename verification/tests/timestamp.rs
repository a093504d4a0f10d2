use chrono::DateTime;
use chrono::Utc;
use stack_tail::timestamp::Timestamp;
use stack_tail::timestamp::Zone;
use stack_tail::timestamp::MAX_SECS;
use stack_tail::timestamp::MIN_SECS;

#[test]
fn parse_reads_seconds_nanoseconds_and_offset() {
    let ts = Timestamp::parse("1996-12-19T16:39:57-08:00").unwrap();
    assert_eq!(ts.secs(), 851042397);
    assert_eq!(ts.nanos(), 0);
    assert_eq!(ts.offset(), -28800);
    let ts = Timestamp::parse("2019-07-04T14:00:00.123456789+02:00").unwrap();
    assert_eq!(ts.secs(), 1562241600);
    assert_eq!(ts.nanos(), 123_456_789);
    assert_eq!(ts.offset(), 7200);
}

#[test]
fn parse_rejects_what_is_not_rfc3339() {
    assert!(Timestamp::parse("").is_none());
    assert!(Timestamp::parse("1996-12-19").is_none());
    assert!(Timestamp::parse("1996-12-19T16:39:57").is_none());
    assert!(Timestamp::parse("1996-02-30T16:39:57Z").is_none());
    assert!(Timestamp::parse("Thu, 19 Dec 1996 16:39:57 -0800").is_none());
}

#[test]
fn parse_keeps_a_leap_second() {
    let ts = Timestamp::parse("2016-12-31T23:59:60Z").unwrap();
    assert_eq!(ts.secs(), 1483228799);
    assert_eq!(ts.nanos(), 1_000_000_000);
    assert_eq!(ts.to_text(), "2016-12-31 23:59:60 +00:00");
}

#[test]
fn to_text_prints_in_the_own_offset() {
    let ts = Timestamp::parse("1996-12-19T16:39:57-08:00").unwrap();
    assert_eq!(ts.to_text(), "1996-12-19 16:39:57 -08:00");
    let ts = Timestamp::parse("2019-07-04T12:00:00Z").unwrap();
    assert_eq!(ts.to_text(), "2019-07-04 12:00:00 +00:00");
    let ts = Timestamp::parse("2019-07-04T12:00:00.5+05:30").unwrap();
    assert_eq!(ts.to_text(), "2019-07-04 12:00:00.500 +05:30");
}

#[test]
fn to_text_agrees_with_chrono() {
    for text in &[
        "1996-12-19T16:39:57-08:00",
        "2019-07-04T12:00:00Z",
        "2019-07-04T12:00:00.000001+05:45",
        "0000-01-01T00:00:00+23:59",
        "9999-12-31T23:59:59.999999999-23:59",
        "2016-12-31T23:59:60.25Z",
    ] {
        let theirs = DateTime::parse_from_rfc3339(text).unwrap();
        let ours = Timestamp::parse(text).unwrap();
        assert_eq!(ours.to_text(), theirs.to_string());
        assert_eq!(ours.secs(), theirs.timestamp());
        assert_eq!(ours.nanos(), theirs.timestamp_subsec_nanos());
        assert_eq!(ours.offset(), theirs.offset().local_minus_utc());
    }
}

#[test]
fn to_text_in_prints_the_zone_clock() {
    let new_york = Zone::parse("America/New_York").unwrap();
    let ts = Timestamp::parse("1996-12-19T16:39:57-08:00").unwrap();
    assert_eq!(ts.to_text_in(&new_york), "1996-12-19 19:39:57 EST");
    let ts = Timestamp::parse("2019-07-04T12:00:00Z").unwrap();
    assert_eq!(ts.to_text_in(&new_york), "2019-07-04 08:00:00 EDT");
    let kolkata = Zone::parse("Asia/Kolkata").unwrap();
    assert_eq!(ts.to_text_in(&kolkata), "2019-07-04 17:30:00 IST");
}

#[test]
fn to_text_in_agrees_with_chrono() {
    for name in &["America/New_York", "Europe/Berlin", "Asia/Kolkata", "UTC", "Pacific/Chatham"] {
        let tz: chrono_tz::Tz = name.parse().unwrap();
        let zone = Zone::parse(name).unwrap();
        for text in &[
            "1996-12-19T16:39:57-08:00",
            "2019-07-04T12:00:00.75Z",
            "0000-01-01T00:00:00+23:59",
            "9999-12-31T23:59:59-23:59",
        ] {
            let theirs = DateTime::parse_from_rfc3339(text).unwrap().with_timezone(&tz);
            let ours = Timestamp::parse(text).unwrap();
            assert_eq!(ours.to_text_in(&zone), theirs.to_string());
        }
    }
}

#[test]
fn zone_text_depends_on_the_instant_alone() {
    let berlin = Zone::parse("Europe/Berlin").unwrap();
    let utc = Timestamp::parse("2019-07-04T12:00:00Z").unwrap();
    let shifted = Timestamp::parse("2019-07-04T14:00:00+02:00").unwrap();
    assert_eq!(utc.secs(), shifted.secs());
    assert_ne!(utc.to_text(), shifted.to_text());
    assert_eq!(utc.to_text_in(&berlin), shifted.to_text_in(&berlin));
    assert_eq!(utc.to_text_in(&berlin), "2019-07-04 14:00:00 CEST");
}

#[test]
fn zone_parse_knows_the_database_names() {
    let zone = Zone::parse("America/New_York").unwrap();
    assert_eq!(zone.name(), "America/New_York");
    assert_eq!(zone.clone().name(), "America/New_York");
    assert!(Zone::parse("UTC").is_some());
    assert!(Zone::parse("Europe/Berlin").is_some());
}

#[test]
fn zone_parse_rejects_unknown_names() {
    assert!(Zone::parse("").is_none());
    assert!(Zone::parse("Nowhere/Land").is_none());
    assert!(Zone::parse("America/New_York ").is_none());
    assert!(Zone::parse("New York").is_none());
}

#[test]
fn new_accepts_what_chrono_can_hold() {
    assert_eq!(DateTime::<Utc>::MIN_UTC.timestamp(), MIN_SECS);
    assert_eq!(DateTime::<Utc>::MAX_UTC.timestamp(), MAX_SECS);
    assert!(DateTime::from_timestamp(MIN_SECS, 0).is_some());
    assert!(DateTime::from_timestamp(MIN_SECS - 1, 0).is_none());
    assert!(DateTime::from_timestamp(MAX_SECS, 999_999_999).is_some());
    assert!(DateTime::from_timestamp(MAX_SECS + 1, 0).is_none());
    assert!(Timestamp::new(MIN_SECS, 0, 0).is_some());
    assert!(Timestamp::new(MIN_SECS - 1, 0, 0).is_none());
    assert!(Timestamp::new(MAX_SECS, 999_999_999, 0).is_some());
    assert!(Timestamp::new(MAX_SECS + 1, 0, 0).is_none());
    assert!(Timestamp::new(i64::MIN, 0, 0).is_none());
    assert!(Timestamp::new(i64::MAX, 0, 0).is_none());
}

#[test]
fn new_checks_nanoseconds_and_offset() {
    assert!(Timestamp::new(0, 999_999_999, 0).is_some());
    assert!(Timestamp::new(0, 1_000_000_000, 0).is_none());
    assert!(Timestamp::new(59, 1_000_000_000, 0).is_some());
    assert!(Timestamp::new(59, 1_999_999_999, 0).is_some());
    assert!(Timestamp::new(59, 2_000_000_000, 0).is_none());
    assert!(Timestamp::new(-1, 1_500_000_000, 0).is_some());
    assert!(Timestamp::new(-2, 1_500_000_000, 0).is_none());
    assert!(Timestamp::new(0, 0, 86_399).is_some());
    assert!(Timestamp::new(0, 0, 86_400).is_none());
    assert!(Timestamp::new(0, 0, -86_399).is_some());
    assert!(Timestamp::new(0, 0, -86_400).is_none());
    assert_eq!(DateTime::from_timestamp(-1, 1_500_000_000).is_some(), true);
    assert_eq!(DateTime::from_timestamp(-2, 1_500_000_000).is_some(), false);
}

#[test]
fn new_keeps_its_parts() {
    let ts = Timestamp::new(851042397, 5, -28800).unwrap();
    assert_eq!(ts.secs(), 851042397);
    assert_eq!(ts.nanos(), 5);
    assert_eq!(ts.offset(), -28800);
    assert_eq!(ts.to_text(), "1996-12-19 16:39:57.000000005 -08:00");
}

#[test]
fn the_ends_of_the_range_can_be_printed() {
    let new_york = Zone::parse("America/New_York").unwrap();
    for (secs, nanos, offset) in &[
        (MIN_SECS, 0u32, -86_399i32),
        (MIN_SECS, 0, 86_399),
        (MAX_SECS, 1_999_999_999, 86_399),
        (MAX_SECS, 999_999_999, -86_399),
    ] {
        let ts = Timestamp::new(*secs, *nanos, *offset).unwrap();
        assert!(!ts.to_text().is_empty());
        assert!(!ts.to_text_in(&new_york).is_empty());
    }
}
