use chrono::TimeZone;
use keeps_core::domain::clock::{parse_zone, Clock, FixedClock, Timestamp};

#[test]
fn a_fixed_clock_does_not_move() {
    let clock = FixedClock::new(Timestamp::from_millis(1_700_000_000_000));
    assert_eq!(clock.now(), clock.now());
    assert_eq!(clock.now().as_millis(), 1_700_000_000_000);
}

#[test]
fn local_construction_accounts_for_the_zone_offset() {
    // Moscow is UTC+3 year round, so 12:00 local is 09:00 UTC.
    let zone = parse_zone("Europe/Moscow").expect("known zone");
    let clock = FixedClock::at_local(&zone, 2026, 8, 1, 12, 0);
    let utc = chrono::DateTime::from_timestamp_millis(clock.now().as_millis()).expect("representable");
    assert_eq!(
        utc.format("%Y-%m-%dT%H:%M:%SZ").to_string(),
        "2026-08-01T09:00:00Z"
    );
}

#[test]
fn a_timestamp_round_trips_through_a_zone() {
    let zone = parse_zone("Europe/Moscow").expect("known zone");
    let clock = FixedClock::at_local(&zone, 2026, 8, 1, 9, 30);
    let zoned = clock.now().to_zoned(&zone).expect("representable");
    assert_eq!(format!("{:02}:{:02}", zoned.hour, zoned.minute), "09:30");
}

#[test]
fn a_reading_the_zone_skipped_has_no_clock() {
    // Moscow's last spring-forward: 2011-03-27 02:00 became 03:00.
    let zone = parse_zone("Europe/Moscow").expect("known zone");
    assert!(FixedClock::try_at_local(&zone, 2011, 3, 27, 2, 30).is_none());
    let instant = chrono_tz::Europe::Moscow
        .with_ymd_and_hms(2011, 3, 27, 3, 30, 0)
        .single()
        .expect("unambiguous");
    assert_eq!(
        FixedClock::try_at_local(&zone, 2011, 3, 27, 3, 30).map(|c| c.now().as_millis()),
        Some(instant.timestamp_millis())
    );
}

#[test]
fn adding_minutes_saturates_instead_of_overflowing() {
    let far_future = Timestamp::from_millis(i64::MAX - 10);
    assert_eq!(
        far_future.saturating_add_minutes(1_000).as_millis(),
        i64::MAX
    );
}

#[test]
fn an_unknown_zone_is_rejected_rather_than_defaulting_to_utc() {
    let error = parse_zone("Middle/Earth").expect_err("not a real zone");
    assert_eq!(error.code(), "validation_unknown_timezone");
}

#[test]
fn known_zones_parse() {
    assert!(parse_zone("Europe/Moscow").is_ok());
    assert!(parse_zone("UTC").is_ok());
    assert!(parse_zone("America/Argentina/Salta").is_ok());
}

#[test]
fn moving_backwards_saturates_too_and_exact_steps_are_exact() {
    let start = Timestamp::from_millis(1_000);
    assert_eq!(start.saturating_add_minutes(2).as_millis(), 121_000);
    assert_eq!(start.saturating_add_millis(-500).as_millis(), 500);
    assert_eq!(
        Timestamp::from_millis(i64::MIN + 5).saturating_add_minutes(-1).as_millis(),
        i64::MIN
    );
    assert!(start.is_before(Timestamp::from_millis(1_001)));
    assert!(!start.is_before(start));
}

#[test]
fn an_instant_past_the_calendar_has_no_reading() {
    let zone = parse_zone("UTC").expect("known zone");
    let error = Timestamp::from_millis(i64::MAX).to_zoned(&zone).expect_err("out of range");
    assert_eq!(error.code(), "validation_invalid");
}

#[test]
fn a_reading_past_the_calendar_is_refused_rather_than_a_crash() {
    // The last millisecond the calendar holds, read nine hours further east.
    let zone = parse_zone("Asia/Tokyo").expect("known zone");
    let error = Timestamp::from_millis(8_210_266_876_799_999)
        .to_zoned(&zone)
        .expect_err("past the calendar");
    assert_eq!(error.code(), "validation_invalid");
    let utc = parse_zone("UTC").expect("known zone");
    let reading = Timestamp::from_millis(8_210_266_876_799_999)
        .to_zoned(&utc)
        .expect("still in range in UTC");
    assert_eq!((reading.date.year, reading.date.month, reading.date.day), (262_142, 12, 31));
}
