use keeps_core::domain::calendar::{CivilDate, LocalDateTime};
use keeps_core::domain::clock::{parse_zone, Timestamp, Zone};
use keeps_core::domain::reminders::recurrence::{window, Recurrence, WINDOW};
use keeps_core::domain::reminders::zones::resolve;

fn wall(year: i32, month: u32, day: u32, hour: u32, minute: u32) -> LocalDateTime {
    LocalDateTime { date: CivilDate { year, month, day }, hour, minute, second: 0, milli: 0 }
}

fn almaty() -> Zone {
    parse_zone("Asia/Almaty").expect("known zone")
}

fn readings(instants: &[Timestamp], zone: chrono_tz::Tz) -> Vec<String> {
    instants
        .iter()
        .map(|instant| {
            chrono::DateTime::from_timestamp_millis(instant.as_millis())
                .expect("representable")
                .with_timezone(&zone)
                .format("%Y-%m-%d %H:%M")
                .to_string()
        })
        .collect()
}

fn before(instant: LocalDateTime, zone: &Zone) -> Timestamp {
    Timestamp::from_millis(resolve(instant, zone).as_millis() - 1)
}

#[test]
fn every_rule_survives_a_round_trip_through_its_stored_form() {
    for recurrence in [
        Recurrence::Daily,
        Recurrence::Weekdays,
        Recurrence::Weekly,
        Recurrence::Monthly,
        Recurrence::Yearly,
    ] {
        assert_eq!(
            Recurrence::parse(recurrence.rule()).expect("parses"),
            recurrence
        );
    }
}

#[test]
fn a_rule_this_build_cannot_honour_is_refused_rather_than_approximated() {
    let error = Recurrence::parse("FREQ=HOURLY;INTERVAL=3").expect_err("must refuse");
    assert_eq!(error.code(), "reminder_invalid_recurrence");
}

#[test]
fn daily_keeps_the_time_of_day() {
    let start = wall(2026, 8, 3, 9, 0);
    let zone = almaty();
    let instants = window(start, &zone, Some(Recurrence::Daily), before(start, &zone), 3);
    assert_eq!(
        readings(&instants, chrono_tz::Asia::Almaty),
        ["2026-08-03 09:00", "2026-08-04 09:00", "2026-08-05 09:00"]
    );
}

#[test]
fn weekdays_steps_over_the_weekend() {
    // 7 August 2026 is a Friday.
    let start = wall(2026, 8, 7, 9, 0);
    let zone = almaty();
    let instants = window(start, &zone, Some(Recurrence::Weekdays), before(start, &zone), 3);
    assert_eq!(
        readings(&instants, chrono_tz::Asia::Almaty),
        ["2026-08-07 09:00", "2026-08-10 09:00", "2026-08-11 09:00"],
        "Friday is followed by Monday"
    );
}

#[test]
fn the_end_of_a_long_month_lands_on_the_end_of_a_short_one() {
    let start = wall(2026, 1, 31, 9, 0);
    let zone = almaty();
    let instants = window(start, &zone, Some(Recurrence::Monthly), before(start, &zone), 3);
    assert_eq!(
        readings(&instants, chrono_tz::Asia::Almaty),
        ["2026-01-31 09:00", "2026-02-28 09:00", "2026-03-31 09:00"],
        "February must not be skipped, and March must not stay clamped"
    );
}

#[test]
fn the_twenty_ninth_of_february_falls_back_in_ordinary_years() {
    let start = wall(2028, 2, 29, 9, 0);
    let zone = almaty();
    let instants = window(start, &zone, Some(Recurrence::Yearly), before(start, &zone), 2);
    assert_eq!(
        readings(&instants, chrono_tz::Asia::Almaty),
        ["2028-02-29 09:00", "2029-02-28 09:00"]
    );
}

#[test]
fn a_daily_reminder_keeps_its_hour_across_a_daylight_saving_change() {
    // Berlin puts the clocks forward on 29 March 2026.
    let berlin = parse_zone("Europe/Berlin").expect("known zone");
    let start = wall(2026, 3, 28, 9, 0);
    let instants = window(start, &berlin, Some(Recurrence::Daily), before(start, &berlin), 2);
    assert_eq!(
        readings(&instants, chrono_tz::Europe::Berlin),
        ["2026-03-28 09:00", "2026-03-29 09:00"],
        "adding a fixed 24 hours would have produced 10:00 on the Sunday"
    );
}

#[test]
fn mornings_missed_while_the_phone_was_off_are_not_all_delivered_at_once() {
    let start = wall(2026, 8, 3, 9, 0);
    let zone = almaty();
    let now = resolve(wall(2026, 8, 9, 12, 0), &zone);
    let instants = window(start, &zone, Some(Recurrence::Daily), now, 2);
    assert_eq!(
        readings(&instants, chrono_tz::Asia::Almaty),
        ["2026-08-10 09:00", "2026-08-11 09:00"]
    );
}

#[test]
fn a_one_off_reminder_yields_exactly_one_instant() {
    let start = wall(2026, 8, 3, 9, 0);
    let zone = almaty();
    let instants = window(start, &zone, None, before(start, &zone), WINDOW);
    assert_eq!(instants.len(), 1);
}

#[test]
fn a_one_off_reminder_that_has_passed_yields_nothing() {
    let start = wall(2026, 8, 3, 9, 0);
    let zone = almaty();
    let now = resolve(wall(2026, 8, 4, 9, 0), &zone);
    assert!(window(start, &zone, None, now, WINDOW).is_empty());
}

#[test]
fn the_nth_reading_is_measured_from_the_first_and_keeps_its_time() {
    let start = wall(2026, 1, 31, 9, 15);
    assert_eq!(Recurrence::Monthly.nth(start, 1), wall(2026, 2, 28, 9, 15));
    assert_eq!(Recurrence::Monthly.nth(start, 2), wall(2026, 3, 31, 9, 15));
    assert_eq!(Recurrence::Weekly.nth(start, 2), wall(2026, 2, 14, 9, 15));
    assert_eq!(Recurrence::Daily.nth(start, 1), wall(2026, 2, 1, 9, 15));
    // 31 January 2026 is a Saturday: the first weekday after it is Monday.
    assert_eq!(Recurrence::Weekdays.nth(start, 1), wall(2026, 2, 2, 9, 15));
    assert_eq!(Recurrence::Yearly.nth(start, 0), start);
}

#[test]
fn a_series_that_leaves_the_calendar_has_no_reading_there() {
    let start = wall(262_142, 12, 31, 9, 0);
    assert_eq!(Recurrence::Daily.checked_nth(start, 1), None);
    assert_eq!(Recurrence::Daily.checked_nth(start, 0), Some(start));
}

#[test]
fn a_window_never_holds_more_than_asked_for() {
    let start = wall(2026, 8, 3, 9, 0);
    let zone = almaty();
    let instants = window(start, &zone, Some(Recurrence::Daily), before(start, &zone), 0);
    assert!(instants.is_empty());
}
