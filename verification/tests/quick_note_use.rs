use chrono::TimeZone;
use keeps_core::application::quick_notes::{body_for, plan_reminder};
use keeps_core::domain::clock::{parse_zone, Timestamp};
use keeps_core::domain::quick_notes::phrase::parse_phrase;
use keeps_core::domain::quick_notes::settings::QuickNoteSettings;
use keeps_core::domain::reminders::time_presets::TimePreset;

fn moscow_at(hour: u32, minute: u32) -> Timestamp {
    let instant = chrono_tz::Europe::Moscow
        .with_ymd_and_hms(2026, 8, 10, hour, minute, 0)
        .single()
        .expect("unambiguous");
    Timestamp::from_millis(instant.timestamp_millis())
}

fn clock_reading(instant: Timestamp) -> String {
    chrono::DateTime::from_timestamp_millis(instant.as_millis())
        .expect("representable")
        .with_timezone(&chrono_tz::Europe::Moscow)
        .format("%Y-%m-%d %H:%M")
        .to_string()
}

#[test]
fn a_title_that_is_the_whole_transcript_leaves_the_body_empty() {
    assert_eq!(body_for("купить молоко", "Купить молоко"), "");
}

#[test]
fn a_transcript_that_says_more_than_the_title_is_kept_in_the_body() {
    assert_eq!(
        body_for("встреча. 15:00", "Встреча"),
        "встреча. 15:00",
        "the time that was cut from the title is still what was said"
    );
}

#[test]
fn the_lead_is_subtracted_from_the_time_that_was_said() {
    let zone = parse_zone("Europe/Moscow").expect("known zone");
    let now = moscow_at(12, 0);
    let settings = QuickNoteSettings::default();
    let phrase =
        parse_phrase("встреча. 15:00", now, &zone, settings.fallback_time()).expect("parses");
    let plan = plan_reminder(&phrase, settings, now, &zone).expect("placed");
    assert_eq!(clock_reading(plan.at), "2026-08-10 14:30");
    assert_eq!(clock_reading(plan.spoken_at), "2026-08-10 15:00");
    assert_eq!(plan.lead_minutes, 30);
}

#[test]
fn a_phrase_with_no_time_lands_on_the_fallback_with_nothing_taken_off() {
    let zone = parse_zone("Europe/Moscow").expect("known zone");
    let now = moscow_at(12, 0);
    let settings = QuickNoteSettings::default();
    let phrase =
        parse_phrase("купить молоко", now, &zone, settings.fallback_time()).expect("parses");
    let plan = plan_reminder(&phrase, settings, now, &zone).expect("placed");
    assert_eq!(clock_reading(plan.at), "2026-08-10 19:00");
    assert_eq!(plan.lead_minutes, 0);
}

#[test]
fn a_lead_that_reaches_into_the_past_rings_a_minute_from_now() {
    let zone = parse_zone("Europe/Moscow").expect("known zone");
    let now = moscow_at(14, 45);
    let settings = QuickNoteSettings::default();
    let phrase =
        parse_phrase("встреча в 15:00", now, &zone, settings.fallback_time()).expect("parses");
    let plan = plan_reminder(&phrase, settings, now, &zone).expect("placed");
    assert_eq!(plan.at.as_millis(), now.as_millis() + 60_000);
}

#[test]
fn a_clock_time_that_has_gone_is_reported_rather_than_moved() {
    let zone = parse_zone("Europe/Moscow").expect("known zone");
    let now = moscow_at(12, 0);
    let settings = QuickNoteSettings::new(30, TimePreset::parse("19:00").expect("parses"), 0)
        .expect("valid");
    let phrase =
        parse_phrase("сегодня в 9:00", now, &zone, settings.fallback_time()).expect("parses");
    let error = plan_reminder(&phrase, settings, now, &zone).expect_err("in the past");
    assert_eq!(error.code(), "validation_time_in_past");
}

#[test]
fn a_later_day_for_the_fallback_is_that_many_days_on() {
    let zone = parse_zone("Europe/Moscow").expect("known zone");
    let now = moscow_at(12, 0);
    let settings = QuickNoteSettings::new(30, TimePreset::parse("08:00").expect("parses"), 2)
        .expect("valid");
    let phrase =
        parse_phrase("купить молоко", now, &zone, settings.fallback_time()).expect("parses");
    let plan = plan_reminder(&phrase, settings, now, &zone).expect("placed");
    assert_eq!(clock_reading(plan.at), "2026-08-12 08:00");
}
