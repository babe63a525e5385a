use keeps_core::domain::quick_notes::settings::{
    offered_leads, QuickNoteSettings, DEFAULT_LEAD_MINUTES, MAX_FALLBACK_DAY_OFFSET,
    MAX_LEAD_MINUTES,
};
use keeps_core::domain::reminders::snooze::{
    offered, parse_stored, validate, DEFAULT_SNOOZE_MINUTES, MAX_SNOOZE_MINUTES,
};
use keeps_core::domain::reminders::time_presets::TimePreset;

#[test]
fn an_unset_setting_falls_back_to_the_shipped_pair() {
    let settings = QuickNoteSettings::default();
    assert_eq!(settings.lead_minutes(), DEFAULT_LEAD_MINUTES);
    assert_eq!(settings.fallback_time().label(), "19:00");
    assert_eq!(settings.fallback_day_offset(), 0);
}

#[test]
fn a_lead_longer_than_a_day_is_rejected() {
    let time = TimePreset::parse("19:00").expect("parses");
    assert!(QuickNoteSettings::new(MAX_LEAD_MINUTES, time, 0).is_ok());
    assert!(QuickNoteSettings::new(MAX_LEAD_MINUTES + 1, time, 0).is_err());
}

#[test]
fn a_day_further_off_than_a_month_is_rejected() {
    let time = TimePreset::parse("19:00").expect("parses");
    assert!(QuickNoteSettings::new(30, time, MAX_FALLBACK_DAY_OFFSET).is_ok());
    assert!(QuickNoteSettings::new(30, time, MAX_FALLBACK_DAY_OFFSET + 1).is_err());
}

#[test]
fn stored_fields_are_read_back_into_settings() {
    let settings = QuickNoteSettings::from_stored(15, "08:30", 2).expect("valid");
    assert_eq!(settings.lead_minutes(), 15);
    assert_eq!(settings.fallback_time().label(), "08:30");
    assert_eq!(settings.fallback_day_offset(), 2);
    let error = QuickNoteSettings::from_stored(30, "25:00", 0).expect_err("must reject");
    assert_eq!(error.code(), "validation_invalid");
}

#[test]
fn the_offered_leads_are_the_seven_the_product_asked_for() {
    assert_eq!(
        offered_leads(DEFAULT_LEAD_MINUTES),
        [0, 5, 10, 15, 30, 60, 120]
    );
}

#[test]
fn a_lead_from_somewhere_else_is_added_to_the_list_rather_than_hidden() {
    assert_eq!(offered_leads(45), [0, 5, 10, 15, 30, 45, 60, 120]);
}

#[test]
fn an_unset_setting_falls_back_to_an_hour() {
    assert_eq!(parse_stored(None).expect("defaults resolve"), 60);
}

#[test]
fn a_stored_amount_is_read_back() {
    assert_eq!(parse_stored(Some("15")).expect("parses"), 15);
    assert_eq!(parse_stored(Some(" +15 ")).expect("parses"), 15);
}

#[test]
fn nought_minutes_is_not_a_postponement() {
    assert_eq!(
        parse_stored(Some("0")).expect_err("must reject").code(),
        "validation_invalid"
    );
}

#[test]
fn longer_than_a_day_is_rejected() {
    assert!(validate(MAX_SNOOZE_MINUTES).is_ok());
    assert!(validate(MAX_SNOOZE_MINUTES + 1).is_err());
}

#[test]
fn a_value_that_is_not_a_number_is_a_validation_error() {
    assert_eq!(
        parse_stored(Some("час")).expect_err("must reject").code(),
        "validation_invalid"
    );
    assert!(parse_stored(Some("99999999999999999999")).is_err());
    assert!(parse_stored(Some("-5")).is_err());
}

#[test]
fn the_offered_amounts_are_the_six_the_product_asked_for() {
    assert_eq!(offered(DEFAULT_SNOOZE_MINUTES), [5, 10, 15, 30, 60, 120]);
}

#[test]
fn an_amount_from_somewhere_else_is_added_to_the_list_rather_than_hidden() {
    assert_eq!(offered(45), [5, 10, 15, 30, 45, 60, 120]);
    assert_eq!(offered(1), [1, 5, 10, 15, 30, 60, 120]);
    assert_eq!(offered(500), [5, 10, 15, 30, 60, 120, 500]);
}
