use keeps_core::domain::reminders::time_presets::{
    default_time_presets, normalise, parse_stored, serialise, TimePreset, MAX_TIME_PRESETS,
};

#[test]
fn the_shipped_times_are_the_six_the_product_asked_for() {
    let labels: Vec<String> = default_time_presets()
        .iter()
        .map(|preset| preset.label())
        .collect();
    assert_eq!(
        labels,
        ["07:00", "09:00", "12:00", "16:00", "18:00", "23:00"]
    );
}

#[test]
fn an_unset_setting_falls_back_to_the_shipped_times() {
    let presets = parse_stored(None).expect("defaults resolve");
    assert_eq!(presets, default_time_presets());
}

#[test]
fn deleting_every_preset_is_stored_and_not_read_back_as_the_defaults() {
    let stored = serialise(&[]).expect("serialises");
    let presets = parse_stored(Some(stored.as_str())).expect("empty list is valid");
    assert!(presets.is_empty());
}

#[test]
fn presets_are_sorted_and_deduplicated() {
    let presets = normalise(&["23:00", "07:00", "23:00"]).expect("normalises");
    let labels: Vec<String> = presets.iter().map(|preset| preset.label()).collect();
    assert_eq!(labels, ["07:00", "23:00"]);
}

#[test]
fn a_custom_time_survives_a_round_trip() {
    let presets = normalise(&["06:45"]).expect("normalises");
    let stored = serialise(&presets).expect("serialises");
    assert_eq!(parse_stored(Some(stored.as_str())).expect("parses"), presets);
}

#[test]
fn times_that_do_not_exist_on_a_clock_are_rejected() {
    for text in ["24:00", "07:60", "7:00", "0700", "", "aa:bb", "-1:00"] {
        assert!(
            TimePreset::parse(text).is_err(),
            "{text} must not parse as a time"
        );
    }
}

#[test]
fn time_presets_a_stored_value_that_is_not_our_json_is_a_validation_error() {
    let error = parse_stored(Some("07:00,09:00")).expect_err("must reject");
    assert_eq!(error.code(), "validation_invalid");
}

#[test]
fn more_presets_than_the_cap_are_rejected() {
    let values: Vec<String> = (0..=MAX_TIME_PRESETS)
        .map(|index| format!("00:{index:02}"))
        .collect();
    let refs: Vec<&str> = values.iter().map(String::as_str).collect();
    assert!(normalise(&refs).is_err());
}

#[test]
fn midnight_and_the_last_minute_of_the_day_are_both_valid() {
    assert_eq!(TimePreset::parse("00:00").expect("parses").label(), "00:00");
    assert_eq!(TimePreset::parse("23:59").expect("parses").label(), "23:59");
}

#[test]
fn a_preset_reads_back_its_hour_and_minute() {
    let preset = TimePreset::new(6, 45).expect("a real time");
    assert_eq!((preset.hour(), preset.minute()), (6, 45));
    assert_eq!(preset.label(), "06:45");
    assert!(TimePreset::new(24, 0).is_err());
}
