use keeps_core::domain::organisation::{LabelName, MAX_LABEL};
use keeps_core::domain::tasks::{validate_title, TaskStatus, MAX_TITLE};

#[test]
fn a_label_is_trimmed_rather_than_stored_with_its_spaces() {
    assert_eq!(
        LabelName::new("  работа  ", "name").expect("valid").display(),
        "работа"
    );
}

#[test]
fn a_label_of_only_spaces_is_empty() {
    let error = LabelName::new("   ", "name").expect_err("must refuse");
    assert_eq!(error.code(), "validation_required");
}

#[test]
fn a_label_longer_than_a_chip_can_show_is_refused() {
    let error = LabelName::new(&"я".repeat(MAX_LABEL + 1), "name").expect_err("must refuse");
    assert_eq!(error.code(), "validation_too_long");
}

#[test]
fn mod_the_limit_counts_characters_rather_than_bytes() {
    LabelName::new(&"я".repeat(MAX_LABEL), "name").expect("fits");
}

#[test]
fn a_label_keeps_the_case_it_was_typed_in_and_matches_without_it() {
    let typed = LabelName::new("Работа", "name").expect("valid");
    assert_eq!(typed.display(), "Работа", "shown as the user wrote it");
    assert_eq!(
        typed.folded(),
        LabelName::new("работа", "name").expect("valid").folded(),
        "and matched as if they had written it either way"
    );
}

#[test]
fn folding_reaches_beyond_ascii() {
    assert_eq!(LabelName::new("ЁЖ", "name").expect("valid").folded(), "ёж");
}

#[test]
fn a_title_is_trimmed() {
    assert_eq!(
        validate_title("  купить хлеб  ").expect("valid"),
        "купить хлеб"
    );
}

#[test]
fn a_title_of_only_spaces_is_empty() {
    let error = validate_title("  ").expect_err("must refuse");
    assert_eq!(error.code(), "validation_required");
}

#[test]
fn the_limit_counts_characters_rather_than_bytes() {
    validate_title(&"я".repeat(MAX_TITLE)).expect("fits");
    assert!(validate_title(&"я".repeat(MAX_TITLE + 1)).is_err());
}

#[test]
fn the_two_states_survive_a_round_trip_through_the_column() {
    for status in [TaskStatus::Open, TaskStatus::Completed] {
        assert_eq!(TaskStatus::from_stored(status.stored()), status);
    }
}

#[test]
fn a_state_from_a_later_build_reads_as_open_rather_than_failing() {
    assert_eq!(TaskStatus::from_stored("waiting"), TaskStatus::Open);
    assert_eq!(TaskStatus::from_stored("in_progress"), TaskStatus::Open);
}

#[test]
fn only_the_completed_state_is_completed() {
    assert!(TaskStatus::Completed.is_completed());
    assert!(!TaskStatus::Open.is_completed());
    assert_eq!(TaskStatus::Open.stored(), "inbox");
}
