use keeps_core::domain::ids::{NoteId, TaskId};
use uuid::Uuid;

#[test]
fn generated_ids_are_unique() {
    let first = NoteId::new();
    let second = NoteId::new();
    assert_ne!(first, second);
}

#[test]
fn v7_ids_sort_in_creation_order() {
    let mut ids: Vec<NoteId> = (0..64).map(|_| NoteId::new()).collect();
    let generated = ids.clone();
    ids.sort();
    assert_eq!(ids, generated);
}

#[test]
fn parsing_round_trips_through_display() {
    let id = TaskId::new();
    let parsed = TaskId::parse(&id.to_string()).expect("the id is valid");
    assert_eq!(id, parsed);
}

#[test]
fn parsing_rejects_a_non_uuid() {
    let error = NoteId::parse("note-1").expect_err("a plain word is not an id");
    assert_eq!(error.code(), "validation_invalid");
}

#[test]
fn display_is_hyphenated_lowercase() {
    let id = NoteId::from_uuid(
        Uuid::parse_str("0193B3B2-4D3C-7C9A-8F2E-1A2B3C4D5E6F").expect("valid uuid"),
    );
    assert_eq!(id.to_string(), "0193b3b2-4d3c-7c9a-8f2e-1a2b3c4d5e6f");
    assert_eq!(id.as_uuid(), Uuid::parse_str("0193b3b2-4d3c-7c9a-8f2e-1a2b3c4d5e6f").expect("valid"));
}

#[test]
fn a_generated_id_is_a_version_seven_uuid() {
    let id = keeps_core::domain::ids::ReminderId::new();
    let uuid = uuid::Uuid::parse_str(&id.to_string()).expect("valid uuid");
    assert_eq!(uuid.get_version_num(), 7);
    assert_eq!(uuid.get_variant(), uuid::Variant::RFC4122);
}

#[test]
fn the_simple_braced_and_urn_spellings_name_the_same_id() {
    let hyphenated = NoteId::parse("0193b3b2-4d3c-7c9a-8f2e-1a2b3c4d5e6f").expect("hyphenated");
    for spelling in [
        "0193b3b24d3c7c9a8f2e1a2b3c4d5e6f",
        "{0193b3b2-4d3c-7c9a-8f2e-1a2b3c4d5e6f}",
        "urn:uuid:0193b3b2-4d3c-7c9a-8f2e-1a2b3c4d5e6f",
    ] {
        assert_eq!(NoteId::parse(spelling).expect("accepted"), hyphenated);
    }
    assert!(NoteId::parse("0193b3b2-4d3c-7c9a-8f2e-1a2b3c4d5e6").is_err());
}
