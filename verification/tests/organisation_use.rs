use std::sync::{Arc, Mutex};

use keeps_core::application::organisation::OrganisationUseCases;
use keeps_core::domain::clock::{FixedClock, Timestamp};
use keeps_core::domain::ids::{FolderId, NoteId, TagId};
use keeps_core::domain::organisation::{Folder, LabelName, OrganisationRepository, Tag};
use keeps_core::error::{AppError, AppResult, DatabaseError};

fn not_found(entity: &'static str, id: String) -> AppError {
    AppError::Database(DatabaseError::NotFound { entity, id })
}

/// Stands in for the database, and keeps the same promises: names are
/// matched by their folded key, a label that goes away takes its links with
/// it, and the notes themselves are never written to from here.
#[derive(Default)]
struct FakeOrganisation {
    tags: Mutex<Vec<(Tag, String)>>,
    folders: Mutex<Vec<Folder>>,
    note_tags: Mutex<Vec<(NoteId, TagId)>>,
    note_folders: Mutex<Vec<(NoteId, FolderId)>>,
    /// A stand-in for the notes, so a test can say what deleting a label did
    /// *not* do.
    notes: Mutex<Vec<(NoteId, String)>>,
    /// Every method the use cases reached, in order.
    calls: Mutex<Vec<&'static str>>,
}

impl FakeOrganisation {
    fn add_note(&self, title: &str) -> NoteId {
        let id = NoteId::new();
        self.notes.lock().unwrap().push((id, title.to_owned()));
        id
    }

    fn calls(&self) -> Vec<&'static str> {
        self.calls.lock().unwrap().clone()
    }
}

impl OrganisationRepository for FakeOrganisation {
    fn tags(&self) -> AppResult<Vec<Tag>> {
        self.calls.lock().unwrap().push("tags");
        Ok(self.tags.lock().unwrap().iter().map(|(tag, _)| tag.clone()).collect())
    }

    fn ensure_tag(&self, name: &LabelName, _now: Timestamp) -> AppResult<Tag> {
        self.calls.lock().unwrap().push("ensure_tag");
        let mut tags = self.tags.lock().unwrap();
        if let Some((existing, _)) = tags.iter().find(|(_, key)| key == name.folded()) {
            return Ok(existing.clone());
        }
        let tag = Tag {
            id: TagId::new(),
            name: name.display().to_owned(),
            usage_count: 0,
        };
        tags.push((tag.clone(), name.folded().to_owned()));
        Ok(tag)
    }

    fn delete_tag(&self, id: TagId) -> AppResult<()> {
        self.calls.lock().unwrap().push("delete_tag");
        let mut tags = self.tags.lock().unwrap();
        let before = tags.len();
        tags.retain(|(tag, _)| tag.id != id);
        if tags.len() == before {
            return Err(not_found("tag", id.to_string()));
        }
        self.note_tags.lock().unwrap().retain(|(_, tag)| *tag != id);
        Ok(())
    }

    fn tags_of_note(&self, note_id: NoteId) -> AppResult<Vec<Tag>> {
        self.calls.lock().unwrap().push("tags_of_note");
        let links = self.note_tags.lock().unwrap();
        Ok(self
            .tags
            .lock()
            .unwrap()
            .iter()
            .map(|(tag, _)| tag)
            .filter(|tag| links.iter().any(|(note, id)| *note == note_id && *id == tag.id))
            .cloned()
            .collect())
    }

    fn set_note_tags(&self, note_id: NoteId, tags: &[TagId], _now: Timestamp) -> AppResult<()> {
        self.calls.lock().unwrap().push("set_note_tags");
        let known = self.tags.lock().unwrap();
        if let Some(missing) = tags
            .iter()
            .find(|id| !known.iter().any(|(tag, _)| tag.id == **id))
        {
            return Err(not_found("tag", missing.to_string()));
        }
        drop(known);
        let mut links = self.note_tags.lock().unwrap();
        links.retain(|(note, _)| *note != note_id);
        links.extend(tags.iter().map(|tag| (note_id, *tag)));
        Ok(())
    }

    fn folders(&self) -> AppResult<Vec<Folder>> {
        self.calls.lock().unwrap().push("folders");
        Ok(self.folders.lock().unwrap().clone())
    }

    fn create_folder(&self, name: &LabelName, _now: Timestamp) -> AppResult<Folder> {
        self.calls.lock().unwrap().push("create_folder");
        let folder = Folder {
            id: FolderId::new(),
            name: name.display().to_owned(),
            note_count: 0,
        };
        self.folders.lock().unwrap().push(folder.clone());
        Ok(folder)
    }

    fn delete_folder(&self, id: FolderId) -> AppResult<()> {
        self.calls.lock().unwrap().push("delete_folder");
        let mut folders = self.folders.lock().unwrap();
        let before = folders.len();
        folders.retain(|folder| folder.id != id);
        if folders.len() == before {
            return Err(not_found("folder", id.to_string()));
        }
        self.note_folders.lock().unwrap().retain(|(_, folder)| *folder != id);
        Ok(())
    }

    fn folders_of_note(&self, note_id: NoteId) -> AppResult<Vec<Folder>> {
        self.calls.lock().unwrap().push("folders_of_note");
        let links = self.note_folders.lock().unwrap();
        Ok(self
            .folders
            .lock()
            .unwrap()
            .iter()
            .filter(|folder| links.iter().any(|(note, id)| *note == note_id && *id == folder.id))
            .cloned()
            .collect())
    }

    fn set_note_folders(&self, note_id: NoteId, folders: &[FolderId], _now: Timestamp) -> AppResult<()> {
        self.calls.lock().unwrap().push("set_note_folders");
        let known = self.folders.lock().unwrap();
        if let Some(missing) = folders
            .iter()
            .find(|id| !known.iter().any(|folder| folder.id == **id))
        {
            return Err(not_found("folder", missing.to_string()));
        }
        drop(known);
        let mut links = self.note_folders.lock().unwrap();
        links.retain(|(note, _)| *note != note_id);
        links.extend(folders.iter().map(|folder| (note_id, *folder)));
        Ok(())
    }
}

fn fixture() -> (OrganisationUseCases<FakeOrganisation, FixedClock>, Arc<FakeOrganisation>) {
    let repository = Arc::new(FakeOrganisation::default());
    let clock = Arc::new(FixedClock::new(Timestamp::from_millis(1_000)));
    (OrganisationUseCases::new(Arc::clone(&repository), clock), repository)
}

#[test]
fn setting_the_tags_of_a_note_replaces_rather_than_adds() {
    let (organisation, repository) = fixture();
    let note = repository.add_note("Заметка");
    let work = organisation.ensure_tag("работа").expect("creates");
    let home = organisation.ensure_tag("дом").expect("creates");

    organisation
        .set_note_tags(&note.to_string(), &[work.id.to_string()])
        .expect("sets");
    let remaining = organisation
        .set_note_tags(&note.to_string(), &[home.id.to_string()])
        .expect("replaces");

    assert_eq!(
        remaining,
        vec![home],
        "the list arrives whole, so what is missing from it is meant to go"
    );
}

#[test]
fn setting_an_empty_list_of_tags_takes_them_all_off() {
    let (organisation, repository) = fixture();
    let note = repository.add_note("Заметка");
    let work = organisation.ensure_tag("работа").expect("creates");
    organisation
        .set_note_tags(&note.to_string(), &[work.id.to_string()])
        .expect("sets");

    let remaining = organisation
        .set_note_tags(&note.to_string(), &[])
        .expect("clears");

    assert!(remaining.is_empty());
}

#[test]
fn setting_the_folders_of_a_note_replaces_rather_than_adds() {
    let (organisation, repository) = fixture();
    let note = repository.add_note("Заметка");
    let projects = organisation.create_folder("Проекты").expect("creates");
    let archive = organisation.create_folder("Архив").expect("creates");

    organisation
        .set_note_folders(&note.to_string(), &[projects.id.to_string()])
        .expect("files");
    let remaining = organisation
        .set_note_folders(&note.to_string(), &[archive.id.to_string()])
        .expect("refiles");

    assert_eq!(remaining, vec![archive]);
}

#[test]
fn a_tag_typed_in_another_case_is_the_same_tag() {
    let (organisation, _repository) = fixture();

    let first = organisation.ensure_tag("Работа").expect("creates");
    let second = organisation.ensure_tag("работа").expect("finds");

    assert_eq!(
        first.id, second.id,
        "one tag, not two that look identical in every list the user sees"
    );
    assert_eq!(organisation.tags().expect("reads").len(), 1);
}

#[test]
fn a_tag_typed_with_stray_spaces_is_the_same_tag() {
    let (organisation, _repository) = fixture();

    let first = organisation.ensure_tag("работа").expect("creates");
    let second = organisation.ensure_tag("  работа  ").expect("finds");

    assert_eq!(first.id, second.id);
}

#[test]
fn deleting_a_tag_takes_the_label_off_the_note_but_not_the_note() {
    let (organisation, repository) = fixture();
    let note = repository.add_note("Заметка");
    let work = organisation.ensure_tag("работа").expect("creates");
    organisation
        .set_note_tags(&note.to_string(), &[work.id.to_string()])
        .expect("sets");
    let notes_before = repository.notes.lock().unwrap().clone();

    organisation
        .delete_tag(&work.id.to_string())
        .expect("deletes");

    assert!(organisation.tags().expect("reads").is_empty());
    assert!(organisation
        .tags_of_note(&note.to_string())
        .expect("reads")
        .is_empty());
    assert_eq!(
        *repository.notes.lock().unwrap(),
        notes_before,
        "a label is a label; removing it must not remove what wore it"
    );
}

#[test]
fn deleting_a_folder_leaves_the_notes_that_were_in_it() {
    let (organisation, repository) = fixture();
    let note = repository.add_note("Заметка");
    let projects = organisation.create_folder("Проекты").expect("creates");
    organisation
        .set_note_folders(&note.to_string(), &[projects.id.to_string()])
        .expect("files");
    let notes_before = repository.notes.lock().unwrap().clone();

    organisation
        .delete_folder(&projects.id.to_string())
        .expect("deletes");

    assert!(organisation.folders().expect("reads").is_empty());
    assert!(organisation
        .folders_of_note(&note.to_string())
        .expect("reads")
        .is_empty());
    assert_eq!(
        *repository.notes.lock().unwrap(),
        notes_before,
        "emptying a drawer is not the same as throwing away what was in it"
    );
}

#[test]
fn a_tag_id_that_is_not_an_identifier_never_reaches_the_repository() {
    let (organisation, repository) = fixture();

    let error = organisation
        .delete_tag("tag-1")
        .expect_err("a plain word is not an id");

    assert_eq!(error.code(), "validation_invalid");
    assert!(
        repository.calls().is_empty(),
        "malformed input is refused before anything can be written"
    );
}

#[test]
fn a_note_id_that_is_not_an_identifier_never_reaches_the_repository() {
    let (organisation, repository) = fixture();

    for error in [
        organisation.tags_of_note("note-1").expect_err("must refuse"),
        organisation.folders_of_note("note-1").expect_err("must refuse"),
        organisation.set_note_tags("note-1", &[]).expect_err("must refuse"),
        organisation.set_note_folders("note-1", &[]).expect_err("must refuse"),
    ] {
        assert_eq!(error.code(), "validation_invalid");
    }
    assert!(repository.calls().is_empty());
}

#[test]
fn one_malformed_tag_id_leaves_the_whole_set_as_it_was() {
    let (organisation, repository) = fixture();
    let note = repository.add_note("Заметка");
    let work = organisation.ensure_tag("работа").expect("creates");
    organisation
        .set_note_tags(&note.to_string(), &[work.id.to_string()])
        .expect("sets");
    repository.calls.lock().unwrap().clear();

    let error = organisation
        .set_note_tags(
            &note.to_string(),
            &[work.id.to_string(), "not-a-tag".to_owned()],
        )
        .expect_err("must refuse");

    assert_eq!(error.code(), "validation_invalid");
    assert!(
        !repository.calls().contains(&"set_note_tags"),
        "a set that is only half understood must not be written at all"
    );
    assert_eq!(
        organisation.tags_of_note(&note.to_string()).expect("reads"),
        vec![work]
    );
}

#[test]
fn one_malformed_folder_id_leaves_the_whole_set_as_it_was() {
    let (organisation, repository) = fixture();
    let note = repository.add_note("Заметка");

    let error = organisation
        .set_note_folders(&note.to_string(), &["not-a-folder".to_owned()])
        .expect_err("must refuse");

    assert_eq!(error.code(), "validation_invalid");
    assert!(!repository.calls().contains(&"set_note_folders"));
}

#[test]
fn deleting_a_tag_that_is_not_there_is_reported_rather_than_passed_over() {
    let (organisation, _repository) = fixture();
    let absent = TagId::new();

    let error = organisation
        .delete_tag(&absent.to_string())
        .expect_err("nothing to delete");

    assert_eq!(error.code(), "not_found");
    assert!(
        error.to_string().contains(&absent.to_string()),
        "the error names the id that was missed"
    );
}

#[test]
fn deleting_a_folder_that_is_not_there_is_reported_rather_than_passed_over() {
    let (organisation, _repository) = fixture();
    let absent = FolderId::new();

    let error = organisation
        .delete_folder(&absent.to_string())
        .expect_err("nothing to delete");

    assert_eq!(error.code(), "not_found");
    assert!(error.to_string().contains(&absent.to_string()));
}

#[test]
fn deleting_the_same_tag_twice_succeeds_only_once() {
    let (organisation, _repository) = fixture();
    let work = organisation.ensure_tag("работа").expect("creates");

    organisation
        .delete_tag(&work.id.to_string())
        .expect("deletes");
    let error = organisation
        .delete_tag(&work.id.to_string())
        .expect_err("already gone");

    assert_eq!(error.code(), "not_found");
}

#[test]
fn a_tag_that_does_not_exist_leaves_the_whole_set_as_it_was() {
    let (organisation, repository) = fixture();
    let note = repository.add_note("Заметка");
    let work = organisation.ensure_tag("работа").expect("creates");
    organisation
        .set_note_tags(&note.to_string(), &[work.id.to_string()])
        .expect("sets");
    let absent = TagId::new();

    let error = organisation
        .set_note_tags(
            &note.to_string(),
            &[work.id.to_string(), absent.to_string()],
        )
        .expect_err("must refuse");

    assert_eq!(error.code(), "not_found");
    assert!(
        error.to_string().contains(&absent.to_string()),
        "the error names the tag that is missing, not the set"
    );
    assert_eq!(
        organisation.tags_of_note(&note.to_string()).expect("reads"),
        vec![work],
        "a set that is only half known must not be written at all"
    );
}

#[test]
fn a_folder_that_does_not_exist_leaves_the_whole_set_as_it_was() {
    let (organisation, repository) = fixture();
    let note = repository.add_note("Заметка");
    let projects = organisation.create_folder("Проекты").expect("creates");
    organisation
        .set_note_folders(&note.to_string(), &[projects.id.to_string()])
        .expect("files");
    let absent = FolderId::new();

    let error = organisation
        .set_note_folders(&note.to_string(), &[absent.to_string()])
        .expect_err("must refuse");

    assert_eq!(error.code(), "not_found");
    assert!(error.to_string().contains(&absent.to_string()));
    assert_eq!(
        organisation
            .folders_of_note(&note.to_string())
            .expect("reads"),
        vec![projects]
    );
}

#[test]
fn a_folder_without_a_name_is_refused() {
    let (organisation, _repository) = fixture();

    let error = organisation.create_folder("   ").expect_err("must refuse");

    assert_eq!(error.code(), "validation_required");
    assert!(organisation.folders().expect("reads").is_empty());
}

#[test]
fn a_tag_without_a_name_is_refused() {
    let (organisation, _repository) = fixture();

    let error = organisation.ensure_tag("").expect_err("must refuse");

    assert_eq!(error.code(), "validation_required");
    assert!(organisation.tags().expect("reads").is_empty());
}
