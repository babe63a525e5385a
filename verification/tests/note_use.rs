use std::sync::{Arc, Mutex};

use keeps_core::application::dto::{ListNotesRequest, SearchRequest};
use keeps_core::application::use_cases::{NoteUseCases, SearchUseCases};
use keeps_core::domain::clock::Timestamp;
use keeps_core::domain::ids::NoteId;
use keeps_core::domain::notes::repository::{NoteFilter, NoteRepository, NoteScope, NoteSort, Page, PageRequest};
use keeps_core::domain::notes::{Note, NoteDraft, NotePatch, NoteType};
use keeps_core::domain::search::{SearchQuery, SearchRepository};
use keeps_core::error::{AppError, AppResult, DatabaseError};

const NOW: i64 = 1_700_000_000_000;

/// The notes, kept in memory and shared by both fakes the way one database is
/// shared by both repositories.
type Store = Arc<Mutex<Vec<Note>>>;

fn missing(id: NoteId) -> AppError {
    AppError::Database(DatabaseError::NotFound {
        entity: "note",
        id: id.to_string(),
    })
}

struct MemoryNotes {
    store: Store,
}

impl MemoryNotes {
    fn in_scope(note: &Note, filter: &NoteFilter) -> bool {
        match filter.scope {
            NoteScope::Active => note.deleted_at.is_none() && !note.is_archived,
            NoteScope::Archived => note.deleted_at.is_none() && note.is_archived,
            NoteScope::Trash => note.deleted_at.is_some(),
            NoteScope::Favorites => note.deleted_at.is_none() && note.is_favorite,
            NoteScope::AllExceptTrash => note.deleted_at.is_none(),
        }
    }
}

impl NoteRepository for MemoryNotes {
    fn create(&self, draft: NoteDraft) -> AppResult<Note> {
        let note = Note {
            id: NoteId::new(),
            note_type: draft.note_type.unwrap_or(NoteType::Text),
            title: draft.title.unwrap_or_default(),
            content_text: draft.content_text.unwrap_or_default(),
            content_json: draft.content_json,
            color: draft.color,
            background: draft.background,
            is_pinned: false,
            is_favorite: false,
            is_archived: false,
            is_readonly: false,
            position: 0,
            word_count: 0,
            char_count: 0,
            revision: 1,
            created_at: Timestamp::from_millis(NOW),
            updated_at: Timestamp::from_millis(NOW),
            deleted_at: None,
        };
        self.store.lock().unwrap().push(note.clone());
        Ok(note)
    }

    fn find(&self, id: NoteId) -> AppResult<Option<Note>> {
        Ok(self.store.lock().unwrap().iter().find(|n| n.id == id).cloned())
    }

    fn update(&self, id: NoteId, patch: NotePatch) -> AppResult<Note> {
        let mut store = self.store.lock().unwrap();
        let note = store.iter_mut().find(|n| n.id == id).ok_or_else(|| missing(id))?;
        if let Some(title) = patch.title {
            note.title = title;
        }
        Ok(note.clone())
    }

    fn soft_delete(&self, id: NoteId) -> AppResult<()> {
        let mut store = self.store.lock().unwrap();
        let note = store.iter_mut().find(|n| n.id == id).ok_or_else(|| missing(id))?;
        note.deleted_at = Some(Timestamp::from_millis(NOW));
        Ok(())
    }

    fn restore(&self, id: NoteId) -> AppResult<Note> {
        let mut store = self.store.lock().unwrap();
        let note = store.iter_mut().find(|n| n.id == id).ok_or_else(|| missing(id))?;
        note.deleted_at = None;
        Ok(note.clone())
    }

    fn purge(&self, id: NoteId) -> AppResult<()> {
        let mut store = self.store.lock().unwrap();
        let before = store.len();
        store.retain(|n| n.id != id);
        if store.len() == before {
            return Err(missing(id));
        }
        Ok(())
    }

    fn purge_trash(&self, _older_than: Option<Timestamp>) -> AppResult<u32> {
        let mut store = self.store.lock().unwrap();
        let before = store.len();
        store.retain(|n| n.deleted_at.is_none());
        Ok((before - store.len()) as u32)
    }

    fn list(&self, filter: &NoteFilter, _sort: NoteSort, page: PageRequest) -> AppResult<Page<Note>> {
        let store = self.store.lock().unwrap();
        let matching: Vec<Note> = store.iter().filter(|n| Self::in_scope(n, filter)).cloned().collect();
        Ok(Page {
            total: matching.len() as u32,
            items: matching
                .into_iter()
                .skip(page.offset as usize)
                .take(page.limit as usize)
                .collect(),
            limit: page.limit,
            offset: page.offset,
        })
    }

    fn duplicate(&self, id: NoteId) -> AppResult<Note> {
        let source = self.find(id)?.ok_or_else(|| missing(id))?;
        self.create(NoteDraft {
            content_text: Some(source.content_text),
            ..NoteDraft::default()
        })
    }

    fn count(&self, filter: &NoteFilter) -> AppResult<u32> {
        Ok(self
            .store
            .lock()
            .unwrap()
            .iter()
            .filter(|n| Self::in_scope(n, filter))
            .count() as u32)
    }
}

/// A search over the same notes: a hit is a note whose title or body holds
/// the text, and the history is newest first with each query once.
struct MemorySearch {
    store: Store,
    history: Mutex<Vec<String>>,
}

impl SearchRepository for MemorySearch {
    type Hit = NoteId;

    fn search(&self, query: &SearchQuery, page: PageRequest) -> AppResult<Page<NoteId>> {
        let hits: Vec<NoteId> = self
            .store
            .lock()
            .unwrap()
            .iter()
            .filter(|n| n.deleted_at.is_none())
            .filter(|n| n.title.contains(&query.text) || n.content_text.contains(&query.text))
            .map(|n| n.id)
            .collect();
        Ok(Page {
            total: hits.len() as u32,
            items: hits
                .into_iter()
                .skip(page.offset as usize)
                .take(page.limit as usize)
                .collect(),
            limit: page.limit,
            offset: page.offset,
        })
    }

    fn record_history(&self, text: &str, _result_count: u32) -> AppResult<()> {
        let mut history = self.history.lock().unwrap();
        history.retain(|q| q != text);
        history.insert(0, text.to_owned());
        Ok(())
    }

    fn recent_queries(&self, limit: u32) -> AppResult<Vec<String>> {
        Ok(self
            .history
            .lock()
            .unwrap()
            .iter()
            .take(limit as usize)
            .cloned()
            .collect())
    }

    fn clear_history(&self) -> AppResult<()> {
        self.history.lock().unwrap().clear();
        Ok(())
    }
}

struct Fixture {
    notes: NoteUseCases<MemoryNotes>,
    search: SearchUseCases<MemorySearch>,
}

fn fixture() -> Fixture {
    let store: Store = Arc::new(Mutex::new(Vec::new()));
    Fixture {
        notes: NoteUseCases::new(Arc::new(MemoryNotes {
            store: Arc::clone(&store),
        })),
        search: SearchUseCases::new(Arc::new(MemorySearch {
            store,
            history: Mutex::new(Vec::new()),
        })),
    }
}

#[test]
fn a_malformed_identifier_never_reaches_the_database() {
    let f = fixture();
    let error = f.notes.get("not-a-uuid").expect_err("must be rejected");
    assert_eq!(error.code(), "validation_invalid");
}

#[test]
fn the_full_note_lifecycle_works_end_to_end() {
    let f = fixture();

    let created = f
        .notes
        .create(NoteDraft {
            title: Some("Покупки".to_owned()),
            content_text: Some("молоко".to_owned()),
            ..NoteDraft::default()
        })
        .expect("creates");
    let id = created.id.to_string();

    assert!(f.notes.get(&id).expect("reads").is_some());

    f.notes.move_to_trash(&id).expect("trashes");
    assert_eq!(f.notes.count(&ListNotesRequest::default()).expect("counts"), 0);

    f.notes.restore(&id).expect("restores");
    assert_eq!(f.notes.count(&ListNotesRequest::default()).expect("counts"), 1);

    f.notes.move_to_trash(&id).expect("trashes again");
    let removed = f.notes.empty_trash().expect("empties");
    assert_eq!(removed, 1);
    assert!(f.notes.get(&id).expect("reads").is_none());
}

#[test]
fn searching_records_the_query_in_history() {
    let f = fixture();
    f.notes
        .create(NoteDraft {
            title: Some("Покупки".to_owned()),
            content_text: Some("молоко".to_owned()),
            ..NoteDraft::default()
        })
        .expect("creates");

    let page = f
        .search
        .search(&SearchRequest {
            text: "молоко".to_owned(),
            ..SearchRequest::default()
        })
        .expect("searches");

    assert_eq!(page.total, 1);
    assert_eq!(
        f.search.recent_queries(None).expect("reads"),
        vec!["молоко".to_owned()]
    );
}

#[test]
fn paging_through_results_does_not_re_record_the_query() {
    let f = fixture();
    for index in 0..5 {
        f.notes
            .create(NoteDraft {
                title: Some(format!("Заметка {index}")),
                content_text: Some("молоко".to_owned()),
                ..NoteDraft::default()
            })
            .expect("creates");
    }

    f.search
        .search(&SearchRequest {
            text: "молоко".to_owned(),
            limit: Some(2),
            ..SearchRequest::default()
        })
        .expect("first page");
    f.search
        .search(&SearchRequest {
            text: "хлеб".to_owned(),
            ..SearchRequest::default()
        })
        .expect("another query");
    f.search
        .search(&SearchRequest {
            text: "молоко".to_owned(),
            limit: Some(2),
            offset: Some(2),
            ..SearchRequest::default()
        })
        .expect("second page");

    // Had paging re-recorded it, "молоко" would have jumped back to the top.
    assert_eq!(
        f.search.recent_queries(None).expect("reads"),
        vec!["хлеб".to_owned(), "молоко".to_owned()]
    );
}

#[test]
fn a_quiet_search_leaves_no_trace() {
    let f = fixture();
    f.search
        .search_quietly(&SearchRequest {
            text: "молоко".to_owned(),
            ..SearchRequest::default()
        })
        .expect("searches");
    assert!(f.search.recent_queries(None).expect("reads").is_empty());
}

#[test]
fn a_malformed_folder_in_a_list_request_never_reaches_the_database() {
    let f = fixture();
    let error = f
        .notes
        .list(&ListNotesRequest {
            folder_id: Some("drawer".to_owned()),
            ..ListNotesRequest::default()
        })
        .expect_err("must be rejected");
    assert_eq!(error.code(), "validation_invalid");
    assert_eq!(error.to_string(), "validation: field `folder_id` has an unsupported value");
}
