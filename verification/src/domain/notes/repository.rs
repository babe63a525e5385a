//! What a query over notes asks for: which slice of the library, in which
//! order, and which page of it.

use vstd::prelude::*;

use crate::domain::clock::Timestamp;
use crate::domain::ids::{FolderId, NoteId, TagId};
use crate::domain::notes::{Note, NoteDraft, NotePatch, NoteType};
use crate::error::AppResult;

verus! {

/// Which slice of the library a query addresses. These are mutually exclusive
/// by design: a note in the trash never shows up in the archive list.
#[derive(Clone, Copy, PartialEq, Eq, Debug, Default, Structural)]
pub enum NoteScope {
    /// Not deleted, not archived. The default list.
    #[default]
    Active,
    Archived,
    Trash,
    Favorites,
    /// Everything except the trash.
    AllExceptTrash,
}

#[derive(Clone, Debug, Default)]
pub struct NoteFilter {
    pub scope: NoteScope,
    pub folder_id: Option<FolderId>,
    pub tag_id: Option<TagId>,
    pub note_type: Option<NoteType>,
    pub pinned_only: bool,
    /// Inclusive lower bound on `updated_at`.
    pub updated_after: Option<Timestamp>,
    /// Inclusive upper bound on `updated_at`.
    pub updated_before: Option<Timestamp>,
}

#[derive(Clone, Copy, PartialEq, Eq, Debug, Default, Structural)]
pub enum NoteSort {
    /// Pinned first, then most recently updated. What the main screen uses.
    #[default]
    PinnedThenUpdated,
    UpdatedDesc,
    UpdatedAsc,
    CreatedDesc,
    CreatedAsc,
    TitleAsc,
    TitleDesc,
    /// The order the user arranged by hand.
    Manual,
    /// Soonest upcoming reminder first; notes without one sort last.
    NextReminder,
}

/// Ceiling on how much a single command may return, so a bad caller cannot
/// pull ten thousand notes through JSON at once.
pub const MAX_PAGE_LIMIT: u32 = 200;

/// The page size used when the caller names none.
pub const DEFAULT_PAGE_LIMIT: u32 = 50;

/// Offset pagination: the UI only ever walks forward through a virtualised
/// list a page at a time.
#[derive(Clone, Copy, PartialEq, Eq, Debug, Structural)]
pub struct PageRequest {
    pub limit: u32,
    pub offset: u32,
}

/// A limit held between one and the ceiling.
pub open spec fn clamped_limit(limit: u32) -> u32 {
    if limit < 1 {
        1
    } else if limit > MAX_PAGE_LIMIT {
        MAX_PAGE_LIMIT
    } else {
        limit
    }
}

impl PageRequest {
    pub const MAX_LIMIT: u32 = 200;

    pub fn new(limit: u32, offset: u32) -> (p: PageRequest)
        ensures
            p.limit == clamped_limit(limit),
            p.offset == offset,
    {
        let limit = if limit < 1 {
            1
        } else if limit > MAX_PAGE_LIMIT {
            MAX_PAGE_LIMIT
        } else {
            limit
        };
        PageRequest { limit, offset }
    }
}

impl Default for PageRequest {
    fn default() -> (p: PageRequest)
        ensures
            p.limit == DEFAULT_PAGE_LIMIT,
            p.offset == 0,
    {
        PageRequest::new(DEFAULT_PAGE_LIMIT, 0)
    }
}

#[derive(Clone, Debug)]
pub struct Page<T> {
    pub items: Vec<T>,
    /// Total matching rows, so the UI can size the scrollbar without fetching.
    pub total: u32,
    pub limit: u32,
    pub offset: u32,
}

impl<T> Page<T> {
    /// Whether rows remain past this page.
    pub fn has_more(&self) -> (b: bool)
        ensures
            b == (if self.offset + self.limit > u32::MAX {
                u32::MAX
            } else {
                (self.offset + self.limit) as u32
            } < self.total),
    {
        self.offset.saturating_add(self.limit) < self.total
    }
}

/// Where notes are kept. Storage decides what each call answers.
pub trait NoteRepository {
    /// Inserts a new note and returns it as stored.
    fn create(&self, draft: NoteDraft) -> AppResult<Note>;

    /// A note whether or not it is in the trash.
    fn find(&self, id: NoteId) -> AppResult<Option<Note>>;

    /// Applies a partial update, bumping `revision` and `updated_at`.
    fn update(&self, id: NoteId, patch: NotePatch) -> AppResult<Note>;

    /// Moves a note to the trash, reversibly until the trash is emptied.
    fn soft_delete(&self, id: NoteId) -> AppResult<()>;

    /// Brings a note back from the trash.
    fn restore(&self, id: NoteId) -> AppResult<Note>;

    /// Deletes a note and its blocks for good.
    fn purge(&self, id: NoteId) -> AppResult<()>;

    /// Empties the trash of everything deleted before `older_than`, answering
    /// how many notes went.
    fn purge_trash(&self, older_than: Option<Timestamp>) -> AppResult<u32>;

    /// Notes matching `filter`, ordered by `sort`.
    fn list(&self, filter: &NoteFilter, sort: NoteSort, page: PageRequest) -> AppResult<Page<Note>>;

    /// Copies a note, with its blocks and tags, as a new untitled note.
    fn duplicate(&self, id: NoteId) -> AppResult<Note>;

    /// How many notes the filter covers.
    fn count(&self, filter: &NoteFilter) -> AppResult<u32>;
}

} // verus!
