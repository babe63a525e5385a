//! Folders and tags: the two ways a note can be put somewhere.
//!
//! Both are flat here. Filtering the library by either is the note
//! repository's job; this module is about the labels themselves.

use vstd::prelude::*;

use crate::domain::clock::Timestamp;
use crate::domain::ids::{FolderId, NoteId, TagId};
use crate::error::{AppError, AppResult, ValidationError};
use crate::text::{chars_of, lowercase, lowercase_chars, string_of, trim, trim_chars};

verus! {

/// Longest a label may be. Long enough for a sentence fragment, short enough to
/// stay readable as a chip.
pub const MAX_LABEL: usize = 64;

#[derive(Clone, Debug, PartialEq, Eq)]
pub struct Tag {
    pub id: TagId,
    pub name: String,
    /// How many notes wear it, for showing the useful ones first.
    pub usage_count: i64,
}

#[derive(Clone, Debug, PartialEq, Eq)]
pub struct Folder {
    pub id: FolderId,
    pub name: String,
    pub note_count: i64,
}

/// A label the user typed, trimmed and accepted, alongside the key it is
/// matched by: its Unicode lowercase, so that `Работа` and `работа` are one
/// label rather than two that look identical in every list.
#[derive(Clone, Debug, PartialEq, Eq)]
pub struct LabelName {
    display: String,
    folded: String,
}

impl LabelName {
    /// What the label is shown as.
    pub closed spec fn shown(self) -> Seq<char> {
        self.display@
    }

    /// What the label is matched by.
    pub closed spec fn key(self) -> Seq<char> {
        self.folded@
    }

    /// Trims a label and refuses the ones that cannot be shown.
    ///
    /// # Errors
    /// A required `field` for an empty label, and a too-long one past
    /// [`MAX_LABEL`] characters.
    pub fn new(raw: &str, field: &'static str) -> (r: AppResult<LabelName>)
        ensures
            trim(raw@).len() == 0 ==> r == Err::<LabelName, AppError>(
                AppError::Validation(ValidationError::Required { field }),
            ),
            trim(raw@).len() > MAX_LABEL ==> r == Err::<LabelName, AppError>(
                AppError::Validation(ValidationError::TooLong { field, max: MAX_LABEL }),
            ),
            0 < trim(raw@).len() <= MAX_LABEL ==> (r matches Ok(label) && label.shown() == trim(
                raw@,
            ) && label.key() == lowercase(trim(raw@))),
    {
        let chars = chars_of(raw);
        let trimmed = trim_chars(&chars);
        if trimmed.len() == 0 {
            return Err(AppError::Validation(ValidationError::Required { field }));
        }
        if trimmed.len() > MAX_LABEL {
            return Err(AppError::Validation(ValidationError::TooLong { field, max: MAX_LABEL }));
        }
        let folded = lowercase_chars(&trimmed);
        Ok(LabelName { display: string_of(&trimmed), folded: string_of(&folded) })
    }

    /// The label as it is stored and shown, in the case it was typed in.
    pub fn display(&self) -> (s: &str)
        ensures
            s@ == self.shown(),
    {
        self.display.as_str()
    }

    /// The key two labels are compared by.
    pub fn folded(&self) -> (s: &str)
        ensures
            s@ == self.key(),
    {
        self.folded.as_str()
    }
}

/// Where tags and folders are kept. Storage decides what each call answers.
pub trait OrganisationRepository {
    /// Every tag, most used first.
    fn tags(&self) -> AppResult<Vec<Tag>>;

    /// Finds a tag by [`LabelName::folded`] or creates it under
    /// [`LabelName::display`].
    fn ensure_tag(&self, name: &LabelName, now: Timestamp) -> AppResult<Tag>;

    fn delete_tag(&self, id: TagId) -> AppResult<()>;

    fn tags_of_note(&self, note_id: NoteId) -> AppResult<Vec<Tag>>;

    /// Replaces the whole set of tags on a note; an id repeated means one link.
    fn set_note_tags(&self, note_id: NoteId, tags: &[TagId], now: Timestamp) -> AppResult<()>;

    /// Every folder, by name.
    fn folders(&self) -> AppResult<Vec<Folder>>;

    /// Creates a folder under the given name; two folders may share one.
    fn create_folder(&self, name: &LabelName, now: Timestamp) -> AppResult<Folder>;

    fn delete_folder(&self, id: FolderId) -> AppResult<()>;

    fn folders_of_note(&self, note_id: NoteId) -> AppResult<Vec<Folder>>;

    /// Replaces the whole set of folders a note is filed under.
    fn set_note_folders(&self, note_id: NoteId, folders: &[FolderId], now: Timestamp) -> AppResult<()>;
}

} // verus!
