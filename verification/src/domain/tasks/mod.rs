//! Things to do, attached to a note.
//!
//! A checklist item in the editor is formatting; a task is a row. The
//! difference is what you can do afterwards — count them, filter by them, tell
//! at a glance how much of a note is still open. Only what the interface can
//! show is modelled, so nothing here is a promise the app does not keep.

use vstd::prelude::*;

use crate::domain::clock::Timestamp;
use crate::domain::ids::{NoteId, TaskId};
use crate::error::{AppError, AppResult, ValidationError};
use crate::text::{chars_of, eq_str, string_of, trim, trim_chars};

verus! {

/// Longest a task title may be, matching what a single line can show.
pub const MAX_TITLE: usize = 200;

/// The two states the interface offers.
///
/// The column allows six; the others are written by nothing and read as open,
/// so a database from a later build still opens in this one.
#[derive(Clone, Copy, PartialEq, Eq, Debug, Structural)]
pub enum TaskStatus {
    Open,
    Completed,
}

pub open spec fn stored_text(status: TaskStatus) -> Seq<char> {
    match status {
        TaskStatus::Open => "inbox"@,
        TaskStatus::Completed => "completed"@,
    }
}

impl TaskStatus {
    pub fn stored(self) -> (s: &'static str)
        ensures
            s@ == stored_text(self),
    {
        match self {
            TaskStatus::Open => "inbox",
            TaskStatus::Completed => "completed",
        }
    }

    /// Reads a stored status: `completed` is completed, and everything else
    /// is open.
    pub fn from_stored(raw: &str) -> (s: TaskStatus)
        ensures
            s == (if raw@ == "completed"@ {
                TaskStatus::Completed
            } else {
                TaskStatus::Open
            }),
    {
        let chars = chars_of(raw);
        if eq_str(&chars, "completed") {
            TaskStatus::Completed
        } else {
            TaskStatus::Open
        }
    }

    pub fn is_completed(self) -> (b: bool)
        ensures
            b == (self == TaskStatus::Completed),
    {
        match self {
            TaskStatus::Completed => true,
            TaskStatus::Open => false,
        }
    }
}

/// Each status survives a round trip through its stored form.
pub proof fn lemma_status_round_trip(status: TaskStatus)
    ensures
        (if stored_text(status) == "completed"@ {
            TaskStatus::Completed
        } else {
            TaskStatus::Open
        }) == status,
{
    reveal_strlit("inbox");
    reveal_strlit("completed");
    assert("inbox"@.len() == 5);
    assert("completed"@.len() == 9);
}

#[derive(Clone, Debug, PartialEq, Eq)]
pub struct Task {
    pub id: TaskId,
    pub note_id: Option<NoteId>,
    pub title: String,
    pub status: TaskStatus,
    /// Order the user arranged by hand.
    pub position: i64,
    pub completed_at: Option<Timestamp>,
}

/// How much of a note's checklist is done.
#[derive(Clone, Copy, PartialEq, Eq, Debug, Default, Structural)]
pub struct TaskProgress {
    pub total: i64,
    pub completed: i64,
}

/// A task title, trimmed, or why it was refused.
pub open spec fn task_title(raw: Seq<char>) -> AppResult<Seq<char>> {
    if trim(raw).len() == 0 {
        Err(AppError::Validation(ValidationError::Required { field: "title" }))
    } else if trim(raw).len() > MAX_TITLE {
        Err(AppError::Validation(ValidationError::TooLong { field: "title", max: MAX_TITLE }))
    } else {
        Ok(trim(raw))
    }
}

/// # Errors
/// A required `title` for an empty one, and a too-long `title` past
/// [`MAX_TITLE`] characters.
pub fn validate_title(raw: &str) -> (r: AppResult<String>)
    ensures
        match task_title(raw@) {
            Ok(title) => r matches Ok(s) && s@ == title,
            Err(e) => r == Err::<String, AppError>(e),
        },
{
    let chars = chars_of(raw);
    let trimmed = trim_chars(&chars);
    if trimmed.len() == 0 {
        return Err(AppError::Validation(ValidationError::Required { field: "title" }));
    }
    if trimmed.len() > MAX_TITLE {
        return Err(AppError::Validation(ValidationError::TooLong { field: "title", max: MAX_TITLE }));
    }
    Ok(string_of(&trimmed))
}

/// Where tasks are kept. Storage decides what each call answers.
pub trait TaskRepository {
    /// Every task on a note, in the order the user arranged.
    fn list_for_note(&self, note_id: NoteId) -> AppResult<Vec<Task>>;

    /// Adds a task to a note; storage validates the title.
    fn create_for_note(&self, note_id: NoteId, title: &str, now: Timestamp) -> AppResult<Task>;

    /// Ticks or unticks a task.
    fn set_completed(&self, id: TaskId, completed: bool, now: Timestamp) -> AppResult<Task>;

    fn delete(&self, id: TaskId, now: Timestamp) -> AppResult<()>;

    /// Takes the whole checklist off a note, answering how many rows went.
    fn delete_for_note(&self, note_id: NoteId, now: Timestamp) -> AppResult<u32>;

    fn progress_for_note(&self, note_id: NoteId) -> AppResult<TaskProgress>;
}

} // verus!
