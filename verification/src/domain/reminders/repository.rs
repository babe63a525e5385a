//! Persistence boundary for reminders.
//!
//! Saving and deleting arm and disarm the platform's alarms from inside the
//! write, so that a row and its alarm never disagree. The work to do at that
//! moment is handed in as a small object the store calls back.

use vstd::prelude::*;

use crate::domain::clock::Timestamp;
use crate::domain::ids::NoteId;
use crate::error::AppResult;

use super::{ReminderDraft, ScheduledReminder};

verus! {

/// Called by the store for the reminder it is about to keep, with the one it
/// replaces, if any; answers whether the platform gave an exact alarm.
pub trait ArmAlarm {
    fn arm(&mut self, previous: Option<&ScheduledReminder>, next: &ScheduledReminder) -> AppResult<bool>;
}

/// Called by the store for the reminder it is about to delete.
pub trait DisarmAlarm {
    fn disarm(&mut self, current: &ScheduledReminder) -> AppResult<()>;
}

/// Where reminders are kept. Storage decides what each call answers.
pub trait ReminderRepository {
    /// The note's one active reminder still ahead of `now`.
    fn find_active_for_note(&self, note_id: NoteId, now: Timestamp) -> AppResult<Option<ScheduledReminder>>;

    /// Creates or replaces the note's one active reminder, calling `arm` before
    /// the write is kept.
    fn upsert_for_note<H: ArmAlarm>(&self, draft: ReminderDraft, arm: &mut H) -> AppResult<ScheduledReminder>;

    /// Deletes the note's active reminder, if it has one, calling `disarm`
    /// before the delete is kept.
    fn delete_for_note<H: DisarmAlarm>(&self, note_id: NoteId, disarm: &mut H) -> AppResult<Option<ScheduledReminder>>;

    fn default_sound_id(&self) -> AppResult<Option<String>>;

    /// The stored preset times, still in the form they were written in;
    /// `None` when the user never edited the set.
    fn time_presets(&self) -> AppResult<Option<String>>;

    fn set_time_presets(&self, raw: &str) -> AppResult<()>;
}

} // verus!
