//! The checklist on a note.

use std::sync::Arc;

use vstd::prelude::*;

use crate::domain::clock::Clock;
use crate::domain::ids::{uuid_parse, NoteId, TaskId};
use crate::domain::tasks::{Task, TaskProgress, TaskRepository};
use crate::error::{AppError, AppResult, ValidationError};

verus! {

pub struct TaskUseCases<T: TaskRepository + ?Sized, C: Clock + ?Sized> {
    tasks: Arc<T>,
    clock: Arc<C>,
}

impl<T: TaskRepository + ?Sized, C: Clock + ?Sized> TaskUseCases<T, C> {
    /// The storage and the clock it was given.
    pub closed spec fn parts(&self) -> (Arc<T>, Arc<C>) {
        (self.tasks, self.clock)
    }

    pub fn new(tasks: Arc<T>, clock: Arc<C>) -> (u: TaskUseCases<T, C>)
        ensures
            u.parts() == (tasks, clock),
    {
        TaskUseCases { tasks, clock }
    }

    /// # Errors
    /// An invalid `note_id` for a malformed identifier, else what storage answered.
    pub fn list_for_note(&self, note_id: &str) -> (r: AppResult<Vec<Task>>)
        ensures
            uuid_parse(note_id@) is None ==> r == Err::<Vec<Task>, AppError>(
                AppError::Validation(ValidationError::Invalid { field: "note_id" }),
            ),
    {
        let id = NoteId::parse(note_id)?;
        self.tasks.list_for_note(id)
    }

    /// Adds a task to a note at the clock's instant; the title is passed on
    /// untouched, for storage to validate.
    ///
    /// # Errors
    /// An invalid `note_id` for a malformed identifier, else what storage answered.
    pub fn create_for_note(&self, note_id: &str, title: &str) -> (r: AppResult<Task>)
        ensures
            uuid_parse(note_id@) is None ==> r == Err::<Task, AppError>(
                AppError::Validation(ValidationError::Invalid { field: "note_id" }),
            ),
    {
        let id = NoteId::parse(note_id)?;
        self.tasks.create_for_note(id, title, self.clock.now())
    }

    /// # Errors
    /// An invalid `task_id` for a malformed identifier, else what storage answered.
    pub fn set_completed(&self, id: &str, completed: bool) -> (r: AppResult<Task>)
        ensures
            uuid_parse(id@) is None ==> r == Err::<Task, AppError>(
                AppError::Validation(ValidationError::Invalid { field: "task_id" }),
            ),
    {
        let id = TaskId::parse(id)?;
        self.tasks.set_completed(id, completed, self.clock.now())
    }

    /// # Errors
    /// An invalid `task_id` for a malformed identifier, else what storage answered.
    pub fn delete(&self, id: &str) -> (r: AppResult<()>)
        ensures
            uuid_parse(id@) is None ==> r == Err::<(), AppError>(
                AppError::Validation(ValidationError::Invalid { field: "task_id" }),
            ),
    {
        let id = TaskId::parse(id)?;
        self.tasks.delete(id, self.clock.now())
    }

    /// # Errors
    /// An invalid `note_id` for a malformed identifier, else what storage answered.
    pub fn progress_for_note(&self, note_id: &str) -> (r: AppResult<TaskProgress>)
        ensures
            uuid_parse(note_id@) is None ==> r == Err::<TaskProgress, AppError>(
                AppError::Validation(ValidationError::Invalid { field: "note_id" }),
            ),
    {
        let id = NoteId::parse(note_id)?;
        self.tasks.progress_for_note(id)
    }
}

} // verus!
