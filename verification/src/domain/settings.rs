//! Small pieces of state that belong to the app rather than to a note.
//!
//! Anything stored here survives a backup and a restore, which is the reason
//! it lives in the database rather than in the WebView's local storage: the
//! icon a person chose is part of how they set the app up.

use vstd::prelude::*;

use crate::error::AppResult;

verus! {

/// Where settings are kept, as text under a key. Storage decides what each
/// call answers.
pub trait SettingsRepository {
    fn read(&self, key: &str) -> AppResult<Option<String>>;

    fn write(&self, key: &str, value: &str) -> AppResult<()>;
}

} // verus!
