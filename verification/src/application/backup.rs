//! What a backup or a restore comes to, in terms the user can be told.
//!
//! Writing the snapshot, asking the picker and restoring the file are the
//! platform's work; what is decided between them is here.

use vstd::prelude::*;

use crate::domain::backup::{BackupContents, BackupRecord};
use crate::domain::clock::Timestamp;
use crate::platform::PickedDocument;
use crate::text::owned;

verus! {

/// What happened, in terms the user can be told.
#[derive(Clone, Debug, PartialEq, Eq)]
pub struct BackupOutcome {
    /// False when the user backed out of the picker. Not an error.
    pub completed: bool,
    /// The name the file ended up with, when there is one.
    pub file_name: Option<String>,
    pub note_count: i64,
    pub reminder_count: i64,
    pub size_bytes: u64,
}

impl BackupOutcome {
    /// The outcome of backing out of the picker: nothing happened.
    pub fn cancelled() -> (o: BackupOutcome)
        ensures
            !o.completed,
            o.file_name is None,
            o.note_count == 0,
            o.reminder_count == 0,
            o.size_bytes == 0,
    {
        BackupOutcome {
            completed: false,
            file_name: None,
            note_count: 0,
            reminder_count: 0,
            size_bytes: 0,
        }
    }
}

pub open spec fn opt_view(o: Option<String>) -> Option<Seq<char>> {
    match o {
        Some(s) => Some(s@),
        None => None,
    }
}

/// After an export: the outcome to report, and the record to keep when the
/// user saved the file — under the name the picker reports, or the one it was
/// offered under.
pub fn export_outcome(
    picked: &PickedDocument,
    offered_name: &str,
    contents: &BackupContents,
    now: Timestamp,
) -> (r: (BackupOutcome, Option<BackupRecord>))
    ensures
        !picked.completed ==> (!r.0.completed && r.0.file_name is None && r.0.note_count == 0
            && r.0.reminder_count == 0 && r.0.size_bytes == 0 && r.1 is None),
        picked.completed ==> ({
            let name = match opt_view(picked.display_name) {
                Some(n) => n,
                None => offered_name@,
            };
            &&& r.0.completed
            &&& opt_view(r.0.file_name) == Some(name)
            &&& r.0.note_count == contents.note_count
            &&& r.0.reminder_count == contents.reminder_count
            &&& r.0.size_bytes == contents.size_bytes
            &&& r.1 matches Some(record) && record.location@ == (match opt_view(picked.display_name) {
                Some(n) => n,
                None => Seq::empty(),
            }) && record.file_name@ == name && record.size_bytes == contents.size_bytes
                && record.sha256@ == contents.sha256@ && record.note_count == contents.note_count
                && record.created_at == now
        }),
{
    if !picked.completed {
        return (BackupOutcome::cancelled(), None);
    }
    let ghost expected = match opt_view(picked.display_name) {
        Some(n) => n,
        None => offered_name@,
    };
    let name = match &picked.display_name {
        Some(n) => owned(n.as_str()),
        None => owned(offered_name),
    };
    assert(name@ == expected);
    let location = match &picked.display_name {
        Some(n) => owned(n.as_str()),
        None => {
            let empty = owned("");
            proof {
                reveal_strlit("");
            }
            empty
        },
    };
    let record = BackupRecord {
        location,
        file_name: owned(name.as_str()),
        size_bytes: contents.size_bytes,
        sha256: owned(contents.sha256.as_str()),
        note_count: contents.note_count,
        created_at: now,
    };
    (
        BackupOutcome {
            completed: true,
            file_name: Some(name),
            note_count: contents.note_count,
            reminder_count: contents.reminder_count,
            size_bytes: contents.size_bytes,
        },
        Some(record),
    )
}

/// After a restore: the outcome to report for the file that was put back.
pub fn import_outcome(picked: &PickedDocument, contents: &BackupContents) -> (o: BackupOutcome)
    ensures
        o.completed,
        opt_view(o.file_name) == opt_view(picked.display_name),
        o.note_count == contents.note_count,
        o.reminder_count == contents.reminder_count,
        o.size_bytes == contents.size_bytes,
{
    let file_name = match &picked.display_name {
        Some(n) => Some(owned(n.as_str())),
        None => None,
    };
    BackupOutcome {
        completed: true,
        file_name,
        note_count: contents.note_count,
        reminder_count: contents.reminder_count,
        size_bytes: contents.size_bytes,
    }
}

} // verus!
