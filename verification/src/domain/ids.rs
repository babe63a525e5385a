//! Typed identifiers.
//!
//! Each entity gets its own newtype so the compiler rejects passing a `TaskId`
//! where a `NoteId` belongs. New ids are UUIDv7: they sort by creation time,
//! which keeps inserts local instead of scattering them the way UUIDv4 does,
//! and gives every table a natural chronological order for free.
//!
//! An id carries the 128 bits of its UUID. Generating and parsing one is the
//! `uuid` crate's work; the text form, hyphenated lowercase hex, is written
//! here and checked against its definition.

use vstd::prelude::*;

use uuid::Uuid;

use crate::error::{invalid, AppError, AppResult};
use crate::text::string_of;

verus! {

#[verifier::external_type_specification]
#[verifier::external_body]
pub struct ExUuid(Uuid);

/// The 128 bits `Uuid::parse_str` reads a text as, or `None` when it refuses
/// the text. The accepted spellings (simple, hyphenated, braced, URN) are the
/// crate's.
pub uninterp spec fn uuid_parse(text: Seq<char>) -> Option<u128>;

/// The lengths of the spellings `Uuid::parse_str` accepts: simple (32),
/// hyphenated (36), braced (38) and URN (45). Every accepted spelling is ASCII,
/// so its length in characters is its length in bytes.
pub open spec fn uuid_length(len: nat) -> bool {
    len == 32 || len == 36 || len == 38 || len == 45
}

/// `Uuid::parse_str`, as the UUID's bits. Claimed: the bits are the name's,
/// a lowercase hyphenated spelling reads back as its bits, and a text of any
/// length but the four the parser dispatches on is refused.
#[verifier::external_body]
fn parse_uuid_bits(text: &str) -> (r: Option<u128>)
    ensures
        r == uuid_parse(text@),
        forall|bits: u128| text@ == hyphenated(bits) ==> r == Some(bits),
        r is Some ==> uuid_length(text@.len()),
{
    Uuid::parse_str(text).ok().map(|value| value.as_u128())
}

/// The bits carry version 7 in the version nibble and the RFC 4122 variant.
pub open spec fn is_v7(bits: u128) -> bool {
    (bits >> 76u128) & 15u128 == 7u128 && (bits >> 62u128) & 3u128 == 2u128
}

/// `Uuid::now_v7`, as the UUID's bits. Which bits depends on the moment it is
/// asked and on a counter kept by the process; all that is claimed is that
/// they are marked as a version 7 UUID of the RFC variant, which the crate
/// sets on every one it makes.
#[verifier::external_body]
fn fresh_v7_bits() -> (r: u128)
    ensures
        is_v7(r),
{
    Uuid::now_v7().as_u128()
}

/// `Uuid::as_u128`. A `Uuid` is opaque here, so nothing is claimed of the bits.
#[verifier::external_body]
fn uuid_bits(value: &Uuid) -> u128 {
    value.as_u128()
}

/// `Uuid::from_u128`.
#[verifier::external_body]
fn uuid_from_bits(bits: u128) -> Uuid {
    Uuid::from_u128(bits)
}

pub open spec fn pow16(n: nat) -> nat
    decreases n,
{
    if n == 0 {
        1
    } else {
        16 * pow16((n - 1) as nat)
    }
}

/// The `k`-th hex digit of the bits, counting from the least significant.
pub open spec fn nibble(bits: u128, k: nat) -> nat {
    ((bits as nat) / pow16(k)) % 16
}

pub open spec fn hex_char(d: nat) -> char {
    if d < 10 {
        ((d + 48) as u8) as char
    } else {
        ((d + 87) as u8) as char
    }
}

/// Which hex digit, counting from the most significant, stands at a position
/// of the hyphenated form.
pub open spec fn digit_at(position: int) -> int {
    if position < 8 {
        position
    } else if position < 13 {
        position - 1
    } else if position < 18 {
        position - 2
    } else if position < 23 {
        position - 3
    } else {
        position - 4
    }
}

pub open spec fn is_hyphen_position(position: int) -> bool {
    position == 8 || position == 13 || position == 18 || position == 23
}

/// The hyphenated lowercase form: `xxxxxxxx-xxxx-xxxx-xxxx-xxxxxxxxxxxx`.
pub open spec fn hyphenated(bits: u128) -> Seq<char> {
    Seq::new(
        36,
        |position: int|
            if is_hyphen_position(position) {
                '-'
            } else {
                hex_char(nibble(bits, (31 - digit_at(position)) as nat))
            },
    )
}

proof fn lemma_next_nibble(bits: u128, k: nat, rest: nat)
    requires
        rest == (bits as nat) / pow16(k),
    ensures
        rest % 16 == nibble(bits, k),
        rest / 16 == (bits as nat) / pow16(k + 1),
{
    assert(pow16(k + 1) == 16 * pow16(k));
    assert(pow16(k) > 0) by {
        lemma_pow16_positive(k);
    }
    vstd::arithmetic::div_mod::lemma_div_denominator(bits as int, pow16(k) as int, 16);
    assert(pow16(k) * 16 == 16 * pow16(k)) by (nonlinear_arith);
}

proof fn lemma_pow16_positive(k: nat)
    ensures
        pow16(k) > 0,
    decreases k,
{
    if k > 0 {
        lemma_pow16_positive((k - 1) as nat);
    }
}

fn hex_digit(d: u128) -> (c: char)
    requires
        d < 16,
    ensures
        c == hex_char(d as nat),
{
    if d < 10 {
        ((d + 48) as u8) as char
    } else {
        ((d + 87) as u8) as char
    }
}

/// The hyphenated lowercase text of 128 bits.
pub fn hyphenated_text(bits: u128) -> (s: String)
    ensures
        s@ == hyphenated(bits),
{
    let mut digits: Vec<char> = Vec::new();
    let mut rest: u128 = bits;
    let mut k: usize = 0;
    assert(pow16(0) == 1);
    while k < 32
        invariant
            k <= 32,
            digits@.len() == k,
            rest as nat == (bits as nat) / pow16(k as nat),
            forall|j: int| 0 <= j < k ==> #[trigger] digits@[j] == hex_char(nibble(bits, j as nat)),
        decreases 32 - k,
    {
        proof {
            lemma_next_nibble(bits, k as nat, rest as nat);
        }
        digits.push(hex_digit(rest % 16));
        rest = rest / 16;
        k = k + 1;
    }
    let mut out: Vec<char> = Vec::new();
    let mut position: usize = 0;
    while position < 36
        invariant
            position <= 36,
            digits@.len() == 32,
            forall|j: int| 0 <= j < 32 ==> #[trigger] digits@[j] == hex_char(nibble(bits, j as nat)),
            out@ == hyphenated(bits).take(position as int),
        decreases 36 - position,
    {
        let ghost before = out@;
        if position == 8 || position == 13 || position == 18 || position == 23 {
            out.push('-');
        } else {
            let at: usize = if position < 8 {
                position
            } else if position < 13 {
                position - 1
            } else if position < 18 {
                position - 2
            } else if position < 23 {
                position - 3
            } else {
                position - 4
            };
            out.push(digits[31 - at]);
        }
        assert(out@ =~= hyphenated(bits).take(position as int + 1));
        position = position + 1;
    }
    assert(hyphenated(bits).take(36) =~= hyphenated(bits));
    string_of(&out)
}

/// Identifies a note.
#[derive(Clone, Copy, PartialEq, Eq, Hash, PartialOrd, Ord, Debug, Structural)]
pub struct NoteId(u128);

impl View for NoteId {
    type V = u128;

    /// The bits of the UUID.
    closed spec fn view(&self) -> u128 {
        self.0
    }
}

impl NoteId {
    /// Generates a fresh, time-ordered identifier.
    pub fn new() -> (id: Self)
        ensures
            is_v7(id@),
    {
        NoteId(fresh_v7_bits())
    }

    pub fn from_uuid(value: Uuid) -> Self {
        NoteId(uuid_bits(&value))
    }

    pub fn as_uuid(&self) -> Uuid {
        uuid_from_bits(self.0)
    }

    /// Parses an identifier received from the frontend or a backup.
    ///
    /// # Errors
    /// An invalid `note_id` when the text is not a UUID.
    pub fn parse(value: &str) -> (r: AppResult<NoteId>)
        ensures
            match uuid_parse(value@) {
                Some(bits) => r matches Ok(id) && id@ == bits,
                None => r == Err::<NoteId, AppError>(
                    AppError::Validation(crate::error::ValidationError::Invalid { field: "note_id" }),
                ),
            },
            forall|bits: u128| value@ == hyphenated(bits) ==> (r matches Ok(id) && id@ == bits),
            !uuid_length(value@.len()) ==> r is Err,
    {
        match parse_uuid_bits(value) {
            Some(bits) => Ok(NoteId(bits)),
            None => Err(invalid("note_id")),
        }
    }

    /// Hyphenated lowercase: the exact form stored and expected by the
    /// frontend.
    pub fn to_string(&self) -> (s: String)
        ensures
            s@ == hyphenated(self@),
    {
        hyphenated_text(self.0)
    }
}

/// Identifies a block of a note.
#[derive(Clone, Copy, PartialEq, Eq, Hash, PartialOrd, Ord, Debug, Structural)]
pub struct NoteBlockId(u128);

impl View for NoteBlockId {
    type V = u128;

    /// The bits of the UUID.
    closed spec fn view(&self) -> u128 {
        self.0
    }
}

impl NoteBlockId {
    /// Generates a fresh, time-ordered identifier.
    pub fn new() -> (id: Self)
        ensures
            is_v7(id@),
    {
        NoteBlockId(fresh_v7_bits())
    }

    pub fn from_uuid(value: Uuid) -> Self {
        NoteBlockId(uuid_bits(&value))
    }

    pub fn as_uuid(&self) -> Uuid {
        uuid_from_bits(self.0)
    }

    /// Parses an identifier received from the frontend or a backup.
    ///
    /// # Errors
    /// An invalid `note_block_id` when the text is not a UUID.
    pub fn parse(value: &str) -> (r: AppResult<NoteBlockId>)
        ensures
            match uuid_parse(value@) {
                Some(bits) => r matches Ok(id) && id@ == bits,
                None => r == Err::<NoteBlockId, AppError>(
                    AppError::Validation(crate::error::ValidationError::Invalid { field: "note_block_id" }),
                ),
            },
            forall|bits: u128| value@ == hyphenated(bits) ==> (r matches Ok(id) && id@ == bits),
            !uuid_length(value@.len()) ==> r is Err,
    {
        match parse_uuid_bits(value) {
            Some(bits) => Ok(NoteBlockId(bits)),
            None => Err(invalid("note_block_id")),
        }
    }

    /// Hyphenated lowercase: the exact form stored and expected by the
    /// frontend.
    pub fn to_string(&self) -> (s: String)
        ensures
            s@ == hyphenated(self@),
    {
        hyphenated_text(self.0)
    }
}

/// Identifies a task.
#[derive(Clone, Copy, PartialEq, Eq, Hash, PartialOrd, Ord, Debug, Structural)]
pub struct TaskId(u128);

impl View for TaskId {
    type V = u128;

    /// The bits of the UUID.
    closed spec fn view(&self) -> u128 {
        self.0
    }
}

impl TaskId {
    /// Generates a fresh, time-ordered identifier.
    pub fn new() -> (id: Self)
        ensures
            is_v7(id@),
    {
        TaskId(fresh_v7_bits())
    }

    pub fn from_uuid(value: Uuid) -> Self {
        TaskId(uuid_bits(&value))
    }

    pub fn as_uuid(&self) -> Uuid {
        uuid_from_bits(self.0)
    }

    /// Parses an identifier received from the frontend or a backup.
    ///
    /// # Errors
    /// An invalid `task_id` when the text is not a UUID.
    pub fn parse(value: &str) -> (r: AppResult<TaskId>)
        ensures
            match uuid_parse(value@) {
                Some(bits) => r matches Ok(id) && id@ == bits,
                None => r == Err::<TaskId, AppError>(
                    AppError::Validation(crate::error::ValidationError::Invalid { field: "task_id" }),
                ),
            },
            forall|bits: u128| value@ == hyphenated(bits) ==> (r matches Ok(id) && id@ == bits),
            !uuid_length(value@.len()) ==> r is Err,
    {
        match parse_uuid_bits(value) {
            Some(bits) => Ok(TaskId(bits)),
            None => Err(invalid("task_id")),
        }
    }

    /// Hyphenated lowercase: the exact form stored and expected by the
    /// frontend.
    pub fn to_string(&self) -> (s: String)
        ensures
            s@ == hyphenated(self@),
    {
        hyphenated_text(self.0)
    }
}

/// Identifies a reminder.
#[derive(Clone, Copy, PartialEq, Eq, Hash, PartialOrd, Ord, Debug, Structural)]
pub struct ReminderId(u128);

impl View for ReminderId {
    type V = u128;

    /// The bits of the UUID.
    closed spec fn view(&self) -> u128 {
        self.0
    }
}

impl ReminderId {
    /// Generates a fresh, time-ordered identifier.
    pub fn new() -> (id: Self)
        ensures
            is_v7(id@),
    {
        ReminderId(fresh_v7_bits())
    }

    pub fn from_uuid(value: Uuid) -> Self {
        ReminderId(uuid_bits(&value))
    }

    pub fn as_uuid(&self) -> Uuid {
        uuid_from_bits(self.0)
    }

    /// Parses an identifier received from the frontend or a backup.
    ///
    /// # Errors
    /// An invalid `reminder_id` when the text is not a UUID.
    pub fn parse(value: &str) -> (r: AppResult<ReminderId>)
        ensures
            match uuid_parse(value@) {
                Some(bits) => r matches Ok(id) && id@ == bits,
                None => r == Err::<ReminderId, AppError>(
                    AppError::Validation(crate::error::ValidationError::Invalid { field: "reminder_id" }),
                ),
            },
            forall|bits: u128| value@ == hyphenated(bits) ==> (r matches Ok(id) && id@ == bits),
            !uuid_length(value@.len()) ==> r is Err,
    {
        match parse_uuid_bits(value) {
            Some(bits) => Ok(ReminderId(bits)),
            None => Err(invalid("reminder_id")),
        }
    }

    /// Hyphenated lowercase: the exact form stored and expected by the
    /// frontend.
    pub fn to_string(&self) -> (s: String)
        ensures
            s@ == hyphenated(self@),
    {
        hyphenated_text(self.0)
    }
}

/// Identifies one armed occurrence of a reminder.
#[derive(Clone, Copy, PartialEq, Eq, Hash, PartialOrd, Ord, Debug, Structural)]
pub struct ReminderOccurrenceId(u128);

impl View for ReminderOccurrenceId {
    type V = u128;

    /// The bits of the UUID.
    closed spec fn view(&self) -> u128 {
        self.0
    }
}

impl ReminderOccurrenceId {
    /// Generates a fresh, time-ordered identifier.
    pub fn new() -> (id: Self)
        ensures
            is_v7(id@),
    {
        ReminderOccurrenceId(fresh_v7_bits())
    }

    pub fn from_uuid(value: Uuid) -> Self {
        ReminderOccurrenceId(uuid_bits(&value))
    }

    pub fn as_uuid(&self) -> Uuid {
        uuid_from_bits(self.0)
    }

    /// Parses an identifier received from the frontend or a backup.
    ///
    /// # Errors
    /// An invalid `reminder_occurrence_id` when the text is not a UUID.
    pub fn parse(value: &str) -> (r: AppResult<ReminderOccurrenceId>)
        ensures
            match uuid_parse(value@) {
                Some(bits) => r matches Ok(id) && id@ == bits,
                None => r == Err::<ReminderOccurrenceId, AppError>(
                    AppError::Validation(crate::error::ValidationError::Invalid { field: "reminder_occurrence_id" }),
                ),
            },
            forall|bits: u128| value@ == hyphenated(bits) ==> (r matches Ok(id) && id@ == bits),
            !uuid_length(value@.len()) ==> r is Err,
    {
        match parse_uuid_bits(value) {
            Some(bits) => Ok(ReminderOccurrenceId(bits)),
            None => Err(invalid("reminder_occurrence_id")),
        }
    }

    /// Hyphenated lowercase: the exact form stored and expected by the
    /// frontend.
    pub fn to_string(&self) -> (s: String)
        ensures
            s@ == hyphenated(self@),
    {
        hyphenated_text(self.0)
    }
}

/// Identifies an attachment.
#[derive(Clone, Copy, PartialEq, Eq, Hash, PartialOrd, Ord, Debug, Structural)]
pub struct AttachmentId(u128);

impl View for AttachmentId {
    type V = u128;

    /// The bits of the UUID.
    closed spec fn view(&self) -> u128 {
        self.0
    }
}

impl AttachmentId {
    /// Generates a fresh, time-ordered identifier.
    pub fn new() -> (id: Self)
        ensures
            is_v7(id@),
    {
        AttachmentId(fresh_v7_bits())
    }

    pub fn from_uuid(value: Uuid) -> Self {
        AttachmentId(uuid_bits(&value))
    }

    pub fn as_uuid(&self) -> Uuid {
        uuid_from_bits(self.0)
    }

    /// Parses an identifier received from the frontend or a backup.
    ///
    /// # Errors
    /// An invalid `attachment_id` when the text is not a UUID.
    pub fn parse(value: &str) -> (r: AppResult<AttachmentId>)
        ensures
            match uuid_parse(value@) {
                Some(bits) => r matches Ok(id) && id@ == bits,
                None => r == Err::<AttachmentId, AppError>(
                    AppError::Validation(crate::error::ValidationError::Invalid { field: "attachment_id" }),
                ),
            },
            forall|bits: u128| value@ == hyphenated(bits) ==> (r matches Ok(id) && id@ == bits),
            !uuid_length(value@.len()) ==> r is Err,
    {
        match parse_uuid_bits(value) {
            Some(bits) => Ok(AttachmentId(bits)),
            None => Err(invalid("attachment_id")),
        }
    }

    /// Hyphenated lowercase: the exact form stored and expected by the
    /// frontend.
    pub fn to_string(&self) -> (s: String)
        ensures
            s@ == hyphenated(self@),
    {
        hyphenated_text(self.0)
    }
}

/// Identifies a folder.
#[derive(Clone, Copy, PartialEq, Eq, Hash, PartialOrd, Ord, Debug, Structural)]
pub struct FolderId(u128);

impl View for FolderId {
    type V = u128;

    /// The bits of the UUID.
    closed spec fn view(&self) -> u128 {
        self.0
    }
}

impl FolderId {
    /// Generates a fresh, time-ordered identifier.
    pub fn new() -> (id: Self)
        ensures
            is_v7(id@),
    {
        FolderId(fresh_v7_bits())
    }

    pub fn from_uuid(value: Uuid) -> Self {
        FolderId(uuid_bits(&value))
    }

    pub fn as_uuid(&self) -> Uuid {
        uuid_from_bits(self.0)
    }

    /// Parses an identifier received from the frontend or a backup.
    ///
    /// # Errors
    /// An invalid `folder_id` when the text is not a UUID.
    pub fn parse(value: &str) -> (r: AppResult<FolderId>)
        ensures
            match uuid_parse(value@) {
                Some(bits) => r matches Ok(id) && id@ == bits,
                None => r == Err::<FolderId, AppError>(
                    AppError::Validation(crate::error::ValidationError::Invalid { field: "folder_id" }),
                ),
            },
            forall|bits: u128| value@ == hyphenated(bits) ==> (r matches Ok(id) && id@ == bits),
            !uuid_length(value@.len()) ==> r is Err,
    {
        match parse_uuid_bits(value) {
            Some(bits) => Ok(FolderId(bits)),
            None => Err(invalid("folder_id")),
        }
    }

    /// Hyphenated lowercase: the exact form stored and expected by the
    /// frontend.
    pub fn to_string(&self) -> (s: String)
        ensures
            s@ == hyphenated(self@),
    {
        hyphenated_text(self.0)
    }
}

/// Identifies a tag.
#[derive(Clone, Copy, PartialEq, Eq, Hash, PartialOrd, Ord, Debug, Structural)]
pub struct TagId(u128);

impl View for TagId {
    type V = u128;

    /// The bits of the UUID.
    closed spec fn view(&self) -> u128 {
        self.0
    }
}

impl TagId {
    /// Generates a fresh, time-ordered identifier.
    pub fn new() -> (id: Self)
        ensures
            is_v7(id@),
    {
        TagId(fresh_v7_bits())
    }

    pub fn from_uuid(value: Uuid) -> Self {
        TagId(uuid_bits(&value))
    }

    pub fn as_uuid(&self) -> Uuid {
        uuid_from_bits(self.0)
    }

    /// Parses an identifier received from the frontend or a backup.
    ///
    /// # Errors
    /// An invalid `tag_id` when the text is not a UUID.
    pub fn parse(value: &str) -> (r: AppResult<TagId>)
        ensures
            match uuid_parse(value@) {
                Some(bits) => r matches Ok(id) && id@ == bits,
                None => r == Err::<TagId, AppError>(
                    AppError::Validation(crate::error::ValidationError::Invalid { field: "tag_id" }),
                ),
            },
            forall|bits: u128| value@ == hyphenated(bits) ==> (r matches Ok(id) && id@ == bits),
            !uuid_length(value@.len()) ==> r is Err,
    {
        match parse_uuid_bits(value) {
            Some(bits) => Ok(TagId(bits)),
            None => Err(invalid("tag_id")),
        }
    }

    /// Hyphenated lowercase: the exact form stored and expected by the
    /// frontend.
    pub fn to_string(&self) -> (s: String)
        ensures
            s@ == hyphenated(self@),
    {
        hyphenated_text(self.0)
    }
}

/// Identifies a template.
#[derive(Clone, Copy, PartialEq, Eq, Hash, PartialOrd, Ord, Debug, Structural)]
pub struct TemplateId(u128);

impl View for TemplateId {
    type V = u128;

    /// The bits of the UUID.
    closed spec fn view(&self) -> u128 {
        self.0
    }
}

impl TemplateId {
    /// Generates a fresh, time-ordered identifier.
    pub fn new() -> (id: Self)
        ensures
            is_v7(id@),
    {
        TemplateId(fresh_v7_bits())
    }

    pub fn from_uuid(value: Uuid) -> Self {
        TemplateId(uuid_bits(&value))
    }

    pub fn as_uuid(&self) -> Uuid {
        uuid_from_bits(self.0)
    }

    /// Parses an identifier received from the frontend or a backup.
    ///
    /// # Errors
    /// An invalid `template_id` when the text is not a UUID.
    pub fn parse(value: &str) -> (r: AppResult<TemplateId>)
        ensures
            match uuid_parse(value@) {
                Some(bits) => r matches Ok(id) && id@ == bits,
                None => r == Err::<TemplateId, AppError>(
                    AppError::Validation(crate::error::ValidationError::Invalid { field: "template_id" }),
                ),
            },
            forall|bits: u128| value@ == hyphenated(bits) ==> (r matches Ok(id) && id@ == bits),
            !uuid_length(value@.len()) ==> r is Err,
    {
        match parse_uuid_bits(value) {
            Some(bits) => Ok(TemplateId(bits)),
            None => Err(invalid("template_id")),
        }
    }

    /// Hyphenated lowercase: the exact form stored and expected by the
    /// frontend.
    pub fn to_string(&self) -> (s: String)
        ensures
            s@ == hyphenated(self@),
    {
        hyphenated_text(self.0)
    }
}

/// Identifies a saved search.
#[derive(Clone, Copy, PartialEq, Eq, Hash, PartialOrd, Ord, Debug, Structural)]
pub struct SavedSearchId(u128);

impl View for SavedSearchId {
    type V = u128;

    /// The bits of the UUID.
    closed spec fn view(&self) -> u128 {
        self.0
    }
}

impl SavedSearchId {
    /// Generates a fresh, time-ordered identifier.
    pub fn new() -> (id: Self)
        ensures
            is_v7(id@),
    {
        SavedSearchId(fresh_v7_bits())
    }

    pub fn from_uuid(value: Uuid) -> Self {
        SavedSearchId(uuid_bits(&value))
    }

    pub fn as_uuid(&self) -> Uuid {
        uuid_from_bits(self.0)
    }

    /// Parses an identifier received from the frontend or a backup.
    ///
    /// # Errors
    /// An invalid `saved_search_id` when the text is not a UUID.
    pub fn parse(value: &str) -> (r: AppResult<SavedSearchId>)
        ensures
            match uuid_parse(value@) {
                Some(bits) => r matches Ok(id) && id@ == bits,
                None => r == Err::<SavedSearchId, AppError>(
                    AppError::Validation(crate::error::ValidationError::Invalid { field: "saved_search_id" }),
                ),
            },
            forall|bits: u128| value@ == hyphenated(bits) ==> (r matches Ok(id) && id@ == bits),
            !uuid_length(value@.len()) ==> r is Err,
    {
        match parse_uuid_bits(value) {
            Some(bits) => Ok(SavedSearchId(bits)),
            None => Err(invalid("saved_search_id")),
        }
    }

    /// Hyphenated lowercase: the exact form stored and expected by the
    /// frontend.
    pub fn to_string(&self) -> (s: String)
        ensures
            s@ == hyphenated(self@),
    {
        hyphenated_text(self.0)
    }
}

/// Identifies a backup record.
#[derive(Clone, Copy, PartialEq, Eq, Hash, PartialOrd, Ord, Debug, Structural)]
pub struct BackupRecordId(u128);

impl View for BackupRecordId {
    type V = u128;

    /// The bits of the UUID.
    closed spec fn view(&self) -> u128 {
        self.0
    }
}

impl BackupRecordId {
    /// Generates a fresh, time-ordered identifier.
    pub fn new() -> (id: Self)
        ensures
            is_v7(id@),
    {
        BackupRecordId(fresh_v7_bits())
    }

    pub fn from_uuid(value: Uuid) -> Self {
        BackupRecordId(uuid_bits(&value))
    }

    pub fn as_uuid(&self) -> Uuid {
        uuid_from_bits(self.0)
    }

    /// Parses an identifier received from the frontend or a backup.
    ///
    /// # Errors
    /// An invalid `backup_id` when the text is not a UUID.
    pub fn parse(value: &str) -> (r: AppResult<BackupRecordId>)
        ensures
            match uuid_parse(value@) {
                Some(bits) => r matches Ok(id) && id@ == bits,
                None => r == Err::<BackupRecordId, AppError>(
                    AppError::Validation(crate::error::ValidationError::Invalid { field: "backup_id" }),
                ),
            },
            forall|bits: u128| value@ == hyphenated(bits) ==> (r matches Ok(id) && id@ == bits),
            !uuid_length(value@.len()) ==> r is Err,
    {
        match parse_uuid_bits(value) {
            Some(bits) => Ok(BackupRecordId(bits)),
            None => Err(invalid("backup_id")),
        }
    }

    /// Hyphenated lowercase: the exact form stored and expected by the
    /// frontend.
    pub fn to_string(&self) -> (s: String)
        ensures
            s@ == hyphenated(self@),
    {
        hyphenated_text(self.0)
    }
}

/// Identifies an activity entry.
#[derive(Clone, Copy, PartialEq, Eq, Hash, PartialOrd, Ord, Debug, Structural)]
pub struct ActivityId(u128);

impl View for ActivityId {
    type V = u128;

    /// The bits of the UUID.
    closed spec fn view(&self) -> u128 {
        self.0
    }
}

impl ActivityId {
    /// Generates a fresh, time-ordered identifier.
    pub fn new() -> (id: Self)
        ensures
            is_v7(id@),
    {
        ActivityId(fresh_v7_bits())
    }

    pub fn from_uuid(value: Uuid) -> Self {
        ActivityId(uuid_bits(&value))
    }

    pub fn as_uuid(&self) -> Uuid {
        uuid_from_bits(self.0)
    }

    /// Parses an identifier received from the frontend or a backup.
    ///
    /// # Errors
    /// An invalid `activity_id` when the text is not a UUID.
    pub fn parse(value: &str) -> (r: AppResult<ActivityId>)
        ensures
            match uuid_parse(value@) {
                Some(bits) => r matches Ok(id) && id@ == bits,
                None => r == Err::<ActivityId, AppError>(
                    AppError::Validation(crate::error::ValidationError::Invalid { field: "activity_id" }),
                ),
            },
            forall|bits: u128| value@ == hyphenated(bits) ==> (r matches Ok(id) && id@ == bits),
            !uuid_length(value@.len()) ==> r is Err,
    {
        match parse_uuid_bits(value) {
            Some(bits) => Ok(ActivityId(bits)),
            None => Err(invalid("activity_id")),
        }
    }

    /// Hyphenated lowercase: the exact form stored and expected by the
    /// frontend.
    pub fn to_string(&self) -> (s: String)
        ensures
            s@ == hyphenated(self@),
    {
        hyphenated_text(self.0)
    }
}

/// Identifies a notification event.
#[derive(Clone, Copy, PartialEq, Eq, Hash, PartialOrd, Ord, Debug, Structural)]
pub struct NotificationEventId(u128);

impl View for NotificationEventId {
    type V = u128;

    /// The bits of the UUID.
    closed spec fn view(&self) -> u128 {
        self.0
    }
}

impl NotificationEventId {
    /// Generates a fresh, time-ordered identifier.
    pub fn new() -> (id: Self)
        ensures
            is_v7(id@),
    {
        NotificationEventId(fresh_v7_bits())
    }

    pub fn from_uuid(value: Uuid) -> Self {
        NotificationEventId(uuid_bits(&value))
    }

    pub fn as_uuid(&self) -> Uuid {
        uuid_from_bits(self.0)
    }

    /// Parses an identifier received from the frontend or a backup.
    ///
    /// # Errors
    /// An invalid `notification_event_id` when the text is not a UUID.
    pub fn parse(value: &str) -> (r: AppResult<NotificationEventId>)
        ensures
            match uuid_parse(value@) {
                Some(bits) => r matches Ok(id) && id@ == bits,
                None => r == Err::<NotificationEventId, AppError>(
                    AppError::Validation(crate::error::ValidationError::Invalid { field: "notification_event_id" }),
                ),
            },
            forall|bits: u128| value@ == hyphenated(bits) ==> (r matches Ok(id) && id@ == bits),
            !uuid_length(value@.len()) ==> r is Err,
    {
        match parse_uuid_bits(value) {
            Some(bits) => Ok(NotificationEventId(bits)),
            None => Err(invalid("notification_event_id")),
        }
    }

    /// Hyphenated lowercase: the exact form stored and expected by the
    /// frontend.
    pub fn to_string(&self) -> (s: String)
        ensures
            s@ == hyphenated(self@),
    {
        hyphenated_text(self.0)
    }
}

/// Identifies a task completion.
#[derive(Clone, Copy, PartialEq, Eq, Hash, PartialOrd, Ord, Debug, Structural)]
pub struct TaskCompletionId(u128);

impl View for TaskCompletionId {
    type V = u128;

    /// The bits of the UUID.
    closed spec fn view(&self) -> u128 {
        self.0
    }
}

impl TaskCompletionId {
    /// Generates a fresh, time-ordered identifier.
    pub fn new() -> (id: Self)
        ensures
            is_v7(id@),
    {
        TaskCompletionId(fresh_v7_bits())
    }

    pub fn from_uuid(value: Uuid) -> Self {
        TaskCompletionId(uuid_bits(&value))
    }

    pub fn as_uuid(&self) -> Uuid {
        uuid_from_bits(self.0)
    }

    /// Parses an identifier received from the frontend or a backup.
    ///
    /// # Errors
    /// An invalid `task_completion_id` when the text is not a UUID.
    pub fn parse(value: &str) -> (r: AppResult<TaskCompletionId>)
        ensures
            match uuid_parse(value@) {
                Some(bits) => r matches Ok(id) && id@ == bits,
                None => r == Err::<TaskCompletionId, AppError>(
                    AppError::Validation(crate::error::ValidationError::Invalid { field: "task_completion_id" }),
                ),
            },
            forall|bits: u128| value@ == hyphenated(bits) ==> (r matches Ok(id) && id@ == bits),
            !uuid_length(value@.len()) ==> r is Err,
    {
        match parse_uuid_bits(value) {
            Some(bits) => Ok(TaskCompletionId(bits)),
            None => Err(invalid("task_completion_id")),
        }
    }

    /// Hyphenated lowercase: the exact form stored and expected by the
    /// frontend.
    pub fn to_string(&self) -> (s: String)
        ensures
            s@ == hyphenated(self@),
    {
        hyphenated_text(self.0)
    }
}

} // verus!
