//! The shapes the core answers the screen in, and the requests it accepts.
//!
//! Domain structs never cross the bridge directly: a DTO is a deliberate,
//! stable contract that can stay put while the domain model moves underneath.
//! Turning these into JSON and back is done beside the core, on copies that
//! carry the serialisation; here they are plain values and the conversions are
//! checked field by field.

use vstd::prelude::*;

use crate::application::backup::BackupOutcome;
use crate::application::use_cases::{ReminderSoundCatalog, ReminderView};
use crate::domain::backup::BackupRecord;
use crate::domain::clock::Timestamp;
use crate::domain::ids::{hyphenated, uuid_parse, FolderId, TagId};
use crate::domain::notes::repository::clamped_limit;
use crate::domain::notes::{
    Note, NoteDraft, NoteFilter, NotePatch, NoteScope, NoteSort, NoteType, Page, PageRequest,
};
use crate::domain::reminders::recurrence::rule_text;
use crate::domain::reminders::{resolved_id, resolved_label};
use crate::domain::search::{SearchEntity, SearchQuery};
use crate::error::{AppError, AppErrorDto, AppResult, ValidationError};
use crate::text::{
    chars_of, join_chars, join_with, line_fields, nonempty_parts, owned, split_lines, string_of,
    take_chars, take_prefix, trim, trim_chars, vviews,
};

verus! {

/// Uniform envelope for every command: a failure is an ordinary value rather
/// than a rejected promise carrying a stringified error.
pub struct CommandResult<T> {
    pub success: bool,
    pub data: Option<T>,
    pub error: Option<AppErrorDto>,
}

impl<T> CommandResult<T> {
    pub fn ok(data: T) -> (r: CommandResult<T>)
        ensures
            r.success,
            r.data == Some(data),
            r.error is None,
    {
        CommandResult { success: true, data: Some(data), error: None }
    }

    /// Only the sanitised error travels to the UI.
    pub fn failed(error: &AppError) -> (r: CommandResult<T>)
        ensures
            !r.success,
            r.data is None,
            r.error matches Some(dto) && dto.is_wire_form_of(*error),
    {
        CommandResult { success: false, data: None, error: Some(error.to_dto()) }
    }

    pub fn from(result: AppResult<T>) -> (r: CommandResult<T>)
        ensures
            match result {
                Ok(value) => r.success && r.data == Some(value) && r.error is None,
                Err(e) => !r.success && r.data is None && (r.error matches Some(dto)
                    && dto.is_wire_form_of(e)),
            },
    {
        match result {
            Ok(value) => CommandResult::ok(value),
            Err(error) => CommandResult::failed(&error),
        }
    }
}

pub struct PageDto<T> {
    pub items: Vec<T>,
    pub total: u32,
    pub limit: u32,
    pub offset: u32,
    pub has_more: bool,
}

impl<T> PageDto<T> {
    /// A page of domain values as a page of wire values, each converted by
    /// `convert`.
    pub fn from_page<S, F>(page: Page<S>, convert: F) -> (dto: PageDto<T>) where F: Fn(S) -> T
        requires
            forall|s: S| #[trigger] convert.requires((s,)),
        ensures
            dto.items@.len() == page.items@.len(),
            forall|i: int|
                0 <= i < page.items@.len() ==> convert.ensures(
                    (page.items@[i],),
                    #[trigger] dto.items@[i],
                ),
            dto.total == page.total,
            dto.limit == page.limit,
            dto.offset == page.offset,
            dto.has_more == ((if page.offset + page.limit > u32::MAX {
                u32::MAX
            } else {
                (page.offset + page.limit) as u32
            }) < page.total),
    {
        let has_more = page.has_more();
        let Page { items, total, limit, offset } = page;
        let ghost source = items@;
        let mut rest = items;
        let mut converted: Vec<T> = Vec::new();
        let n = rest.len();
        let mut k: usize = 0;
        while k < n
            invariant
                n == source.len(),
                k <= n,
                rest@ == source.skip(k as int),
                converted@.len() == k,
                forall|j: int| 0 <= j < k ==> convert.ensures((source[j],), #[trigger] converted@[j]),
                forall|s: S| #[trigger] convert.requires((s,)),
            decreases n - k,
        {
            let item = rest.remove(0);
            assert(item == source[k as int]);
            assert(rest@ =~= source.skip(k as int + 1));
            let out = convert(item);
            converted.push(out);
            k = k + 1;
        }
        PageDto { items: converted, total, limit, offset, has_more }
    }
}

pub open spec fn millis_of(t: Option<Timestamp>) -> Option<i64> {
    match t {
        Some(t) => Some(t.0),
        None => None,
    }
}

pub open spec fn opt_view(o: Option<String>) -> Option<Seq<char>> {
    match o {
        Some(s) => Some(s@),
        None => None,
    }
}

fn millis_exec(t: Option<Timestamp>) -> (r: Option<i64>)
    ensures
        r == millis_of(t),
{
    match t {
        Some(t) => Some(t.0),
        None => None,
    }
}

pub struct NoteDto {
    pub id: String,
    pub note_type: NoteType,
    pub title: String,
    pub content_text: String,
    pub content_json: Option<String>,
    pub color: Option<String>,
    pub background: Option<String>,
    pub is_pinned: bool,
    pub is_favorite: bool,
    pub is_archived: bool,
    pub is_readonly: bool,
    pub position: i64,
    pub word_count: i64,
    pub char_count: i64,
    pub revision: i64,
    pub created_at: i64,
    pub updated_at: i64,
    pub deleted_at: Option<i64>,
}

impl NoteDto {
    pub fn from(note: Note) -> (dto: NoteDto)
        ensures
            dto.id@ == hyphenated(note.id@),
            dto.note_type == note.note_type,
            dto.title@ == note.title@,
            dto.content_text@ == note.content_text@,
            opt_view(dto.content_json) == opt_view(note.content_json),
            opt_view(dto.color) == opt_view(note.color),
            opt_view(dto.background) == opt_view(note.background),
            dto.is_pinned == note.is_pinned,
            dto.is_favorite == note.is_favorite,
            dto.is_archived == note.is_archived,
            dto.is_readonly == note.is_readonly,
            dto.position == note.position,
            dto.word_count == note.word_count,
            dto.char_count == note.char_count,
            dto.revision == note.revision,
            dto.created_at == note.created_at.0,
            dto.updated_at == note.updated_at.0,
            dto.deleted_at == millis_of(note.deleted_at),
    {
        let id = note.id.to_string();
        NoteDto {
            id,
            note_type: note.note_type,
            title: note.title,
            content_text: note.content_text,
            content_json: note.content_json,
            color: note.color,
            background: note.background,
            is_pinned: note.is_pinned,
            is_favorite: note.is_favorite,
            is_archived: note.is_archived,
            is_readonly: note.is_readonly,
            position: note.position,
            word_count: note.word_count,
            char_count: note.char_count,
            revision: note.revision,
            created_at: note.created_at.0,
            updated_at: note.updated_at.0,
            deleted_at: millis_exec(note.deleted_at),
        }
    }
}

/// How much body text a list row gets. Enough for two lines on a phone.
pub const PREVIEW_CHARS: usize = 160;

/// The lines of a body, trimmed.
pub open spec fn trimmed_lines(text: Seq<char>) -> Seq<Seq<char>> {
    Seq::new(line_fields(text).len(), |i: int| trim(line_fields(text)[i]))
}

/// A list row's preview: the non-empty lines, trimmed, joined by single
/// spaces, and cut to [`PREVIEW_CHARS`] characters.
pub open spec fn preview_of(text: Seq<char>) -> Seq<char> {
    take_chars(join_with(nonempty_parts(trimmed_lines(text)), ' '), PREVIEW_CHARS as int)
}

/// Summary shape for list rows. Sending the full body for every row would push
/// megabytes through JSON to render a list that shows two lines per note.
pub struct NoteSummaryDto {
    pub id: String,
    pub note_type: NoteType,
    pub title: String,
    pub preview: String,
    pub color: Option<String>,
    pub is_pinned: bool,
    pub is_favorite: bool,
    pub is_archived: bool,
    pub word_count: i64,
    pub created_at: i64,
    pub updated_at: i64,
    pub deleted_at: Option<i64>,
}

fn preview_exec(text: &str) -> (p: String)
    ensures
        p@ == preview_of(text@),
{
    let chars = chars_of(text);
    let lines = split_lines(&chars);
    let ghost all = vviews(lines@);
    let mut kept: Vec<Vec<char>> = Vec::new();
    let mut i: usize = 0;
    while i < lines.len()
        invariant
            i <= lines@.len(),
            all == vviews(lines@),
            all == line_fields(chars@),
            chars@ == text@,
            vviews(kept@) == nonempty_parts(trimmed_lines(text@).take(i as int)),
        decreases lines.len() - i,
    {
        let line = trim_chars(&lines[i]);
        let ghost before = vviews(kept@);
        assert(trimmed_lines(text@).take(i as int + 1) =~= trimmed_lines(text@).take(i as int).push(
            line@,
        ));
        proof {
            crate::text::lemma_nonempty_parts_push(trimmed_lines(text@).take(i as int), line@);
        }
        if line.len() > 0 {
            kept.push(line);
            assert(vviews(kept@) =~= before.push(kept@.last()@));
        }
        i = i + 1;
    }
    assert(trimmed_lines(text@).take(lines@.len() as int) =~= trimmed_lines(text@));
    let joined = join_chars(&kept, ' ');
    let cut = take_prefix(&joined, PREVIEW_CHARS);
    string_of(&cut)
}

impl NoteSummaryDto {
    pub fn from(note: Note) -> (dto: NoteSummaryDto)
        ensures
            dto.id@ == hyphenated(note.id@),
            dto.note_type == note.note_type,
            dto.title@ == note.title@,
            dto.preview@ == preview_of(note.content_text@),
            opt_view(dto.color) == opt_view(note.color),
            dto.is_pinned == note.is_pinned,
            dto.is_favorite == note.is_favorite,
            dto.is_archived == note.is_archived,
            dto.word_count == note.word_count,
            dto.created_at == note.created_at.0,
            dto.updated_at == note.updated_at.0,
            dto.deleted_at == millis_of(note.deleted_at),
    {
        let preview = preview_exec(note.content_text.as_str());
        NoteSummaryDto {
            id: note.id.to_string(),
            note_type: note.note_type,
            title: note.title,
            preview,
            color: note.color,
            is_pinned: note.is_pinned,
            is_favorite: note.is_favorite,
            is_archived: note.is_archived,
            word_count: note.word_count,
            created_at: note.created_at.0,
            updated_at: note.updated_at.0,
            deleted_at: millis_exec(note.deleted_at),
        }
    }
}

pub struct CreateNoteRequest {
    pub note_type: Option<NoteType>,
    pub title: Option<String>,
    pub content_text: Option<String>,
    pub content_json: Option<String>,
    pub color: Option<String>,
    pub background: Option<String>,
}

impl CreateNoteRequest {
    pub fn into_draft(self) -> (draft: NoteDraft)
        ensures
            draft.note_type == self.note_type,
            draft.title == self.title,
            draft.content_text == self.content_text,
            draft.content_json == self.content_json,
            draft.color == self.color,
            draft.background == self.background,
    {
        NoteDraft {
            note_type: self.note_type,
            title: self.title,
            content_text: self.content_text,
            content_json: self.content_json,
            color: self.color,
            background: self.background,
        }
    }
}

/// Partial update: `Option<Option<T>>` distinguishes "not mentioned" from "set
/// to null", which is what lets the editor autosave the body without wiping
/// the note colour.
pub struct UpdateNoteRequest {
    pub note_type: Option<NoteType>,
    pub title: Option<String>,
    pub content_text: Option<String>,
    pub content_json: Option<Option<String>>,
    pub color: Option<Option<String>>,
    pub background: Option<Option<String>>,
    pub is_pinned: Option<bool>,
    pub is_favorite: Option<bool>,
    pub is_archived: Option<bool>,
    pub is_readonly: Option<bool>,
    pub position: Option<i64>,
}

impl UpdateNoteRequest {
    pub fn into_patch(self) -> (patch: NotePatch)
        ensures
            patch.note_type == self.note_type,
            patch.title == self.title,
            patch.content_text == self.content_text,
            patch.content_json == self.content_json,
            patch.color == self.color,
            patch.background == self.background,
            patch.is_pinned == self.is_pinned,
            patch.is_favorite == self.is_favorite,
            patch.is_archived == self.is_archived,
            patch.is_readonly == self.is_readonly,
            patch.position == self.position,
    {
        NotePatch {
            note_type: self.note_type,
            title: self.title,
            content_text: self.content_text,
            content_json: self.content_json,
            color: self.color,
            background: self.background,
            is_pinned: self.is_pinned,
            is_favorite: self.is_favorite,
            is_archived: self.is_archived,
            is_readonly: self.is_readonly,
            position: self.position,
        }
    }
}

/// An optional identifier parsed, or the error for the field.
pub open spec fn parsed_id(text: Option<Seq<char>>) -> Option<Option<u128>> {
    match text {
        None => Some(None),
        Some(t) => match uuid_parse(t) {
            Some(bits) => Some(Some(bits)),
            None => None,
        },
    }
}

/// The bits of an optional folder id.
pub open spec fn folder_bits(id: Option<FolderId>) -> Option<u128> {
    match id {
        Some(i) => Some(i@),
        None => None,
    }
}

/// The bits of an optional tag id.
pub open spec fn tag_bits(id: Option<TagId>) -> Option<u128> {
    match id {
        Some(i) => Some(i@),
        None => None,
    }
}

fn parse_folder(text: &Option<String>) -> (r: AppResult<Option<FolderId>>)
    ensures
        match parsed_id(opt_view(*text)) {
            None => r == Err::<Option<FolderId>, AppError>(
                AppError::Validation(ValidationError::Invalid { field: "folder_id" }),
            ),
            Some(None) => r == Ok::<Option<FolderId>, AppError>(None),
            Some(Some(bits)) => r matches Ok(Some(id)) && id@ == bits,
        },
{
    match text {
        Some(t) => Ok(Some(FolderId::parse(t.as_str())?)),
        None => Ok(None),
    }
}

fn parse_tag(text: &Option<String>) -> (r: AppResult<Option<TagId>>)
    ensures
        match parsed_id(opt_view(*text)) {
            None => r == Err::<Option<TagId>, AppError>(
                AppError::Validation(ValidationError::Invalid { field: "tag_id" }),
            ),
            Some(None) => r == Ok::<Option<TagId>, AppError>(None),
            Some(Some(bits)) => r matches Ok(Some(id)) && id@ == bits,
        },
{
    match text {
        Some(t) => Ok(Some(TagId::parse(t.as_str())?)),
        None => Ok(None),
    }
}

fn stamp(millis: Option<i64>) -> (r: Option<Timestamp>)
    ensures
        millis_of(r) == millis,
{
    match millis {
        Some(m) => Some(Timestamp(m)),
        None => None,
    }
}

#[derive(Debug, Default)]
pub struct ListNotesRequest {
    pub scope: NoteScope,
    pub sort: NoteSort,
    pub folder_id: Option<String>,
    pub tag_id: Option<String>,
    pub note_type: Option<NoteType>,
    pub pinned_only: bool,
    pub updated_after: Option<i64>,
    pub updated_before: Option<i64>,
    pub limit: Option<u32>,
    pub offset: Option<u32>,
}

impl ListNotesRequest {
    /// Converts to a domain filter, parsing any identifiers.
    ///
    /// # Errors
    /// An invalid `folder_id` or `tag_id` when an identifier is not a UUID.
    pub fn to_filter(&self) -> (r: AppResult<NoteFilter>)
        ensures
            parsed_id(opt_view(self.folder_id)) is None ==> r == Err::<NoteFilter, AppError>(
                AppError::Validation(ValidationError::Invalid { field: "folder_id" }),
            ),
            parsed_id(opt_view(self.folder_id)) is Some && parsed_id(opt_view(self.tag_id)) is None
                ==> r == Err::<NoteFilter, AppError>(
                AppError::Validation(ValidationError::Invalid { field: "tag_id" }),
            ),
            parsed_id(opt_view(self.folder_id)) is Some && parsed_id(opt_view(self.tag_id)) is Some
                ==> (r matches Ok(f) && f.scope == self.scope && f.note_type == self.note_type
                && f.pinned_only == self.pinned_only && millis_of(f.updated_after)
                == self.updated_after && millis_of(f.updated_before) == self.updated_before),
            r matches Ok(f) ==> Some(folder_bits(f.folder_id)) == parsed_id(opt_view(self.folder_id))
                && Some(tag_bits(f.tag_id)) == parsed_id(opt_view(self.tag_id)),
    {
        let folder_id = parse_folder(&self.folder_id)?;
        let tag_id = parse_tag(&self.tag_id)?;
        Ok(NoteFilter {
            scope: self.scope,
            folder_id,
            tag_id,
            note_type: self.note_type,
            pinned_only: self.pinned_only,
            updated_after: stamp(self.updated_after),
            updated_before: stamp(self.updated_before),
        })
    }

    pub fn to_page(&self) -> (p: PageRequest)
        ensures
            p.limit == clamped_limit(
                match self.limit {
                    Some(l) => l,
                    None => 50,
                },
            ),
            p.offset == match self.offset {
                Some(o) => o,
                None => 0,
            },
    {
        let limit = match self.limit {
            Some(l) => l,
            None => 50,
        };
        let offset = match self.offset {
            Some(o) => o,
            None => 0,
        };
        PageRequest::new(limit, offset)
    }
}

#[derive(Debug, Default)]
pub struct SearchRequest {
    pub text: String,
    pub entities: Vec<SearchEntity>,
    pub folder_id: Option<String>,
    pub tag_id: Option<String>,
    pub note_type: Option<NoteType>,
    pub created_after: Option<i64>,
    pub created_before: Option<i64>,
    pub has_reminder: bool,
    pub has_attachment: bool,
    pub include_archived: bool,
    pub include_trashed: bool,
    pub limit: Option<u32>,
    pub offset: Option<u32>,
}

impl SearchRequest {
    /// Converts to a domain query, parsing any identifiers.
    ///
    /// # Errors
    /// An invalid `folder_id` or `tag_id` when an identifier is not a UUID.
    pub fn to_query(&self) -> (r: AppResult<SearchQuery>)
        ensures
            parsed_id(opt_view(self.folder_id)) is None ==> r == Err::<SearchQuery, AppError>(
                AppError::Validation(ValidationError::Invalid { field: "folder_id" }),
            ),
            parsed_id(opt_view(self.folder_id)) is Some && parsed_id(opt_view(self.tag_id)) is None
                ==> r == Err::<SearchQuery, AppError>(
                AppError::Validation(ValidationError::Invalid { field: "tag_id" }),
            ),
            parsed_id(opt_view(self.folder_id)) is Some && parsed_id(opt_view(self.tag_id)) is Some
                ==> (r matches Ok(q) && q.text@ == self.text@ && q.entities@ == self.entities@
                && q.note_type == self.note_type && millis_of(q.created_after)
                == self.created_after && millis_of(q.created_before) == self.created_before
                && q.has_reminder == self.has_reminder && q.has_attachment == self.has_attachment
                && q.include_archived == self.include_archived && q.include_trashed
                == self.include_trashed),
            r matches Ok(q) ==> Some(folder_bits(q.folder_id)) == parsed_id(opt_view(self.folder_id))
                && Some(tag_bits(q.tag_id)) == parsed_id(opt_view(self.tag_id)),
    {
        let folder_id = parse_folder(&self.folder_id)?;
        let tag_id = parse_tag(&self.tag_id)?;
        let mut entities: Vec<SearchEntity> = Vec::new();
        let mut i: usize = 0;
        while i < self.entities.len()
            invariant
                i <= self.entities@.len(),
                entities@ == self.entities@.take(i as int),
            decreases self.entities.len() - i,
        {
            entities.push(self.entities[i]);
            i = i + 1;
            assert(entities@ =~= self.entities@.take(i as int));
        }
        assert(self.entities@.take(self.entities@.len() as int) =~= self.entities@);
        Ok(SearchQuery {
            text: owned(self.text.as_str()),
            entities,
            folder_id,
            tag_id,
            note_type: self.note_type,
            created_after: stamp(self.created_after),
            created_before: stamp(self.created_before),
            has_reminder: self.has_reminder,
            has_attachment: self.has_attachment,
            include_archived: self.include_archived,
            include_trashed: self.include_trashed,
        })
    }

    pub fn to_page(&self) -> (p: PageRequest)
        ensures
            p.limit == clamped_limit(
                match self.limit {
                    Some(l) => l,
                    None => 30,
                },
            ),
            p.offset == match self.offset {
                Some(o) => o,
                None => 0,
            },
    {
        let limit = match self.limit {
            Some(l) => l,
            None => 30,
        };
        let offset = match self.offset {
            Some(o) => o,
            None => 0,
        };
        PageRequest::new(limit, offset)
    }
}

pub struct UpsertReminderRequest {
    pub note_id: String,
    pub title: String,
    pub body: String,
    pub scheduled_at: i64,
    pub timezone: String,
    pub sound: String,
    /// RFC 5545 rule, or absent for a reminder that happens once.
    pub recurrence: Option<String>,
}

pub struct ReminderDto {
    pub id: String,
    pub note_id: String,
    pub occurrence_id: String,
    pub title: String,
    pub body: String,
    pub scheduled_at: i64,
    pub timezone: String,
    pub sound: String,
    pub effective_sound_id: String,
    pub effective_sound_label: String,
    pub is_exact: bool,
    /// RFC 5545 rule, or absent when the reminder happens once.
    pub recurrence: Option<String>,
}

impl ReminderDto {
    pub fn from(view: ReminderView) -> (dto: ReminderDto)
        ensures
            dto.id@ == hyphenated(view.scheduled.reminder.id@),
            dto.note_id@ == hyphenated(view.scheduled.reminder.note_id@),
            dto.occurrence_id@ == hyphenated(view.scheduled.occurrence.id@),
            dto.title@ == view.scheduled.reminder.title@,
            dto.body@ == view.scheduled.reminder.body@,
            dto.scheduled_at == view.scheduled.reminder.scheduled_at.0,
            dto.timezone@ == view.scheduled.reminder.timezone@,
            dto.sound@ == view.scheduled.reminder.sound@,
            dto.effective_sound_id@ == resolved_id(view.effective_sound),
            dto.effective_sound_label@ == resolved_label(view.effective_sound),
            dto.is_exact == view.scheduled.occurrence.is_exact,
            opt_view(dto.recurrence) == match view.scheduled.reminder.recurrence {
                Some(rule) => Some(rule_text(rule)),
                None => None,
            },
    {
        let scheduled = view.scheduled;
        let recurrence = match scheduled.reminder.recurrence {
            Some(rule) => Some(owned(rule.rule())),
            None => None,
        };
        ReminderDto {
            id: scheduled.reminder.id.to_string(),
            note_id: scheduled.reminder.note_id.to_string(),
            occurrence_id: scheduled.occurrence.id.to_string(),
            title: scheduled.reminder.title,
            body: scheduled.reminder.body,
            scheduled_at: scheduled.reminder.scheduled_at.0,
            timezone: scheduled.reminder.timezone,
            sound: scheduled.reminder.sound,
            effective_sound_id: owned(view.effective_sound.id()),
            effective_sound_label: owned(view.effective_sound.label()),
            is_exact: scheduled.occurrence.is_exact,
            recurrence,
        }
    }
}

pub struct ReminderSoundDto {
    pub id: String,
    pub label: String,
}

pub struct ReminderSoundCatalogDto {
    pub default_sound_id: String,
    pub items: Vec<ReminderSoundDto>,
}

impl ReminderSoundCatalogDto {
    pub fn from(catalog: ReminderSoundCatalog) -> (dto: ReminderSoundCatalogDto)
        ensures
            dto.default_sound_id@ == catalog.default_sound_id@,
            dto.items@.len() == catalog.items@.len(),
            forall|i: int|
                0 <= i < catalog.items@.len() ==> (#[trigger] dto.items@[i]).id@ == catalog.items@[i].id@
                    && dto.items@[i].label@ == catalog.items@[i].label@,
    {
        let mut items: Vec<ReminderSoundDto> = Vec::new();
        let mut i: usize = 0;
        while i < catalog.items.len()
            invariant
                i <= catalog.items@.len(),
                items@.len() == i,
                forall|j: int|
                    0 <= j < i ==> (#[trigger] items@[j]).id@ == catalog.items@[j].id@
                        && items@[j].label@ == catalog.items@[j].label@,
            decreases catalog.items.len() - i,
        {
            let preset = catalog.items[i];
            items.push(ReminderSoundDto { id: owned(preset.id), label: owned(preset.label) });
            i = i + 1;
        }
        ReminderSoundCatalogDto { default_sound_id: catalog.default_sound_id, items }
    }
}

/// What a backup or restore did, as the settings screen reports it.
pub struct BackupOutcomeDto {
    /// False when the user backed out of the picker, which the screen shows as
    /// nothing having happened rather than as a failure.
    pub completed: bool,
    pub file_name: Option<String>,
    pub note_count: i64,
    pub reminder_count: i64,
    pub size_bytes: u64,
}

impl BackupOutcomeDto {
    pub fn from(outcome: BackupOutcome) -> (dto: BackupOutcomeDto)
        ensures
            dto.completed == outcome.completed,
            dto.file_name == outcome.file_name,
            dto.note_count == outcome.note_count,
            dto.reminder_count == outcome.reminder_count,
            dto.size_bytes == outcome.size_bytes,
    {
        BackupOutcomeDto {
            completed: outcome.completed,
            file_name: outcome.file_name,
            note_count: outcome.note_count,
            reminder_count: outcome.reminder_count,
            size_bytes: outcome.size_bytes,
        }
    }
}

pub struct BackupRecordDto {
    pub file_name: String,
    pub size_bytes: u64,
    pub note_count: i64,
    pub created_at: i64,
}

impl BackupRecordDto {
    pub fn from(record: BackupRecord) -> (dto: BackupRecordDto)
        ensures
            dto.file_name == record.file_name,
            dto.size_bytes == record.size_bytes,
            dto.note_count == record.note_count,
            dto.created_at == record.created_at.0,
    {
        BackupRecordDto {
            file_name: record.file_name,
            size_bytes: record.size_bytes,
            note_count: record.note_count,
            created_at: record.created_at.0,
        }
    }
}

} // verus!
