//! The decisions the use cases make between one call to storage or the
//! platform and the next.
//!
//! A use case owns one user-visible operation and coordinates the repositories
//! it needs. The coordinating itself is plumbing; what is worth stating is what
//! each step decides, and that is what lives here.

use std::sync::Arc;

use vstd::prelude::*;

use crate::application::dto::{opt_view, parsed_id, ListNotesRequest, SearchRequest, UpsertReminderRequest};
use crate::domain::clock::{Clock, Timestamp};
use crate::domain::ids::uuid_parse;
use crate::domain::notes::{Note, NoteDraft, NotePatch, Page};
use crate::domain::notes::repository::NoteRepository;
use crate::domain::search::SearchRepository;
use crate::domain::ids::{hyphenated, NoteId};
use crate::domain::notes::{repository::DEFAULT_PAGE_LIMIT, PageRequest, MAX_TITLE_LEN};
use crate::domain::reminders::recurrence::{refusal_reason, rule_named, window, window_of, Recurrence, WINDOW};
use crate::domain::reminders::repository::{ArmAlarm, DisarmAlarm, ReminderRepository};
use crate::domain::reminders::time_presets::{
    self, all_times, canonical_times, clock_label, default_minutes, invalid_presets, preset_views, str_views,
    strictly_increasing, TimePreset, MAX_TIME_PRESETS,
};
use crate::domain::reminders::{
    concrete_sound, is_bundled_sound, is_device_sound, resolve_sound, sound_presets, str_view, ReminderDraft,
    FALLBACK_SOUND_ID,
};
use crate::domain::reminders::{resolved_label, resolved_resource, ResolvedSound, ScheduledReminder, SoundPreset};
use crate::domain::calendar::{known_zone, zone_reading};
use crate::domain::clock::parse_zone;
use crate::error::{AppError, AppResult, NotificationError, ReminderError, ValidationError};
use crate::platform::{Alarm, AlarmClock};
use crate::text::{chars_of, owned, string_of, trim, trim_chars};

verus! {

/// A reminder as the screen shows it, with the sound it will actually play.
#[derive(Clone, Debug)]
pub struct ReminderView {
    pub scheduled: ScheduledReminder,
    pub effective_sound: ResolvedSound,
}

/// Sound choices and the concrete global default.
#[derive(Clone, Debug)]
pub struct ReminderSoundCatalog {
    pub default_sound_id: String,
    pub items: Vec<SoundPreset>,
}

/// The preset times as `HH:MM`.
pub fn labels(presets: &[TimePreset]) -> (out: Vec<String>)
    ensures
        out@.len() == presets@.len(),
        forall|i: int| 0 <= i < presets@.len() ==> (#[trigger] out@[i])@ == clock_label(
            presets@[i]@,
        ),
{
    let mut out: Vec<String> = Vec::new();
    let mut i: usize = 0;
    while i < presets.len()
        invariant
            i <= presets@.len(),
            out@.len() == i,
            forall|j: int| 0 <= j < i ==> (#[trigger] out@[j])@ == clock_label(presets@[j]@),
        decreases presets.len() - i,
    {
        out.push(presets[i].label());
        i = i + 1;
    }
    out
}

/// The alarm that arms one occurrence, with the sound it plays.
pub fn alarm_from(scheduled: &ScheduledReminder, sound: &ResolvedSound) -> (alarm: Alarm)
    ensures
        alarm.occurrence_id@ == hyphenated(scheduled.occurrence.id@),
        alarm.note_id@ == hyphenated(scheduled.reminder.note_id@),
        alarm.request_code == scheduled.occurrence.alarm_request_code,
        alarm.trigger_at == scheduled.occurrence.occurrence_at,
        alarm.title@ == scheduled.reminder.title@,
        alarm.body@ == scheduled.reminder.body@,
        alarm.exact,
        alarm.sound_id@ == resolved_resource(*sound),
        alarm.sound_label@ == resolved_label(*sound),
        alarm.vibrate,
{
    Alarm {
        occurrence_id: scheduled.occurrence.id.to_string(),
        note_id: scheduled.reminder.note_id.to_string(),
        request_code: scheduled.occurrence.alarm_request_code,
        trigger_at: scheduled.occurrence.occurrence_at,
        title: owned(scheduled.reminder.title.as_str()),
        body: owned(scheduled.reminder.body.as_str()),
        exact: true,
        sound_id: owned(sound.resource()),
        sound_label: owned(sound.label()),
        vibrate: true,
    }
}

/// Reads a page without the caller having to know the default size.
pub fn default_page() -> (p: PageRequest)
    ensures
        p.limit == DEFAULT_PAGE_LIMIT,
        p.offset == 0,
{
    PageRequest::new(DEFAULT_PAGE_LIMIT, 0)
}

/// A reminder request that passed every check that needs no storage: the note
/// it is for, its instant, and its trimmed title.
#[derive(Clone, Debug)]
pub struct CheckedReminderRequest {
    pub note_id: NoteId,
    pub scheduled_at: Timestamp,
    pub title: String,
}

/// What the storage-free checks of a reminder request answer at the instant
/// `now`, in the order they are made: the note id parses, the time is still
/// ahead, the trimmed title is there and not too long, the body is not too
/// long, and the zone is one the zone database knows.
pub open spec fn checked_as(
    note_id: Seq<char>,
    scheduled_at: i64,
    title: Seq<char>,
    body: Seq<char>,
    timezone: Seq<char>,
    now: i64,
    r: AppResult<CheckedReminderRequest>,
) -> bool {
    match crate::domain::ids::uuid_parse(note_id) {
        None => r == Err::<CheckedReminderRequest, AppError>(
            AppError::Validation(ValidationError::Invalid { field: "note_id" }),
        ),
        Some(bits) => if scheduled_at <= now {
            r == Err::<CheckedReminderRequest, AppError>(
                AppError::Validation(ValidationError::TimeInPast),
            )
        } else if trim(title).len() == 0 {
            r == Err::<CheckedReminderRequest, AppError>(
                AppError::Validation(ValidationError::Required { field: "title" }),
            )
        } else if trim(title).len() > MAX_TITLE_LEN {
            r == Err::<CheckedReminderRequest, AppError>(
                AppError::Validation(
                    ValidationError::TooLong { field: "title", max: MAX_TITLE_LEN },
                ),
            )
        } else if body.len() > crate::domain::notes::MAX_CONTENT_LEN {
            r == Err::<CheckedReminderRequest, AppError>(
                AppError::Validation(
                    ValidationError::TooLong {
                        field: "content_text",
                        max: crate::domain::notes::MAX_CONTENT_LEN,
                    },
                ),
            )
        } else if !known_zone(timezone) {
            r matches Err(AppError::Validation(ValidationError::UnknownTimeZone { value }))
                && value@ == timezone
        } else {
            r matches Ok(checked) && checked.note_id@ == bits && checked.scheduled_at.0
                == scheduled_at && checked.title@ == trim(title)
        },
    }
}

/// The checks a reminder request goes through before storage or the platform
/// is touched: the note id parses, the instant is still ahead, the trimmed
/// title is there and not too long, the body is not too long, and the zone is
/// one the zone database knows.
///
/// # Errors
/// The first check that fails, as listed.
pub fn check_reminder_request(
    note_id: &str,
    scheduled_at: i64,
    title: &str,
    body: &str,
    timezone: &str,
    now: Timestamp,
) -> (r: AppResult<CheckedReminderRequest>)
    ensures
        checked_as(note_id@, scheduled_at, title@, body@, timezone@, now.0, r),
{
    let id = NoteId::parse(note_id)?;
    let at = Timestamp(scheduled_at);
    if at.0 <= now.0 {
        return Err(AppError::Validation(ValidationError::TimeInPast));
    }
    let title_chars = chars_of(title);
    let trimmed = trim_chars(&title_chars);
    if trimmed.len() == 0 {
        return Err(AppError::Validation(ValidationError::Required { field: "title" }));
    }
    let trimmed_title = string_of(&trimmed);
    crate::domain::notes::validate_title(trimmed_title.as_str())?;
    crate::domain::notes::validate_content(body)?;
    parse_zone(timezone)?;
    Ok(CheckedReminderRequest { note_id: id, scheduled_at: at, title: trimmed_title })
}

/// What to undo when storage refuses a reminder after the platform was already
/// asked to arm it: the new alarm is taken back, and the one it was replacing,
/// if there was one, is armed again.
#[derive(Clone, Debug)]
pub struct Rollback {
    /// The request code of the alarm to cancel.
    pub cancel: Option<i32>,
    /// The reminder whose alarm to arm again.
    pub rearm: Option<ScheduledReminder>,
}

/// The rollback for a failed save, given what had been handed to the alarm
/// callback: the reminder replaced, if any, and the one being armed. Nothing is
/// undone when the callback was never reached.
pub fn rollback_after_failed_save(applied: Option<(Option<ScheduledReminder>, ScheduledReminder)>)
    -> (plan: Rollback)
    ensures
        match applied {
            None => plan.cancel is None && plan.rearm is None,
            Some((previous, next)) => plan.cancel == Some(next.occurrence.alarm_request_code)
                && plan.rearm == previous,
        },
{
    match applied {
        None => Rollback { cancel: None, rearm: None },
        Some((previous, next)) => Rollback {
            cancel: Some(next.occurrence.alarm_request_code),
            rearm: previous,
        },
    }
}

/// What to do about notifications before a reminder is armed.
#[derive(Clone, Copy, PartialEq, Eq, Debug, Structural)]
pub enum NotificationStep {
    /// Already granted: go on.
    Proceed,
    /// Not granted: ask, and go on only if the answer is yes.
    Ask,
}

pub fn notification_step(granted: bool) -> (step: NotificationStep)
    ensures
        step == (if granted {
            NotificationStep::Proceed
        } else {
            NotificationStep::Ask
        }),
{
    if granted {
        NotificationStep::Proceed
    } else {
        NotificationStep::Ask
    }
}

/// The answer to the question asked: a refusal is the notifications-denied
/// error, because an alarm nobody will see is not worth arming.
///
/// # Errors
/// Notifications denied when the answer was no.
pub fn after_asking(granted_now: bool) -> (r: AppResult<()>)
    ensures
        granted_now ==> r == Ok::<(), AppError>(()),
        !granted_now ==> r == Err::<(), AppError>(
            AppError::Notification(NotificationError::NotificationsDenied),
        ),
{
    if granted_now {
        Ok(())
    } else {
        Err(AppError::Notification(NotificationError::NotificationsDenied))
    }
}

/// Notes: every identifier a request carries is parsed before storage is
/// asked anything.
pub struct NoteUseCases<N: NoteRepository + ?Sized> {
    notes: Arc<N>,
}

/// Why a list request is refused before storage is asked: a folder id that
/// is not one, then a tag id that is not one.
pub open spec fn filter_refusal(folder_id: Option<Seq<char>>, tag_id: Option<Seq<char>>) -> Option<AppError> {
    if parsed_id(folder_id) is None {
        Some(AppError::Validation(ValidationError::Invalid { field: "folder_id" }))
    } else if parsed_id(tag_id) is None {
        Some(AppError::Validation(ValidationError::Invalid { field: "tag_id" }))
    } else {
        None
    }
}

impl<N: NoteRepository + ?Sized> NoteUseCases<N> {
    /// The storage it was given.
    pub closed spec fn storage(&self) -> Arc<N> {
        self.notes
    }

    pub fn new(notes: Arc<N>) -> (u: NoteUseCases<N>)
        ensures
            u.storage() == notes,
    {
        NoteUseCases { notes }
    }

    /// # Errors
    /// What storage answered.
    pub fn create(&self, draft: NoteDraft) -> (r: AppResult<Note>) {
        self.notes.create(draft)
    }

    /// # Errors
    /// An invalid `note_id` for a malformed identifier, else what storage answered.
    pub fn get(&self, id: &str) -> (r: AppResult<Option<Note>>)
        ensures
            uuid_parse(id@) is None ==> r == Err::<Option<Note>, AppError>(
                AppError::Validation(ValidationError::Invalid { field: "note_id" }),
            ),
    {
        let id = NoteId::parse(id)?;
        self.notes.find(id)
    }

    /// # Errors
    /// An invalid `note_id` for a malformed identifier, else what storage answered.
    pub fn update(&self, id: &str, patch: NotePatch) -> (r: AppResult<Note>)
        ensures
            uuid_parse(id@) is None ==> r == Err::<Note, AppError>(
                AppError::Validation(ValidationError::Invalid { field: "note_id" }),
            ),
    {
        let id = NoteId::parse(id)?;
        self.notes.update(id, patch)
    }

    /// # Errors
    /// An invalid `note_id` for a malformed identifier, else what storage answered.
    pub fn move_to_trash(&self, id: &str) -> (r: AppResult<()>)
        ensures
            uuid_parse(id@) is None ==> r == Err::<(), AppError>(
                AppError::Validation(ValidationError::Invalid { field: "note_id" }),
            ),
    {
        let id = NoteId::parse(id)?;
        self.notes.soft_delete(id)
    }

    /// # Errors
    /// An invalid `note_id` for a malformed identifier, else what storage answered.
    pub fn restore(&self, id: &str) -> (r: AppResult<Note>)
        ensures
            uuid_parse(id@) is None ==> r == Err::<Note, AppError>(
                AppError::Validation(ValidationError::Invalid { field: "note_id" }),
            ),
    {
        let id = NoteId::parse(id)?;
        self.notes.restore(id)
    }

    /// # Errors
    /// An invalid `note_id` for a malformed identifier, else what storage answered.
    pub fn purge(&self, id: &str) -> (r: AppResult<()>)
        ensures
            uuid_parse(id@) is None ==> r == Err::<(), AppError>(
                AppError::Validation(ValidationError::Invalid { field: "note_id" }),
            ),
    {
        let id = NoteId::parse(id)?;
        self.notes.purge(id)
    }

    /// Empties the whole trash, however recently things went in.
    ///
    /// # Errors
    /// What storage answered.
    pub fn empty_trash(&self) -> (r: AppResult<u32>) {
        self.notes.purge_trash(None)
    }

    /// # Errors
    /// An invalid `folder_id` or `tag_id` for a malformed identifier, else
    /// what storage answered.
    pub fn list(&self, request: &ListNotesRequest) -> (r: AppResult<Page<Note>>)
        ensures
            filter_refusal(opt_view(request.folder_id), opt_view(request.tag_id)) matches Some(e)
                ==> r == Err::<Page<Note>, AppError>(e),
    {
        let filter = request.to_filter()?;
        self.notes.list(&filter, request.sort, request.to_page())
    }

    /// # Errors
    /// An invalid `note_id` for a malformed identifier, else what storage answered.
    pub fn duplicate(&self, id: &str) -> (r: AppResult<Note>)
        ensures
            uuid_parse(id@) is None ==> r == Err::<Note, AppError>(
                AppError::Validation(ValidationError::Invalid { field: "note_id" }),
            ),
    {
        let id = NoteId::parse(id)?;
        self.notes.duplicate(id)
    }

    /// # Errors
    /// An invalid `folder_id` or `tag_id` for a malformed identifier, else
    /// what storage answered.
    pub fn count(&self, request: &ListNotesRequest) -> (r: AppResult<u32>)
        ensures
            filter_refusal(opt_view(request.folder_id), opt_view(request.tag_id)) matches Some(e)
                ==> r == Err::<u32, AppError>(e),
    {
        let filter = request.to_filter()?;
        self.notes.count(&filter)
    }
}

/// Whether a search request is the first page of its query: only that one
/// counts as the user running the search, so paging through the results does
/// not push the query back to the top of the recent list.
pub open spec fn is_first_page(offset: Option<u32>) -> bool {
    match offset {
        Some(o) => o == 0,
        None => true,
    }
}

pub fn records_history(offset: Option<u32>) -> (b: bool)
    ensures
        b == is_first_page(offset),
{
    match offset {
        Some(o) => o == 0,
        None => true,
    }
}

/// How many recent queries are listed when the caller names no limit.
pub const DEFAULT_RECENT_QUERIES: u32 = 10;

/// The number of recent queries asked of storage: the caller's, or ten.
pub fn recent_limit(limit: Option<u32>) -> (n: u32)
    ensures
        n == match limit {
            Some(l) => l,
            None => DEFAULT_RECENT_QUERIES,
        },
{
    match limit {
        Some(l) => l,
        None => DEFAULT_RECENT_QUERIES,
    }
}

/// Search, and the history of searches run.
pub struct SearchUseCases<S: SearchRepository + ?Sized> {
    search: Arc<S>,
}

impl<S: SearchRepository + ?Sized> SearchUseCases<S> {
    /// The index it was given.
    pub closed spec fn storage(&self) -> Arc<S> {
        self.search
    }

    pub fn new(search: Arc<S>) -> (u: SearchUseCases<S>)
        ensures
            u.storage() == search,
    {
        SearchUseCases { search }
    }

    /// Runs a search and, for the first page of a query, remembers the query
    /// with how many results it found.
    ///
    /// # Errors
    /// An invalid `folder_id` or `tag_id` for a malformed identifier, else
    /// what storage answered.
    pub fn search(&self, request: &SearchRequest) -> (r: AppResult<Page<S::Hit>>)
        ensures
            filter_refusal(opt_view(request.folder_id), opt_view(request.tag_id)) matches Some(e)
                ==> r == Err::<Page<S::Hit>, AppError>(e),
    {
        let query = request.to_query()?;
        let page = self.search.search(&query, request.to_page())?;
        if records_history(request.offset) {
            self.search.record_history(request.text.as_str(), page.total)?;
        }
        Ok(page)
    }

    /// Runs a search without touching history.
    ///
    /// # Errors
    /// An invalid `folder_id` or `tag_id` for a malformed identifier, else
    /// what storage answered.
    pub fn search_quietly(&self, request: &SearchRequest) -> (r: AppResult<Page<S::Hit>>)
        ensures
            filter_refusal(opt_view(request.folder_id), opt_view(request.tag_id)) matches Some(e)
                ==> r == Err::<Page<S::Hit>, AppError>(e),
    {
        let query = request.to_query()?;
        self.search.search(&query, request.to_page())
    }

    /// # Errors
    /// What storage answered.
    pub fn recent_queries(&self, limit: Option<u32>) -> (r: AppResult<Vec<String>>) {
        self.search.recent_queries(recent_limit(limit))
    }

    /// # Errors
    /// What storage answered.
    pub fn clear_history(&self) -> (r: AppResult<()>) {
        self.search.clear_history()
    }
}

/// The note a notification tap asked to open: the id the platform handed
/// back, written out again, when it is an id at all. Anything else counts as
/// nothing pending, because this is asked on every start and failing it would
/// break opening the app normally.
pub open spec fn launch_note_of(target: Option<Seq<char>>) -> Option<Seq<char>> {
    match target {
        Some(text) => match uuid_parse(text) {
            Some(bits) => Some(hyphenated(bits)),
            None => None,
        },
        None => None,
    }
}

pub fn launch_note(target: Option<String>) -> (r: Option<String>)
    ensures
        opt_view(r) == launch_note_of(opt_view(target)),
{
    match target {
        Some(text) => match NoteId::parse(text.as_str()) {
            Ok(id) => Some(id.to_string()),
            Err(_) => None,
        },
        None => None,
    }
}

/// A reminder request passes every check that needs no storage at the
/// instant `now`: the note id parses, the time is still ahead, the trimmed
/// title is there and not too long, the body is not too long, and the zone is
/// one the zone database knows.
pub open spec fn reminder_request_passes(
    note_id: Seq<char>,
    scheduled_at: i64,
    title: Seq<char>,
    body: Seq<char>,
    timezone: Seq<char>,
    now: i64,
) -> bool {
    &&& uuid_parse(note_id) is Some
    &&& scheduled_at > now
    &&& 0 < trim(title).len() <= MAX_TITLE_LEN
    &&& body.len() <= crate::domain::notes::MAX_CONTENT_LEN
    &&& known_zone(timezone)
}

/// The sound a selection stands for, resolved against a configured default:
/// a device sound passes through by its id, the bundled preset is itself, and
/// any other id resolves to nothing.
pub open spec fn resolves_to(selected: Seq<char>, configured: Option<Seq<char>>, sound: ResolvedSound) -> bool {
    let id = concrete_sound(selected, configured);
    if is_device_sound(id) {
        sound matches ResolvedSound::Device { id: device } && device@ == id
    } else {
        id == "death_and_rebirth"@ && (sound matches ResolvedSound::Preset(preset) && is_bundled_sound(preset))
    }
}

/// The draft a checked request is saved as, once its rule and its first
/// reading are found: no reminder id (the note's one active reminder is
/// replaced), the note, the trimmed title, the body, the instant, the zone,
/// the sound as selected, the rule, and the instants of its window from now.
pub open spec fn placed_as(
    checked: CheckedReminderRequest,
    request: UpsertReminderRequest,
    recurrence: Option<Recurrence>,
    now: i64,
    r: AppResult<ReminderDraft>,
) -> bool {
    if !known_zone(request.timezone@) {
        r matches Err(AppError::Validation(ValidationError::UnknownTimeZone { value }))
            && value@ == request.timezone@
    } else {
        match zone_reading(checked.scheduled_at.0 as int, request.timezone@) {
            None => r == Err::<ReminderDraft, AppError>(
                AppError::Validation(ValidationError::Invalid { field: "timestamp" }),
            ),
            Some(first) => r matches Ok(d) && {
                &&& d.reminder_id is None
                &&& d.note_id == checked.note_id
                &&& d.title@ == checked.title@
                &&& d.body@ == request.body@
                &&& d.scheduled_at == checked.scheduled_at
                &&& d.timezone@ == request.timezone@
                &&& d.sound@ == request.sound@
                &&& d.recurrence == recurrence
                &&& d.occurrences@ == window_of(
                    first,
                    request.timezone@,
                    recurrence,
                    Timestamp(now),
                    WINDOW as nat,
                )
            },
        }
    }
}

/// What building the draft answers: an unknown recurrence rule is refused
/// first, then the draft is placed.
pub open spec fn draft_as(
    checked: CheckedReminderRequest,
    request: UpsertReminderRequest,
    now: i64,
    r: AppResult<ReminderDraft>,
) -> bool {
    match request.recurrence {
        Some(rule) => match rule_named(rule@) {
            None => r matches Err(AppError::Reminder(ReminderError::InvalidRecurrence { reason }))
                && reason@ == refusal_reason(rule@),
            Some(found) => placed_as(checked, request, Some(found), now, r),
        },
        None => placed_as(checked, request, None, now, r),
    }
}

/// The draft storage is handed for a checked request at the instant `now`.
///
/// # Errors
/// An invalid recurrence rule, an unknown zone, or an invalid `timestamp`
/// when the instant has no reading in the zone.
pub fn reminder_draft(checked: CheckedReminderRequest, request: &UpsertReminderRequest, now: Timestamp) -> (r:
    AppResult<ReminderDraft>)
    ensures
        draft_as(checked, *request, now.0, r),
{
    let recurrence = match &request.recurrence {
        Some(rule) => Some(Recurrence::parse(rule.as_str())?),
        None => None,
    };
    let zone = parse_zone(request.timezone.as_str())?;
    let first = checked.scheduled_at.to_zoned(&zone)?;
    let occurrences = window(first, &zone, recurrence, now, WINDOW);
    Ok(ReminderDraft {
        reminder_id: None,
        note_id: checked.note_id,
        title: checked.title,
        body: request.body.clone(),
        scheduled_at: checked.scheduled_at,
        timezone: request.timezone.clone(),
        sound: request.sound.clone(),
        recurrence,
        occurrences,
    })
}

/// What saving a reminder answers, given the clock's instant `now` and what
/// the checks and the draft answered then: each of the library's refusals
/// before storage or the platform is touched, and, when the reminder is kept,
/// the sound it plays is the selection resolved against a configured default.
pub open spec fn upsert_as(
    request: UpsertReminderRequest,
    now: i64,
    checked: AppResult<CheckedReminderRequest>,
    draft: AppResult<ReminderDraft>,
    r: AppResult<ReminderView>,
) -> bool {
    &&& checked_as(request.note_id@, request.scheduled_at, request.title@, request.body@, request.timezone@, now, checked)
    &&& match checked {
        Err(e) => r == Err::<ReminderView, AppError>(e),
        Ok(c) => {
            &&& draft_as(c, request, now, draft)
            &&& match draft {
                Err(e) => r == Err::<ReminderView, AppError>(e),
                Ok(_) => r matches Ok(v) ==> exists|conf: Option<Seq<char>>| resolves_to(request.sound@, conf, v.effective_sound),
            }
        },
    }
}

/// The times as `HH:MM` labels.
pub open spec fn labels_of(minutes: Seq<int>) -> Seq<Seq<char>> {
    Seq::new(minutes.len(), |i: int| clock_label(minutes[i]))
}

pub open spec fn string_list(v: Seq<String>) -> Seq<Seq<char>> {
    Seq::new(v.len(), |i: int| v[i]@)
}

/// The stored default a catalog answers with: the configured one, or the
/// bundled sound when none is configured.
pub open spec fn catalog_default(configured: Option<Seq<char>>) -> Seq<char> {
    match configured {
        Some(c) => c,
        None => FALLBACK_SOUND_ID@,
    }
}

/// The sound choices for a configured default: the bundled presets, and the
/// default resolved to the id it plays.
///
/// # Errors
/// An invalid `sound` when the configured default is a bare id this build
/// does not ship.
pub fn catalog_for(configured: Option<&str>) -> (r: AppResult<ReminderSoundCatalog>)
    ensures
        ({
            let id = concrete_sound(catalog_default(str_view(configured)), None);
            if is_device_sound(id) || id == "death_and_rebirth"@ {
                (r matches Ok(c) && c.default_sound_id@ == id && c.items@.len() == 1 && is_bundled_sound(c.items@[0]))
            } else {
                r == Err::<ReminderSoundCatalog, AppError>(
                    AppError::Validation(ValidationError::Invalid { field: "sound" }),
                )
            }
        }),
{
    let default: &str = match configured {
        Some(c) => c,
        None => FALLBACK_SOUND_ID,
    };
    let sound = resolve_sound(default, None)?;
    Ok(ReminderSoundCatalog { default_sound_id: owned(sound.id()), items: sound_presets() })
}

/// Two strictly increasing lists of the same times are the same list.
proof fn lemma_increasing_lists_agree(a: Seq<int>, b: Seq<int>)
    requires
        strictly_increasing(a),
        strictly_increasing(b),
        forall|x: int| a.contains(x) <==> b.contains(x),
    ensures
        a == b,
    decreases a.len(),
{
    if a.len() == 0 {
        if b.len() > 0 {
            assert(b.contains(b[0]));
        }
        assert(a =~= b);
    } else {
        assert(a.contains(a[0]));
        assert(b.len() > 0);
        assert(b.contains(b[0]));
        let k = choose|k: int| 0 <= k < b.len() && b[k] == a[0];
        let j = choose|j: int| 0 <= j < a.len() && a[j] == b[0];
        if k > 0 {
            assert(b[0] < b[k]);
            if j > 0 {
                assert(a[0] < a[j]);
            }
            assert(false);
        }
        assert(a[0] == b[0]);
        let ta = a.drop_first();
        let tb = b.drop_first();
        assert forall|x: int| ta.contains(x) <==> tb.contains(x) by {
            if ta.contains(x) {
                let i = choose|i: int| 0 <= i < ta.len() && ta[i] == x;
                assert(a[i + 1] == x && a[0] < a[i + 1]);
                assert(a.contains(x));
                let m = choose|m: int| 0 <= m < b.len() && b[m] == x;
                assert(m != 0);
                assert(tb[m - 1] == x);
            }
            if tb.contains(x) {
                let i = choose|i: int| 0 <= i < tb.len() && tb[i] == x;
                assert(b[i + 1] == x && b[0] < b[i + 1]);
                assert(b.contains(x));
                let m = choose|m: int| 0 <= m < a.len() && a[m] == x;
                assert(m != 0);
                assert(ta[m - 1] == x);
            }
        }
        lemma_increasing_lists_agree(ta, tb);
        assert(a =~= seq![a[0]] + ta);
        assert(b =~= seq![b[0]] + tb);
    }
}

/// Arms the alarm of the reminder the store is about to keep, and remembers
/// what it was handed so a failed save can be undone.
struct Arming<'a, A: AlarmClock + ?Sized> {
    alarms: &'a A,
    sound: &'a ResolvedSound,
    applied: Option<(Option<ScheduledReminder>, ScheduledReminder)>,
}

impl<'a, A: AlarmClock + ?Sized> ArmAlarm for Arming<'a, A> {
    fn arm(&mut self, previous: Option<&ScheduledReminder>, next: &ScheduledReminder) -> AppResult<bool> {
        let previous = match previous {
            Some(p) => Some(p.clone()),
            None => None,
        };
        self.applied = Some((previous, next.clone()));
        self.alarms.schedule(&alarm_from(next, self.sound))
    }
}

/// Cancels the alarm of the reminder the store is about to delete, and
/// remembers it so a failed delete can re-arm it.
struct Disarming<'a, A: AlarmClock + ?Sized> {
    alarms: &'a A,
    cancelled: Option<ScheduledReminder>,
}

impl<'a, A: AlarmClock + ?Sized> DisarmAlarm for Disarming<'a, A> {
    fn disarm(&mut self, current: &ScheduledReminder) -> AppResult<()> {
        self.cancelled = Some(current.clone());
        self.alarms.cancel(current.occurrence.alarm_request_code)
    }
}

/// A note's reminder: what is checked before storage or the platform is
/// asked anything, and what is undone when the save fails after the alarm was
/// armed.
pub struct ReminderUseCases<R: ReminderRepository + ?Sized, A: AlarmClock + ?Sized, C: Clock + ?Sized> {
    reminders: Arc<R>,
    alarms: Arc<A>,
    clock: Arc<C>,
}

impl<R: ReminderRepository + ?Sized, A: AlarmClock + ?Sized, C: Clock + ?Sized> ReminderUseCases<R, A, C> {
    /// The storage, the alarm service and the clock it was given.
    pub closed spec fn parts(&self) -> (Arc<R>, Arc<A>, Arc<C>) {
        (self.reminders, self.alarms, self.clock)
    }

    pub fn new(reminders: Arc<R>, alarms: Arc<A>, clock: Arc<C>) -> (u: ReminderUseCases<R, A, C>)
        ensures
            u.parts() == (reminders, alarms, clock),
    {
        ReminderUseCases { reminders, alarms, clock }
    }

    /// The note's active reminder still ahead, with the sound it will play.
    ///
    /// # Errors
    /// An invalid `note_id` for a malformed identifier; an invalid `sound` when
    /// the stored sound is not one this build can play; else what storage
    /// answered.
    pub fn get_for_note(&self, note_id: &str) -> (r: AppResult<Option<ReminderView>>)
        ensures
            uuid_parse(note_id@) is None ==> r == Err::<Option<ReminderView>, AppError>(
                AppError::Validation(ValidationError::Invalid { field: "note_id" }),
            ),
            r matches Ok(Some(v)) ==> exists|conf: Option<Seq<char>>| resolves_to(
                v.scheduled.reminder.sound@,
                conf,
                v.effective_sound,
            ),
    {
        let note = NoteId::parse(note_id)?;
        let configured = self.reminders.default_sound_id()?;
        let configured_ref = match &configured {
            Some(c) => Some(c.as_str()),
            None => None,
        };
        match self.reminders.find_active_for_note(note, self.clock.now())? {
            Some(scheduled) => {
                let sound = resolve_sound(scheduled.reminder.sound.as_str(), configured_ref)?;
                let view = ReminderView { scheduled, effective_sound: sound };
                assert(resolves_to(view.scheduled.reminder.sound@, str_view(configured_ref), view.effective_sound));
                Ok(Some(view))
            },
            None => Ok(None),
        }
    }

    /// Creates or replaces the note's active reminder and arms its alarm.
    ///
    /// The request is checked before storage or the platform is touched;
    /// notifications are asked for when they are not yet allowed, and a
    /// refusal stops here. The alarm is armed from inside the save; when the
    /// save then fails, the new alarm is taken back and the one it replaced is
    /// armed again.
    ///
    /// # Errors
    /// The first check that fails (see [`check_reminder_request`]), an invalid
    /// recurrence rule, an invalid `sound`, notifications denied, or what
    /// storage or the platform answered.
    pub fn upsert_for_note(&self, request: UpsertReminderRequest) -> (r: AppResult<ReminderView>)
        ensures
            uuid_parse(request.note_id@) is None ==> r == Err::<ReminderView, AppError>(
                AppError::Validation(ValidationError::Invalid { field: "note_id" }),
            ),
            exists|now: i64, checked: AppResult<CheckedReminderRequest>, draft: AppResult<ReminderDraft>|
                upsert_as(request, now, checked, draft, r),
            r is Ok ==> exists|now: i64| reminder_request_passes(
                request.note_id@,
                request.scheduled_at,
                request.title@,
                request.body@,
                request.timezone@,
                now,
            ),
    {
        let now = self.clock.now();
        let checked_r = check_reminder_request(
            request.note_id.as_str(),
            request.scheduled_at,
            request.title.as_str(),
            request.body.as_str(),
            request.timezone.as_str(),
            now,
        );
        let ghost gc = checked_r;
        let checked = match checked_r {
            Ok(c) => c,
            Err(e) => {
                let r: AppResult<ReminderView> = Err(e);
                let ghost no_draft: AppResult<ReminderDraft> = Err(e);
                assert(upsert_as(request, now.0, gc, no_draft, r));
                return r;
            },
        };
        assert(reminder_request_passes(
            request.note_id@,
            request.scheduled_at,
            request.title@,
            request.body@,
            request.timezone@,
            now.0,
        ));
        let draft_r = reminder_draft(checked, &request, now);
        let ghost gd = draft_r;
        let draft = match draft_r {
            Ok(d) => d,
            Err(e) => {
                let r: AppResult<ReminderView> = Err(e);
                assert(upsert_as(request, now.0, gc, gd, r));
                return r;
            },
        };
        let r = self.save_and_arm(draft, request.sound.as_str());
        assert(upsert_as(request, now.0, gc, gd, r));
        r
    }

    /// Resolves the sound, asks for notifications when they are not yet
    /// allowed, and saves the draft with its alarm armed from inside the save;
    /// when the save then fails, the new alarm is taken back and the one it
    /// replaced is armed again.
    fn save_and_arm(&self, draft: ReminderDraft, selected: &str) -> (r: AppResult<ReminderView>)
        ensures
            r matches Ok(v) ==> exists|conf: Option<Seq<char>>| resolves_to(selected@, conf, v.effective_sound),
    {
        let configured = self.reminders.default_sound_id()?;
        let configured_ref = match &configured {
            Some(c) => Some(c.as_str()),
            None => None,
        };
        let ghost conf = str_view(configured_ref);
        let sound = resolve_sound(selected, configured_ref)?;
        assert(resolves_to(selected@, conf, sound));
        let permissions = self.alarms.permissions()?;
        match notification_step(permissions.notifications_granted) {
            NotificationStep::Proceed => {},
            NotificationStep::Ask => {
                let granted = self.alarms.request_notification_permission()?;
                after_asking(granted)?;
            },
        }

        let mut arming = Arming { alarms: &*self.alarms, sound: &sound, applied: None };
        let saved = self.reminders.upsert_for_note(draft, &mut arming);
        let applied = arming.applied;
        match saved {
            Ok(scheduled) => {
                let view = ReminderView { scheduled, effective_sound: sound };
                assert(resolves_to(selected@, conf, view.effective_sound));
                Ok(view)
            },
            Err(error) => {
                let plan = rollback_after_failed_save(applied);
                match plan.cancel {
                    Some(code) => {
                        let _ = self.alarms.cancel(code);
                    },
                    None => {},
                }
                match plan.rearm {
                    Some(old) => match resolve_sound(old.reminder.sound.as_str(), configured_ref) {
                        Ok(old_sound) => {
                            let _ = self.alarms.schedule(&alarm_from(&old, &old_sound));
                        },
                        Err(_) => {},
                    },
                    None => {},
                }
                Err(error)
            },
        }
    }

    /// Cancels and deletes the note's active reminder, answering what it was.
    /// When the delete fails after the alarm was cancelled, the alarm is
    /// armed again.
    ///
    /// # Errors
    /// An invalid `note_id` for a malformed identifier; an invalid `sound`
    /// when the deleted reminder's sound cannot be played; else what storage
    /// or the platform answered.
    pub fn delete_for_note(&self, note_id: &str) -> (r: AppResult<Option<ReminderView>>)
        ensures
            uuid_parse(note_id@) is None ==> r == Err::<Option<ReminderView>, AppError>(
                AppError::Validation(ValidationError::Invalid { field: "note_id" }),
            ),
            r matches Ok(Some(v)) ==> exists|conf: Option<Seq<char>>| resolves_to(
                v.scheduled.reminder.sound@,
                conf,
                v.effective_sound,
            ),
    {
        let note = NoteId::parse(note_id)?;
        let configured = self.reminders.default_sound_id()?;
        let configured_ref = match &configured {
            Some(c) => Some(c.as_str()),
            None => None,
        };
        let mut disarming = Disarming { alarms: &*self.alarms, cancelled: None };
        let deleted = self.reminders.delete_for_note(note, &mut disarming);
        let cancelled = disarming.cancelled;
        match deleted {
            Ok(Some(scheduled)) => {
                let sound = resolve_sound(scheduled.reminder.sound.as_str(), configured_ref)?;
                let view = ReminderView { scheduled, effective_sound: sound };
                assert(resolves_to(view.scheduled.reminder.sound@, str_view(configured_ref), view.effective_sound));
                Ok(Some(view))
            },
            Ok(None) => Ok(None),
            Err(error) => {
                match cancelled {
                    Some(previous) => match resolve_sound(previous.reminder.sound.as_str(), configured_ref) {
                        Ok(sound) => {
                            let _ = self.alarms.schedule(&alarm_from(&previous, &sound));
                        },
                        Err(_) => {},
                    },
                    None => {},
                }
                Err(error)
            },
        }
    }

    /// The note a notification tap asked to open, once.
    ///
    /// # Errors
    /// What the platform answered when asked.
    pub fn take_launch_target(&self) -> (r: AppResult<Option<String>>)
        ensures
            r matches Ok(target) ==> (target matches Some(s) ==> exists|bits: u128| s@ == hyphenated(bits)),
    {
        let target = self.alarms.take_launch_target()?;
        let ghost seen = opt_view(target);
        let note = launch_note(target);
        proof {
            if note is Some {
                let bits = uuid_parse(seen->0)->0;
                assert(note->0@ == hyphenated(bits));
            }
        }
        Ok(note)
    }

    /// The sound choices and the concrete global default.
    ///
    /// # Errors
    /// An invalid `sound` when the stored default is not a sound this build
    /// can play; else what storage answered.
    pub fn sound_catalog(&self) -> (r: AppResult<ReminderSoundCatalog>)
        ensures
            r matches Ok(c) ==> c.items@.len() == 1 && is_bundled_sound(c.items@[0]),
            r matches Ok(c) ==> exists|conf: Option<Seq<char>>| c.default_sound_id@ == concrete_sound(
                catalog_default(conf),
                None,
            ),
    {
        let configured = self.reminders.default_sound_id()?;
        let configured_ref = match &configured {
            Some(c) => Some(c.as_str()),
            None => None,
        };
        let ghost conf = str_view(configured_ref);
        let r = catalog_for(configured_ref);
        assert(r matches Ok(c) ==> c.default_sound_id@ == concrete_sound(catalog_default(conf), None));
        r
    }

    /// The times offered for one-tap picking, as `HH:MM`.
    ///
    /// # Errors
    /// An invalid `time_presets` when the stored set is not the form this
    /// build writes; else what storage answered.
    pub fn time_presets(&self) -> (r: AppResult<Vec<String>>)
        ensures
            r matches Ok(v) ==> exists|p: Seq<int>| #[trigger] strictly_increasing(p) && p.len()
                <= MAX_TIME_PRESETS && string_list(v@) == labels_of(p),
    {
        let stored = self.reminders.time_presets()?;
        let stored_ref = match &stored {
            Some(s) => Some(s.as_str()),
            None => None,
        };
        let presets = time_presets::parse_stored(stored_ref)?;
        let out = labels(presets.as_slice());
        proof {
            let p = preset_views(presets@);
            assert(strictly_increasing(p) && p.len() <= MAX_TIME_PRESETS) by {
                if stored_ref is None {
                    assert(p == default_minutes());
                }
            }
            assert(string_list(out@) =~= labels_of(p));
        }
        Ok(out)
    }

    /// Replaces the whole set of preset times and answers it as written.
    ///
    /// # Errors
    /// An invalid `time_presets` for a value that is not a real `HH:MM` time
    /// or more values than the cap; else what storage answered.
    pub fn save_time_presets(&self, values: &[String]) -> (r: AppResult<Vec<String>>)
        ensures
            !all_times(string_list(values@)) ==> r == Err::<Vec<String>, AppError>(invalid_presets()),
            (exists|s: Seq<int>| #[trigger] canonical_times(s, string_list(values@)) && s.len()
                > MAX_TIME_PRESETS) ==> r == Err::<Vec<String>, AppError>(invalid_presets()),
            r matches Ok(v) ==> exists|p: Seq<int>| #[trigger] canonical_times(p, string_list(values@))
                && p.len() <= MAX_TIME_PRESETS && string_list(v@) == labels_of(p),
    {
        let mut texts: Vec<&str> = Vec::new();
        let mut i: usize = 0;
        while i < values.len()
            invariant
                i <= values@.len(),
                texts@.len() == i,
                forall|j: int| 0 <= j < i ==> (#[trigger] texts@[j])@ == values@[j]@,
            decreases values.len() - i,
        {
            texts.push(values[i].as_str());
            i = i + 1;
        }
        proof {
            assert(str_views(texts@) =~= string_list(values@));
        }
        let presets = time_presets::normalise(texts.as_slice())?;
        proof {
            let p = preset_views(presets@);
            if exists|s: Seq<int>| #[trigger] canonical_times(s, string_list(values@)) && s.len()
                > MAX_TIME_PRESETS {
                let s = choose|s: Seq<int>| #[trigger] canonical_times(s, string_list(values@))
                    && s.len() > MAX_TIME_PRESETS;
                lemma_increasing_lists_agree(p, s);
                assert(false);
            }
        }
        let raw = time_presets::serialise(presets.as_slice())?;
        self.reminders.set_time_presets(raw.as_str())?;
        let out = labels(presets.as_slice());
        proof {
            assert(string_list(out@) =~= labels_of(preset_views(presets@)));
        }
        Ok(out)
    }
}

/// Moves a note to the trash and cancels its active reminder as one user
/// action: when the reminder cannot be cancelled, the note comes back.
///
/// # Errors
/// An invalid `note_id` for a malformed identifier, else what storage or the
/// platform answered.
pub fn move_note_to_trash<
    N: NoteRepository + ?Sized,
    R: ReminderRepository + ?Sized,
    A: AlarmClock + ?Sized,
    C: Clock + ?Sized,
>(notes: &NoteUseCases<N>, reminders: &ReminderUseCases<R, A, C>, id: &str) -> (r: AppResult<()>)
    ensures
        uuid_parse(id@) is None ==> r == Err::<(), AppError>(
            AppError::Validation(ValidationError::Invalid { field: "note_id" }),
        ),
{
    notes.move_to_trash(id)?;
    match reminders.delete_for_note(id) {
        Ok(_) => Ok(()),
        Err(error) => {
            let _ = notes.restore(id);
            Err(error)
        },
    }
}

} // verus!
