use std::sync::atomic::{AtomicI32, Ordering};
use std::sync::{Arc, Mutex};

use keeps_core::application::dto::{ListNotesRequest, UpsertReminderRequest};
use keeps_core::application::quick_notes::QuickNoteUseCases;
use keeps_core::application::use_cases::{move_note_to_trash, NoteUseCases, ReminderUseCases};
use keeps_core::domain::quick_notes::settings::QuickNoteSettings;
use keeps_core::domain::reminders::time_presets::default_time_presets;
use keeps_core::domain::clock::{FixedClock, Timestamp};
use keeps_core::domain::ids::{NoteId, ReminderId, ReminderOccurrenceId};
use keeps_core::domain::notes::repository::{NoteFilter, NoteRepository, NoteScope, NoteSort, Page, PageRequest};
use keeps_core::domain::notes::{Note, NoteDraft, NotePatch, NoteType};
use keeps_core::domain::reminders::repository::{ArmAlarm, DisarmAlarm, ReminderRepository};
use keeps_core::domain::reminders::{Reminder, ReminderDraft, ReminderOccurrence, ScheduledReminder};
use keeps_core::error::{AppError, AppResult, DatabaseError};
use keeps_core::platform::{Alarm, AlarmClock, AlarmPermissions};

const NOW: i64 = 1_000;

type Store = Arc<Mutex<Vec<Note>>>;

fn missing(id: NoteId) -> AppError {
    AppError::Database(DatabaseError::NotFound {
        entity: "note",
        id: id.to_string(),
    })
}

struct MemoryNotes {
    store: Store,
}

impl MemoryNotes {
    fn in_scope(note: &Note, filter: &NoteFilter) -> bool {
        match filter.scope {
            NoteScope::Active => note.deleted_at.is_none() && !note.is_archived,
            NoteScope::Archived => note.deleted_at.is_none() && note.is_archived,
            NoteScope::Trash => note.deleted_at.is_some(),
            NoteScope::Favorites => note.deleted_at.is_none() && note.is_favorite,
            NoteScope::AllExceptTrash => note.deleted_at.is_none(),
        }
    }
}

impl NoteRepository for MemoryNotes {
    fn create(&self, draft: NoteDraft) -> AppResult<Note> {
        let note = Note {
            id: NoteId::new(),
            note_type: draft.note_type.unwrap_or(NoteType::Text),
            title: draft.title.unwrap_or_default(),
            content_text: draft.content_text.unwrap_or_default(),
            content_json: draft.content_json,
            color: draft.color,
            background: draft.background,
            is_pinned: false,
            is_favorite: false,
            is_archived: false,
            is_readonly: false,
            position: 0,
            word_count: 0,
            char_count: 0,
            revision: 1,
            created_at: Timestamp::from_millis(NOW),
            updated_at: Timestamp::from_millis(NOW),
            deleted_at: None,
        };
        self.store.lock().unwrap().push(note.clone());
        Ok(note)
    }

    fn find(&self, id: NoteId) -> AppResult<Option<Note>> {
        Ok(self.store.lock().unwrap().iter().find(|n| n.id == id).cloned())
    }

    fn update(&self, id: NoteId, patch: NotePatch) -> AppResult<Note> {
        let mut store = self.store.lock().unwrap();
        let note = store.iter_mut().find(|n| n.id == id).ok_or_else(|| missing(id))?;
        if let Some(title) = patch.title {
            note.title = title;
        }
        Ok(note.clone())
    }

    fn soft_delete(&self, id: NoteId) -> AppResult<()> {
        let mut store = self.store.lock().unwrap();
        let note = store.iter_mut().find(|n| n.id == id).ok_or_else(|| missing(id))?;
        note.deleted_at = Some(Timestamp::from_millis(NOW));
        Ok(())
    }

    fn restore(&self, id: NoteId) -> AppResult<Note> {
        let mut store = self.store.lock().unwrap();
        let note = store.iter_mut().find(|n| n.id == id).ok_or_else(|| missing(id))?;
        note.deleted_at = None;
        Ok(note.clone())
    }

    fn purge(&self, id: NoteId) -> AppResult<()> {
        let mut store = self.store.lock().unwrap();
        let before = store.len();
        store.retain(|n| n.id != id);
        if store.len() == before {
            return Err(missing(id));
        }
        Ok(())
    }

    fn purge_trash(&self, _older_than: Option<Timestamp>) -> AppResult<u32> {
        let mut store = self.store.lock().unwrap();
        let before = store.len();
        store.retain(|n| n.deleted_at.is_none());
        Ok((before - store.len()) as u32)
    }

    fn list(&self, filter: &NoteFilter, _sort: NoteSort, page: PageRequest) -> AppResult<Page<Note>> {
        let store = self.store.lock().unwrap();
        let matching: Vec<Note> = store.iter().filter(|n| Self::in_scope(n, filter)).cloned().collect();
        Ok(Page {
            total: matching.len() as u32,
            items: matching
                .into_iter()
                .skip(page.offset as usize)
                .take(page.limit as usize)
                .collect(),
            limit: page.limit,
            offset: page.offset,
        })
    }

    fn duplicate(&self, id: NoteId) -> AppResult<Note> {
        let source = self.find(id)?.ok_or_else(|| missing(id))?;
        self.create(NoteDraft {
            content_text: Some(source.content_text),
            ..NoteDraft::default()
        })
    }

    fn count(&self, filter: &NoteFilter) -> AppResult<u32> {
        Ok(self
            .store
            .lock()
            .unwrap()
            .iter()
            .filter(|n| Self::in_scope(n, filter))
            .count() as u32)
    }
}

/// The reminders, kept in memory: one active reminder per note, armed
/// through the callback before it is kept and disarmed before it goes.
#[derive(Default)]
struct MemoryReminders {
    active: Mutex<Vec<ScheduledReminder>>,
    codes: AtomicI32,
}

impl ReminderRepository for MemoryReminders {
    fn find_active_for_note(&self, note_id: NoteId, now: Timestamp) -> AppResult<Option<ScheduledReminder>> {
        Ok(self
            .active
            .lock()
            .unwrap()
            .iter()
            .find(|s| s.reminder.note_id == note_id && s.occurrence.occurrence_at.as_millis() > now.as_millis())
            .cloned())
    }

    fn upsert_for_note<H: ArmAlarm>(&self, draft: ReminderDraft, arm: &mut H) -> AppResult<ScheduledReminder> {
        let reminder_id = ReminderId::new();
        let at = draft.occurrences.first().copied().unwrap_or(draft.scheduled_at);
        let mut next = ScheduledReminder {
            reminder: Reminder {
                id: reminder_id,
                note_id: draft.note_id,
                title: draft.title,
                body: draft.body,
                scheduled_at: draft.scheduled_at,
                timezone: draft.timezone,
                sound: draft.sound,
                recurrence: draft.recurrence,
                snooze_minutes: 60,
                is_enabled: true,
            },
            occurrence: ReminderOccurrence {
                id: ReminderOccurrenceId::new(),
                reminder_id,
                occurrence_at: at,
                alarm_request_code: self.codes.fetch_add(1, Ordering::Relaxed) + 1,
                is_exact: true,
            },
        };
        let mut active = self.active.lock().unwrap();
        let previous = active.iter().find(|s| s.reminder.note_id == next.reminder.note_id).cloned();
        next.occurrence.is_exact = arm.arm(previous.as_ref(), &next)?;
        active.retain(|s| s.reminder.note_id != next.reminder.note_id);
        active.push(next.clone());
        Ok(next)
    }

    fn delete_for_note<H: DisarmAlarm>(&self, note_id: NoteId, disarm: &mut H) -> AppResult<Option<ScheduledReminder>> {
        let mut active = self.active.lock().unwrap();
        let Some(current) = active.iter().find(|s| s.reminder.note_id == note_id).cloned() else {
            return Ok(None);
        };
        disarm.disarm(&current)?;
        active.retain(|s| s.reminder.note_id != note_id);
        Ok(Some(current))
    }

    fn default_sound_id(&self) -> AppResult<Option<String>> {
        Ok(None)
    }

    fn time_presets(&self) -> AppResult<Option<String>> {
        Ok(None)
    }

    fn set_time_presets(&self, _raw: &str) -> AppResult<()> {
        Ok(())
    }
}

#[derive(Default)]
struct FakeAlarmClock {
    scheduled: Mutex<Vec<Alarm>>,
    cancelled: Mutex<Vec<i32>>,
    launch_target: Mutex<Option<String>>,
    notifications_granted: bool,
    exact: bool,
}

impl AlarmClock for FakeAlarmClock {
    fn schedule(&self, alarm: &Alarm) -> AppResult<bool> {
        self.scheduled.lock().unwrap().push(alarm.clone());
        Ok(self.exact)
    }

    fn cancel(&self, request_code: i32) -> AppResult<()> {
        self.cancelled.lock().unwrap().push(request_code);
        Ok(())
    }

    fn cancel_all(&self) -> AppResult<()> {
        Ok(())
    }

    fn take_launch_target(&self) -> AppResult<Option<String>> {
        Ok(self.launch_target.lock().unwrap().take())
    }

    fn permissions(&self) -> AppResult<AlarmPermissions> {
        Ok(AlarmPermissions {
            notifications_granted: self.notifications_granted,
            exact_alarms: self.exact,
        })
    }

    fn request_notification_permission(&self) -> AppResult<bool> {
        Ok(self.notifications_granted)
    }
}

struct ReminderFixture {
    notes: NoteUseCases<MemoryNotes>,
    reminders: ReminderUseCases<MemoryReminders, FakeAlarmClock, FixedClock>,
    note_id: NoteId,
    alarms: Arc<FakeAlarmClock>,
}

fn reminder_fixture(notifications_granted: bool, exact: bool) -> ReminderFixture {
    let clock = Arc::new(FixedClock::new(Timestamp::from_millis(NOW)));
    let note_repository = Arc::new(MemoryNotes {
        store: Arc::new(Mutex::new(Vec::new())),
    });
    let note = note_repository
        .create(NoteDraft {
            title: Some("Заметка".into()),
            ..NoteDraft::default()
        })
        .expect("creates note");
    let alarms = Arc::new(FakeAlarmClock {
        notifications_granted,
        exact,
        ..FakeAlarmClock::default()
    });
    ReminderFixture {
        notes: NoteUseCases::new(note_repository),
        reminders: ReminderUseCases::new(Arc::new(MemoryReminders::default()), Arc::clone(&alarms), clock),
        note_id: note.id,
        alarms,
    }
}

fn valid_reminder_request(note_id: NoteId) -> UpsertReminderRequest {
    UpsertReminderRequest {
        note_id: note_id.to_string(),
        title: "Проверить".into(),
        body: "Текст".into(),
        scheduled_at: 2_000,
        timezone: "Asia/Almaty".into(),
        sound: "default".into(),
        recurrence: None,
    }
}

#[test]
fn reminder_upsert_rejects_past_time_before_touching_android() {
    let fixture = reminder_fixture(true, true);
    let mut request = valid_reminder_request(fixture.note_id);
    request.scheduled_at = 999;

    let error = fixture
        .reminders
        .upsert_for_note(request)
        .expect_err("past time fails");

    assert_eq!(error.code(), "validation_time_in_past");
    assert!(fixture.alarms.scheduled.lock().unwrap().is_empty());
}

#[test]
fn reminder_upsert_resolves_default_sound_and_records_inexact_fallback() {
    let fixture = reminder_fixture(true, false);

    let stored = fixture
        .reminders
        .upsert_for_note(valid_reminder_request(fixture.note_id))
        .expect("schedules");

    assert_eq!(stored.effective_sound.id(), "death_and_rebirth");
    assert!(!stored.scheduled.occurrence.is_exact);
    assert_eq!(
        fixture.alarms.scheduled.lock().unwrap()[0].sound_id,
        "death_and_rebirth"
    );
}

#[test]
fn denied_notifications_do_not_create_a_database_row() {
    let fixture = reminder_fixture(false, true);

    let error = fixture
        .reminders
        .upsert_for_note(valid_reminder_request(fixture.note_id))
        .expect_err("denied");

    assert_eq!(error.code(), "notification_permission_denied");
    assert!(fixture
        .reminders
        .get_for_note(&fixture.note_id.to_string())
        .expect("reads")
        .is_none());
}

#[test]
fn moving_a_note_to_trash_cancels_its_active_reminder() {
    let fixture = reminder_fixture(true, true);
    let scheduled = fixture
        .reminders
        .upsert_for_note(valid_reminder_request(fixture.note_id))
        .expect("schedules");

    move_note_to_trash(
        &fixture.notes,
        &fixture.reminders,
        &fixture.note_id.to_string(),
    )
    .expect("trashes");

    assert_eq!(
        fixture.alarms.cancelled.lock().unwrap().as_slice(),
        &[scheduled.scheduled.occurrence.alarm_request_code]
    );
    assert_eq!(
        fixture
            .notes
            .count(&ListNotesRequest::default())
            .expect("counts"),
        0
    );
}

#[test]
fn a_launch_target_that_is_not_a_note_id_counts_as_nothing_pending() {
    let fixture = reminder_fixture(true, true);
    *fixture.alarms.launch_target.lock().unwrap() = Some("not-a-note".into());
    assert_eq!(fixture.reminders.take_launch_target().expect("asks"), None);

    let id = fixture.note_id.to_string().to_uppercase();
    *fixture.alarms.launch_target.lock().unwrap() = Some(id);
    assert_eq!(
        fixture.reminders.take_launch_target().expect("asks"),
        Some(fixture.note_id.to_string())
    );
    assert_eq!(fixture.reminders.take_launch_target().expect("asks"), None);
}

/// A store that arms the alarm and then fails the write.
struct Refusing;
impl ReminderRepository for Refusing {
    fn find_active_for_note(&self, _: NoteId, _: Timestamp) -> AppResult<Option<ScheduledReminder>> {
        Ok(None)
    }
    fn upsert_for_note<H: ArmAlarm>(&self, draft: ReminderDraft, arm: &mut H) -> AppResult<ScheduledReminder> {
        let reminder_id = ReminderId::new();
        let next = ScheduledReminder {
            reminder: Reminder {
                id: reminder_id,
                note_id: draft.note_id,
                title: draft.title,
                body: draft.body,
                scheduled_at: draft.scheduled_at,
                timezone: draft.timezone,
                sound: draft.sound,
                recurrence: draft.recurrence,
                snooze_minutes: 60,
                is_enabled: true,
            },
            occurrence: ReminderOccurrence {
                id: ReminderOccurrenceId::new(),
                reminder_id,
                occurrence_at: draft.scheduled_at,
                alarm_request_code: 77,
                is_exact: true,
            },
        };
        arm.arm(None, &next)?;
        Err(AppError::Database(DatabaseError::Busy))
    }
    fn delete_for_note<H: DisarmAlarm>(&self, _: NoteId, _: &mut H) -> AppResult<Option<ScheduledReminder>> {
        Ok(None)
    }
    fn default_sound_id(&self) -> AppResult<Option<String>> {
        Ok(None)
    }
    fn time_presets(&self) -> AppResult<Option<String>> {
        Ok(None)
    }
    fn set_time_presets(&self, _: &str) -> AppResult<()> {
        Ok(())
    }
}

#[test]
fn a_refused_save_takes_the_new_alarm_back() {
    let alarms = Arc::new(FakeAlarmClock {
        notifications_granted: true,
        exact: true,
        ..FakeAlarmClock::default()
    });
    let reminders = ReminderUseCases::new(
        Arc::new(Refusing),
        Arc::clone(&alarms),
        Arc::new(FixedClock::new(Timestamp::from_millis(NOW))),
    );
    let error = reminders
        .upsert_for_note(valid_reminder_request(NoteId::new()))
        .expect_err("storage refuses");
    assert_eq!(error.code(), "database_busy");
    assert_eq!(alarms.scheduled.lock().unwrap().len(), 1);
    assert_eq!(alarms.cancelled.lock().unwrap().as_slice(), &[77]);
}

fn dictation(fixture: ReminderFixture) -> QuickNoteUseCases<MemoryNotes, MemoryReminders, FakeAlarmClock, FixedClock> {
    QuickNoteUseCases::new(
        Arc::new(fixture.notes),
        Arc::new(fixture.reminders),
        Arc::new(FixedClock::new(Timestamp::from_millis(NOW))),
    )
}

#[test]
fn a_dictated_phrase_becomes_a_note_with_its_alarm_armed() {
    let fixture = reminder_fixture(true, true);
    let alarms = Arc::clone(&fixture.alarms);
    let outcome = match dictation(fixture).create("  купить молоко  ", "Europe/Moscow", QuickNoteSettings::default()) {
        Ok(outcome) => outcome,
        Err(error) => panic!("dictation failed: {error:?}"),
    };
    assert_eq!(outcome.transcript, "купить молоко");
    assert_eq!(outcome.note.title, "Купить молоко");
    assert!(outcome.reminder.is_some());
    assert!(outcome.reminder_error.is_none());
    assert_eq!(outcome.lead_minutes, 0);
    assert_eq!(alarms.scheduled.lock().unwrap().len(), 1);
}

#[test]
fn a_dictated_note_is_kept_when_notifications_are_refused() {
    let fixture = reminder_fixture(false, true);
    let alarms = Arc::clone(&fixture.alarms);
    let outcome = match dictation(fixture).create("купить молоко", "Europe/Moscow", QuickNoteSettings::default()) {
        Ok(outcome) => outcome,
        Err(error) => panic!("dictation failed: {error:?}"),
    };
    assert_eq!(outcome.note.title, "Купить молоко");
    assert!(outcome.reminder.is_none());
    assert_eq!(
        outcome.reminder_error.map(|e| e.code()),
        Some("notification_permission_denied")
    );
    assert_eq!(outcome.lead_minutes, 0);
    assert!(alarms.scheduled.lock().unwrap().is_empty());
}

#[test]
fn dictation_refuses_an_unknown_zone_and_a_silent_transcript() {
    let quick = dictation(reminder_fixture(true, true));
    match quick.create("купить молоко", "Mars/Olympus", QuickNoteSettings::default()) {
        Ok(_) => panic!("an unknown zone was accepted"),
        Err(error) => assert_eq!(error.code(), "validation_unknown_timezone"),
    }
    match quick.create("   ", "Europe/Moscow", QuickNoteSettings::default()) {
        Ok(_) => panic!("a silent transcript was accepted"),
        Err(error) => assert_eq!(error.code(), "validation_required"),
    }
}

#[test]
fn preset_times_default_to_the_shipped_set() {
    let fixture = reminder_fixture(true, true);
    let labels = fixture.reminders.time_presets().expect("read");
    let expected: Vec<String> = default_time_presets().into_iter().map(|p| p.label()).collect();
    assert_eq!(labels, expected);
}

#[test]
fn saved_preset_times_come_back_sorted_without_repeats() {
    let fixture = reminder_fixture(true, true);
    let values: Vec<String> = vec!["21:15".into(), "08:00".into(), "21:15".into()];
    let saved = fixture.reminders.save_time_presets(&values).expect("saved");
    assert_eq!(saved, vec!["08:00".to_string(), "21:15".to_string()]);
}

#[test]
fn more_preset_times_than_the_cap_are_refused() {
    let fixture = reminder_fixture(true, true);
    let values: Vec<String> = (0..25).map(|h| format!("{:02}:{:02}", h % 24, (h / 24) * 30)).collect();
    let error = fixture.reminders.save_time_presets(&values).expect_err("too many");
    assert_eq!(error.code(), "validation_invalid");
    let bad: Vec<String> = vec!["25:00".into()];
    let error = fixture.reminders.save_time_presets(&bad).expect_err("not a time");
    assert_eq!(error.code(), "validation_invalid");
}
