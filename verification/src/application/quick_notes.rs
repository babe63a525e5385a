//! Dictated notes: what the core decides between parsing a phrase and arming
//! its alarm.
//!
//! One press, one sentence, one note — and, when the sentence named a time, one
//! alarm before it. The note is written first and on purpose: arming an alarm
//! can fail for reasons that have nothing to do with what was said, and the
//! person still dictated something they wanted kept.

use std::sync::Arc;

use vstd::prelude::*;

use crate::application::dto::UpsertReminderRequest;
use crate::application::use_cases::{NoteUseCases, ReminderUseCases, ReminderView};
use crate::domain::calendar::known_zone;
use crate::domain::clock::{clamp_i64, parse_zone, Clock, Timestamp, Zone};
use crate::domain::notes::repository::NoteRepository;
use crate::domain::notes::{Note, NoteDraft, NoteType};
use crate::domain::quick_notes::phrase::{
    parse_phrase, phrase_tokens, time_of_day_in, time_of_day_in_days, ParsedPhrase,
};
use crate::domain::reminders::repository::ReminderRepository;
use crate::platform::AlarmClock;
use crate::domain::quick_notes::settings::QuickNoteSettings;
use crate::error::{AppError, AppResult, ValidationError};
use crate::text::{chars_of, eq_chars, lowercase, lowercase_chars, string_of, trim, trim_chars};

verus! {

/// How close to now a reminder may be pushed when the lead would otherwise put
/// it in the past: saying «встреча в 15:00» at 14:45 with a half-hour lead asks
/// for 14:15, and the reminder lands as soon as the alarm layer will take it.
pub const MINIMUM_NOTICE_MINUTES: i64 = 1;

/// The body a dictated note gets: the trimmed transcript, unless the title
/// already is the transcript, folded to lowercase.
pub open spec fn note_body(transcript: Seq<char>, title: Seq<char>) -> Seq<char> {
    if lowercase(trim(transcript)) == lowercase(title) {
        Seq::empty()
    } else {
        trim(transcript)
    }
}

/// The transcript, unless the title already is the transcript.
///
/// The comparison folds case through full Unicode lowercasing: the title is
/// capitalised on the way out, and the letter that gets capitalised is
/// Cyrillic more often than not.
pub fn body_for(transcript: &str, title: &str) -> (body: String)
    ensures
        body@ == note_body(transcript@, title@),
{
    let transcript_chars = chars_of(transcript);
    let trimmed = trim_chars(&transcript_chars);
    let title_chars = chars_of(title);
    let folded_transcript = lowercase_chars(&trimmed);
    let folded_title = lowercase_chars(&title_chars);
    if eq_chars(&folded_transcript, &folded_title) {
        string_of(&[])
    } else {
        string_of(&trimmed)
    }
}

/// Where a dictated note's reminder lands, and how it got there.
#[derive(Clone, Copy, PartialEq, Eq, Debug, Structural)]
pub struct ReminderPlan {
    /// The instant the phrase named, or the fallback one when it named none.
    pub spoken_at: Timestamp,
    /// When the alarm rings.
    pub at: Timestamp,
    /// Minutes taken off the spoken time.
    pub lead_minutes: u16,
}

/// The plan for a phrase whose instant is known.
pub open spec fn plan_from(
    named: Timestamp,
    lead_applies: bool,
    named_clock_time: bool,
    lead: u16,
    now: Timestamp,
) -> AppResult<ReminderPlan> {
    let taken: u16 = if lead_applies {
        lead
    } else {
        0
    };
    let at = Timestamp(clamp_i64(named.0 + clamp_i64(-taken * 60_000)) as i64);
    if at.0 <= now.0 {
        if named.0 <= now.0 && named_clock_time {
            Err(AppError::Validation(ValidationError::TimeInPast))
        } else {
            Ok(
                ReminderPlan {
                    spoken_at: named,
                    at: Timestamp(clamp_i64(now.0 + clamp_i64(MINIMUM_NOTICE_MINUTES * 60_000)) as i64),
                    lead_minutes: taken,
                },
            )
        }
    } else {
        Ok(ReminderPlan { spoken_at: named, at, lead_minutes: taken })
    }
}

/// The plan for a dictated note's reminder.
///
/// A phrase with no time in it lands on the fallback time and day, and nothing
/// is taken off a time the app itself chose; the lead applies only to a clock
/// time that was said. A reminder the lead would put in the past lands a minute
/// from now instead — unless the time that was said has itself gone, which only
/// the person can sort out.
pub open spec fn reminder_plan(
    named_at: Option<Timestamp>,
    named_clock_time: bool,
    settings: QuickNoteSettings,
    now: Timestamp,
    zone: Seq<char>,
) -> AppResult<ReminderPlan> {
    match named_at {
        Some(at) => plan_from(at, named_clock_time, named_clock_time, settings.lead(), now),
        None => match time_of_day_in(settings.fallback(), now, zone, settings.day_offset()) {
            Err(e) => Err(e),
            Ok(at) => plan_from(at, false, named_clock_time, settings.lead(), now),
        },
    }
}

fn plan_from_exec(
    named: Timestamp,
    lead_applies: bool,
    named_clock_time: bool,
    lead: u16,
    now: Timestamp,
) -> (r: AppResult<ReminderPlan>)
    ensures
        r == plan_from(named, lead_applies, named_clock_time, lead, now),
{
    let taken: u16 = if lead_applies {
        lead
    } else {
        0
    };
    let at = named.saturating_add_minutes(0 - taken as i64);
    if at.0 <= now.0 {
        if named.0 <= now.0 && named_clock_time {
            return Err(AppError::Validation(ValidationError::TimeInPast));
        }
        return Ok(
            ReminderPlan {
                spoken_at: named,
                at: now.saturating_add_minutes(MINIMUM_NOTICE_MINUTES),
                lead_minutes: taken,
            },
        );
    }
    Ok(ReminderPlan { spoken_at: named, at, lead_minutes: taken })
}

/// Places the reminder a parsed phrase asked for.
///
/// # Errors
/// A time in the past when the clock time that was said has already gone, and
/// what placing the fallback time on the calendar fails with.
pub fn plan_reminder(
    phrase: &ParsedPhrase,
    settings: QuickNoteSettings,
    now: Timestamp,
    zone: &Zone,
) -> (r: AppResult<ReminderPlan>)
    ensures
        r == reminder_plan(phrase.named_at, phrase.named_clock_time, settings, now, zone@),
{
    match phrase.named_at {
        Some(at) => plan_from_exec(
            at,
            phrase.named_clock_time,
            phrase.named_clock_time,
            settings.lead_minutes(),
            now,
        ),
        None => {
            let at = time_of_day_in_days(
                settings.fallback_time(),
                now,
                zone,
                settings.fallback_day_offset(),
            )?;
            plan_from_exec(at, false, phrase.named_clock_time, settings.lead_minutes(), now)
        },
    }
}

/// A planned reminder rings after now, unless now is the very last instant
/// there is; and nothing is taken off a time the app chose rather than heard.
pub proof fn lemma_plan_rings_ahead(
    named: Timestamp,
    lead_applies: bool,
    named_clock_time: bool,
    lead: u16,
    now: Timestamp,
)
    requires
        now.0 < i64::MAX,
    ensures
        plan_from(named, lead_applies, named_clock_time, lead, now) matches Ok(plan) ==> plan.at.0
            > now.0,
        !lead_applies ==> (plan_from(named, lead_applies, named_clock_time, lead, now) matches Ok(
            plan,
        ) ==> plan.lead_minutes == 0),
{
}

/// The note a dictated phrase is written as: plain text, under the phrase's
/// title, with the transcript as its body when it says more than the title.
pub fn quick_note_draft(transcript: &str, phrase: &ParsedPhrase) -> (d: NoteDraft)
    ensures
        d.note_type == Some(NoteType::Text),
        d.title matches Some(t) && t@ == phrase.title@,
        d.content_text matches Some(b) && b@ == note_body(transcript@, phrase.title@),
        d.content_json is None,
        d.color is None,
        d.background is None,
{
    NoteDraft {
        note_type: Some(NoteType::Text),
        title: Some(phrase.title.clone()),
        content_text: Some(body_for(transcript, phrase.title.as_str())),
        content_json: None,
        color: None,
        background: None,
    }
}

/// What a dictation turned into.
pub struct QuickNoteOutcome {
    pub note: Note,
    /// The reminder that was armed, or `None` when arming it failed.
    pub reminder: Option<ReminderView>,
    /// Why no reminder was armed. The note is kept either way: the words were
    /// said, and losing them because a notification permission is off would
    /// be the worse failure.
    pub reminder_error: Option<AppError>,
    /// The instant the phrase itself named, before anything was subtracted.
    pub spoken_at: Option<Timestamp>,
    /// Minutes actually taken off the spoken time.
    pub lead_minutes: u16,
    /// What the recogniser heard, trimmed, echoed back to the screen.
    pub transcript: String,
}

/// A reminder that was placed, and how it was placed.
pub struct ArmedReminder {
    pub view: ReminderView,
    pub spoken_at: Timestamp,
    pub lead_minutes: u16,
}

/// The outcome of a dictation once the note is written: the reminder and the
/// facts of its placement when it was armed; otherwise the reason, the
/// instant the phrase named, and no lead.
pub fn quick_outcome(
    note: Note,
    armed: AppResult<ArmedReminder>,
    named_at: Option<Timestamp>,
    transcript: &str,
) -> (o: QuickNoteOutcome)
    ensures
        o.note == note,
        o.transcript@ == trim(transcript@),
        match armed {
            Ok(a) => o.reminder == Some(a.view) && o.reminder_error is None && o.spoken_at == Some(
                a.spoken_at,
            ) && o.lead_minutes == a.lead_minutes,
            Err(e) => o.reminder is None && o.reminder_error == Some(e) && o.spoken_at == named_at
                && o.lead_minutes == 0,
        },
{
    let text = chars_of(transcript);
    let trimmed = string_of(&trim_chars(&text));
    match armed {
        Ok(a) => QuickNoteOutcome {
            note,
            reminder: Some(a.view),
            reminder_error: None,
            spoken_at: Some(a.spoken_at),
            lead_minutes: a.lead_minutes,
            transcript: trimmed,
        },
        Err(e) => QuickNoteOutcome {
            note,
            reminder: None,
            reminder_error: Some(e),
            spoken_at: named_at,
            lead_minutes: 0,
            transcript: trimmed,
        },
    }
}

/// Dictated notes: one sentence, one note, and one alarm when it can be
/// armed. The settings are read by the caller and handed in.
pub struct QuickNoteUseCases<
    N: NoteRepository + ?Sized,
    R: ReminderRepository + ?Sized,
    A: AlarmClock + ?Sized,
    C: Clock + ?Sized,
> {
    notes: Arc<NoteUseCases<N>>,
    reminders: Arc<ReminderUseCases<R, A, C>>,
    clock: Arc<C>,
}

impl<
    N: NoteRepository + ?Sized,
    R: ReminderRepository + ?Sized,
    A: AlarmClock + ?Sized,
    C: Clock + ?Sized,
> QuickNoteUseCases<N, R, A, C> {
    /// The note and reminder use cases and the clock it was given.
    pub closed spec fn parts(&self) -> (Arc<NoteUseCases<N>>, Arc<ReminderUseCases<R, A, C>>, Arc<C>) {
        (self.notes, self.reminders, self.clock)
    }

    pub fn new(notes: Arc<NoteUseCases<N>>, reminders: Arc<ReminderUseCases<R, A, C>>, clock: Arc<C>) -> (u:
        QuickNoteUseCases<N, R, A, C>)
        ensures
            u.parts() == (notes, reminders, clock),
    {
        QuickNoteUseCases { notes, reminders, clock }
    }

    /// Turns a dictated sentence into a note, and into a reminder when it can.
    ///
    /// The note is written first and on purpose: a reminder that cannot be
    /// armed is reported in the outcome rather than as an error.
    ///
    /// # Errors
    /// An unknown zone, a transcript with no words, a phrase whose time cannot
    /// be placed, or what storage answered when the note was written.
    pub fn create(&self, transcript: &str, timezone: &str, settings: QuickNoteSettings) -> (r: AppResult<
        QuickNoteOutcome,
    >)
        requires
            transcript@.len() <= isize::MAX,
        ensures
            !known_zone(timezone@) ==> (r matches Err(AppError::Validation(
                ValidationError::UnknownTimeZone { value },
            )) && value@ == timezone@),
            known_zone(timezone@) && phrase_tokens(transcript@).len() == 0 ==> r == Err::<
                QuickNoteOutcome,
                AppError,
            >(AppError::Validation(ValidationError::Required { field: "transcript" })),
            r matches Ok(o) ==> o.transcript@ == trim(transcript@),
            r matches Ok(o) ==> (o.reminder is Some <==> o.reminder_error is None),
            r matches Ok(o) ==> (o.reminder_error is Some ==> o.lead_minutes == 0),
            r matches Ok(o) ==> (o.reminder is Some ==> o.spoken_at is Some),
    {
        let zone = parse_zone(timezone)?;
        let now = self.clock.now();
        let phrase = parse_phrase(transcript, now, &zone, settings.fallback_time())?;
        let note = self.notes.create(quick_note_draft(transcript, &phrase))?;
        let armed = self.arm(&note, &phrase, settings, now, &zone, timezone);
        Ok(quick_outcome(note, armed, phrase.named_at, transcript))
    }

    /// Places the reminder the phrase asked for and arms it under the
    /// catalog's default sound.
    fn arm(
        &self,
        note: &Note,
        phrase: &ParsedPhrase,
        settings: QuickNoteSettings,
        now: Timestamp,
        zone: &Zone,
        timezone: &str,
    ) -> (r: AppResult<ArmedReminder>)
        ensures
            r matches Ok(a) ==> reminder_plan(phrase.named_at, phrase.named_clock_time, settings, now, zone@)
                matches Ok(plan) && a.spoken_at == plan.spoken_at && a.lead_minutes == plan.lead_minutes,
    {
        let plan = plan_reminder(phrase, settings, now, zone)?;
        let sound = self.reminders.sound_catalog()?.default_sound_id;
        let view = self.reminders.upsert_for_note(
            UpsertReminderRequest {
                note_id: note.id.to_string(),
                title: phrase.title.clone(),
                body: string_of(&[]),
                scheduled_at: plan.at.0,
                timezone: string_of(&chars_of(timezone)),
                sound,
                recurrence: None,
            },
        )?;
        Ok(ArmedReminder { view, spoken_at: plan.spoken_at, lead_minutes: plan.lead_minutes })
    }
}

} // verus!
