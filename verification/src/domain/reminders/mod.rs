//! Reminders: the sound catalog, repetition, wall-clock zones, snoozing and
//! the times offered for one-tap picking.

pub mod recurrence;
pub mod repository;
pub mod snooze;
pub mod time_presets;
pub mod zones;

use vstd::prelude::*;

use crate::domain::clock::Timestamp;
use crate::domain::ids::{NoteId, ReminderId, ReminderOccurrenceId};
use crate::domain::quick_notes::numbers::{starts_with, starts_with_str};
use crate::error::{AppError, AppResult, ValidationError};
use crate::text::{chars_of, eq_str, owned};

pub use recurrence::{Recurrence, WINDOW};
pub use time_presets::{TimePreset, TIME_PRESETS_SETTING_KEY};
pub use zones::{parse_zone, reinterpret, resolve};

verus! {

pub const DEFAULT_SOUND_SETTING_KEY: &'static str = "reminders.default_sound";

pub const FALLBACK_SOUND_ID: &'static str = "death_and_rebirth";

/// Marks a sound the OS ships: `system:<uri>`.
pub const SYSTEM_SOUND_PREFIX: &'static str = "system:";

/// Marks a file the user imported: `custom:<fileName>`.
pub const CUSTOM_SOUND_PREFIX: &'static str = "custom:";

/// Label used when an imported sound is no longer on the device list.
pub const CUSTOM_SOUND_FALLBACK_LABEL: &'static str = "Свой звук";

/// Label used when a system sound is no longer on the device list.
pub const SYSTEM_SOUND_FALLBACK_LABEL: &'static str = "Системный звук";

#[derive(Clone, Copy, PartialEq, Eq, Debug)]
pub struct SoundPreset {
    pub id: &'static str,
    pub label: &'static str,
    pub resource_name: &'static str,
}

/// The one sound bundled with this build.
pub open spec fn is_bundled_sound(preset: SoundPreset) -> bool {
    &&& preset.id@ == "death_and_rebirth"@
    &&& preset.label@ == "Death & Rebirth"@
    &&& preset.resource_name@ == "death_and_rebirth"@
}

fn bundled_sound() -> (p: SoundPreset)
    ensures
        is_bundled_sound(p),
{
    SoundPreset { id: "death_and_rebirth", label: "Death & Rebirth", resource_name: "death_and_rebirth" }
}

/// The sounds bundled with this build.
pub fn sound_presets() -> (presets: Vec<SoundPreset>)
    ensures
        presets@.len() == 1,
        is_bundled_sound(presets@[0]),
{
    let mut presets: Vec<SoundPreset> = Vec::new();
    presets.push(bundled_sound());
    presets
}

/// What a stored sound selection turned out to be.
#[derive(Clone, PartialEq, Eq, Debug)]
pub enum ResolvedSound {
    /// A preset bundled with this build.
    Preset(SoundPreset),
    /// A sound the device holds — `system:<uri>` or `custom:<fileName>`. The
    /// id is passed through as-is; only the device can say whether it still
    /// exists.
    Device { id: String },
}

pub open spec fn resolved_id(sound: ResolvedSound) -> Seq<char> {
    match sound {
        ResolvedSound::Preset(preset) => preset.id@,
        ResolvedSound::Device { id } => id@,
    }
}

/// The label a sound is shown and announced under: a preset's own, or for a
/// device sound, which the core cannot look up, the fallback for its kind.
pub open spec fn resolved_label(sound: ResolvedSound) -> Seq<char> {
    match sound {
        ResolvedSound::Preset(preset) => preset.label@,
        ResolvedSound::Device { id } => if starts_with(id@, "system:"@) {
            SYSTEM_SOUND_FALLBACK_LABEL@
        } else {
            CUSTOM_SOUND_FALLBACK_LABEL@
        },
    }
}

/// What the alarm plays: a preset's raw resource, or the device sound's id.
pub open spec fn resolved_resource(sound: ResolvedSound) -> Seq<char> {
    match sound {
        ResolvedSound::Preset(preset) => preset.resource_name@,
        ResolvedSound::Device { id } => id@,
    }
}

impl ResolvedSound {
    pub fn label(&self) -> (s: &str)
        ensures
            s@ == resolved_label(*self),
    {
        match self {
            ResolvedSound::Preset(preset) => preset.label,
            ResolvedSound::Device { id } => {
                let chars = chars_of(id.as_str());
                if starts_with_str(&chars, "system:") {
                    SYSTEM_SOUND_FALLBACK_LABEL
                } else {
                    CUSTOM_SOUND_FALLBACK_LABEL
                }
            },
        }
    }

    pub fn resource(&self) -> (s: &str)
        ensures
            s@ == resolved_resource(*self),
    {
        match self {
            ResolvedSound::Preset(preset) => preset.resource_name,
            ResolvedSound::Device { id } => id.as_str(),
        }
    }

    /// The catalog id this selection stands for.
    pub fn id(&self) -> (s: &str)
        ensures
            s@ == resolved_id(*self),
    {
        match self {
            ResolvedSound::Preset(preset) => preset.id,
            ResolvedSound::Device { id } => id.as_str(),
        }
    }
}

pub open spec fn is_device_sound(id: Seq<char>) -> bool {
    starts_with(id, "system:"@) || starts_with(id, "custom:"@)
}

/// True for ids that name a device sound rather than a bundled preset.
pub fn is_device_sound_id(id: &str) -> (b: bool)
    ensures
        b == is_device_sound(id@),
{
    let chars = chars_of(id);
    starts_with_str(&chars, "system:") || starts_with_str(&chars, "custom:")
}

/// The id a selection stands for: `default` is the configured default, or the
/// bundled one when none is configured.
pub open spec fn concrete_sound(selected: Seq<char>, configured: Option<Seq<char>>) -> Seq<char> {
    if selected == "default"@ {
        match configured {
            Some(c) => c,
            None => "death_and_rebirth"@,
        }
    } else {
        selected
    }
}

pub open spec fn str_view(o: Option<&str>) -> Option<Seq<char>> {
    match o {
        Some(s) => Some(s@),
        None => None,
    }
}

/// Resolves a stored selection to a concrete sound.
///
/// # Errors
/// An invalid `sound` when the explicit selection or the configured default is
/// a bare id that does not name a preset shipped by this build. Prefixed ids
/// (`system:`/`custom:`) are always accepted as-is.
pub fn resolve_sound(selected: &str, configured_default: Option<&str>) -> (r: AppResult<ResolvedSound>)
    ensures
        ({
            let id = concrete_sound(selected@, str_view(configured_default));
            if is_device_sound(id) {
                r matches Ok(ResolvedSound::Device { id: device }) && device@ == id
            } else if id == "death_and_rebirth"@ {
                r matches Ok(ResolvedSound::Preset(preset)) && is_bundled_sound(preset)
            } else {
                r == Err::<ResolvedSound, AppError>(
                    AppError::Validation(ValidationError::Invalid { field: "sound" }),
                )
            }
        }),
{
    let selected_chars = chars_of(selected);
    let concrete: &str = if eq_str(&selected_chars, "default") {
        match configured_default {
            Some(c) => c,
            None => FALLBACK_SOUND_ID,
        }
    } else {
        selected
    };
    if is_device_sound_id(concrete) {
        return Ok(ResolvedSound::Device { id: owned(concrete) });
    }
    let concrete_chars = chars_of(concrete);
    if eq_str(&concrete_chars, "death_and_rebirth") {
        return Ok(ResolvedSound::Preset(bundled_sound()));
    }
    Err(AppError::Validation(ValidationError::Invalid { field: "sound" }))
}

#[derive(Clone, Debug, PartialEq, Eq)]
pub struct Reminder {
    pub id: ReminderId,
    pub note_id: NoteId,
    pub title: String,
    pub body: String,
    /// The reading the user picked, as an instant in the reminder's zone.
    /// Every repeat is measured from here rather than from the last one that
    /// fired.
    pub scheduled_at: Timestamp,
    pub timezone: String,
    pub sound: String,
    /// `None` for a reminder that happens once.
    pub recurrence: Option<Recurrence>,
    /// Minutes the notification's "later" button moves this reminder by.
    pub snooze_minutes: i64,
    pub is_enabled: bool,
}

#[derive(Clone, Debug, PartialEq, Eq)]
pub struct ReminderOccurrence {
    pub id: ReminderOccurrenceId,
    pub reminder_id: ReminderId,
    pub occurrence_at: Timestamp,
    pub alarm_request_code: i32,
    pub is_exact: bool,
}

#[derive(Clone, Debug, PartialEq, Eq)]
pub struct ScheduledReminder {
    pub reminder: Reminder,
    pub occurrence: ReminderOccurrence,
}

#[derive(Clone, Debug)]
pub struct ReminderDraft {
    /// The reminder being edited, or `None` to add another one to the note.
    pub reminder_id: Option<ReminderId>,
    pub note_id: NoteId,
    pub title: String,
    pub body: String,
    pub scheduled_at: Timestamp,
    pub timezone: String,
    pub sound: String,
    pub recurrence: Option<Recurrence>,
    /// The instants to arm, already expanded from the recurrence by the use
    /// case. Persistence writes what it is given and works out none of it.
    pub occurrences: Vec<Timestamp>,
}

/// A repeating reminder whose armed window has run down.
#[derive(Clone, Debug, PartialEq, Eq)]
pub struct ThinWindow {
    pub reminder: Reminder,
    /// Instants already armed, so the caller only adds what is missing.
    pub armed: Vec<Timestamp>,
}

} // verus!
