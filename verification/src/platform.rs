//! What the core hands the operating system, and what it hears back.

use vstd::prelude::*;

use crate::domain::clock::Timestamp;
use crate::error::AppResult;

verus! {

/// A single alarm to arm.
///
/// Everything the notification needs to render travels with the alarm, because
/// it fires in a broadcast receiver that may run with the app process dead and
/// no database open.
#[derive(Clone, Debug, PartialEq, Eq)]
pub struct Alarm {
    /// Occurrence this alarm belongs to; handed back when the user taps.
    pub occurrence_id: String,
    /// Note the notification opens.
    pub note_id: String,
    /// Stable key the alarm manager uses to replace or cancel this alarm.
    pub request_code: i32,
    pub trigger_at: Timestamp,
    pub title: String,
    pub body: String,
    /// Request an exact alarm. The OS may refuse.
    pub exact: bool,
    /// Raw-resource name of the sound.
    pub sound_id: String,
    /// Human-readable channel label.
    pub sound_label: String,
    pub vibrate: bool,
}

/// What the platform currently allows.
#[derive(Clone, Copy, PartialEq, Eq, Debug, Structural)]
pub struct AlarmPermissions {
    pub notifications_granted: bool,
    pub exact_alarms: bool,
}

/// Mirrors the states the Android permission layer reports.
#[derive(Clone, Copy, PartialEq, Eq, Debug, Structural)]
pub enum PermissionState {
    Granted,
    Denied,
    Prompt,
    PromptWithRationale,
}

impl PermissionState {
    pub fn is_granted(self) -> (b: bool)
        ensures
            b == (self == PermissionState::Granted),
    {
        match self {
            PermissionState::Granted => true,
            _ => false,
        }
    }
}

/// A document picker's answer.
#[derive(Clone, Debug, PartialEq, Eq)]
pub struct PickedDocument {
    /// False when the user backed out of the picker.
    pub completed: bool,
    /// The name the file ended up with, when the picker says.
    pub display_name: Option<String>,
}

/// The launcher icon, as the platform switches it. What it answers is the
/// platform's business.
pub trait AppIconSwitch {
    /// Enables `alias` and disables every other of `known`; `fallback` is the
    /// one to leave enabled if the switch goes wrong half-way.
    fn select(&self, alias: &str, known: &[String], fallback: &str) -> AppResult<()>;

    /// The alias enabled now, when the platform can say.
    fn current(&self, known: &[String], fallback: &str) -> AppResult<Option<String>>;
}

/// The platform's alarm service. What it answers is the platform's business.
pub trait AlarmClock {
    /// Arms an alarm, answering whether the platform gave an exact one.
    fn schedule(&self, alarm: &Alarm) -> AppResult<bool>;

    fn cancel(&self, request_code: i32) -> AppResult<()>;

    /// Takes back every alarm this app armed.
    fn cancel_all(&self) -> AppResult<()>;

    /// The note a notification tap asked to open, handed over once.
    fn take_launch_target(&self) -> AppResult<Option<String>>;

    fn permissions(&self) -> AppResult<AlarmPermissions>;

    /// Asks the user, answering whether notifications are now allowed.
    fn request_notification_permission(&self) -> AppResult<bool>;
}

} // verus!
