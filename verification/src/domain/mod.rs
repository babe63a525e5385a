//! The domain: entities, rules and the vocabulary they are written in.

pub mod app_icons;
pub mod backup;
pub mod calendar;
pub mod clock;
pub mod ids;
pub mod links;
pub mod notes;
pub mod organisation;
pub mod quick_notes;
pub mod reminders;
pub mod search;
pub mod settings;
pub mod tasks;
