//! Core logic of a local notes-and-reminders organiser.

pub mod application;
pub mod domain;
pub mod error;
pub mod platform;
pub mod text;
