//! The decisions of the use cases, and the shapes they speak to the screen in.

pub mod app_icons;
pub mod backup;
pub mod dto;
pub mod links;
pub mod organisation;
pub mod quick_notes;
pub mod tasks;
pub mod use_cases;
