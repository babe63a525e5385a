//! Notes dictated in one breath.

pub mod numbers;
pub mod phrase;
pub mod settings;
