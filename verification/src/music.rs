//! Music-domain values: pitch classes, notes and note events.
pub mod event;
pub mod note;
pub mod pitch;
