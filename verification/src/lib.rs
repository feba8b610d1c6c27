//! An in-memory task list with validated titles, together with the
//! keystroke-driven controller that drives adding and listing tasks.
//!
//! The crate is split into the task store ([`store`]), the plain-text
//! trimming rules it validates against ([`text`]), and the interactive
//! state machine ([`controller`]) that a thin terminal front end drives
//! one key press at a time.

pub mod controller;
pub mod store;
pub mod text;

mod string_specs;
