//! The chat bot that polls for dates.
pub mod command;
pub mod dialogue;
pub mod keyboard;
pub mod moment;
pub mod selection;
