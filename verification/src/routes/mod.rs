//! What the HTTP endpoints answer, given what their work produced.

pub mod command;
pub mod instanll;
pub mod maintask;
pub mod reply;
pub mod subtask;
pub mod update;
