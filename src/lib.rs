//! A reusable read-process loop: a line is read, split into words, handed to
//! a command grammar and dispatched to a caller-supplied processor, while a
//! command history is kept across sessions.
//!
//! The decisions of the loop are verified here: where the history file lives
//! (`history`), how a line is split and classified (`line`), and what the
//! loop does on each event (`session`). Reading the terminal, parsing with a
//! command grammar and running the processor are left to the caller; `laws`
//! holds the properties proved of these pieces together.

pub mod commands;
pub mod demo;
pub mod history;
pub mod laws;
pub mod line;
pub mod session;
