//! The decisions of a meeting assistant: which running programs mean that a
//! meeting is on, when to start and stop a recording for it, how to name the
//! recording, and how to put a question about a meeting to a language model.
//!
//! But for reading the clock where a time is put on record, the library
//! performs no input or output. It is told what was seen (process names,
//! calendar entries, settings, replies) and says what to do next; every function
//! states in its contract what it answers.

pub mod calendar;
pub mod chat;
pub mod clock;
pub mod detector;
pub mod monitor;
pub mod monitor_laws;
pub mod monitor_steps;
pub mod prompt;
pub mod recording;
pub mod settings;
pub mod text;
pub mod transcript;
