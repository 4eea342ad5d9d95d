//! Tuidui: a gamified to-do list. This crate holds the verified logic of the
//! application: the task model and its text rendering, the date format used when
//! tasks are saved, the counter screen's state machine, and the decisions taken
//! while talking to the assistant service.

pub mod tui;
pub mod system_time_format;
pub mod task;
pub mod display;
pub mod save;
pub mod user;
pub mod openai;
