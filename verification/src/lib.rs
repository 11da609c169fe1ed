//! A personal work-shift tracker.
//!
//! The record of a user's shifts is a plain value, [`format::FileFormat`], that is
//! handed from one operation to the next:
//!
//! - [`commands`] holds the operations that a user can ask for: the shift state
//!   machine (start, pause, stop, status), the hours of a week, and the editing of
//!   finished shifts;
//! - [`tracker`] states what the state machine does over a whole run of requests;
//! - [`calendar`] and [`utils`] find the Sunday that begins a week;
//! - [`input`] reads what the user typed, [`text`] and [`render`] write what the
//!   user is shown.
//!
//! The clock and the local calendar are asked through `chrono`. What is done
//! with their answers stands in functions that take the answer as an argument.

pub mod calendar;
mod clock;
pub mod commands;
pub mod format;
pub mod input;
pub mod render;
pub mod text;
pub mod tracker;
pub mod utils;
