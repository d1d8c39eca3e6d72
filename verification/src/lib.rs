//! Core of an interval-training timer: a button classifier that turns a raw
//! pressed/released signal into press events, the controller that edits the
//! workout configuration and runs the countdown, and the content that a
//! display shows for it.

pub mod button;
pub mod display;
pub mod timer;

pub use display::{get_time_text, screen, Screen};
pub use timer::{Config, State, TabataApp, TabataInput};
