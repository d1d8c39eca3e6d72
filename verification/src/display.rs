//! What the display shows for a given state of the timer, as plain values:
//! captions, numbers and the digits of a time. Drawing them is left to
//! whoever owns the display.

use crate::timer::{State, TabataApp, TimerView};
use vstd::prelude::*;

verus! {

/// The character `0`, from which the digits count up.
pub const DIGIT_ZERO: u8 = 48;

/// The character `:` between minutes and seconds.
pub const COLON: u8 = 58;

/// The content of the display.
#[derive(Clone, Copy, Debug, PartialEq, Eq)]
pub enum Screen {
    /// A setting under the cursor: its caption, and its value, which is
    /// shown as a time.
    Setting { caption: &'static str, value: u8 },
    /// The question that precedes the countdown.
    Question { caption: &'static str },
    /// Nothing but the background.
    Blank,
    /// The running countdown, with the whole seconds that are left.
    Countdown { seconds: u64 },
}

/// The caption of the cursor position, for the positions that have one.
pub open spec fn caption_of(cursor: int) -> Option<&'static str> {
    if cursor == 0 {
        Some("WORK TIME")
    } else if cursor == 1 {
        Some("REST TIME")
    } else if cursor == 2 {
        Some("NB CYCLES")
    } else if cursor == 3 {
        Some("NB SETS")
    } else if cursor == 4 {
        Some("REST in SETS")
    } else if cursor == 5 {
        Some("START?")
    } else {
        None
    }
}

/// The content of the display for a state of the timer.
pub open spec fn screen_of(timer: TimerView) -> Screen {
    match timer.mode {
        State::Running => Screen::Countdown { seconds: (timer.remaining_ms / 1000) as u64 },
        State::Configuring => match (caption_of(timer.cursor), timer.config.selected(timer.cursor)) {
            (Some(caption), Some(value)) => Screen::Setting { caption, value },
            (Some(caption), None) => Screen::Question { caption },
            (None, _) => Screen::Blank,
        },
    }
}

/// The five characters of a duration as minutes and seconds, `MM:SS`. The
/// minutes are counted modulo 256, and each pair of digits is the tens
/// followed by the units, the tens running past `9` from 100 minutes on.
pub open spec fn time_text(seconds: int) -> Seq<u8> {
    let minutes = (seconds / 60) % 256;
    let rest = seconds % 60;
    seq![
        (DIGIT_ZERO + minutes / 10) as u8,
        (DIGIT_ZERO + minutes % 10) as u8,
        COLON,
        (DIGIT_ZERO + rest / 10) as u8,
        (DIGIT_ZERO + rest % 10) as u8,
    ]
}

/// Lays out a duration given in seconds as `MM:SS`.
pub fn get_time_text(seconds: u64) -> (text: [u8; 5])
    ensures
        text@ == time_text(seconds as int),
{
    let minutes: u8 = ((seconds / 60) % 256) as u8;
    let rest: u8 = (seconds % 60) as u8;
    let text: [u8; 5] = [
        DIGIT_ZERO + minutes / 10,
        DIGIT_ZERO + minutes % 10,
        COLON,
        DIGIT_ZERO + rest / 10,
        DIGIT_ZERO + rest % 10,
    ];
    assert(text@ =~= time_text(seconds as int));
    text
}

/// The caption of a cursor position, for the positions that have one.
pub fn caption(cursor: u8) -> (caption: Option<&'static str>)
    ensures
        caption == caption_of(cursor as int),
{
    match cursor {
        0 => Some("WORK TIME"),
        1 => Some("REST TIME"),
        2 => Some("NB CYCLES"),
        3 => Some("NB SETS"),
        4 => Some("REST in SETS"),
        5 => Some("START?"),
        _ => None,
    }
}

/// What to show for the timer as it stands.
pub fn screen(app: &TabataApp) -> (screen: Screen)
    ensures
        screen == screen_of(app@),
{
    match app.state() {
        State::Running => Screen::Countdown { seconds: app.remaining_time_ms() / 1000 },
        State::Configuring => match (caption(app.config_state()), app.selected_value()) {
            (Some(caption), Some(value)) => Screen::Setting { caption, value },
            (Some(caption), None) => Screen::Question { caption },
            (None, _) => Screen::Blank,
        },
    }
}

} // verus!
