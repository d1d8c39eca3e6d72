//! Classification of a sampled push button into short and long presses.
//!
//! The button is sampled once per tick. A release after a short hold is a
//! press, a release after a hold of at least the configured threshold is a
//! long press, and every other tick carries no event.

use vstd::prelude::*;

verus! {

/// What one tick of sampling the button amounts to.
#[derive(Clone, Copy, Debug, PartialEq, Eq, Structural)]
pub enum ButtonPressType {
    /// Nothing happened: the button is idle, still held, or was just pressed.
    NotPressed,
    /// The button was released before the long-press threshold.
    Press,
    /// The button was released at or after the long-press threshold.
    LongPress,
}

impl Default for ButtonPressType {
    fn default() -> (r: Self)
        ensures
            r == ButtonPressType::NotPressed,
    {
        ButtonPressType::NotPressed
    }
}

/// One sample of the raw signal: the time it covers and the level read.
pub struct Sample {
    pub elapsed_ms: u64,
    pub is_pressed: bool,
}

/// The classifier as a mathematical value.
pub struct ButtonView {
    /// The level seen at the last sample.
    pub is_pressed: bool,
    /// How long the button has been held without interruption.
    pub held_ms: int,
    /// The hold duration from which a release counts as a long press.
    pub threshold_ms: int,
}

impl ButtonView {
    /// A classifier that has seen no sample yet.
    pub open spec fn initial(threshold_ms: int) -> ButtonView {
        ButtonView { is_pressed: false, held_ms: 0, threshold_ms }
    }

    /// The event that a sample with level `is_pressed` produces in this state.
    pub open spec fn event(self, is_pressed: bool) -> ButtonPressType {
        if !self.is_pressed || is_pressed {
            ButtonPressType::NotPressed
        } else if self.held_ms >= self.threshold_ms {
            ButtonPressType::LongPress
        } else {
            ButtonPressType::Press
        }
    }

    /// The state after a sample: a held button accumulates the elapsed time,
    /// up to the largest duration that can be counted, and a released one
    /// starts over from zero.
    pub open spec fn next(self, elapsed_ms: int, is_pressed: bool) -> ButtonView {
        ButtonView {
            is_pressed,
            held_ms: if !is_pressed {
                0
            } else if self.held_ms + elapsed_ms > u64::MAX {
                u64::MAX as int
            } else {
                self.held_ms + elapsed_ms
            },
            threshold_ms: self.threshold_ms,
        }
    }

    /// The state after a whole sequence of samples, oldest first.
    pub open spec fn run(self, samples: Seq<Sample>) -> ButtonView
        decreases samples.len(),
    {
        if samples.len() == 0 {
            self
        } else {
            let last = samples.last();
            self.run(samples.drop_last()).next(last.elapsed_ms as int, last.is_pressed)
        }
    }
}

/// Debouncing state of one push button.
pub struct Button {
    pub is_pressed: bool,
    pub time_since_pressed_ms: u64,
    time_for_long_press_ms: u64,
}

impl View for Button {
    type V = ButtonView;

    closed spec fn view(&self) -> ButtonView {
        ButtonView {
            is_pressed: self.is_pressed,
            held_ms: self.time_since_pressed_ms as int,
            threshold_ms: self.time_for_long_press_ms as int,
        }
    }
}

impl Button {
    /// A released button whose holds count as long from `time_for_long_press_ms` on.
    pub fn new(time_for_long_press_ms: u64) -> (button: Self)
        ensures
            button@ == ButtonView::initial(time_for_long_press_ms as int),
    {
        Button { is_pressed: false, time_since_pressed_ms: 0, time_for_long_press_ms }
    }

    /// The threshold given at construction.
    pub fn time_for_long_press_ms(&self) -> (threshold: u64)
        ensures
            threshold == self@.threshold_ms,
    {
        self.time_for_long_press_ms
    }

    /// Takes in one sample covering `time_elapsed` milliseconds and returns
    /// the event it completes.
    ///
    /// The event is decided by the state before the sample; the state then
    /// moves on to account for it.
    pub fn update(&mut self, time_elapsed: u64, is_pressed: bool) -> (event: ButtonPressType)
        ensures
            event == old(self)@.event(is_pressed),
            final(self)@ == old(self)@.next(time_elapsed as int, is_pressed),
    {
        let is_released: bool = self.is_pressed && !is_pressed;
        let is_long_press: bool = is_released && self.time_since_pressed_ms
            >= self.time_for_long_press_ms;

        self.is_pressed = is_pressed;
        if is_pressed {
            self.time_since_pressed_ms = self.time_since_pressed_ms.saturating_add(time_elapsed);
        } else {
            self.time_since_pressed_ms = 0;
        }

        if is_long_press {
            ButtonPressType::LongPress
        } else if is_released {
            ButtonPressType::Press
        } else {
            ButtonPressType::NotPressed
        }
    }
}

/// A release is a long press exactly when the button had been held for at
/// least the threshold, and a short press otherwise.
pub proof fn lemma_release_is_classified_by_hold(state: ButtonView)
    requires
        state.is_pressed,
    ensures
        state.held_ms >= state.threshold_ms ==> state.event(false) == ButtonPressType::LongPress,
        state.held_ms < state.threshold_ms ==> state.event(false) == ButtonPressType::Press,
{
}

/// Only a release produces an event: a sample that reads the button as held
/// never does, and neither does a released sample of a button that was not
/// held.
pub proof fn lemma_event_only_on_release(state: ButtonView, is_pressed: bool)
    ensures
        state.event(true) == ButtonPressType::NotPressed,
        !state.is_pressed ==> state.event(is_pressed) == ButtonPressType::NotPressed,
        state.event(is_pressed) != ButtonPressType::NotPressed <==> state.is_pressed
            && !is_pressed,
{
}

/// A button that has only ever been read as released is idle, and reading it
/// as released once more produces no event.
pub proof fn lemma_never_pressed_stays_silent(threshold_ms: int, samples: Seq<Sample>)
    requires
        forall|i: int| 0 <= i < samples.len() ==> !(#[trigger] samples[i]).is_pressed,
    ensures
        ButtonView::initial(threshold_ms).run(samples) == ButtonView::initial(threshold_ms),
        ButtonView::initial(threshold_ms).run(samples).event(false) == ButtonPressType::NotPressed,
    decreases samples.len(),
{
    if samples.len() > 0 {
        let earlier = samples.drop_last();
        assert forall|i: int| 0 <= i < earlier.len() implies !(#[trigger] earlier[i]).is_pressed by {
            assert(earlier[i] == samples[i]);
        }
        lemma_never_pressed_stays_silent(threshold_ms, earlier);
    }
}

/// While the button stays held the hold duration never shrinks, and the
/// sample that reads it as released puts the duration back to zero.
pub proof fn lemma_hold_accumulates_until_release(state: ButtonView, elapsed_ms: int)
    requires
        0 <= elapsed_ms,
        0 <= state.held_ms <= u64::MAX,
    ensures
        state.next(elapsed_ms, true).held_ms >= state.held_ms,
        state.held_ms + elapsed_ms <= u64::MAX ==> state.next(elapsed_ms, true).held_ms
            == state.held_ms + elapsed_ms,
        state.next(elapsed_ms, false).held_ms == 0,
{
}

/// The tick after an event carries none: one physical press and release
/// yields a single event.
pub proof fn lemma_one_event_per_release(
    state: ButtonView,
    elapsed_ms: int,
    is_pressed: bool,
    then_pressed: bool,
)
    requires
        state.event(is_pressed) != ButtonPressType::NotPressed,
    ensures
        state.next(elapsed_ms, is_pressed).event(then_pressed) == ButtonPressType::NotPressed,
{
}

} // verus!
