//! The timer controller: a cursor walks through the workout settings, and
//! past the last position the countdown runs through cycles and sets.

use crate::button::ButtonPressType;
use vstd::prelude::*;

verus! {

/// The last cursor position that does not start the countdown. Positions
/// below it select a setting, this one asks whether to start, and the
/// position after it means the countdown is running.
pub const NUM_CONFIGURATION_STATES: u8 = 5;

/// Whether the settings are being edited or the countdown is running.
#[derive(Clone, Copy, Debug, PartialEq, Eq, Structural)]
pub enum State {
    Configuring,
    Running,
}

impl Default for State {
    fn default() -> (state: Self)
        ensures
            state == State::Configuring,
    {
        State::Configuring
    }
}

/// What the controller is told once per tick.
#[derive(Clone, Copy, Debug, PartialEq, Eq, Structural)]
pub struct TabataInput {
    /// The button event of this tick.
    pub button_press: ButtonPressType,
    /// How far the rotary control was turned, signed.
    pub steps: i32,
}

impl Default for TabataInput {
    fn default() -> (input: Self)
        ensures
            input == (TabataInput { button_press: ButtonPressType::NotPressed, steps: 0 }),
    {
        TabataInput { button_press: ButtonPressType::NotPressed, steps: 0 }
    }
}

/// The workout settings. All times are in seconds.
#[derive(Clone, Copy, Debug, PartialEq, Eq, Structural)]
pub struct Config {
    pub work_time: u8,
    pub rest_time: u8,
    pub nb_cycles: u8,
    pub nb_sets: u8,
    pub rest_between_sets: u8,
}

/// Half of a number of steps, rounded toward zero.
pub open spec fn halved(steps: int) -> int {
    if steps >= 0 {
        steps / 2
    } else {
        -((-steps) / 2)
    }
}

/// A setting moved by `steps` and kept within what a byte can hold.
pub open spec fn adjusted(value: u8, steps: int) -> u8 {
    if value + steps <= 0 {
        0u8
    } else if value + steps >= 255 {
        255u8
    } else {
        (value + steps) as u8
    }
}

/// A setting after the same adjustment has been applied `times` times.
pub open spec fn adjusted_repeatedly(value: u8, steps: int, times: nat) -> u8
    decreases times,
{
    if times == 0 {
        value
    } else {
        adjusted(adjusted_repeatedly(value, steps, (times - 1) as nat), steps)
    }
}

impl Config {
    /// The settings a fresh controller starts with.
    pub open spec fn initial() -> Config {
        Config { work_time: 30, rest_time: 7, nb_cycles: 4, nb_sets: 2, rest_between_sets: 60 }
    }

    /// The setting under the cursor, if the cursor is on one.
    pub open spec fn selected(self, cursor: int) -> Option<u8> {
        if cursor == 0 {
            Some(self.work_time)
        } else if cursor == 1 {
            Some(self.rest_time)
        } else if cursor == 2 {
            Some(self.nb_cycles)
        } else if cursor == 3 {
            Some(self.nb_sets)
        } else if cursor == 4 {
            Some(self.rest_between_sets)
        } else {
            None
        }
    }

    /// The settings after the one under the cursor has taken in `steps` of
    /// the rotary control. The two counts move at half the speed of the
    /// times; a cursor that is on no setting changes nothing.
    pub open spec fn adjust(self, cursor: int, steps: int) -> Config {
        if cursor == 0 {
            Config { work_time: adjusted(self.work_time, steps), ..self }
        } else if cursor == 1 {
            Config { rest_time: adjusted(self.rest_time, steps), ..self }
        } else if cursor == 2 {
            Config { nb_cycles: adjusted(self.nb_cycles, halved(steps)), ..self }
        } else if cursor == 3 {
            Config { nb_sets: adjusted(self.nb_sets, halved(steps)), ..self }
        } else if cursor == 4 {
            Config { rest_between_sets: adjusted(self.rest_between_sets, steps), ..self }
        } else {
            self
        }
    }
}

impl Default for Config {
    fn default() -> (config: Self)
        ensures
            config == Config::initial(),
    {
        Config { work_time: 30, rest_time: 7, nb_cycles: 4, nb_sets: 2, rest_between_sets: 60 }
    }
}

/// One tick as the controller sees it.
pub struct Tick {
    pub elapsed_ms: u64,
    pub input: TabataInput,
}

/// The controller as a mathematical value.
pub struct TimerView {
    pub config: Config,
    /// Position of the field cursor.
    pub cursor: int,
    pub mode: State,
    /// Index of the cycle within the current set.
    pub cycle: int,
    /// Index of the set within the session.
    pub set: int,
    /// Time left in the current interval.
    pub remaining_ms: int,
    pub is_paused: bool,
}

impl TimerView {
    /// A controller before its first tick.
    pub open spec fn initial() -> TimerView {
        TimerView {
            config: Config::initial(),
            cursor: 0,
            mode: State::Configuring,
            cycle: 0,
            set: 0,
            remaining_ms: 0,
            is_paused: false,
        }
    }

    /// What holds of every controller: the cursor is on one of its seven
    /// positions, and both counters leave room for one more increment.
    pub open spec fn wf(self) -> bool {
        &&& 0 <= self.cursor <= NUM_CONFIGURATION_STATES + 1
        &&& 0 <= self.cycle < u8::MAX
        &&& 0 <= self.set < u8::MAX
        &&& 0 <= self.remaining_ms <= u64::MAX
    }

    /// Where a button event moves the cursor: a press one position forward,
    /// a long press one position back, neither beyond the ends.
    pub open spec fn moved_cursor(self, button_press: ButtonPressType) -> int {
        match button_press {
            ButtonPressType::Press => if self.cursor < NUM_CONFIGURATION_STATES + 1 {
                self.cursor + 1
            } else {
                NUM_CONFIGURATION_STATES + 1
            },
            ButtonPressType::LongPress => if self.cursor > 0 {
                self.cursor - 1
            } else {
                self.cursor
            },
            ButtonPressType::NotPressed => self.cursor,
        }
    }

    /// One tick of editing the settings. The cursor moves first; arriving
    /// past the last position starts the countdown with a full work
    /// interval; the setting then under the cursor takes in the steps.
    pub open spec fn configure(self, input: TabataInput) -> TimerView {
        let cursor = self.moved_cursor(input.button_press);
        let starts = cursor > NUM_CONFIGURATION_STATES;
        TimerView {
            config: self.config.adjust(cursor, input.steps as int),
            cursor,
            mode: if starts {
                State::Running
            } else {
                self.mode
            },
            is_paused: if starts {
                false
            } else {
                self.is_paused
            },
            remaining_ms: if starts {
                self.config.work_time * 1000
            } else {
                self.remaining_ms
            },
            ..self
        }
    }

    /// One tick of the running, unpaused countdown. Time that does not use
    /// up the interval is taken off it. Otherwise the interval is over: the
    /// cycle counter moves on, a full set of cycles moves the set counter
    /// on, and a full session of sets ends the run with both counters back
    /// at zero; short of that the next interval starts.
    pub open spec fn count_down(self, elapsed_ms: int) -> TimerView {
        if self.remaining_ms > elapsed_ms {
            TimerView { remaining_ms: self.remaining_ms - elapsed_ms, ..self }
        } else {
            let set_is_over = self.cycle + 1 >= self.config.nb_cycles;
            let set = if set_is_over {
                self.set + 1
            } else {
                self.set
            };
            if set >= self.config.nb_sets {
                TimerView { mode: State::Configuring, cycle: 0, set: 0, ..self }
            } else {
                TimerView {
                    cycle: if set_is_over {
                        0
                    } else {
                        self.cycle + 1
                    },
                    set,
                    remaining_ms: self.config.work_time * 1000,
                    ..self
                }
            }
        }
    }

    /// One tick of the controller.
    pub open spec fn step(self, elapsed_ms: int, input: TabataInput) -> TimerView {
        match self.mode {
            State::Configuring => self.configure(input),
            State::Running => match input.button_press {
                ButtonPressType::Press => TimerView { is_paused: !self.is_paused, ..self },
                ButtonPressType::LongPress => TimerView { mode: State::Configuring, ..self },
                ButtonPressType::NotPressed => if self.is_paused {
                    self
                } else {
                    self.count_down(elapsed_ms)
                },
            },
        }
    }

    /// The controller after a whole sequence of ticks, oldest first.
    pub open spec fn run(self, ticks: Seq<Tick>) -> TimerView
        decreases ticks.len(),
    {
        if ticks.len() == 0 {
            self
        } else {
            let last = ticks.last();
            self.run(ticks.drop_last()).step(last.elapsed_ms as int, last.input)
        }
    }
}

/// Moves `timer` by `steps`, stopping at 0 and at 255.
pub fn update_timer(timer: &mut u8, steps: i32)
    ensures
        *final(timer) == adjusted(*old(timer), steps as int),
{
    let moved: i64 = *timer as i64 + steps as i64;
    if moved > 0 {
        if moved > 255 {
            *timer = 255u8;
        } else {
            *timer = moved as u8;
        }
    } else {
        *timer = 0u8;
    }
}

/// The interval timer: settings, cursor and countdown.
pub struct TabataApp {
    config: Config,
    config_state: u8,
    state: State,
    cycle: u8,
    set: u8,
    remaining_time_ms: u64,
    is_paused: bool,
}

impl View for TabataApp {
    type V = TimerView;

    closed spec fn view(&self) -> TimerView {
        TimerView {
            config: self.config,
            cursor: self.config_state as int,
            mode: self.state,
            cycle: self.cycle as int,
            set: self.set as int,
            remaining_ms: self.remaining_time_ms as int,
            is_paused: self.is_paused,
        }
    }
}

impl Default for TabataApp {
    fn default() -> (app: Self)
        ensures
            app@ == TimerView::initial(),
    {
        TabataApp {
            config: Config::default(),
            config_state: 0,
            state: State::Configuring,
            cycle: 0,
            set: 0,
            remaining_time_ms: 0,
            is_paused: false,
        }
    }
}

impl TabataApp {
    #[verifier::type_invariant]
    spec fn in_range(self) -> bool {
        &&& self.config_state <= NUM_CONFIGURATION_STATES + 1
        &&& self.cycle < u8::MAX
        &&& self.set < u8::MAX
    }

    /// Whether the settings are being edited or the countdown is running.
    pub fn state(&self) -> (state: State)
        ensures
            state == self@.mode,
    {
        self.state
    }

    /// The position of the field cursor, from 0 to 6.
    pub fn config_state(&self) -> (cursor: u8)
        ensures
            cursor == self@.cursor,
            cursor <= NUM_CONFIGURATION_STATES + 1,
    {
        proof {
            use_type_invariant(self);
        }
        self.config_state
    }

    /// The settings as they stand.
    pub fn config(&self) -> (config: Config)
        ensures
            config == self@.config,
    {
        self.config
    }

    /// The setting under the cursor, if the cursor is on one.
    pub fn selected_value(&self) -> (value: Option<u8>)
        ensures
            value == self@.config.selected(self@.cursor),
    {
        match self.config_state {
            0 => Some(self.config.work_time),
            1 => Some(self.config.rest_time),
            2 => Some(self.config.nb_cycles),
            3 => Some(self.config.nb_sets),
            4 => Some(self.config.rest_between_sets),
            _ => None,
        }
    }

    /// The index of the cycle within the current set.
    pub fn cycle(&self) -> (cycle: u8)
        ensures
            cycle == self@.cycle,
            cycle < u8::MAX,
    {
        proof {
            use_type_invariant(self);
        }
        self.cycle
    }

    /// The index of the set within the session.
    pub fn set(&self) -> (set: u8)
        ensures
            set == self@.set,
            set < u8::MAX,
    {
        proof {
            use_type_invariant(self);
        }
        self.set
    }

    /// The time left in the current interval, in milliseconds.
    pub fn remaining_time_ms(&self) -> (remaining: u64)
        ensures
            remaining == self@.remaining_ms,
    {
        self.remaining_time_ms
    }

    /// Whether the countdown is paused.
    pub fn is_paused(&self) -> (paused: bool)
        ensures
            paused == self@.is_paused,
    {
        self.is_paused
    }

    /// Advances the controller by one tick that covers `elapsed_time_ms`.
    pub fn update(&mut self, elapsed_time_ms: u64, input: &TabataInput)
        ensures
            final(self)@ == old(self)@.step(elapsed_time_ms as int, *input),
            final(self)@.wf(),
    {
        proof {
            use_type_invariant(&*self);
        }
        match self.state {
            State::Configuring => {
                self.configure(input);
            },
            State::Running => {
                match input.button_press {
                    ButtonPressType::Press => {
                        self.is_paused = !self.is_paused;
                    },
                    ButtonPressType::LongPress => {
                        self.state = State::Configuring;
                    },
                    ButtonPressType::NotPressed => {
                        if !self.is_paused {
                            self.run_timer(elapsed_time_ms);
                        }
                    },
                }
            },
        }
        proof {
            use_type_invariant(&*self);
        }
    }

    fn configure(&mut self, input: &TabataInput)
        ensures
            final(self)@ == old(self)@.configure(*input),
    {
        proof {
            use_type_invariant(&*self);
        }
        match input.button_press {
            ButtonPressType::Press => {
                if self.config_state < NUM_CONFIGURATION_STATES + 1 {
                    self.config_state = self.config_state + 1;
                }
            },
            ButtonPressType::LongPress => {
                if self.config_state > 0 {
                    self.config_state = self.config_state - 1;
                }
            },
            ButtonPressType::NotPressed => {},
        }

        if self.config_state > NUM_CONFIGURATION_STATES {
            self.state = State::Running;
            self.is_paused = false;
            self.remaining_time_ms = (self.config.work_time as u64) * 1000;
        }
        let mut config = self.config;
        match self.config_state {
            0 => {
                update_timer(&mut config.work_time, input.steps);
            },
            1 => {
                update_timer(&mut config.rest_time, input.steps);
            },
            2 => {
                update_timer(&mut config.nb_cycles, input.steps / 2);
            },
            3 => {
                update_timer(&mut config.nb_sets, input.steps / 2);
            },
            4 => {
                update_timer(&mut config.rest_between_sets, input.steps);
            },
            _ => {},
        }
        self.config = config;
    }

    fn run_timer(&mut self, elapsed_time_ms: u64)
        ensures
            final(self)@ == old(self)@.count_down(elapsed_time_ms as int),
    {
        proof {
            use_type_invariant(&*self);
        }
        if self.remaining_time_ms > elapsed_time_ms {
            self.remaining_time_ms = self.remaining_time_ms - elapsed_time_ms;
        } else {
            let set_is_over: bool = self.cycle + 1 >= self.config.nb_cycles;
            let set: u8 = if set_is_over {
                self.set + 1
            } else {
                self.set
            };
            if set >= self.config.nb_sets {
                self.cycle = 0;
                self.set = 0;
                self.state = State::Configuring;
                return ;
            }
            self.cycle = if set_is_over {
                0
            } else {
                self.cycle + 1
            };
            self.set = set;
            self.remaining_time_ms = (self.config.work_time as u64) * 1000;
        }
    }
}

/// A setting at the top of its range stays there under any number of
/// upward adjustments, and one at the bottom under any number of downward
/// ones.
pub proof fn lemma_adjustment_holds_at_the_limits(steps: int, times: nat)
    ensures
        steps >= 0 ==> adjusted_repeatedly(255, steps, times) == 255,
        steps <= 0 ==> adjusted_repeatedly(0, steps, times) == 0,
    decreases times,
{
    if times > 0 {
        lemma_adjustment_holds_at_the_limits(steps, (times - 1) as nat);
    }
}

/// An adjustment that stays within the range of a byte is plain addition.
pub proof fn lemma_adjustment_within_range_adds(value: u8, steps: int)
    requires
        0 <= value + steps <= 255,
    ensures
        adjusted(value, steps) == value + steps,
{
}

/// A tick takes a well-formed controller to a well-formed one.
pub proof fn lemma_step_preserves_wf(state: TimerView, elapsed_ms: int, input: TabataInput)
    requires
        state.wf(),
        0 <= elapsed_ms,
    ensures
        state.step(elapsed_ms, input).wf(),
{
}

/// Whatever the ticks, a controller that started fresh is well formed; in
/// particular its cursor is never below 0 nor above 6.
pub proof fn lemma_cursor_stays_in_range(ticks: Seq<Tick>)
    ensures
        TimerView::initial().run(ticks).wf(),
        0 <= TimerView::initial().run(ticks).cursor <= 6,
    decreases ticks.len(),
{
    if ticks.len() > 0 {
        let earlier = ticks.drop_last();
        lemma_cursor_stays_in_range(earlier);
        lemma_step_preserves_wf(
            TimerView::initial().run(earlier),
            ticks.last().elapsed_ms as int,
            ticks.last().input,
        );
    }
}

/// The tick on which the cursor arrives past the last position starts the
/// countdown, unpaused, with exactly the work time of that moment, in
/// milliseconds; no setting changes on that tick.
pub proof fn lemma_start_loads_work_time(state: TimerView, elapsed_ms: int, input: TabataInput)
    requires
        state.mode == State::Configuring,
        state.moved_cursor(input.button_press) == NUM_CONFIGURATION_STATES + 1,
    ensures
        state.step(elapsed_ms, input).mode == State::Running,
        state.step(elapsed_ms, input).cursor == NUM_CONFIGURATION_STATES + 1,
        !state.step(elapsed_ms, input).is_paused,
        state.step(elapsed_ms, input).config == state.config,
        state.step(elapsed_ms, input).remaining_ms == state.config.work_time * 1000,
{
}

/// While the cursor stays short of that position the controller keeps
/// configuring, and the countdown is not touched.
pub proof fn lemma_configuring_continues(state: TimerView, elapsed_ms: int, input: TabataInput)
    requires
        state.mode == State::Configuring,
        state.moved_cursor(input.button_press) <= NUM_CONFIGURATION_STATES,
    ensures
        state.step(elapsed_ms, input).mode == State::Configuring,
        state.step(elapsed_ms, input).remaining_ms == state.remaining_ms,
        state.step(elapsed_ms, input).is_paused == state.is_paused,
        state.step(elapsed_ms, input).cycle == state.cycle,
        state.step(elapsed_ms, input).set == state.set,
{
}

/// A running, unpaused tick without a button event that does not use up
/// the interval takes exactly its duration off the remaining time and
/// changes nothing else.
pub proof fn lemma_countdown_conserves_time(state: TimerView, elapsed_ms: int, steps: i32)
    requires
        state.mode == State::Running,
        !state.is_paused,
        state.remaining_ms > elapsed_ms,
    ensures
        state.step(elapsed_ms, TabataInput { button_press: ButtonPressType::NotPressed, steps })
            == (TimerView { remaining_ms: state.remaining_ms - elapsed_ms, ..state }),
{
}

/// A countdown that starts a running tick with both counters below their
/// limits ends it so, whatever the tick brings. Only editing the settings
/// can put a limit at or below its counter.
pub proof fn lemma_counters_stay_below_limits(
    state: TimerView,
    elapsed_ms: int,
    input: TabataInput,
)
    requires
        state.mode == State::Running,
        0 <= state.cycle < state.config.nb_cycles,
        0 <= state.set < state.config.nb_sets,
    ensures
        0 <= state.step(elapsed_ms, input).cycle < state.step(elapsed_ms, input).config.nb_cycles,
        0 <= state.step(elapsed_ms, input).set < state.step(elapsed_ms, input).config.nb_sets,
        state.step(elapsed_ms, input).config == state.config,
{
}

/// When an interval ends within a set, the cycle counter moves on by one
/// and a new work interval starts.
pub proof fn lemma_interval_end_advances_cycle(state: TimerView, elapsed_ms: int, steps: i32)
    requires
        state.mode == State::Running,
        !state.is_paused,
        state.remaining_ms <= elapsed_ms,
        state.cycle + 1 < state.config.nb_cycles,
        state.set < state.config.nb_sets,
    ensures
        state.step(elapsed_ms, TabataInput { button_press: ButtonPressType::NotPressed, steps })
            == (TimerView {
            cycle: state.cycle + 1,
            remaining_ms: state.config.work_time * 1000,
            ..state
        }),
{
}

/// When the last cycle of a set ends and another set is due, the cycle
/// counter goes back to 0, the set counter moves on by one, and a new work
/// interval starts.
pub proof fn lemma_last_cycle_rolls_over(state: TimerView, elapsed_ms: int, steps: i32)
    requires
        state.mode == State::Running,
        !state.is_paused,
        state.remaining_ms <= elapsed_ms,
        state.cycle + 1 >= state.config.nb_cycles,
        state.set + 1 < state.config.nb_sets,
    ensures
        state.step(elapsed_ms, TabataInput { button_press: ButtonPressType::NotPressed, steps })
            == (TimerView {
            cycle: 0,
            set: state.set + 1,
            remaining_ms: state.config.work_time * 1000,
            ..state
        }),
{
}

/// When the last cycle of the last set ends, both counters go back to 0
/// and the controller returns to configuring; cursor, settings and the
/// remaining time stay as they were.
pub proof fn lemma_last_set_ends_session(state: TimerView, elapsed_ms: int, steps: i32)
    requires
        state.mode == State::Running,
        !state.is_paused,
        state.remaining_ms <= elapsed_ms,
        state.cycle + 1 >= state.config.nb_cycles,
        state.set + 1 >= state.config.nb_sets,
    ensures
        state.step(elapsed_ms, TabataInput { button_press: ButtonPressType::NotPressed, steps })
            == (TimerView { mode: State::Configuring, cycle: 0, set: 0, ..state }),
{
}

/// A paused countdown does not move: a tick without a button event leaves
/// the whole controller, and so the remaining time, as it was, however long
/// the tick.
pub proof fn lemma_pause_freezes_countdown(state: TimerView, elapsed_ms: int, steps: i32)
    requires
        state.mode == State::Running,
        state.is_paused,
    ensures
        state.step(elapsed_ms, TabataInput { button_press: ButtonPressType::NotPressed, steps })
            == state,
{
}

/// While running, a press toggles the pause and a long press goes back to
/// configuring; neither touches anything else.
pub proof fn lemma_buttons_while_running(state: TimerView, elapsed_ms: int, steps: i32)
    requires
        state.mode == State::Running,
    ensures
        state.step(elapsed_ms, TabataInput { button_press: ButtonPressType::Press, steps })
            == (TimerView { is_paused: !state.is_paused, ..state }),
        state.step(elapsed_ms, TabataInput { button_press: ButtonPressType::LongPress, steps })
            == (TimerView { mode: State::Configuring, ..state }),
{
}

} // verus!
