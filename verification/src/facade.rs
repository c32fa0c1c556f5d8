//! The application facade: owns exactly one [`TimerState`] and replaces
//! it wholesale on every transition, so callers never observe a state
//! mid-transition.

use vstd::prelude::*;

use crate::format::format_secs;
use crate::format::format_spec;
use crate::state::TimerState;
use crate::DEFAULT_WORK_SECS;

verus! {

/// The Pomodoro application core: one owned timer state, advanced by
/// `tick` and steered by `toggle_timer` and `stop`.
pub struct PMDRApp {
    timer_state: TimerState,
}

impl View for PMDRApp {
    type V = TimerState;

    closed spec fn view(&self) -> TimerState {
        self.timer_state
    }
}

impl PMDRApp {
    /// A fresh application: working, zero tally, full work interval.
    pub fn new() -> (r: PMDRApp)
        ensures
            r@ == (TimerState::Working { count: 0, timer: DEFAULT_WORK_SECS }),
            r@.wf(),
    {
        PMDRApp { timer_state: TimerState::Working { count: 0, timer: DEFAULT_WORK_SECS } }
    }

    /// Updates the timer and returns whether a work/break boundary was
    /// crossed.
    pub fn tick(&mut self) -> (r: bool)
        requires
            old(self)@.wf(),
            old(self)@.count_spec() < usize::MAX,
        ensures
            final (self)@ == old(self)@.tick_spec().0,
            r == old(self)@.tick_spec().1,
            final (self)@.wf(),
    {
        let mut state = TimerState::Stopped { count: 0 };
        core::mem::swap(&mut state, &mut self.timer_state);
        let (new_state, crossed) = state.tick();
        self.timer_state = new_state;
        crossed
    }

    /// Gets the formatted string of the time remaining.
    pub fn countdown_string(&self) -> (r: String)
        ensures
            r@ == format_spec(self@.timer_spec()),
    {
        let secs = self.timer_state.timer();
        format_secs(secs)
    }

    /// Toggle the timer between ticking and paused states; returns
    /// whether the resulting state is ticking.
    pub fn toggle_timer(&mut self) -> (r: bool)
        requires
            old(self)@.wf(),
        ensures
            final (self)@ == old(self)@.toggle_spec(),
            r == old(self)@.toggle_spec().ticking_spec(),
            final (self)@.wf(),
    {
        let mut state = TimerState::Stopped { count: 0 };
        core::mem::swap(&mut state, &mut self.timer_state);
        let new_state = state.toggle();
        let ticking = new_state.ticking();
        self.timer_state = new_state;
        ticking
    }

    /// Gets the current tally.
    pub fn tally(&self) -> (r: usize)
        ensures
            r == self@.count_spec(),
    {
        self.timer_state.count()
    }

    /// Stops the timer, keeping the tally; stopping twice in a row
    /// resets the tally.
    pub fn stop(&mut self)
        ensures
            final (self)@ == old(self)@.stop_spec(),
            final (self)@.wf(),
    {
        let mut state = TimerState::Stopped { count: 0 };
        core::mem::swap(&mut state, &mut self.timer_state);
        self.timer_state = state.stop();
    }

    /// Returns true if the timer is ticking.
    pub fn ticking(&self) -> (r: bool)
        ensures
            r == self@.ticking_spec(),
    {
        self.timer_state.ticking()
    }

    /// A human-readable label for the current state.
    pub fn state_label(&self) -> (r: String)
        ensures
            r@ == self@.label_spec(),
    {
        self.timer_state.label()
    }

    /// Returns true if the timer is in a running break.
    pub fn on_break(&self) -> (r: bool)
        ensures
            r == self@.on_break_spec(),
    {
        self.timer_state.on_break()
    }
}

} // verus!
