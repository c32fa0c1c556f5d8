//! The timer state machine: a closed sum type over the four states and
//! the three transition operations (`tick`, `toggle`, `stop`), each
//! verified against a spec-level transition function.

use vstd::prelude::*;
use vstd::string::StringExecFns;

use crate::DEFAULT_WORK_SECS;
use crate::LONG_BREAK_SECS;
use crate::SHORT_BREAK_SECS;

verus! {

/// The four timer states. `Paused` wraps the state it interrupted,
/// which is always `Working` or `OnBreak` (see [`TimerState::wf`]).
pub enum TimerState {
    Working { count: usize, timer: u32 },
    OnBreak { count: usize, timer: u32 },
    Paused(Box<TimerState>),
    Stopped { count: usize },
}

/// The duration of the break that follows a work interval whose
/// completion brought the tally to `count`: every fourth completed
/// interval earns the long break.
pub open spec fn break_secs(count: usize) -> u32 {
    if count % 4 == 0 {
        LONG_BREAK_SECS
    } else {
        SHORT_BREAK_SECS
    }
}

impl TimerState {
    /// Well-formedness: a ticking state always has at least one second
    /// left, and `Paused` only ever wraps a ticking state.
    pub open spec fn wf(self) -> bool
        decreases self,
    {
        match self {
            TimerState::Working { count, timer } => timer >= 1,
            TimerState::OnBreak { count, timer } => timer >= 1,
            TimerState::Paused(inner) => inner.wf() && inner.ticking_spec(),
            TimerState::Stopped { count } => true,
        }
    }

    /// The tally of completed work intervals carried by this state.
    pub open spec fn count_spec(self) -> usize
        decreases self,
    {
        match self {
            TimerState::Working { count, .. } => count,
            TimerState::OnBreak { count, .. } => count,
            TimerState::Paused(inner) => inner.count_spec(),
            TimerState::Stopped { count } => count,
        }
    }

    /// The remaining seconds this state reports. `Stopped` reports what
    /// a fresh work interval would show.
    pub open spec fn timer_spec(self) -> u32
        decreases self,
    {
        match self {
            TimerState::Working { timer, .. } => timer,
            TimerState::OnBreak { timer, .. } => timer,
            TimerState::Paused(inner) => inner.timer_spec(),
            TimerState::Stopped { .. } => DEFAULT_WORK_SECS,
        }
    }

    /// True exactly for the two states that consume time when ticked.
    pub open spec fn ticking_spec(self) -> bool {
        self is Working || self is OnBreak
    }

    /// True exactly for `OnBreak`; a paused break does not count.
    pub open spec fn on_break_spec(self) -> bool {
        self is OnBreak
    }

    /// The transition `tick` performs: one second elapses in a ticking
    /// state; reaching zero crosses a boundary, into a break (tally
    /// incremented, long break every fourth) or back to work. Paused
    /// and stopped states are left untouched.
    pub open spec fn tick_spec(self) -> (TimerState, bool) {
        match self {
            TimerState::Working { count, timer } => {
                if timer <= 1 {
                    (
                        TimerState::OnBreak {
                            count: (count + 1) as usize,
                            timer: break_secs((count + 1) as usize),
                        },
                        true,
                    )
                } else {
                    (TimerState::Working { count, timer: (timer - 1) as u32 }, false)
                }
            },
            TimerState::OnBreak { count, timer } => {
                if timer <= 1 {
                    (TimerState::Working { count, timer: DEFAULT_WORK_SECS }, true)
                } else {
                    (TimerState::OnBreak { count, timer: (timer - 1) as u32 }, false)
                }
            },
            _ => (self, false),
        }
    }

    /// The transition `toggle` performs: a ticking state is wrapped in
    /// `Paused`, a paused state resumes where it left off, and a
    /// stopped state starts a fresh work interval with its tally kept.
    pub open spec fn toggle_spec(self) -> TimerState {
        match self {
            TimerState::Paused(inner) => *inner,
            TimerState::Stopped { count } => TimerState::Working {
                count,
                timer: DEFAULT_WORK_SECS,
            },
            _ => TimerState::Paused(Box::new(self)),
        }
    }

    /// The transition `stop` performs: any state halts to `Stopped`
    /// with its tally kept, except that stopping an already stopped
    /// state resets the tally to zero.
    pub open spec fn stop_spec(self) -> TimerState {
        match self {
            TimerState::Stopped { .. } => TimerState::Stopped { count: 0 },
            _ => TimerState::Stopped { count: self.count_spec() },
        }
    }

    /// The human-readable status label this state reports; `Paused`
    /// composes the label of the state it wraps.
    pub open spec fn label_spec(self) -> Seq<char>
        decreases self,
    {
        match self {
            TimerState::Working { .. } => "Keep Going!"@,
            TimerState::OnBreak { .. } => "On Break"@,
            TimerState::Paused(inner) => "Paused ("@ + inner.label_spec() + ")"@,
            TimerState::Stopped { .. } => "Stopped"@,
        }
    }

    /// The human-readable status label.
    pub fn label(&self) -> (r: String)
        ensures
            r@ == self.label_spec(),
        decreases *self,
    {
        match self {
            TimerState::Working { .. } => String::from_str("Keep Going!"),
            TimerState::OnBreak { .. } => String::from_str("On Break"),
            TimerState::Paused(inner) => {
                let mut r = String::from_str("Paused (");
                let contained = inner.label();
                r.append(contained.as_str());
                r.append(")");
                proof {
                    assert(r@ =~= self.label_spec());
                }
                r
            },
            TimerState::Stopped { .. } => String::from_str("Stopped"),
        }
    }

    /// The tally of completed work intervals.
    pub fn count(&self) -> (r: usize)
        ensures
            r == self.count_spec(),
        decreases *self,
    {
        match self {
            TimerState::Working { count, .. } => *count,
            TimerState::OnBreak { count, .. } => *count,
            TimerState::Paused(inner) => inner.count(),
            TimerState::Stopped { count } => *count,
        }
    }

    /// The remaining seconds.
    pub fn timer(&self) -> (r: u32)
        ensures
            r == self.timer_spec(),
        decreases *self,
    {
        match self {
            TimerState::Working { timer, .. } => *timer,
            TimerState::OnBreak { timer, .. } => *timer,
            TimerState::Paused(inner) => inner.timer(),
            TimerState::Stopped { .. } => DEFAULT_WORK_SECS,
        }
    }

    /// Whether this state consumes time when ticked.
    pub fn ticking(&self) -> (r: bool)
        ensures
            r == self.ticking_spec(),
    {
        match self {
            TimerState::Working { .. } => true,
            TimerState::OnBreak { .. } => true,
            _ => false,
        }
    }

    /// Whether this state is a running break.
    pub fn on_break(&self) -> (r: bool)
        ensures
            r == self.on_break_spec(),
    {
        match self {
            TimerState::OnBreak { .. } => true,
            _ => false,
        }
    }

    /// Advance time by one second; returns the successor state and
    /// whether a work/break boundary was crossed.
    pub fn tick(self) -> (r: (TimerState, bool))
        requires
            self.wf(),
            self.count_spec() < usize::MAX,
        ensures
            r == self.tick_spec(),
            r.0.wf(),
    {
        match self {
            TimerState::Working { count, timer } => {
                let timer = timer - 1;
                if timer == 0 {
                    let count = count + 1;
                    let timer = if count % 4 == 0 {
                        LONG_BREAK_SECS
                    } else {
                        SHORT_BREAK_SECS
                    };
                    (TimerState::OnBreak { count, timer }, true)
                } else {
                    (TimerState::Working { count, timer }, false)
                }
            },
            TimerState::OnBreak { count, timer } => {
                let timer = timer - 1;
                if timer == 0 {
                    (TimerState::Working { count, timer: DEFAULT_WORK_SECS }, true)
                } else {
                    (TimerState::OnBreak { count, timer }, false)
                }
            },
            other => (other, false),
        }
    }

    /// Flip between ticking and paused; from `Stopped`, start a fresh
    /// work interval with the tally kept.
    pub fn toggle(self) -> (r: TimerState)
        requires
            self.wf(),
        ensures
            r == self.toggle_spec(),
            r.wf(),
    {
        match self {
            TimerState::Paused(inner) => *inner,
            TimerState::Stopped { count } => TimerState::Working {
                count,
                timer: DEFAULT_WORK_SECS,
            },
            other => TimerState::Paused(Box::new(other)),
        }
    }

    /// Halt, keeping the tally; stopping twice in a row resets it.
    pub fn stop(self) -> (r: TimerState)
        ensures
            r == self.stop_spec(),
            r.wf(),
    {
        match self {
            TimerState::Stopped { .. } => TimerState::Stopped { count: 0 },
            other => TimerState::Stopped { count: other.count() },
        }
    }
}

} // verus!
