//! A Pomodoro countdown core: a four-state timer (working, on break,
//! paused, stopped) advanced by discrete one-second ticks, with a tally
//! of completed work intervals and an `H:MM:SS` formatting helper.

pub mod facade;
pub mod format;
pub mod laws;
pub mod state;

pub use facade::PMDRApp;
pub use format::format_secs;
pub use state::TimerState;

use vstd::prelude::*;

verus! {

pub const SECS_PER_MINUTE: u32 = 60;

pub const SECS_PER_HOUR: u32 = 3600;

pub const DEFAULT_WORK_MIN: u32 = 25;

pub const SHORT_BREAK_MIN: u32 = 5;

pub const LONG_BREAK_MIN: u32 = 15;

pub const DEFAULT_WORK_SECS: u32 = DEFAULT_WORK_MIN * SECS_PER_MINUTE;

pub const SHORT_BREAK_SECS: u32 = SHORT_BREAK_MIN * SECS_PER_MINUTE;

pub const LONG_BREAK_SECS: u32 = LONG_BREAK_MIN * SECS_PER_MINUTE;

} // verus!
