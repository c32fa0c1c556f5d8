//! Laws of the state machine: what iterated ticking does to a timer,
//! and how `toggle` and `stop` relate to the state they act on.

use vstd::prelude::*;

use crate::state::break_secs;
use crate::state::TimerState;
use crate::DEFAULT_WORK_SECS;
use crate::LONG_BREAK_SECS;
use crate::SHORT_BREAK_SECS;

verus! {

/// The state reached from `s` after `n` ticks.
pub open spec fn ticks(s: TimerState, n: nat) -> TimerState
    decreases n,
{
    if n == 0 {
        s
    } else {
        ticks(s.tick_spec().0, (n - 1) as nat)
    }
}

/// How many work/break boundaries are crossed in `n` ticks from `s`.
pub open spec fn boundaries(s: TimerState, n: nat) -> nat
    decreases n,
{
    if n == 0 {
        0
    } else {
        (if s.tick_spec().1 {
            1nat
        } else {
            0nat
        }) + boundaries(s.tick_spec().0, (n - 1) as nat)
    }
}

/// Ticking distributes over addition: `m + n` ticks land where `n`
/// ticks from the `m`-tick mark land, and boundary counts add up.
pub proof fn lemma_ticks_add(s: TimerState, m: nat, n: nat)
    ensures
        ticks(s, m + n) == ticks(ticks(s, m), n),
        boundaries(s, m + n) == boundaries(s, m) + boundaries(ticks(s, m), n),
    decreases m,
{
    if m > 0 {
        lemma_ticks_add(s.tick_spec().0, (m - 1) as nat, n);
    }
}

/// Strictly inside a work interval no boundary is crossed: `k` ticks
/// of a working state with `d` seconds left, `k < d`, just count down.
pub proof fn lemma_work_run(count: usize, d: u32, k: nat)
    requires
        k < d,
    ensures
        ticks(TimerState::Working { count, timer: d }, k) == (TimerState::Working {
            count,
            timer: (d - k) as u32,
        }),
        boundaries(TimerState::Working { count, timer: d }, k) == 0,
    decreases k,
{
    if k > 0 {
        lemma_work_run(count, (d - 1) as u32, (k - 1) as nat);
    }
}

/// Ticking a working state exactly as often as it has seconds left
/// crosses exactly one boundary and yields a break with the tally
/// incremented — the long break when the new tally is divisible by 4.
pub proof fn lemma_work_interval(count: usize, d: u32)
    requires
        d >= 1,
        count < usize::MAX,
    ensures
        ticks(TimerState::Working { count, timer: d }, d as nat) == (TimerState::OnBreak {
            count: (count + 1) as usize,
            timer: break_secs((count + 1) as usize),
        }),
        boundaries(TimerState::Working { count, timer: d }, d as nat) == 1,
    decreases d,
{
    let s = TimerState::Working { count, timer: d };
    if d == 1 {
        assert(ticks(s, 1) == ticks(s.tick_spec().0, 0));
        assert(boundaries(s, 1) == 1 + boundaries(s.tick_spec().0, 0));
    } else {
        lemma_work_interval(count, (d - 1) as u32);
    }
}

/// Strictly inside a break no boundary is crossed.
pub proof fn lemma_break_run(count: usize, d: u32, k: nat)
    requires
        k < d,
    ensures
        ticks(TimerState::OnBreak { count, timer: d }, k) == (TimerState::OnBreak {
            count,
            timer: (d - k) as u32,
        }),
        boundaries(TimerState::OnBreak { count, timer: d }, k) == 0,
    decreases k,
{
    if k > 0 {
        lemma_break_run(count, (d - 1) as u32, (k - 1) as nat);
    }
}

/// Ticking a break exactly as often as it has seconds left crosses
/// exactly one boundary and yields a fresh work interval of standard
/// duration, tally unchanged.
pub proof fn lemma_break_interval(count: usize, d: u32)
    requires
        d >= 1,
    ensures
        ticks(TimerState::OnBreak { count, timer: d }, d as nat) == (TimerState::Working {
            count,
            timer: DEFAULT_WORK_SECS,
        }),
        boundaries(TimerState::OnBreak { count, timer: d }, d as nat) == 1,
    decreases d,
{
    let s = TimerState::OnBreak { count, timer: d };
    if d == 1 {
        assert(ticks(s, 1) == ticks(s.tick_spec().0, 0));
        assert(boundaries(s, 1) == 1 + boundaries(s.tick_spec().0, 0));
    } else {
        lemma_break_interval(count, (d - 1) as u32);
    }
}

/// From a fresh start, ticking through exactly one work interval
/// crosses exactly one boundary and lands in a short break with tally
/// 1 (1 is not divisible by 4).
pub proof fn lemma_first_break_is_short()
    ensures
        ticks(
            TimerState::Working { count: 0, timer: DEFAULT_WORK_SECS },
            DEFAULT_WORK_SECS as nat,
        ) == (TimerState::OnBreak { count: 1, timer: SHORT_BREAK_SECS }),
        boundaries(
            TimerState::Working { count: 0, timer: DEFAULT_WORK_SECS },
            DEFAULT_WORK_SECS as nat,
        ) == 1,
{
    lemma_work_interval(0, DEFAULT_WORK_SECS);
    assert(break_secs(1) == SHORT_BREAK_SECS);
}

/// One full work-plus-short-break cycle from a fresh work interval:
/// when the incremented tally is not divisible by 4, the cycle returns
/// to a fresh work interval with the tally one higher, crossing two
/// boundaries.
pub proof fn lemma_full_cycle(count: usize)
    requires
        count < usize::MAX,
        (count + 1) % 4 != 0,
    ensures
        ticks(
            TimerState::Working { count, timer: DEFAULT_WORK_SECS },
            (DEFAULT_WORK_SECS + SHORT_BREAK_SECS) as nat,
        ) == (TimerState::Working { count: (count + 1) as usize, timer: DEFAULT_WORK_SECS }),
        boundaries(
            TimerState::Working { count, timer: DEFAULT_WORK_SECS },
            (DEFAULT_WORK_SECS + SHORT_BREAK_SECS) as nat,
        ) == 2,
{
    let s = TimerState::Working { count, timer: DEFAULT_WORK_SECS };
    lemma_ticks_add(s, DEFAULT_WORK_SECS as nat, SHORT_BREAK_SECS as nat);
    lemma_work_interval(count, DEFAULT_WORK_SECS);
    lemma_break_interval((count + 1) as usize, SHORT_BREAK_SECS);
}

/// Completing four work intervals from a fresh start: the fourth
/// transition into a break is the long break, with tally 4. Seven
/// boundaries are crossed on the way (four into breaks, three back).
pub proof fn lemma_fourth_break_is_long()
    ensures
        ticks(
            TimerState::Working { count: 0, timer: DEFAULT_WORK_SECS },
            (3 * (DEFAULT_WORK_SECS + SHORT_BREAK_SECS) + DEFAULT_WORK_SECS) as nat,
        ) == (TimerState::OnBreak { count: 4, timer: LONG_BREAK_SECS }),
        boundaries(
            TimerState::Working { count: 0, timer: DEFAULT_WORK_SECS },
            (3 * (DEFAULT_WORK_SECS + SHORT_BREAK_SECS) + DEFAULT_WORK_SECS) as nat,
        ) == 7,
{
    let cycle = (DEFAULT_WORK_SECS + SHORT_BREAK_SECS) as nat;
    let s0 = TimerState::Working { count: 0, timer: DEFAULT_WORK_SECS };
    let s1 = TimerState::Working { count: 1, timer: DEFAULT_WORK_SECS };
    let s2 = TimerState::Working { count: 2, timer: DEFAULT_WORK_SECS };
    lemma_full_cycle(0);
    lemma_ticks_add(s0, cycle, 2 * cycle + DEFAULT_WORK_SECS as nat);
    lemma_full_cycle(1);
    lemma_ticks_add(s1, cycle, cycle + DEFAULT_WORK_SECS as nat);
    lemma_full_cycle(2);
    lemma_ticks_add(s2, cycle, DEFAULT_WORK_SECS as nat);
    lemma_work_interval(3, DEFAULT_WORK_SECS);
    assert(break_secs(4) == LONG_BREAK_SECS);
}

/// Pausing a ticking state and toggling again restores it exactly; in
/// particular no remaining time is consumed while paused.
pub proof fn lemma_toggle_toggle(s: TimerState)
    requires
        s.ticking_spec(),
    ensures
        s.toggle_spec().toggle_spec() == s,
        s.toggle_spec().timer_spec() == s.timer_spec(),
        s.toggle_spec().count_spec() == s.count_spec(),
        !s.toggle_spec().ticking_spec(),
{
}

/// Stopping a state that is not already stopped keeps its tally.
pub proof fn lemma_stop_keeps_tally(s: TimerState)
    requires
        !(s is Stopped),
    ensures
        s.stop_spec() == (TimerState::Stopped { count: s.count_spec() }),
        s.stop_spec().count_spec() == s.count_spec(),
{
}

/// Stopping twice in a row always resets the tally to zero, whatever
/// the starting state.
pub proof fn lemma_stop_twice_resets(s: TimerState)
    ensures
        s.stop_spec().stop_spec() == (TimerState::Stopped { count: 0 }),
{
}

/// Ticking a paused or stopped state changes nothing and crosses no
/// boundary: neither remaining time nor tally moves.
pub proof fn lemma_tick_inactive(s: TimerState)
    requires
        !s.ticking_spec(),
    ensures
        s.tick_spec() == (s, false),
        s.tick_spec().0.timer_spec() == s.timer_spec(),
        s.tick_spec().0.count_spec() == s.count_spec(),
{
}

/// Toggling a stopped state starts a fresh work interval of standard
/// duration with the tally preserved.
pub proof fn lemma_toggle_from_stopped(count: usize)
    ensures
        (TimerState::Stopped { count }).toggle_spec() == (TimerState::Working {
            count,
            timer: DEFAULT_WORK_SECS,
        }),
{
}

} // verus!
