//! Laws of the timer's state machine, over the spec functions that the
//! timer's operations are specified by.
use vstd::prelude::*;

use crate::timer::{
    diff_or_zero, finished_state, is_due, paused_state, resumed_state, shown_remaining,
    timer_text, toggled_state, TimerState,
};

verus! {

/// A timer of `d > 0` milliseconds started at `start` is due at every
/// `now` from `start + d` on; once it is finished with any handle, it is
/// never due again, so the finish happens exactly once.
pub proof fn lemma_completion_fires_once<H>(d: u64, start: u64, now: u64, later: u64, handle: H)
    requires
        d > 0,
        start + d <= u64::MAX,
        start + d <= now,
        now <= later,
    ensures
        is_due(TimerState::<H>::Running { completion: (start + d) as u64 }, now),
        finished_state(TimerState::<H>::Running { completion: (start + d) as u64 }, handle)
            == (TimerState::<H>::Finished { completed: (start + d) as u64, notify_handle: handle }),
        !is_due(
            finished_state(TimerState::<H>::Running { completion: (start + d) as u64 }, handle),
            later,
        ),
{
}

/// Pausing and resuming at the same instant leaves the remaining time that
/// is shown as it was; where the countdown has not yet run out, the timer
/// is back in the very state it was in.
pub proof fn lemma_pause_resume_round_trip<H>(s: TimerState<H>, now: u64)
    requires
        s is Running,
    ensures
        shown_remaining(paused_state(s, now), now) == shown_remaining(s, now),
        shown_remaining(resumed_state(paused_state(s, now), now), now) == shown_remaining(s, now),
        s->completion >= now ==> resumed_state(paused_state(s, now), now) == s,
{
}

/// Two presses of the pause key, at `t1` and then at `t2`, leave a running
/// timer running, its completion moved later by the time it stood paused;
/// where the countdown had not run out at `t1`, by exactly `t2 - t1`.
pub proof fn lemma_toggle_twice<H>(s: TimerState<H>, t1: u64, t2: u64)
    requires
        s is Running,
        t1 <= t2,
        t2 + diff_or_zero(s->completion as nat, t1 as nat) <= u64::MAX,
    ensures
        toggled_state(toggled_state(s, t1), t2) == (TimerState::<H>::Running {
            completion: (t2 + diff_or_zero(s->completion as nat, t1 as nat)) as u64,
        }),
        s->completion >= t1 ==> toggled_state(toggled_state(s, t1), t2)->completion
            == s->completion + (t2 - t1),
{
}

/// The text shown for a stopped or paused timer does not move with the
/// clock; only a running or finished one shows a changing value.
pub proof fn lemma_text_still_unless_counting<H>(
    s: TimerState<H>,
    duration: u64,
    now1: u64,
    now2: u64,
)
    requires
        s is Off || s is Paused,
    ensures
        timer_text(s, duration, now1) == timer_text(s, duration, now2),
{
}

} // verus!
