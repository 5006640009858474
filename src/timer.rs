//! The countdown timer and its state machine.
//!
//! Instants and durations are milliseconds, as `u64`. Instants count from an
//! origin that the caller picks once (the moment the program started, say)
//! and that is the same for every call on one timer.
use vstd::prelude::*;

use crate::text::{push_seconds, seconds_text};

verus! {

/// Where a timer stands. `H` is the handle of the notification shown when
/// the countdown ended.
pub enum TimerState<H> {
    /// Not started.
    Off,
    /// Counting down; ends at the instant `completion`.
    Running { completion: u64 },
    /// Halted with `remaining` milliseconds left.
    Paused { remaining: u64 },
    /// Ended at the instant `completed`; the finish notification is `notify_handle`.
    Finished { completed: u64, notify_handle: H },
}

/// What a timer is set to: its length and the name it is shown under.
pub struct TimerConfig {
    pub duration: u64,
    pub label: String,
}

/// A countdown timer.
pub struct Timer<H> {
    pub state: TimerState<H>,
    pub config: TimerConfig,
}

/// A desktop notification to be shown.
pub struct Notice {
    /// The application name it is shown under; `None` leaves the
    /// notification service's default.
    pub appname: Option<String>,
    pub summary: String,
    pub body: String,
    /// Whether it stays until the user dismisses it.
    pub persistent: bool,
}

/// `a - b`, or zero where `b` is past `a`.
pub open spec fn diff_or_zero(a: nat, b: nat) -> nat {
    if a >= b {
        (a - b) as nat
    } else {
        0
    }
}

/// The state after a pause at `now`: a running timer keeps what is left of
/// its countdown (never less than zero); any other state is unchanged.
pub open spec fn paused_state<H>(s: TimerState<H>, now: u64) -> TimerState<H> {
    match s {
        TimerState::Running { completion } => TimerState::Paused {
            remaining: diff_or_zero(completion as nat, now as nat) as u64,
        },
        _ => s,
    }
}

/// Whether a resume at `now` stays within the clock's range.
pub open spec fn can_resume_at<H>(s: TimerState<H>, now: u64) -> bool {
    s matches TimerState::Paused { remaining } ==> now + remaining <= u64::MAX
}

/// The state after a resume at `now`: a paused timer runs again and ends
/// `remaining` after `now`; any other state is unchanged.
pub open spec fn resumed_state<H>(s: TimerState<H>, now: u64) -> TimerState<H> {
    match s {
        TimerState::Paused { remaining } => TimerState::Running {
            completion: (now + remaining) as u64,
        },
        _ => s,
    }
}

/// The state after the pause key at `now`: pause when running, resume when
/// paused, nothing otherwise.
pub open spec fn toggled_state<H>(s: TimerState<H>, now: u64) -> TimerState<H> {
    match s {
        TimerState::Running { .. } => paused_state(s, now),
        TimerState::Paused { .. } => resumed_state(s, now),
        _ => s,
    }
}

/// Whether the countdown has run out at `now`: the timer is running and its
/// completion instant is `now` or earlier.
pub open spec fn is_due<H>(s: TimerState<H>, now: u64) -> bool {
    s matches TimerState::Running { completion } && completion <= now
}

/// The state once the finish notification `handle` was shown: finished at
/// the instant the countdown was due to end.
pub open spec fn finished_state<H>(s: TimerState<H>, handle: H) -> TimerState<H> {
    match s {
        TimerState::Running { completion } => TimerState::Finished {
            completed: completion,
            notify_handle: handle,
        },
        _ => s,
    }
}

/// The milliseconds left that the display shows: what a paused timer holds,
/// or the time to completion of a running one (zero once it has passed).
pub open spec fn shown_remaining<H>(s: TimerState<H>, now: u64) -> nat {
    match s {
        TimerState::Running { completion } => diff_or_zero(completion as nat, now as nat),
        TimerState::Paused { remaining } => remaining as nat,
        _ => 0,
    }
}

/// The body text for state `s` at `now`.
pub open spec fn timer_text<H>(s: TimerState<H>, duration: u64, now: u64) -> Seq<char> {
    match s {
        TimerState::Off => "Stopped ("@ + seconds_text(duration as nat) + "s)"@,
        TimerState::Paused { remaining } => seconds_text(remaining as nat)
            + "s remaining [Paused]"@,
        TimerState::Running { completion } => seconds_text(
            diff_or_zero(completion as nat, now as nat),
        ) + "s remaining"@,
        TimerState::Finished { completed, .. } => "Finished! ("@ + seconds_text(
            diff_or_zero(now as nat, completed as nat),
        ) + "s ago)"@,
    }
}

/// The body of the finish notification of a timer named `label`.
pub open spec fn finish_body(label: Seq<char>) -> Seq<char> {
    "Timer "@ + label + " has finished!"@
}

/// The notification shown when a timer named `label` ends: under the
/// application's name, summary "Timer Finished", kept until dismissed.
pub open spec fn is_finish_notice(n: Notice, label: Seq<char>) -> bool {
    &&& n.appname matches Some(a) && a@ == "tuimer"@
    &&& n.summary@ == "Timer Finished"@
    &&& n.body@ == finish_body(label)
    &&& n.persistent
}

/// The length of the timer that starts with the program.
pub const DEFAULT_DURATION_MS: u64 = 5000;

/// A copy of the string `s`.
fn owned(s: &str) -> (r: String)
    ensures
        r@ == s@,
{
    s.to_owned()
}

impl<H> Timer<H> {
    /// A timer named `label` of `duration` milliseconds, started at `now`.
    pub fn new(duration: u64, label: String, now: u64) -> (r: Timer<H>)
        requires
            now + duration <= u64::MAX,
        ensures
            r.config.duration == duration,
            r.config.label@ == label@,
            r.state == (TimerState::<H>::Running { completion: (now + duration) as u64 }),
    {
        Timer {
            state: TimerState::Running { completion: now + duration },
            config: TimerConfig { duration, label },
        }
    }

    /// The timer that starts with the program: five seconds, named
    /// "Placeholder", started at `now`.
    pub fn default_at(now: u64) -> (r: Timer<H>)
        requires
            now + DEFAULT_DURATION_MS <= u64::MAX,
        ensures
            r.config.duration == DEFAULT_DURATION_MS,
            r.config.label@ == "Placeholder"@,
            r.state == (TimerState::<H>::Running { completion: (now + DEFAULT_DURATION_MS) as u64 }),
    {
        proof {
            reveal_strlit("Placeholder");
        }
        Timer::new(DEFAULT_DURATION_MS, owned("Placeholder"), now)
    }

    /// Halts a running timer at `now`, keeping what is left of the
    /// countdown; in any other state nothing changes.
    pub fn pause(&mut self, now: u64)
        ensures
            final(self).state == paused_state(old(self).state, now),
            final(self).config == old(self).config,
    {
        if let TimerState::Running { completion } = self.state {
            let remaining: u64 = if completion >= now { completion - now } else { 0 };
            self.state = TimerState::Paused { remaining };
        }
    }

    /// Restarts a paused timer at `now`, to end `remaining` later; in any
    /// other state nothing changes.
    pub fn resume(&mut self, now: u64)
        requires
            can_resume_at(old(self).state, now),
        ensures
            final(self).state == resumed_state(old(self).state, now),
            final(self).config == old(self).config,
    {
        if let TimerState::Paused { remaining } = self.state {
            self.state = TimerState::Running { completion: now + remaining };
        }
    }

    /// Pauses a running timer, resumes a paused one; otherwise nothing.
    pub fn toggle_pause(&mut self, now: u64)
        requires
            can_resume_at(old(self).state, now),
        ensures
            final(self).state == toggled_state(old(self).state, now),
            final(self).config == old(self).config,
    {
        match self.state {
            TimerState::Running { .. } => self.pause(now),
            TimerState::Paused { .. } => self.resume(now),
            _ => {},
        }
    }

    /// Whether a resume at `now` stays within the clock's range.
    pub fn resumable_at(&self, now: u64) -> (r: bool)
        ensures
            r == can_resume_at(self.state, now),
    {
        match self.state {
            TimerState::Paused { remaining } => remaining <= u64::MAX - now,
            _ => true,
        }
    }

    /// The completion check at `now`. Where the countdown has run out (the
    /// timer is running and `now` is at or past its completion instant), the
    /// notification to show before `mark_finished`; otherwise `None`, and
    /// the timer is left as it is.
    pub fn check_completion(&self, now: u64) -> (r: Option<Notice>)
        ensures
            r is Some <==> is_due(self.state, now),
            r matches Some(n) ==> is_finish_notice(n, self.config.label@),
    {
        match self.state {
            TimerState::Running { completion } => {
                if completion <= now {
                    Some(self.finish_notice())
                } else {
                    None
                }
            },
            _ => None,
        }
    }

    /// The notification that announces the end of this timer.
    pub fn finish_notice(&self) -> (r: Notice)
        ensures
            is_finish_notice(r, self.config.label@),
    {
        proof {
            reveal_strlit("tuimer");
            reveal_strlit("Timer Finished");
            reveal_strlit("Timer ");
            reveal_strlit(" has finished!");
        }
        let mut body = owned("Timer ");
        body.append(self.config.label.as_str());
        body.append(" has finished!");
        Notice {
            appname: Some(owned("tuimer")),
            summary: owned("Timer Finished"),
            body,
            persistent: true,
        }
    }

    /// Records that the finish notification `handle` was shown: a running
    /// timer becomes finished at its completion instant.
    pub fn mark_finished(&mut self, handle: H)
        requires
            old(self).state is Running,
        ensures
            final(self).state == finished_state(old(self).state, handle),
            final(self).config == old(self).config,
    {
        if let TimerState::Running { completion } = self.state {
            self.state = TimerState::Finished { completed: completion, notify_handle: handle };
        }
    }

    /// The text the display shows for this timer at `now`; the timer is
    /// only read.
    pub fn render_text(&self, now: u64) -> (r: String)
        ensures
            r@ == timer_text(self.state, self.config.duration, now),
    {
        let mut out = String::new();
        match &self.state {
            TimerState::Off => {
                proof {
                    reveal_strlit("Stopped (");
                    reveal_strlit("s)");
                }
                out.append("Stopped (");
                push_seconds(&mut out, self.config.duration);
                out.append("s)");
            },
            TimerState::Paused { remaining } => {
                proof {
                    reveal_strlit("s remaining [Paused]");
                }
                push_seconds(&mut out, *remaining);
                out.append("s remaining [Paused]");
            },
            TimerState::Running { completion } => {
                proof {
                    reveal_strlit("s remaining");
                }
                let left: u64 = if *completion >= now { *completion - now } else { 0 };
                push_seconds(&mut out, left);
                out.append("s remaining");
            },
            TimerState::Finished { completed, .. } => {
                proof {
                    reveal_strlit("Finished! (");
                    reveal_strlit("s ago)");
                }
                let ago: u64 = if now >= *completed { now - *completed } else { 0 };
                out.append("Finished! (");
                push_seconds(&mut out, ago);
                out.append("s ago)");
            },
        }
        assert(out@ =~= timer_text(self.state, self.config.duration, now));
        out
    }
}

} // verus!
