//! The decisions of the loop that drives one timer: each tick draws the
//! frame, reads at most one key, then checks for completion. The caller
//! performs the drawing, the reading and the notifications; this module
//! says what each of them changes.
use vstd::prelude::*;

use crate::text::{decimal, push_decimal};
use crate::timer::{can_resume_at, toggled_state, Notice, Timer, TimerState, DEFAULT_DURATION_MS};

verus! {

/// The kind of a key event.
pub enum KeyKind {
    Press,
    Repeat,
    Release,
}

/// The key of a key event: a character key, or any other.
pub enum Key {
    Char(char),
    Other,
}

/// The loop's state: the timer, the number of frames drawn, and whether the
/// loop is to end.
pub struct App<H> {
    pub timer: Timer<H>,
    pub frame_count: u64,
    pub should_exit: bool,
}

/// The test notification that the `n` key shows.
pub open spec fn is_test_notice(n: Notice) -> bool {
    &&& n.appname is None
    &&& n.summary@ == "Test event"@
    &&& n.body@ == Seq::<char>::empty()
    &&& !n.persistent
}

impl<H> App<H> {
    /// The loop's state at start-up at `now`: the default timer running, no
    /// frame drawn, no exit asked for.
    pub fn new(now: u64) -> (r: App<H>)
        requires
            now + DEFAULT_DURATION_MS <= u64::MAX,
        ensures
            r.timer.config.duration == DEFAULT_DURATION_MS,
            r.timer.config.label@ == "Placeholder"@,
            r.timer.state == (TimerState::<H>::Running {
                completion: (now + DEFAULT_DURATION_MS) as u64,
            }),
            r.frame_count == 0,
            !r.should_exit,
    {
        App { timer: Timer::default_at(now), frame_count: 0, should_exit: false }
    }

    /// Whether the loop runs another tick: until `q` was pressed.
    pub fn should_continue(&self) -> (r: bool)
        ensures
            r == !self.should_exit,
    {
        !self.should_exit
    }

    /// Counts one drawn frame; the counter wraps past its largest value.
    pub fn record_frame(&mut self)
        ensures
            final(self).frame_count as int == (old(self).frame_count as int + 1) % (u64::MAX as int
                + 1),
            final(self).timer == old(self).timer,
            final(self).should_exit == old(self).should_exit,
    {
        self.frame_count = self.frame_count.wrapping_add(1);
    }

    /// The frame counter as shown in the panel's corner.
    pub fn frame_text(&self) -> (r: String)
        ensures
            r@ == decimal(self.frame_count as nat),
    {
        let mut out = String::new();
        push_decimal(&mut out, self.frame_count);
        out
    }

    /// Handles one key event at `now`. Only presses act: `n` asks for the
    /// test notification (returned), space toggles the timer's pause, `q`
    /// ends the loop after this tick. Everything else is ignored.
    pub fn handle_key(&mut self, kind: KeyKind, key: Key, now: u64) -> (r: Option<Notice>)
        requires
            can_resume_at(old(self).timer.state, now),
        ensures
            r is Some <==> (kind is Press && key == Key::Char('n')),
            r matches Some(n) ==> is_test_notice(n),
            final(self).timer.state == (if kind is Press && key == Key::Char(' ') {
                toggled_state(old(self).timer.state, now)
            } else {
                old(self).timer.state
            }),
            final(self).timer.config == old(self).timer.config,
            final(self).should_exit == (old(self).should_exit || (kind is Press && key == Key::Char(
                'q',
            ))),
            final(self).frame_count == old(self).frame_count,
    {
        if let KeyKind::Press = kind {
            if let Key::Char(c) = key {
                if c == 'n' {
                    return Some(test_notice());
                } else if c == ' ' {
                    self.timer.toggle_pause(now);
                } else if c == 'q' {
                    self.should_exit = true;
                }
            }
        }
        None
    }
}

/// The test notification: summary "Test event", nothing else set.
pub fn test_notice() -> (r: Notice)
    ensures
        is_test_notice(r),
{
    proof {
        reveal_strlit("Test event");
    }
    Notice { appname: None, summary: "Test event".to_owned(), body: String::new(), persistent: false }
}

} // verus!
