//! A countdown timer for the terminal: the timer's state machine and the
//! decisions of the loop that drives it, over a millisecond clock.
pub mod event_loop;
pub mod laws;
pub mod text;
pub mod timer;
