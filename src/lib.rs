//! Clock, Pomodoro and countdown-timer logic with a task list and work metrics.
//!
//! Durations are held as `u64` nanoseconds throughout; see [`duration`].
use vstd::prelude::*;

pub mod duration;
pub mod pomodoro;
pub mod stats;
pub mod task;
pub mod text;
pub mod timer;

verus! {

/// The page that the application shows.
#[derive(PartialEq, Eq, Structural, Clone, Copy, Debug)]
pub enum Tab {
    Pomodoro,
    Clock,
    Timer,
}

} // verus!
