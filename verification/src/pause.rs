//! A pause: a request to hold reminders back for a while.

use crate::scheduler::PauseWindow;
use crate::time::{Clock, Span, Timestamp};
use vstd::prelude::*;

verus! {

/// Details about an ongoing or previous pause.
#[derive(Clone, Copy, Debug, PartialEq, Eq)]
pub struct Pause {
    /// How long the pause should last for.
    pub duration: Span,
    /// When the pause was started.
    pub started: Timestamp,
}

impl View for Pause {
    type V = PauseWindow;

    open spec fn view(&self) -> PauseWindow {
        PauseWindow { duration: self.duration@, started: self.started@ }
    }
}

impl Pause {
    /// A pause of `duration` that starts at `now`.
    pub fn new_at(duration: Span, now: Timestamp) -> (pause: Pause)
        ensures
            pause@ == (PauseWindow { duration: duration@, started: now@ }),
    {
        Pause { duration, started: now }
    }

    /// Whether the pause is ongoing at `now`: less than its duration has
    /// passed since it started.
    pub fn is_active_at(&self, now: Timestamp) -> (active: bool)
        ensures
            active == self@.is_active(now@),
    {
        self.started.elapsed_at(now).nanos < self.duration.nanos
    }

    /// Whether the pause is ongoing at the moment of the call, by `clock`.
    /// The answer is the one that `is_active_at` gives for the clock's
    /// reading, whatever that reading is.
    pub fn is_active(&self, clock: &mut Clock) -> (active: bool)
        ensures
            final(clock)@ >= old(clock)@,
            active == self@.is_active(final(clock)@),
    {
        let now = clock.now();
        self.is_active_at(now)
    }
}

} // verus!
