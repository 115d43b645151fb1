//! The time budget of one polling loop.
//!
//! Time is a reading of a monotonic clock, in nanoseconds since a moment that
//! the driver of the loop has chosen once; a span of time is in nanoseconds
//! too.

use vstd::prelude::*;

verus! {

/// How long one polling loop may go on: 180 s.
pub const POLL_LIMIT: u64 = 180_000_000_000;

/// The pause between two polls: 5 s.
pub const POLL_INTERVAL: u64 = 5_000_000_000;

/// The time between two clock readings; zero where `now` lies before `start`.
pub open spec fn elapsed_between(start: u64, now: u64) -> nat {
    if now >= start {
        (now - start) as nat
    } else {
        0
    }
}

/// The window within which a polling loop must succeed.
#[derive(Clone, Copy, Debug, PartialEq, Eq, Structural)]
pub struct PollBudget {
    pub start: u64,
    pub limit: u64,
}

impl PollBudget {
    /// The budget of a loop that begins at `start`.
    pub fn new(start: u64) -> (budget: PollBudget)
        ensures
            budget == (PollBudget { start, limit: POLL_LIMIT }),
    {
        PollBudget { start, limit: POLL_LIMIT }
    }

    /// The time spent at the reading `now`.
    pub open spec fn spent(self, now: u64) -> nat {
        elapsed_between(self.start, now)
    }

    /// Whether another poll may start at the reading `now`.
    pub open spec fn open_at(self, now: u64) -> bool {
        self.spent(now) < self.limit
    }

    /// The time spent at the reading `now`.
    pub fn elapsed(&self, now: u64) -> (span: u64)
        ensures
            span == self.spent(now),
    {
        if now >= self.start {
            now - self.start
        } else {
            0
        }
    }

    /// Whether another poll may start at the reading `now`.
    pub fn allows(&self, now: u64) -> (open: bool)
        ensures
            open == self.open_at(now),
    {
        self.elapsed(now) < self.limit
    }
}

} // verus!
