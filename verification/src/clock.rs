//! Time as the pipelines see it, and a clock that stands still until told.

use vstd::prelude::*;

verus! {

/// Milliseconds in a second.
pub const MILLIS_PER_SECOND: u64 = 1000;

/// An instant of wall time, in milliseconds since the Unix epoch.
#[derive(Clone, Copy, Debug, PartialEq, Eq, PartialOrd, Ord, Hash)]
pub struct WallTime {
    pub millis: u64,
}

/// A source of time.
pub trait Clock {
    /// The wall time.
    fn now(&self) -> WallTime;

    /// The wall time in whole seconds since the Unix epoch.
    fn now_as_timestamp(&self) -> u64;
}

/// A clock that shows the same time until it is advanced.
#[derive(Clone, Copy, Debug, PartialEq, Eq)]
pub struct FakeClock {
    pub now: WallTime,
}

impl FakeClock {
    /// A clock that stands at `millis` milliseconds since the Unix epoch.
    pub fn starting_at(millis: u64) -> (clock: FakeClock)
        ensures
            clock.now.millis == millis,
    {
        FakeClock { now: WallTime { millis } }
    }

    /// Moves the clock forward by `duration_ms` milliseconds.
    pub fn advance(&mut self, duration_ms: u64)
        requires
            old(self).now.millis + duration_ms <= u64::MAX,
        ensures
            final(self).now.millis == old(self).now.millis + duration_ms,
    {
        self.now = WallTime { millis: self.now.millis + duration_ms };
    }
}

impl Clock for FakeClock {
    fn now(&self) -> (time: WallTime)
        ensures
            time == self.now,
    {
        self.now
    }

    fn now_as_timestamp(&self) -> (seconds: u64)
        ensures
            seconds == self.now.millis / MILLIS_PER_SECOND,
    {
        self.now.millis / MILLIS_PER_SECOND
    }
}

} // verus!
