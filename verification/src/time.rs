//! Spans and points of time, counted in nanoseconds.

use vstd::prelude::*;

verus! {

/// A span of time.
#[derive(Clone, Copy, Debug, PartialEq, Eq, Structural)]
pub struct Duration {
    pub nanos: u128,
}

impl Duration {
    pub fn from_secs(secs: u64) -> (d: Duration)
        ensures
            d.nanos == secs * 1_000_000_000,
    {
        Duration { nanos: secs as u128 * 1_000_000_000 }
    }

    pub fn from_millis(millis: u64) -> (d: Duration)
        ensures
            d.nanos == millis * 1_000_000,
    {
        Duration { nanos: millis as u128 * 1_000_000 }
    }

    pub fn from_micros(micros: u64) -> (d: Duration)
        ensures
            d.nanos == micros * 1_000,
    {
        Duration { nanos: micros as u128 * 1_000 }
    }
}

/// A point of a clock that never runs backwards: the time since the clock
/// started.
#[derive(Clone, Copy, Debug, PartialEq, Eq, Structural)]
pub struct Instant {
    pub nanos: u128,
}

impl Instant {
    /// The span from `earlier` to this point, or none where `earlier` is later.
    pub open spec fn since(self, earlier: Instant) -> nat {
        if self.nanos >= earlier.nanos {
            (self.nanos - earlier.nanos) as nat
        } else {
            0
        }
    }

    /// The point `gap` after this one.
    pub fn after(self, gap: Duration) -> (later: Instant)
        requires
            self.nanos + gap.nanos <= u128::MAX,
        ensures
            later.nanos == self.nanos + gap.nanos,
    {
        Instant { nanos: self.nanos + gap.nanos }
    }

    /// The span from `earlier` to this point; zero where `earlier` is later.
    pub fn saturating_duration_since(self, earlier: Instant) -> (d: Duration)
        ensures
            d.nanos == self.since(earlier),
    {
        if self.nanos >= earlier.nanos {
            Duration { nanos: self.nanos - earlier.nanos }
        } else {
            Duration { nanos: 0 }
        }
    }
}

/// The span between two points is how far the later one is behind the earlier
/// one; there is none the other way round.
pub proof fn law_spans_are_differences(a: Instant, b: Instant)
    ensures
        a.nanos + b.since(a) == b.nanos + a.since(b),
        b.since(a) == 0 || a.since(b) == 0,
{
}

} // verus!
