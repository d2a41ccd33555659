//! A span of time as plain numbers.

use vstd::prelude::*;

verus! {

/// Nanoseconds in one second.
pub const NANOS_PER_SEC: u32 = 1_000_000_000;

/// A span of time: whole seconds and the nanoseconds beyond them.
#[derive(Clone, Copy, Debug, PartialEq, Eq)]
pub struct Duration {
    pub secs: u64,
    pub nanos: u32,
}

impl Duration {
    /// The sub-second part stays below one second, so that every span is
    /// written in one way only.
    pub open spec fn well_formed(self) -> bool {
        self.nanos < NANOS_PER_SEC
    }

    /// The span in nanoseconds.
    pub open spec fn total_nanos(self) -> nat {
        (self.secs as nat) * (NANOS_PER_SEC as nat) + (self.nanos as nat)
    }

    /// The span of no time at all.
    pub open spec fn zero() -> Duration {
        Duration { secs: 0, nanos: 0 }
    }

    /// A span of whole seconds.
    pub fn from_secs(secs: u64) -> (d: Duration)
        ensures
            d == (Duration { secs, nanos: 0 }),
            d.well_formed(),
    {
        Duration { secs, nanos: 0 }
    }

    /// A span from its two parts, where the sub-second part is below one second.
    pub fn new(secs: u64, nanos: u32) -> (d: Option<Duration>)
        ensures
            nanos < NANOS_PER_SEC ==> d == Some(Duration { secs, nanos }),
            nanos >= NANOS_PER_SEC ==> d is None,
            d matches Some(span) ==> span.well_formed(),
    {
        if nanos < NANOS_PER_SEC {
            Some(Duration { secs, nanos })
        } else {
            None
        }
    }
}

/// Two well-formed spans of the same length are the same span.
pub proof fn well_formed_span_is_unique(a: Duration, b: Duration)
    requires
        a.well_formed(),
        b.well_formed(),
        a.total_nanos() == b.total_nanos(),
    ensures
        a == b,
{
}

} // verus!
