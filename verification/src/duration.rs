//! A non-negative span of time, split into whole seconds and a sub-second
//! nanosecond remainder.

use vstd::prelude::*;

verus! {

/// Number of nanoseconds in one second; a well-formed sub-second part stays
/// below this.
pub const NANOS_PER_SEC: u32 = 1_000_000_000;

/// Number of nanoseconds in one millisecond.
pub const NANOS_PER_MILLI: u32 = 1_000_000;

/// Number of milliseconds in one second.
pub const MILLIS_PER_SEC: u64 = 1_000;

/// A span of time with millisecond-to-nanosecond precision: `secs` whole
/// seconds plus `nanos` nanoseconds.
#[derive(Clone, Copy, Debug, PartialEq, Eq, Structural)]
pub struct Duration {
    pub secs: u64,
    pub nanos: u32,
}

impl Duration {
    /// A duration is well formed when its nanosecond part is a proper
    /// sub-second remainder.
    pub open spec fn wf(self) -> bool {
        self.nanos < NANOS_PER_SEC
    }

    /// The duration denoted by a number of milliseconds.
    pub open spec fn spec_from_millis(millis: u64) -> Duration {
        Duration {
            secs: millis / MILLIS_PER_SEC,
            nanos: ((millis % MILLIS_PER_SEC) * (NANOS_PER_MILLI as u64)) as u32,
        }
    }

    /// The zero-length duration.
    pub open spec fn spec_zero() -> Duration {
        Duration { secs: 0, nanos: 0 }
    }

    /// Build a duration from a number of milliseconds.
    pub fn from_millis(millis: u64) -> (d: Duration)
        ensures
            d == Duration::spec_from_millis(millis),
            d.wf(),
    {
        let rem: u64 = millis % MILLIS_PER_SEC;
        Duration { secs: millis / MILLIS_PER_SEC, nanos: (rem as u32) * NANOS_PER_MILLI }
    }

    /// Build a duration from whole seconds and a sub-second nanosecond part.
    pub fn new(secs: u64, nanos: u32) -> (d: Duration)
        requires
            nanos < NANOS_PER_SEC,
        ensures
            d.secs == secs,
            d.nanos == nanos,
            d.wf(),
    {
        Duration { secs, nanos }
    }

    /// The zero-length duration.
    pub fn zero() -> (d: Duration)
        ensures
            d == Duration::spec_zero(),
            d.wf(),
    {
        Duration { secs: 0, nanos: 0 }
    }
}

} // verus!
