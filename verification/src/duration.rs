//! A plain representation of a span of time.

use vstd::prelude::*;

verus! {

/// A span of time, split into whole seconds and a sub-second nanosecond
/// part.  A well-formed value keeps the nanosecond part below one second.
#[derive(Clone, Copy, Debug, PartialEq, Eq, Structural)]
pub struct Duration {
    pub secs: u64,
    pub nanos: u32,
}

pub const NANOS_PER_SEC: u32 = 1_000_000_000;

impl Duration {
    /// The nanosecond part stays below one second.
    pub open spec fn wf(self) -> bool {
        self.nanos < NANOS_PER_SEC
    }

    /// The whole span measured in nanoseconds.
    pub open spec fn as_nanos(self) -> int {
        self.secs * (NANOS_PER_SEC as int) + self.nanos
    }

    pub fn new(secs: u64, nanos: u32) -> (r: Duration)
        requires
            nanos < NANOS_PER_SEC,
        ensures
            r == (Duration { secs, nanos }),
            r.wf(),
    {
        Duration { secs, nanos }
    }

    pub fn from_secs(secs: u64) -> (r: Duration)
        ensures
            r == (Duration { secs, nanos: 0u32 }),
            r.wf(),
    {
        Duration { secs, nanos: 0 }
    }

    pub fn is_zero(&self) -> (r: bool)
        ensures
            r <==> self.as_nanos() == 0,
    {
        self.secs == 0 && self.nanos == 0
    }
}

} // verus!
