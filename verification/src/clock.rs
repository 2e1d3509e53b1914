//! Time as plain values. The library never reads a clock: the event loop stamps instants on the model and
//! every timing decision is a function of them.
use vstd::prelude::*;

verus! {

/// A point on a monotonic clock, in nanoseconds since an arbitrary origin.
#[derive(Debug, Clone, Copy, PartialEq, Eq, Structural)]
pub struct Instant {
    pub nanos: u64,
}

/// A span of time, in nanoseconds.
#[derive(Debug, Clone, Copy, PartialEq, Eq, Structural)]
pub struct Duration {
    pub nanos: u64,
}

pub const NANOS_PER_MILLI: u64 = 1_000_000;

pub const NANOS_PER_SEC: u64 = 1_000_000_000;

impl Duration {
    /// `ms` milliseconds, saturating at the largest representable span.
    pub fn from_millis(ms: u64) -> (r: Duration)
        ensures
            r.nanos as int == if ms * NANOS_PER_MILLI <= u64::MAX {
                ms * NANOS_PER_MILLI
            } else {
                u64::MAX as int
            },
    {
        if ms <= u64::MAX / NANOS_PER_MILLI {
            Duration { nanos: ms * NANOS_PER_MILLI }
        } else {
            Duration { nanos: u64::MAX }
        }
    }

    /// `secs` seconds, saturating at the largest representable span.
    pub fn from_secs(secs: u64) -> (r: Duration)
        ensures
            r.nanos as int == if secs * NANOS_PER_SEC <= u64::MAX {
                secs * NANOS_PER_SEC
            } else {
                u64::MAX as int
            },
    {
        if secs <= u64::MAX / NANOS_PER_SEC {
            Duration { nanos: secs * NANOS_PER_SEC }
        } else {
            Duration { nanos: u64::MAX }
        }
    }

    pub open spec fn millis(self) -> int {
        self.nanos as int / NANOS_PER_MILLI as int
    }

    pub open spec fn secs(self) -> int {
        self.nanos as int / NANOS_PER_SEC as int
    }

    /// Whole milliseconds.
    pub fn as_millis(self) -> (r: u64)
        ensures
            r == self.millis(),
    {
        self.nanos / NANOS_PER_MILLI
    }

    /// Whole seconds.
    pub fn as_secs(self) -> (r: u64)
        ensures
            r == self.secs(),
    {
        self.nanos / NANOS_PER_SEC
    }
}

impl Instant {
    /// Nanoseconds from `earlier` to `self`; none when `earlier` is the later one.
    pub open spec fn nanos_since(self, earlier: Instant) -> int {
        if self.nanos >= earlier.nanos {
            self.nanos - earlier.nanos
        } else {
            0
        }
    }

    /// The time from `earlier` to `self`; zero when `earlier` is the later one.
    pub fn saturating_duration_since(self, earlier: Instant) -> (r: Duration)
        ensures
            r.nanos == self.nanos_since(earlier),
    {
        if self.nanos >= earlier.nanos {
            Duration { nanos: self.nanos - earlier.nanos }
        } else {
            Duration { nanos: 0 }
        }
    }

    /// The instant `d` earlier, or `None` where the clock's origin is reached first.
    pub fn checked_sub(self, d: Duration) -> (r: Option<Instant>)
        ensures
            r == if self.nanos >= d.nanos {
                Some(Instant { nanos: (self.nanos - d.nanos) as u64 })
            } else {
                None
            },
    {
        if self.nanos >= d.nanos {
            Some(Instant { nanos: self.nanos - d.nanos })
        } else {
            None
        }
    }

    /// The instant `d` later, or `None` past the end of the clock.
    pub fn checked_add(self, d: Duration) -> (r: Option<Instant>)
        ensures
            r == if self.nanos + d.nanos <= u64::MAX {
                Some(Instant { nanos: (self.nanos + d.nanos) as u64 })
            } else {
                None
            },
    {
        if self.nanos <= u64::MAX - d.nanos {
            Some(Instant { nanos: self.nanos + d.nanos })
        } else {
            None
        }
    }
}

} // verus!
