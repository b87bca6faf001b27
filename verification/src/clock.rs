//! Instants of time as plain values, and the system clock.

use vstd::prelude::*;

verus! {

/// An instant in UTC: whole seconds since the Unix epoch, and the
/// nanoseconds since the last second boundary (which exceed 999,999,999
/// only within a leap second).
#[derive(Clone, Copy, Debug, PartialEq, Eq, Hash, Structural)]
pub struct Timestamp {
    pub secs: i64,
    pub nanos: u32,
}

impl Timestamp {
    /// Whether `self` is strictly later than `other`.
    pub open spec fn is_after(self, other: Timestamp) -> bool {
        self.secs > other.secs || (self.secs == other.secs && self.nanos > other.nanos)
    }

    /// Decides whether `self` is strictly later than `other`.
    pub fn later_than(&self, other: &Timestamp) -> (b: bool)
        ensures
            b == self.is_after(*other),
    {
        self.secs > other.secs || (self.secs == other.secs && self.nanos > other.nanos)
    }
}

/// Reads the system clock with `chrono::Utc::now` and returns the instant
/// as its Unix timestamp and sub-second nanoseconds. Believed, not proved:
/// the instant is not before the epoch and is no leap second, which is how
/// `chrono` builds it from the system time. `chrono` panics where the
/// system clock is set before the epoch.
#[verifier::external_body]
pub(crate) fn utc_now() -> (now: Timestamp)
    ensures
        now.secs >= 0,
        now.nanos < 1_000_000_000,
{
    let now = chrono::Utc::now();
    Timestamp { secs: now.timestamp(), nanos: now.timestamp_subsec_nanos() }
}

} // verus!
