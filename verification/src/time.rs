//! Points in time, as the engine compares them against expiry dates.

use vstd::prelude::*;

verus! {

/// A UTC instant: whole seconds since the Unix epoch, and the nanoseconds
/// into that second.
#[derive(Clone, Copy, Debug, PartialEq, Eq, Structural)]
pub struct Instant {
    pub secs: i64,
    pub nanos: u32,
}

impl Instant {
    /// `self` is not later than `other`.
    pub open spec fn at_or_before(self, other: Instant) -> bool {
        self.secs < other.secs || (self.secs == other.secs && self.nanos <= other.nanos)
    }

    /// The instant `nanos` nanoseconds after `secs` seconds since the epoch.
    pub fn new(secs: i64, nanos: u32) -> (r: Instant)
        ensures
            r.secs == secs,
            r.nanos == nanos,
    {
        Instant { secs, nanos }
    }

    /// Whether `self` is not later than `other`.
    pub fn le(&self, other: &Instant) -> (r: bool)
        ensures
            r == self.at_or_before(*other),
    {
        self.secs < other.secs || (self.secs == other.secs && self.nanos <= other.nanos)
    }
}

/// Reads the system clock through `chrono::Utc::now`. The reading depends on
/// the machine, so nothing is claimed of it.
#[verifier::external_body]
pub(crate) fn now() -> (r: Instant) {
    let t = chrono::Utc::now();
    Instant { secs: t.timestamp(), nanos: t.timestamp_subsec_nanos() }
}

} // verus!
