//! Instants on the UTC time line, held as plain integers.

use vstd::prelude::*;

verus! {

/// A point in time: whole seconds since 1970-01-01T00:00:00Z and the
/// nanoseconds into that second. During a leap second `nanos` runs past
/// 999,999,999, so the pair orders instants exactly as the clock does.
#[derive(Debug, Clone, Copy, PartialEq, Eq, Structural)]
pub struct Timestamp {
    pub secs: i64,
    pub nanos: u32,
}

impl Timestamp {
    /// `self` lies strictly later on the time line than `other`.
    pub open spec fn later_than(self, other: Timestamp) -> bool {
        self.secs > other.secs || (self.secs == other.secs && self.nanos > other.nanos)
    }

    /// The instant `secs` seconds and `nanos` nanoseconds after the epoch.
    pub fn new(secs: i64, nanos: u32) -> (at: Timestamp)
        ensures
            at.secs == secs,
            at.nanos == nanos,
    {
        Timestamp { secs, nanos }
    }

    /// Whether `self` is strictly later than `other`.
    pub fn is_after(&self, other: &Timestamp) -> (later: bool)
        ensures
            later == self.later_than(*other),
    {
        self.secs > other.secs || (self.secs == other.secs && self.nanos > other.nanos)
    }
}

/// No instant is later than itself, and of two instants at most one is later
/// than the other.
pub proof fn lemma_later_than_strict(a: Timestamp, b: Timestamp)
    ensures
        !a.later_than(a),
        a.later_than(b) ==> !b.later_than(a),
{
}

/// The reading of the system clock, from `chrono::Utc::now`, as seconds
/// (`timestamp`) and nanoseconds (`timestamp_subsec_nanos`). Nothing is
/// claimed of the value: two readings may differ in either direction.
#[verifier::external_body]
pub(crate) fn current_time() -> (now: Timestamp) {
    let now = chrono::Utc::now();
    Timestamp { secs: now.timestamp(), nanos: now.timestamp_subsec_nanos() }
}

} // verus!
