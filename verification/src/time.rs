//! Points in time, as plain values.

use vstd::prelude::*;

verus! {

/// A point in time: whole seconds since the epoch, and the nanoseconds
/// that go beyond them.
#[derive(Clone, Copy, Debug, PartialEq, Eq, Hash, Structural)]
pub struct Timestamp {
    pub secs: i64,
    pub nanos: u32,
}

impl Timestamp {
    /// Whether this point in time is `other` or comes before it.
    pub open spec fn spec_at_or_before(self, other: Timestamp) -> bool {
        self.secs < other.secs || (self.secs == other.secs && self.nanos <= other.nanos)
    }

    /// Whether this point in time is `other` or comes before it.
    pub fn at_or_before(&self, other: &Timestamp) -> (earlier: bool)
        ensures
            earlier == self.spec_at_or_before(*other),
    {
        self.secs < other.secs || (self.secs == other.secs && self.nanos <= other.nanos)
    }
}

/// Of two points in time, one is at or before the other.
pub proof fn lemma_time_is_totally_ordered(a: Timestamp, b: Timestamp)
    ensures
        a.spec_at_or_before(b) || b.spec_at_or_before(a),
        a.spec_at_or_before(b) && b.spec_at_or_before(a) ==> a == b,
{
}

/// What is at or before a point in time is at or before every later one.
pub proof fn lemma_time_order_is_transitive(a: Timestamp, b: Timestamp, c: Timestamp)
    requires
        a.spec_at_or_before(b),
        b.spec_at_or_before(c),
    ensures
        a.spec_at_or_before(c),
{
}

} // verus!
