//! Instants on the UTC time line, as the engine compares and prints them.

use vstd::prelude::*;

verus! {

/// The number of seconds in one day of the engine's calendar, which knows no
/// leap seconds.
pub const SECONDS_PER_DAY: i64 = 86_400;

/// An instant in UTC: whole seconds since 1970-01-01T00:00:00Z and the
/// nanoseconds that have passed since that second began.
///
/// Instants are ordered by `secs` first and `nanos` second.
#[derive(Clone, Copy, Debug, PartialEq, Eq, Hash, Structural)]
pub struct Timestamp {
    pub secs: i64,
    pub nanos: u32,
}

impl Timestamp {
    /// `self` lies strictly before `other`.
    pub open spec fn precedes(self, other: Timestamp) -> bool {
        self.secs < other.secs || (self.secs == other.secs && self.nanos < other.nanos)
    }

    /// `self` lies before `other` or is the same instant.
    pub open spec fn at_most(self, other: Timestamp) -> bool {
        self == other || self.precedes(other)
    }

    /// The instant `days` whole days before `self`, as long as its seconds
    /// still fit an `i64`.
    pub open spec fn minus_days(self, days: int) -> Timestamp {
        Timestamp { secs: (self.secs - SECONDS_PER_DAY * days) as i64, nanos: self.nanos }
    }

    /// Whether `self` lies strictly before `other`.
    pub fn is_before(&self, other: &Timestamp) -> (b: bool)
        ensures
            b == self.precedes(*other),
    {
        self.secs < other.secs || (self.secs == other.secs && self.nanos < other.nanos)
    }

    /// The instant `days` whole days before `self`.
    pub fn days_before(&self, days: u8) -> (t: Timestamp)
        requires
            self.secs - SECONDS_PER_DAY * days >= i64::MIN,
        ensures
            t == self.minus_days(days as int),
            t.secs == self.secs - SECONDS_PER_DAY * days,
            t.nanos == self.nanos,
    {
        let span: i64 = SECONDS_PER_DAY * (days as i64);
        Timestamp { secs: self.secs - span, nanos: self.nanos }
    }
}

/// The order on instants is total: of two different instants one precedes the
/// other, and never both.
pub proof fn lemma_instants_totally_ordered(a: Timestamp, b: Timestamp)
    ensures
        a.at_most(b) || b.at_most(a),
        a.at_most(b) && b.at_most(a) ==> a == b,
        !(a.precedes(b) && b.precedes(a)),
{
}

/// The order on instants is transitive.
pub proof fn lemma_instants_transitive(a: Timestamp, b: Timestamp, c: Timestamp)
    requires
        a.at_most(b),
        b.at_most(c),
    ensures
        a.at_most(c),
{
}

} // verus!
