//! Points in time, as the engine compares them.

use vstd::prelude::*;

verus! {

/// A point in time: whole seconds since 1970-01-01 00:00:00 UTC and the
/// nanoseconds after that second. Points are ordered by the seconds, then by
/// the nanoseconds.
#[derive(Debug, Clone, Copy, PartialEq, Eq, Hash, Structural)]
pub struct Timestamp {
    /// Whole seconds since the start of 1970, negative before it.
    pub secs: i64,
    /// Nanoseconds after the whole second.
    pub nanos: u32,
}

impl Timestamp {
    /// Whether `self` lies strictly before `other`.
    pub open spec fn before(self, other: Timestamp) -> bool {
        self.secs < other.secs || (self.secs == other.secs && self.nanos < other.nanos)
    }

    /// Whether `self` lies strictly after `other`.
    pub open spec fn after(self, other: Timestamp) -> bool {
        other.before(self)
    }

    /// Whether `self` is `other` or lies before it.
    pub open spec fn at_or_before(self, other: Timestamp) -> bool {
        !other.before(self)
    }

    /// The start of 1970: the mark of a link that was never polled.
    pub open spec fn spec_epoch() -> Timestamp {
        Timestamp { secs: 0, nanos: 0 }
    }

    /// The point `secs` seconds and `nanos` nanoseconds after the start of 1970.
    pub fn new(secs: i64, nanos: u32) -> (t: Timestamp)
        ensures
            t == (Timestamp { secs, nanos }),
    {
        Timestamp { secs, nanos }
    }

    /// The point a whole number of seconds after the start of 1970.
    pub fn from_secs(secs: i64) -> (t: Timestamp)
        ensures
            t == (Timestamp { secs, nanos: 0 }),
    {
        Timestamp { secs, nanos: 0 }
    }

    /// The start of 1970.
    #[verifier::when_used_as_spec(spec_epoch)]
    pub fn epoch() -> (t: Timestamp)
        ensures
            t == Timestamp::spec_epoch(),
    {
        Timestamp { secs: 0, nanos: 0 }
    }

    /// Whether this is the start of 1970.
    pub fn is_epoch(&self) -> (b: bool)
        ensures
            b == (*self == Timestamp::spec_epoch()),
    {
        self.secs == 0 && self.nanos == 0
    }

    /// Whether `self` lies strictly before `other`.
    pub fn is_before(&self, other: &Timestamp) -> (b: bool)
        ensures
            b == self.before(*other),
    {
        self.secs < other.secs || (self.secs == other.secs && self.nanos < other.nanos)
    }

    /// Whether `self` lies strictly after `other`.
    pub fn is_after(&self, other: &Timestamp) -> (b: bool)
        ensures
            b == self.after(*other),
    {
        other.is_before(self)
    }

    /// The later of two points.
    pub fn later(self, other: Timestamp) -> (t: Timestamp)
        ensures
            t == if self.before(other) { other } else { self },
    {
        if self.is_before(&other) {
            other
        } else {
            self
        }
    }
}

} // verus!
