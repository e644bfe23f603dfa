//! Timestamps at nanosecond precision, counted from the Unix epoch.
//!
//! Every record carries a creation and a modification timestamp. The store
//! never lets a modification timestamp move backwards: a mutation stamps the
//! record with the current clock reading if that reading lies strictly after
//! the record's own timestamp, and with the record's immediate successor
//! otherwise.

use vstd::prelude::*;

verus! {

/// Largest number of whole seconds a timestamp may hold; far beyond any
/// reading the clock can produce, so saturation is unreachable in practice.
pub const MAX_SECONDS: i64 = 100_000_000_000_000;

/// Largest nanosecond component: one short of a whole second.
pub const MAX_NANOS: u32 = 999_999_999;

/// A point in time: whole seconds since the Unix epoch plus a nanosecond
/// component below one second.
#[derive(Clone, Copy, PartialEq, Eq, Structural, Debug)]
pub struct Timestamp {
    pub seconds: i64,
    pub nanos: u32,
}

impl Timestamp {
    /// A timestamp the system can produce: non-negative, below the
    /// saturation bound, with a normalized nanosecond component.
    pub open spec fn valid(self) -> bool {
        &&& 0 <= self.seconds <= MAX_SECONDS
        &&& self.nanos <= MAX_NANOS
    }

    pub open spec fn le(self, other: Timestamp) -> bool {
        ||| self.seconds < other.seconds
        ||| (self.seconds == other.seconds && self.nanos <= other.nanos)
    }

    pub open spec fn lt(self, other: Timestamp) -> bool {
        self.le(other) && self != other
    }

    /// The saturation point of `succ_spec`.
    pub open spec fn is_saturated(self) -> bool {
        self.seconds == MAX_SECONDS && self.nanos == MAX_NANOS
    }

    /// The immediate successor at nanosecond granularity, saturating at the
    /// largest representable timestamp.
    pub open spec fn succ_spec(self) -> Timestamp {
        if self.nanos < MAX_NANOS {
            Timestamp { seconds: self.seconds, nanos: (self.nanos + 1) as u32 }
        } else if self.seconds < MAX_SECONDS {
            Timestamp { seconds: (self.seconds + 1) as i64, nanos: 0 }
        } else {
            self
        }
    }

    /// Where a mutation moves a record's timestamp given the clock reading
    /// `now`: to `now` when the clock has moved past the record, and to the
    /// record's successor otherwise, so the result never goes backwards.
    pub open spec fn advanced_to(self, now: Timestamp) -> Timestamp {
        if self.lt(now) {
            now
        } else {
            self.succ_spec()
        }
    }

    pub fn is_le(&self, other: &Timestamp) -> (r: bool)
        ensures
            r == self.le(*other),
    {
        self.seconds < other.seconds || (self.seconds == other.seconds && self.nanos
            <= other.nanos)
    }

    /// Executable counterpart of `succ_spec`.
    pub fn succ(&self) -> (r: Timestamp)
        requires
            self.valid(),
        ensures
            r == self.succ_spec(),
            r.valid(),
            self.le(r),
            !self.is_saturated() ==> self.lt(r),
    {
        if self.nanos < MAX_NANOS {
            Timestamp { seconds: self.seconds, nanos: self.nanos + 1 }
        } else if self.seconds < MAX_SECONDS {
            Timestamp { seconds: self.seconds + 1, nanos: 0 }
        } else {
            *self
        }
    }

    /// Executable counterpart of `advanced_to`.
    pub fn advance(&self, now: &Timestamp) -> (r: Timestamp)
        requires
            self.valid(),
            now.valid(),
        ensures
            r == self.advanced_to(*now),
            r.valid(),
            self.le(r),
            !self.is_saturated() ==> self.lt(r),
    {
        if self.is_le(now) && !(self.seconds == now.seconds && self.nanos == now.nanos) {
            *now
        } else {
            self.succ()
        }
    }
}

/// Relies on `chrono::Utc::now`, `DateTime::timestamp` and
/// `DateTime::timestamp_subsec_nanos`: the current time as a pair of whole
/// seconds since the Unix epoch and nanoseconds within the second.
/// `Utc::now` builds its result from the duration since the epoch, so the
/// seconds are non-negative and within chrono's date range, and the
/// nanosecond component is below one second.
#[verifier::external_body]
fn clock_pair() -> (r: (i64, u32))
    ensures
        0 <= r.0 < 10_000_000_000_000,
        r.1 < 1_000_000_000,
{
    let now = chrono::Utc::now();
    (now.timestamp(), now.timestamp_subsec_nanos())
}

/// The current clock reading. Two calls may return anything in either
/// order; all that is promised is a valid timestamp.
pub fn now() -> (r: Timestamp)
    ensures
        r.valid(),
{
    let (seconds, nanos) = clock_pair();
    Timestamp { seconds, nanos }
}

} // verus!
