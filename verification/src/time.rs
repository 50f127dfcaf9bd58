//! Points in time, as whole seconds since the Unix epoch plus a
//! nanosecond part, and the calendar arithmetic the library needs.
use vstd::prelude::*;

verus! {

/// Seconds in one day.
pub const SECONDS_PER_DAY: i64 = 86_400;

/// A point in time in UTC: `seconds` since 1970-01-01T00:00:00Z (negative
/// before it) and a nanosecond part. Points are ordered by `seconds`
/// first and by `nanos` second.
#[derive(Clone, Copy, Debug, PartialEq, Eq, Structural)]
pub struct Timestamp {
    pub seconds: i64,
    pub nanos: u32,
}

/// `a` lies at or before `b`.
pub open spec fn at_or_before(a: Timestamp, b: Timestamp) -> bool {
    a.seconds < b.seconds || (a.seconds == b.seconds && a.nanos <= b.nanos)
}

/// The day (counted from 1970-01-01) on which a point in time falls.
pub open spec fn day_of(t: Timestamp) -> int {
    t.seconds as int / SECONDS_PER_DAY as int
}

impl Timestamp {
    /// The Unix epoch.
    pub fn epoch() -> (t: Timestamp)
        ensures
            t.seconds == 0,
            t.nanos == 0,
    {
        Timestamp { seconds: 0, nanos: 0 }
    }

    /// Whether `self` lies at or before `other`.
    pub fn is_at_or_before(&self, other: &Timestamp) -> (r: bool)
        ensures
            r == at_or_before(*self, *other),
    {
        self.seconds < other.seconds || (self.seconds == other.seconds && self.nanos <= other.nanos)
    }

    /// The same time of day `days` days earlier.
    pub fn days_earlier(&self, days: i64) -> (t: Timestamp)
        requires
            0 <= days <= 1_000_000,
            self.seconds >= 0,
        ensures
            t.seconds == self.seconds - days * SECONDS_PER_DAY,
            t.nanos == self.nanos,
    {
        Timestamp { seconds: self.seconds - days * SECONDS_PER_DAY, nanos: self.nanos }
    }

    /// The day (counted from 1970-01-01, rounding towards the past) on which
    /// this point in time falls.
    pub fn day_number(&self) -> (d: i64)
        ensures
            d == day_of(*self),
    {
        let q = self.seconds / SECONDS_PER_DAY;
        let r = self.seconds % SECONDS_PER_DAY;
        if r < 0 {
            q - 1
        } else {
            q
        }
    }
}

/// The current time, read from the system clock.
///
/// Calls `chrono::Utc::now`. Its source reads the system clock as a
/// duration since the Unix epoch (and panics when the clock lies before
/// the epoch), so the seconds are never negative and the nanosecond part
/// is that of a `Duration`, below one second. Nothing else is promised:
/// two calls may give any two such values.
#[verifier::external_body]
pub(crate) fn current_time() -> (t: Timestamp)
    ensures
        t.seconds >= 0,
        t.nanos < 1_000_000_000,
{
    let now = chrono::Utc::now();
    Timestamp { seconds: now.timestamp(), nanos: now.timestamp_subsec_nanos() }
}

} // verus!
