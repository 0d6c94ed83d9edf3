//! An absolute instant in UTC, held as seconds and nanoseconds since the
//! Unix epoch.

use vstd::prelude::*;

verus! {

/// An instant: `secs` whole seconds since 1970-01-01T00:00:00Z plus `nanos`
/// nanoseconds.
#[derive(Clone, Copy, Debug, PartialEq, Eq, Structural)]
pub struct Timestamp {
    pub secs: i64,
    pub nanos: u32,
}

/// The earliest second that chrono has a date-time for: the start of
/// January 1 of the year -262143.
pub const MIN_SECS: i64 = -8_334_601_228_800;

/// The latest second that chrono has a date-time for: the last second of
/// December 31 of the year 262142.
pub const MAX_SECS: i64 = 8_210_266_876_799;

impl Timestamp {
    /// Whether this is an instant that chrono has a date-time for: its second
    /// lies in chrono's range, and its nanoseconds are below one second, or
    /// below two where the instant is a leap second (one that ends a minute).
    pub open spec fn wf(self) -> bool {
        &&& MIN_SECS <= self.secs <= MAX_SECS
        &&& (self.nanos < 1_000_000_000 || (self.nanos < 2_000_000_000 && self.secs % 60 == 59))
    }

    /// The order of instants: by seconds, then by nanoseconds.
    pub open spec fn spec_le(self, other: Timestamp) -> bool {
        self.secs < other.secs || (self.secs == other.secs && self.nanos <= other.nanos)
    }

    /// Makes an instant from its two parts.
    pub fn new(secs: i64, nanos: u32) -> (r: Timestamp)
        ensures
            r.secs == secs,
            r.nanos == nanos,
    {
        Timestamp { secs, nanos }
    }

    /// Whether `self` is not later than `other`.
    pub fn le(&self, other: &Timestamp) -> (r: bool)
        ensures
            r == self.spec_le(*other),
    {
        self.secs < other.secs || (self.secs == other.secs && self.nanos <= other.nanos)
    }

    /// Whether this is an instant that chrono has a date-time for.
    pub fn is_valid(&self) -> (r: bool)
        ensures
            r == self.wf(),
    {
        let in_minute = second_of_minute(self.secs);
        MIN_SECS <= self.secs && self.secs <= MAX_SECS && (self.nanos < 1_000_000_000 || (
        self.nanos < 2_000_000_000 && in_minute == 59))
    }

    /// The current instant of the system clock.
    pub fn now() -> (r: Timestamp)
        ensures
            r.wf(),
            r.nanos < 1_000_000_000,
    {
        let (secs, nanos) = utc_now_parts();
        Timestamp { secs, nanos }
    }
}

/// The second within its minute of the instant `secs` seconds after the
/// epoch, also before 1970.
fn second_of_minute(secs: i64) -> (r: i64)
    ensures
        r == secs % 60,
{
    let rem = secs % 60;
    if rem < 0 {
        rem + 60
    } else {
        rem
    }
}

/// Relies on chrono's `From<SystemTime>` for `DateTime<Utc>`, applied to
/// `SystemTime::now()` and read through `DateTime::timestamp` and
/// `DateTime::timestamp_subsec_nanos`. A clock before 1970 gives a negative
/// count of seconds; the nanoseconds are below one second on both sides of
/// 1970; and a `DateTime<Utc>` lies within chrono's range. chrono panics only
/// where the clock reads beyond that range, some 260,000 years away.
#[verifier::external_body]
fn utc_now_parts() -> (r: (i64, u32))
    ensures
        MIN_SECS <= r.0 <= MAX_SECS,
        r.1 < 1_000_000_000,
{
    let now = chrono::DateTime::<chrono::Utc>::from(std::time::SystemTime::now());
    (now.timestamp(), now.timestamp_subsec_nanos())
}

} // verus!
