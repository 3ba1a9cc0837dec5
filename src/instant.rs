//! A point in time as whole seconds since the Unix epoch and a nanosecond of the second.

use vstd::prelude::*;

verus! {

/// Nanoseconds in one second.
pub const NANOS_PER_SEC: u32 = 1_000_000_000;

/// The first second of the calendar range: -262144-01-01T00:00:00 UTC.
pub const MIN_CALENDAR_SECS: i64 = -8334632851200;

/// The last second of the calendar range: +262143-12-31T23:59:59 UTC.
pub const MAX_CALENDAR_SECS: i64 = 8210298412799;

/// Whether `(secs, nanos)` names a point in the calendar range with a nanosecond of
/// the second below one billion.
pub open spec fn valid_pair(secs: int, nanos: int) -> bool {
    MIN_CALENDAR_SECS <= secs <= MAX_CALENDAR_SECS && 0 <= nanos < NANOS_PER_SEC
}

/// An absolute UTC point in time.
#[derive(Clone, Copy, Debug, PartialEq, Eq, Structural)]
pub struct Instant {
    /// Whole seconds since 1970-01-01T00:00:00 UTC; negative before it.
    pub secs: i64,
    /// Nanoseconds past `secs`, below one billion.
    pub nanos: u32,
}

/// The total count of milliseconds since the epoch at `(secs, nanos)`.
pub open spec fn total_millis(secs: int, nanos: int) -> int {
    secs * 1000 + nanos / 1_000_000
}

/// The total count of nanoseconds since the epoch at `(secs, nanos)`.
pub open spec fn total_nanos(secs: int, nanos: int) -> int {
    secs * 1_000_000_000 + nanos
}

/// Relies on chrono's `Utc::now`, read back through `DateTime::timestamp` and
/// `DateTime::timestamp_subsec_nanos`. chrono builds that value with
/// `NaiveDateTime::from_timestamp`, which panics outside the calendar range, from
/// the `Duration` since the epoch, so its seconds are not negative and lie in that
/// range, and its nanoseconds are `Duration::subsec_nanos`, below one billion.
/// chrono panics where the system clock stands before the epoch.
#[verifier::external_body]
fn clock_now() -> (r: (i64, u32))
    ensures
        0 <= r.0 <= MAX_CALENDAR_SECS,
        r.1 < NANOS_PER_SEC,
{
    let now = chrono::Utc::now();
    (now.timestamp(), now.timestamp_subsec_nanos())
}

impl Instant {
    /// Whether the instant lies in the calendar range with a nanosecond below one
    /// billion.
    pub open spec fn wf(&self) -> bool {
        valid_pair(self.secs as int, self.nanos as int)
    }

    /// The instant `nanos` nanoseconds after second `secs` of the epoch, where that
    /// pair is valid; `None` where it is not.
    pub fn from_parts(secs: i64, nanos: u32) -> (r: Option<Instant>)
        ensures
            r is Some <==> valid_pair(secs as int, nanos as int),
            r matches Some(t) ==> t.secs == secs && t.nanos == nanos && t.wf(),
    {
        if MIN_CALENDAR_SECS <= secs && secs <= MAX_CALENDAR_SECS && nanos < NANOS_PER_SEC {
            Some(Instant { secs, nanos })
        } else {
            None
        }
    }

    /// 1970-01-01T00:00:00 UTC.
    pub fn epoch() -> (r: Instant)
        ensures
            r.secs == 0,
            r.nanos == 0,
            r.wf(),
    {
        Instant { secs: 0, nanos: 0 }
    }

    /// The current time of the system clock.
    pub fn now() -> (r: Instant)
        ensures
            r.wf(),
            r.secs >= 0,
    {
        let (secs, nanos) = clock_now();
        Instant { secs, nanos }
    }

    /// Whole seconds since the epoch.
    pub fn timestamp(&self) -> (r: i64)
        ensures
            r == self.secs,
    {
        self.secs
    }

    /// Total milliseconds since the epoch: the seconds times one thousand, plus the
    /// whole milliseconds of the nanosecond part.
    pub fn timestamp_millis(&self) -> (r: i64)
        requires
            self.wf(),
        ensures
            r == total_millis(self.secs as int, self.nanos as int),
    {
        self.secs * 1000 + (self.nanos / 1_000_000) as i64
    }

    /// Total nanoseconds since the epoch. The count is wider than an `i64` at the
    /// far ends of the calendar range, so it is given as an `i128`.
    pub fn timestamp_nanos(&self) -> (r: i128)
        requires
            self.wf(),
        ensures
            r == total_nanos(self.secs as int, self.nanos as int),
    {
        self.secs as i128 * 1_000_000_000 + self.nanos as i128
    }
}

} // verus!
