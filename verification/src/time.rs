//! Points in time as plain numbers, so that expiry rules can be stated and
//! proved without a clock. The clock itself and the text of a point in time
//! in RFC 3339 come from the `chrono` crate.

use vstd::prelude::*;
use vstd::string::*;

verus! {

/// Nanoseconds in one second.
pub const NANOS_PER_SEC: u32 = 1_000_000_000;

/// The first second of the calendar that RFC 3339 writes:
/// 0000-01-01T00:00:00Z, in seconds since the Unix epoch.
pub const MIN_SECS: i64 = -62_167_219_200;

/// The last second of the calendar that RFC 3339 writes:
/// 9999-12-31T23:59:59Z, in seconds since the Unix epoch.
pub const MAX_SECS: i64 = 253_402_300_799;

/// A reading of a clock: whole seconds since the clock's origin and the
/// nanoseconds past that second. For the wall clock the origin is the Unix
/// epoch. A reading of the wall clock is valid where it lies in the years
/// 0000 to 9999 and its nanoseconds stay below one second: such a reading
/// can be written in RFC 3339.
#[derive(Debug, Clone, Copy, PartialEq, Eq, Structural)]
pub struct Timestamp {
    pub secs: i64,
    pub nanos: u32,
}

impl Timestamp {
    /// The reading in nanoseconds since the clock's origin.
    pub open spec fn total_nanos(self) -> int {
        self.secs * 1_000_000_000 + self.nanos
    }

    /// The reading `secs` seconds and `nanos` nanoseconds after the origin.
    pub fn new(secs: i64, nanos: u32) -> (t: Timestamp)
        ensures
            t.secs == secs,
            t.nanos == nanos,
    {
        Timestamp { secs, nanos }
    }

    /// The reading in nanoseconds since the clock's origin.
    pub fn as_nanos(&self) -> (n: i128)
        ensures
            n == self.total_nanos(),
    {
        (self.secs as i128) * 1_000_000_000 + (self.nanos as i128)
    }

    /// Whether the reading lies in the years 0000 to 9999, with nanoseconds
    /// below one second.
    pub open spec fn valid(self) -> bool {
        MIN_SECS <= self.secs <= MAX_SECS && self.nanos < NANOS_PER_SEC
    }

    /// Whether the reading lies in the years 0000 to 9999, with nanoseconds
    /// below one second.
    pub fn is_valid(&self) -> (r: bool)
        ensures
            r == self.valid(),
    {
        MIN_SECS <= self.secs && self.secs <= MAX_SECS && self.nanos < NANOS_PER_SEC
    }

    /// The reading `secs` seconds later, or `None` where the seconds no
    /// longer fit.
    pub fn plus_secs(&self, secs: u64) -> (r: Option<Timestamp>)
        ensures
            match r {
                Some(t) => t.nanos == self.nanos && t.secs == self.secs + secs,
                None => self.secs + secs > i64::MAX,
            },
    {
        let sum: i128 = (self.secs as i128) + (secs as i128);
        if sum > i64::MAX as i128 {
            None
        } else {
            Some(Timestamp { secs: sum as i64, nanos: self.nanos })
        }
    }
}

/// Whole minutes in a span of nanoseconds, rounded toward zero.
pub open spec fn whole_minutes(span_nanos: int) -> int {
    if span_nanos >= 0 {
        span_nanos / 60_000_000_000
    } else {
        -((-span_nanos) / 60_000_000_000)
    }
}

/// Whole minutes from `from` to `to`, rounded toward zero; negative where
/// `to` is the earlier one.
pub fn minutes_between(from: &Timestamp, to: &Timestamp) -> (m: i64)
    ensures
        m == whole_minutes(to.total_nanos() - from.total_nanos()),
{
    let span: i128 = to.as_nanos() - from.as_nanos();
    if span >= 0 {
        (span / 60_000_000_000) as i64
    } else {
        let back: i128 = (-span) / 60_000_000_000;
        (-back) as i64
    }
}

/// The wall clock, read through `chrono::Utc::now`, as the seconds and
/// nanoseconds of `DateTime::timestamp` and
/// `DateTime::timestamp_subsec_nanos`. Nothing is claimed of the reading: two
/// calls may differ in any way. The call panics where the system clock
/// stands before the Unix epoch.
#[verifier::external_body]
pub(crate) fn utc_now() -> (now: Timestamp) {
    let t = chrono::Utc::now();
    Timestamp { secs: t.timestamp(), nanos: t.timestamp_subsec_nanos() }
}

/// The text that `chrono::DateTime::to_rfc3339_opts` writes, with
/// `SecondsFormat::AutoSi` and `Z` for UTC, for the point in time that
/// `chrono::DateTime::from_timestamp` makes of seconds and nanoseconds since
/// the Unix epoch; `None` where `from_timestamp` makes none of them.
pub uninterp spec fn rfc3339_of(secs: i64, nanos: u32) -> Option<Seq<char>>;

/// The seconds and nanoseconds since the Unix epoch of the point in time
/// that `str::parse` reads from a text as a `chrono::DateTime` with a fixed
/// offset; `None` where it reads none.
pub uninterp spec fn instant_of(text: Seq<char>) -> Option<(i64, u32)>;

/// `chrono::DateTime::from_timestamp` followed by
/// `chrono::DateTime::to_rfc3339_opts` with `SecondsFormat::AutoSi` and `Z`
/// for UTC: the text of a reading of the wall clock in RFC 3339, or `None`
/// where the reading is beyond the range of `chrono`. The outcome depends
/// on the reading alone. A valid reading is always written: `from_timestamp`
/// refuses only days beyond the years -262143 to 262142 and nanoseconds
/// from one second on (two, in the last second of a minute), and
/// `to_rfc3339_opts` refuses nothing.
#[verifier::external_body]
pub(crate) fn to_rfc3339(t: &Timestamp) -> (r: Option<String>)
    ensures
        match r {
            Some(text) => rfc3339_of(t.secs, t.nanos) == Some(text@),
            None => rfc3339_of(t.secs, t.nanos) is None,
        },
        t.valid() ==> r is Some,
{
    chrono::DateTime::from_timestamp(t.secs, t.nanos).map(
        |d| d.to_rfc3339_opts(chrono::SecondsFormat::AutoSi, true),
    )
}

/// `str::parse` for `chrono::DateTime<chrono::FixedOffset>`, read through
/// `DateTime::timestamp` and `DateTime::timestamp_subsec_nanos`: the point
/// in time that a text in RFC 3339 names, or `None` where the text names
/// none. The outcome depends on the text alone.
#[verifier::external_body]
pub(crate) fn from_rfc3339(text: &str) -> (r: Option<Timestamp>)
    ensures
        match r {
            Some(t) => instant_of(text@) == Some((t.secs, t.nanos)),
            None => instant_of(text@) is None,
        },
{
    text.parse::<chrono::DateTime<chrono::FixedOffset>>().ok().map(
        |d| Timestamp { secs: d.timestamp(), nanos: d.timestamp_subsec_nanos() },
    )
}

} // verus!
