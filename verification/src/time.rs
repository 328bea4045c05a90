//! Instants and spans of time, with the clock and the arithmetic of `chrono`.

use chrono::{DateTime, TimeDelta, Utc};
use vstd::prelude::*;

verus! {

/// The nanoseconds of a second.
pub const NANOS_PER_SEC: u32 = 1_000_000_000;

/// The first second that `chrono` represents, counted from the Unix epoch.
pub const MIN_SECS: i64 = -8_334_601_228_800;

/// The last second that `chrono` represents, counted from the Unix epoch.
pub const MAX_SECS: i64 = 8_210_266_876_799;

/// An instant in UTC: whole seconds since the Unix epoch, and the nanoseconds since the last
/// whole second, which reach one second and more only within a leap second.
#[derive(Clone, Copy, Debug, PartialEq, Eq, Structural)]
pub struct Timestamp {
    pub secs: i64,
    pub nanos: u32,
}

/// A signed length of time: `secs` seconds, rounded down, and `nanos` nanoseconds on top.
#[derive(Clone, Copy, Debug, PartialEq, Eq, Structural)]
pub struct Span {
    pub secs: i64,
    pub nanos: u32,
}

impl Timestamp {
    /// Whether the instant is one that a clock shows: representable, outside leap seconds.
    pub open spec fn regular(self) -> bool {
        &&& MIN_SECS <= self.secs <= MAX_SECS
        &&& self.nanos < NANOS_PER_SEC
    }

    /// The nanoseconds since the Unix epoch.
    pub open spec fn instant(self) -> int {
        self.secs * NANOS_PER_SEC + self.nanos
    }

    /// Whether this instant comes before another.
    pub open spec fn before(self, other: Timestamp) -> bool {
        self.secs < other.secs || (self.secs == other.secs && self.nanos < other.nanos)
    }

    /// The instant that lies a span later, where there is such an instant.
    pub open spec fn plus(self, span: Span) -> Option<Timestamp> {
        let instant = self.instant() + span.length();
        let secs = instant / (NANOS_PER_SEC as int);
        if span.nanos < NANOS_PER_SEC && MIN_SECS <= secs <= MAX_SECS {
            Some(
                Timestamp { secs: secs as i64, nanos: (instant % (NANOS_PER_SEC as int)) as u32 },
            )
        } else {
            None
        }
    }

    /// Whether this instant comes before another.
    pub fn is_before(&self, other: &Timestamp) -> (earlier: bool)
        ensures
            earlier == self.before(*other),
    {
        self.secs < other.secs || (self.secs == other.secs && self.nanos < other.nanos)
    }
}

impl Span {
    /// The span of a number of seconds and less than a second's worth of nanoseconds, of which
    /// each may be negative. There is none where its seconds, rounded down, cannot be held.
    pub fn from_parts(secs: i64, subsec_nanos: i32) -> (span: Option<Span>)
        ensures
            span is None <==> {
                ||| subsec_nanos <= -1_000_000_000
                ||| subsec_nanos >= 1_000_000_000
                ||| secs == i64::MIN && subsec_nanos < 0
            },
            span matches Some(s) ==> {
                &&& s.length() == secs * NANOS_PER_SEC + subsec_nanos
                &&& s.nanos < NANOS_PER_SEC
            },
    {
        if subsec_nanos <= -1_000_000_000 || subsec_nanos >= 1_000_000_000 {
            None
        } else if subsec_nanos >= 0 {
            Some(Span { secs, nanos: subsec_nanos as u32 })
        } else if secs == i64::MIN {
            None
        } else {
            Some(Span { secs: secs - 1, nanos: (1_000_000_000 + subsec_nanos) as u32 })
        }
    }

    /// The length in nanoseconds.
    pub open spec fn length(self) -> int {
        self.secs * NANOS_PER_SEC + self.nanos
    }

    /// Six hours.
    pub open spec fn six_hours() -> Span {
        Span { secs: 21_600, nanos: 0 }
    }

    /// One hour.
    pub open spec fn one_hour() -> Span {
        Span { secs: 3_600, nanos: 0 }
    }
}

/// Reads the clock: `chrono::Utc::now`.
///
/// What is claimed: the reading is an instant that `chrono` represents, and no leap second.
/// Nothing is claimed of which instant it is, nor of how two readings compare. Where the
/// machine's clock is set before the Unix epoch or past what `chrono` represents, the call
/// panics.
#[verifier::external_body]
pub(crate) fn utc_now() -> (now: Timestamp)
    ensures
        now.regular(),
{
    let now = Utc::now();
    Timestamp { secs: now.timestamp(), nanos: now.timestamp_subsec_nanos() }
}

/// Whether an instant is a reading of the clock.
pub closed spec fn clock_shows(now: Timestamp) -> bool {
    call_ensures(utc_now, (), now)
}

/// Takes a reading of a clock.
fn read_off<F: FnOnce() -> Timestamp>(clock: F) -> (now: Timestamp)
    requires
        call_requires(clock, ()),
    ensures
        call_ensures(clock, (), now),
{
    clock()
}

/// Reads the clock.
pub(crate) fn clock_now() -> (now: Timestamp)
    ensures
        clock_shows(now),
        now.regular(),
{
    read_off(utc_now)
}

/// Adds a span to an instant: `chrono::DateTime::<Utc>::checked_add_signed`.
///
/// What is claimed: the sum is the instant that many nanoseconds later (earlier, for a negative
/// span), and there is none exactly where its second lies outside what `chrono` represents, or
/// where the span carries a whole second or more in its nanoseconds. On the way in and out,
/// `DateTime::from_timestamp`, `TimeDelta::new`, `DateTime::timestamp` and
/// `DateTime::timestamp_subsec_nanos` only change the form of the values.
#[verifier::external_body]
pub(crate) fn checked_add_signed(at: Timestamp, span: Span) -> (sum: Option<Timestamp>)
    requires
        at.regular(),
    ensures
        sum == at.plus(span),
{
    let sum = DateTime::<Utc>::from_timestamp(at.secs, at.nanos)?.checked_add_signed(
        TimeDelta::new(span.secs, span.nanos)?,
    )?;
    Some(Timestamp { secs: sum.timestamp(), nanos: sum.timestamp_subsec_nanos() })
}

}
