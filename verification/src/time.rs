//! Spans of time and points in time as plain nanosecond counts.
//!
//! The rules read time only as numbers, so both types are transparent. A
//! [`MonotonicClock`] turns readings of the operating system's monotonic clock
//! into [`Instant`] values.

use vstd::prelude::*;

use crate::num::min_int;

verus! {

/// Nanoseconds in the longest span: `u64::MAX` seconds and 999,999,999
/// nanoseconds.
pub const MAX_NANOS: u128 = 18_446_744_073_709_551_615_999_999_999;

/// A span of time.
#[derive(Clone, Copy, Debug, PartialEq, Eq, PartialOrd, Ord, Structural)]
pub struct Duration {
    pub nanos: u128,
}

/// A point in time, counted from an arbitrary origin.
#[derive(Clone, Copy, Debug, PartialEq, Eq, PartialOrd, Ord, Structural)]
pub struct Instant {
    pub nanos: u128,
}

impl Default for Duration {
    /// The empty span.
    fn default() -> (r: Duration)
        ensures
            r.nanos == 0,
    {
        Duration { nanos: 0 }
    }
}

impl Duration {
    /// The empty span.
    pub fn zero() -> (r: Duration)
        ensures
            r.nanos == 0,
    {
        Duration { nanos: 0 }
    }

    /// A span of whole seconds.
    pub fn from_secs(secs: u64) -> (r: Duration)
        ensures
            r.nanos == secs * 1_000_000_000,
    {
        Duration { nanos: secs as u128 * 1_000_000_000 }
    }

    /// A span of whole milliseconds.
    pub fn from_millis(millis: u64) -> (r: Duration)
        ensures
            r.nanos == millis * 1_000_000,
    {
        Duration { nanos: millis as u128 * 1_000_000 }
    }

    /// A span of whole microseconds.
    pub fn from_micros(micros: u64) -> (r: Duration)
        ensures
            r.nanos == micros * 1_000,
    {
        Duration { nanos: micros as u128 * 1_000 }
    }

    /// A span of whole nanoseconds.
    pub fn from_nanos(nanos: u64) -> (r: Duration)
        ensures
            r.nanos == nanos,
    {
        Duration { nanos: nanos as u128 }
    }

    /// Whole microseconds in the span.
    pub open spec fn micros(&self) -> int {
        self.nanos as int / 1_000
    }

    /// Whole microseconds in the span.
    pub fn as_micros(&self) -> (r: u128)
        ensures
            r == self.micros(),
    {
        self.nanos / 1_000
    }

    /// Whole seconds in the span.
    pub fn as_secs(&self) -> (r: u128)
        ensures
            r == self.nanos as int / 1_000_000_000,
    {
        self.nanos / 1_000_000_000
    }

    /// Whether the span is empty.
    pub fn is_zero(&self) -> (r: bool)
        ensures
            r == (self.nanos == 0),
    {
        self.nanos == 0
    }

    /// The sum, cut off at the longest span.
    pub fn saturating_add(self, other: Duration) -> (r: Duration)
        ensures
            r.nanos == min_int(self.nanos + other.nanos, MAX_NANOS as int),
    {
        match self.nanos.checked_add(other.nanos) {
            Some(nanos) => Duration { nanos: if nanos > MAX_NANOS { MAX_NANOS } else { nanos } },
            None => Duration { nanos: MAX_NANOS },
        }
    }

    /// The difference, cut off at the empty span.
    pub fn saturating_sub(self, other: Duration) -> (r: Duration)
        ensures
            r.nanos == (if self.nanos >= other.nanos { self.nanos - other.nanos } else { 0 }),
    {
        Duration { nanos: self.nanos.saturating_sub(other.nanos) }
    }

    /// The multiple, cut off at the longest span.
    pub fn saturating_mul(self, factor: u32) -> (r: Duration)
        ensures
            r.nanos == min_int(self.nanos * factor, MAX_NANOS as int),
    {
        match self.nanos.checked_mul(factor as u128) {
            Some(nanos) => Duration { nanos: if nanos > MAX_NANOS { MAX_NANOS } else { nanos } },
            None => Duration { nanos: MAX_NANOS },
        }
    }

    /// The span divided by a positive number, whole nanoseconds kept.
    pub fn div(self, divisor: u32) -> (r: Duration)
        requires
            divisor > 0,
        ensures
            r.nanos == self.nanos as int / divisor as int,
    {
        Duration { nanos: self.nanos / divisor as u128 }
    }

    /// The shorter of two spans.
    pub fn at_most(self, other: Duration) -> (r: Duration)
        ensures
            r.nanos == min_int(self.nanos as int, other.nanos as int),
    {
        if self.nanos <= other.nanos { self } else { other }
    }

    /// The longer of two spans.
    pub fn at_least(self, other: Duration) -> (r: Duration)
        ensures
            r.nanos == crate::num::max_int(self.nanos as int, other.nanos as int),
    {
        if self.nanos >= other.nanos { self } else { other }
    }
}

impl Instant {
    /// The span from `earlier` to this point, empty where `earlier` is later.
    pub open spec fn since(&self, earlier: Instant) -> int {
        if self.nanos >= earlier.nanos { self.nanos - earlier.nanos } else { 0 }
    }

    /// The span from `earlier` to this point, empty where `earlier` is later.
    pub fn saturating_duration_since(self, earlier: Instant) -> (r: Duration)
        ensures
            r.nanos == self.since(earlier),
    {
        Duration { nanos: self.nanos.saturating_sub(earlier.nanos) }
    }

    /// The point that lies `span` later, cut off at the last countable one.
    pub fn after(self, span: Duration) -> (r: Instant)
        ensures
            r.nanos == min_int(self.nanos + span.nanos, u128::MAX as int),
    {
        Instant { nanos: self.nanos.saturating_add(span.nanos) }
    }
}

/// The operating system's monotonic clock reading.
#[verifier::external_type_specification]
#[verifier::external_body]
pub struct ExStdInstant(std::time::Instant);

/// Reads the monotonic clock with `std::time::Instant::now`. Nothing is
/// claimed of the reading.
#[verifier::external_body]
fn read_monotonic() -> std::time::Instant
{
    std::time::Instant::now()
}

/// Nanoseconds that `std::time::Instant::elapsed` reports since `origin`.
/// Nothing is claimed of the count.
#[verifier::external_body]
fn elapsed_nanos(origin: &std::time::Instant) -> u128
{
    origin.elapsed().as_nanos()
}

/// A monotonic clock whose [`Instant`] values count from its creation.
#[derive(Debug)]
pub struct MonotonicClock {
    origin: std::time::Instant,
}

impl MonotonicClock {
    /// Start counting now. The reading itself is whatever the clock shows.
    pub fn start() -> MonotonicClock {
        MonotonicClock { origin: read_monotonic() }
    }

    /// The current point in time. No clause ties the value to anything: it is
    /// whatever the clock shows.
    pub fn now(&self) -> Instant {
        Instant { nanos: elapsed_nanos(&self.origin) }
    }
}

} // verus!
