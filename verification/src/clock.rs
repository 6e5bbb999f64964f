//! Time values: spans in nanoseconds, and points on one monotonic clock.

use vstd::prelude::*;

verus! {

/// Nanoseconds in one second.
pub const NANOS_PER_SEC: u128 = 1_000_000_000;

/// Nanoseconds in one millisecond.
pub const NANOS_PER_MILLI: u128 = 1_000_000;

/// A span of time.
#[derive(Debug, Clone, Copy, PartialEq, Eq, Structural)]
pub struct Duration {
    pub nanos: u128,
}

impl Duration {
    /// A span of whole seconds.
    pub fn from_secs(secs: u64) -> (span: Duration)
        ensures
            span == seconds(secs),
            span.nanos == secs * NANOS_PER_SEC,
    {
        Duration { nanos: secs as u128 * NANOS_PER_SEC }
    }

    /// A span of whole milliseconds.
    pub fn from_millis(millis: u64) -> (span: Duration)
        ensures
            span == self::millis(millis),
            span.nanos == millis * NANOS_PER_MILLI,
    {
        Duration { nanos: millis as u128 * NANOS_PER_MILLI }
    }

    /// A span of nanoseconds.
    pub fn from_nanos(nanos: u64) -> (span: Duration)
        ensures
            span.nanos == nanos,
    {
        Duration { nanos: nanos as u128 }
    }

    /// Whether the span is empty.
    pub fn is_zero(&self) -> (zero: bool)
        ensures
            zero == (self.nanos == 0),
    {
        self.nanos == 0
    }

    /// The whole span in nanoseconds.
    pub fn as_nanos(&self) -> (nanos: u128)
        ensures
            nanos == self.nanos,
    {
        self.nanos
    }

    /// The whole milliseconds in the span.
    pub fn as_millis(&self) -> (millis: u128)
        ensures
            millis == self.nanos / NANOS_PER_MILLI,
    {
        self.nanos / NANOS_PER_MILLI
    }

    /// The whole milliseconds in the span, held to the largest `u64`.
    pub fn as_millis_saturating(&self) -> (millis: u64)
        ensures
            millis == saturated_u64((self.nanos / NANOS_PER_MILLI) as nat),
    {
        let whole: u128 = self.nanos / NANOS_PER_MILLI;
        if whole > u64::MAX as u128 {
            u64::MAX
        } else {
            whole as u64
        }
    }

    /// The shorter of two spans.
    pub fn min(self, other: Duration) -> (span: Duration)
        ensures
            span == (if self.nanos <= other.nanos { self } else { other }),
    {
        if self.nanos <= other.nanos {
            self
        } else {
            other
        }
    }
}

/// A span of `n` whole milliseconds.
pub open spec fn millis(n: u64) -> Duration {
    Duration { nanos: (n * NANOS_PER_MILLI) as u128 }
}

/// A span of `n` whole seconds.
pub open spec fn seconds(n: u64) -> Duration {
    Duration { nanos: (n * NANOS_PER_SEC) as u128 }
}

/// `n`, held to the largest `u64`.
pub open spec fn saturated_u64(n: nat) -> nat {
    if n > u64::MAX { u64::MAX as nat } else { n }
}

/// A point on the monotonic clock, counted in nanoseconds from the clock's origin.
#[derive(Debug, Clone, Copy, PartialEq, Eq, Structural)]
pub struct Instant {
    pub nanos: u128,
}

impl Instant {
    /// How long after `earlier` this point lies, or nothing where it does not.
    pub fn saturating_duration_since(&self, earlier: Instant) -> (span: Duration)
        ensures
            span.nanos == nanos_since(*self, earlier),
    {
        if self.nanos > earlier.nanos {
            Duration { nanos: self.nanos - earlier.nanos }
        } else {
            Duration { nanos: 0 }
        }
    }

    /// The point `span` after this one, where the clock reaches that far.
    pub fn checked_add(&self, span: Duration) -> (point: Option<Instant>)
        ensures
            point == (if self.nanos + span.nanos <= u128::MAX {
                Some(Instant { nanos: (self.nanos + span.nanos) as u128 })
            } else {
                None
            }),
    {
        match self.nanos.checked_add(span.nanos) {
            Some(nanos) => Some(Instant { nanos }),
            None => None,
        }
    }
}

/// The nanoseconds from `earlier` to `later`, nothing where `later` is not after it.
pub open spec fn nanos_since(later: Instant, earlier: Instant) -> nat {
    if later.nanos > earlier.nanos { (later.nanos - earlier.nanos) as nat } else { 0 }
}

} // verus!
