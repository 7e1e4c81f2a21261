//! Spans of monotonic time.
use vstd::prelude::*;

verus! {

/// Nanoseconds in one second.
pub const NANOS_PER_SECOND: u128 = 1_000_000_000;

/// Nanoseconds in one millisecond.
pub const NANOS_PER_MILLISECOND: u128 = 1_000_000;

/// Longest span: `u64::MAX` whole seconds and 999 999 999 nanoseconds.
pub const MAX_DURATION_NANOS: u128 = 18_446_744_073_709_551_615_999_999_999;

/// A span of time with nanosecond resolution.
#[derive(Clone, Copy, Debug, PartialEq, Eq, PartialOrd, Ord, Hash, Structural)]
pub struct Duration {
    nanos: u128,
}

impl View for Duration {
    type V = nat;

    closed spec fn view(&self) -> nat {
        self.nanos as nat
    }
}

impl Duration {
    /// The empty span.
    pub fn zero() -> (span: Duration)
        ensures
            span@ == 0,
    {
        Duration { nanos: 0 }
    }

    /// A whole number of seconds.
    pub fn from_secs(seconds: u64) -> (span: Duration)
        ensures
            span@ == seconds * NANOS_PER_SECOND,
    {
        Duration { nanos: seconds as u128 * NANOS_PER_SECOND }
    }

    /// A whole number of milliseconds.
    pub fn from_millis(millis: u64) -> (span: Duration)
        ensures
            span@ == millis * NANOS_PER_MILLISECOND,
    {
        Duration { nanos: millis as u128 * NANOS_PER_MILLISECOND }
    }

    /// A number of nanoseconds, unless it is longer than every span.
    pub fn try_from_nanos(nanos: u128) -> (span: Option<Duration>)
        ensures
            span is Some <==> nanos <= MAX_DURATION_NANOS,
            span is Some ==> span->0@ == nanos,
    {
        if nanos <= MAX_DURATION_NANOS {
            Some(Duration { nanos })
        } else {
            None
        }
    }

    /// The length in nanoseconds.
    pub fn as_nanos(&self) -> (nanos: u128)
        ensures
            nanos == self@,
    {
        self.nanos
    }

    /// Whether the span is empty.
    pub fn is_zero(&self) -> (zero: bool)
        ensures
            zero == (self@ == 0),
    {
        self.nanos == 0
    }

    /// The sum of two spans, unless it is longer than every span.
    pub fn checked_add(self, other: Duration) -> (sum: Option<Duration>)
        ensures
            sum is Some <==> self@ + other@ <= MAX_DURATION_NANOS,
            sum is Some ==> sum->0@ == self@ + other@,
    {
        match self.nanos.checked_add(other.nanos) {
            Some(nanos) => Duration::try_from_nanos(nanos),
            None => None,
        }
    }

    /// This span less `other`, unless `other` is longer.
    pub fn checked_sub(self, other: Duration) -> (difference: Option<Duration>)
        ensures
            difference is Some <==> other@ <= self@,
            difference is Some ==> difference->0@ == self@ - other@,
    {
        if other.nanos <= self.nanos {
            Some(Duration { nanos: self.nanos - other.nanos })
        } else {
            None
        }
    }

    /// This span less `other`, or the empty span where `other` is longer.
    pub fn saturating_sub(self, other: Duration) -> (difference: Duration)
        ensures
            difference@ == (if other@ <= self@ { (self@ - other@) as nat } else { 0nat }),
    {
        if other.nanos <= self.nanos {
            Duration { nanos: self.nanos - other.nanos }
        } else {
            Duration { nanos: 0 }
        }
    }

    /// The longer of two spans.
    pub fn longest(self, other: Duration) -> (longest: Duration)
        ensures
            longest@ == (if self@ <= other@ { other@ } else { self@ }),
            longest == self || longest == other,
    {
        if self.nanos <= other.nanos {
            other
        } else {
            self
        }
    }

    /// The shorter of two spans.
    pub fn shortest(self, other: Duration) -> (shortest: Duration)
        ensures
            shortest@ == (if self@ <= other@ { self@ } else { other@ }),
            shortest == self || shortest == other,
    {
        if self.nanos <= other.nanos {
            self
        } else {
            other
        }
    }

    /// Whether this span is strictly shorter than `other`.
    pub fn is_shorter_than(&self, other: &Duration) -> (shorter: bool)
        ensures
            shorter == (self@ < other@),
    {
        self.nanos < other.nanos
    }
}

} // verus!
