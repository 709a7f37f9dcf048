//! Plain-value time units: nanosecond spans, timeline points, and exact
//! rational rate factors.

use vstd::prelude::*;

verus! {

/// Number of nanoseconds in one second.
pub const NANOS_PER_SEC: u64 = 1_000_000_000;

/// A non-negative span of time, counted in whole nanoseconds.
#[derive(Clone, Copy, Debug, PartialEq, Eq, Structural)]
pub struct Duration {
    /// Length of the span, in nanoseconds.
    pub nanos: u64,
}

/// Addition of nanosecond counts, capped at the largest representable count.
pub open spec fn sat_add_nanos(a: u64, b: u64) -> u64 {
    if a + b <= u64::MAX {
        (a + b) as u64
    } else {
        u64::MAX
    }
}

/// A mathematical value brought back into nanosecond range, capping at the
/// largest representable count.
pub open spec fn cap_nanos(v: int) -> u64 {
    if 0 <= v <= u64::MAX {
        v as u64
    } else {
        u64::MAX
    }
}

impl Duration {
    /// The empty span.
    pub fn zero() -> (r: Duration)
        ensures
            r.nanos == 0,
    {
        Duration { nanos: 0 }
    }

    /// A span of `nanos` nanoseconds.
    pub fn from_nanos(nanos: u64) -> (r: Duration)
        ensures
            r.nanos == nanos,
    {
        Duration { nanos }
    }

    /// A span of `micros` microseconds.
    pub fn from_micros(micros: u64) -> (r: Duration)
        requires
            micros * 1_000 <= u64::MAX,
        ensures
            r.nanos == micros * 1_000,
    {
        Duration { nanos: micros * 1_000 }
    }

    /// A span of `millis` milliseconds.
    pub fn from_millis(millis: u64) -> (r: Duration)
        requires
            millis * 1_000_000 <= u64::MAX,
        ensures
            r.nanos == millis * 1_000_000,
    {
        Duration { nanos: millis * 1_000_000 }
    }

    /// A span of `secs` whole seconds.
    pub fn from_secs(secs: u64) -> (r: Duration)
        requires
            secs * NANOS_PER_SEC <= u64::MAX,
        ensures
            r.nanos == secs * NANOS_PER_SEC,
    {
        Duration { nanos: secs * NANOS_PER_SEC }
    }

    /// The whole span, in nanoseconds.
    pub fn as_nanos(&self) -> (r: u64)
        ensures
            r == self.nanos,
    {
        self.nanos
    }

    /// The number of whole seconds in the span.
    pub fn as_secs(&self) -> (r: u64)
        ensures
            r == self.nanos / NANOS_PER_SEC,
    {
        self.nanos / NANOS_PER_SEC
    }

    /// The sub-second part of the span, in nanoseconds.
    pub fn subsec_nanos(&self) -> (r: u64)
        ensures
            r == self.nanos % NANOS_PER_SEC,
    {
        self.nanos % NANOS_PER_SEC
    }

    /// True when the span is empty.
    pub fn is_zero(&self) -> (r: bool)
        ensures
            r == (self.nanos == 0),
    {
        self.nanos == 0
    }

    /// The sum of two spans, capped at the largest representable span.
    pub fn saturating_add(self, other: Duration) -> (r: Duration)
        ensures
            r.nanos == sat_add_nanos(self.nanos, other.nanos),
    {
        if self.nanos <= u64::MAX - other.nanos {
            Duration { nanos: self.nanos + other.nanos }
        } else {
            Duration { nanos: u64::MAX }
        }
    }

    /// The difference of two spans; `None` when `other` is longer than `self`.
    pub fn checked_sub(self, other: Duration) -> (r: Option<Duration>)
        ensures
            self.nanos >= other.nanos ==> r == Some(
                Duration { nanos: (self.nanos - other.nanos) as u64 },
            ),
            self.nanos < other.nanos ==> r is None,
    {
        if self.nanos >= other.nanos {
            Some(Duration { nanos: self.nanos - other.nanos })
        } else {
            None
        }
    }
}

/// A point on a monotonic timeline, counted in nanoseconds from an
/// arbitrary origin chosen by the host.
#[derive(Clone, Copy, Debug, PartialEq, Eq, Structural)]
pub struct Instant {
    /// Offset from the timeline's origin, in nanoseconds.
    pub nanos: u64,
}

impl Instant {
    /// The point `nanos` nanoseconds after the timeline's origin.
    pub fn from_nanos(nanos: u64) -> (r: Instant)
        ensures
            r.nanos == nanos,
    {
        Instant { nanos }
    }

    /// The span from `earlier` to `self`.
    pub fn duration_since(self, earlier: Instant) -> (r: Duration)
        requires
            earlier.nanos <= self.nanos,
        ensures
            r.nanos == self.nanos - earlier.nanos,
    {
        Duration { nanos: self.nanos - earlier.nanos }
    }

    /// The point one span after `self`.
    pub fn plus(self, d: Duration) -> (r: Instant)
        requires
            self.nanos + d.nanos <= u64::MAX,
        ensures
            r.nanos == self.nanos + d.nanos,
    {
        Instant { nanos: self.nanos + d.nanos }
    }
}

/// An exact, non-negative rate factor `num / den`.
///
/// Keeping the factor as a ratio of integers lets scaled spans be computed
/// exactly, with a single rounding down to whole nanoseconds, so repeated
/// scaling introduces no drift.
#[derive(Clone, Copy, Debug, PartialEq, Eq, Structural)]
pub struct Speed {
    /// Numerator of the factor.
    pub num: u64,
    /// Denominator of the factor; must be positive.
    pub den: u64,
}

impl Speed {
    /// A factor is well formed when its denominator is positive.
    pub open spec fn wf(self) -> bool {
        self.den >= 1
    }

    /// True when the factor equals one exactly.
    pub open spec fn is_one(self) -> bool {
        self.num == self.den
    }

    /// A span of `nanos` nanoseconds scaled by the factor, rounded down to
    /// whole nanoseconds, as a mathematical value.
    pub open spec fn spec_scale(self, nanos: u64) -> int {
        (nanos as int) * (self.num as int) / (self.den as int)
    }

    /// The factor `num / den`.
    pub fn from_ratio(num: u64, den: u64) -> (r: Speed)
        requires
            den >= 1,
        ensures
            r == (Speed { num, den }),
    {
        Speed { num, den }
    }

    /// The factor one: spans pass through unchanged.
    pub fn one() -> (r: Speed)
        ensures
            r == (Speed { num: 1u64, den: 1u64 }),
    {
        Speed { num: 1, den: 1 }
    }

    /// The factor zero: every span scales to the empty span.
    pub fn stopped() -> (r: Speed)
        ensures
            r == (Speed { num: 0u64, den: 1u64 }),
    {
        Speed { num: 0, den: 1 }
    }

    /// Scales a span by the factor, rounding down to whole nanoseconds and
    /// capping at the largest representable span.
    pub fn scale(self, d: Duration) -> (r: Duration)
        requires
            self.wf(),
        ensures
            r.nanos == cap_nanos(self.spec_scale(d.nanos)),
    {
        let a: u128 = d.nanos as u128;
        let b: u128 = self.num as u128;
        proof {
            assert(a * b <= u128::MAX) by (nonlinear_arith)
                requires
                    a <= u64::MAX,
                    b <= u64::MAX,
            ;
        }
        let wide: u128 = a * b / (self.den as u128);
        if wide <= u64::MAX as u128 {
            Duration { nanos: wide as u64 }
        } else {
            Duration { nanos: u64::MAX }
        }
    }
}

} // verus!
