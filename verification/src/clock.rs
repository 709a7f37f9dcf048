//! A single time track that accumulates whatever increments it is given.

use vstd::prelude::*;
use crate::units::Duration;
use crate::units::NANOS_PER_SEC;
use crate::units::sat_add_nanos;

verus! {

/// One time track.
///
/// A clock records the most recent increment (`delta`), the running total of
/// all increments (`elapsed`), and a wrapped view of that total
/// (`elapsed_wrapped`), taken modulo a whole number of seconds. The wrapped
/// view is recomputed from the total on every advance, so it stays bounded
/// however large the total grows. The clock knows nothing about pausing,
/// scaling, or fixed steps: it only accumulates.
#[derive(Clone, Copy, Debug, PartialEq, Eq, Structural)]
pub struct Clock {
    /// The increment given to the most recent advance.
    pub delta: Duration,
    /// The running total of all increments, capped at the largest
    /// representable span.
    pub elapsed: Duration,
    /// `elapsed` taken modulo `wrap_seconds` whole seconds, as of the most
    /// recent advance.
    pub elapsed_wrapped: Duration,
    /// The wrap modulus, in whole seconds; must be positive. A change takes
    /// effect on the next advance.
    pub wrap_seconds: u64,
}

impl Clock {
    /// A clock is well formed when its wrap modulus is positive.
    pub open spec fn wf(self) -> bool {
        self.wrap_seconds >= 1
    }

    /// The wrap modulus, in nanoseconds, as a mathematical value.
    pub open spec fn wrap_nanos(self) -> int {
        self.wrap_seconds * NANOS_PER_SEC
    }

    /// A fresh clock with everything at zero and the given wrap modulus.
    pub open spec fn spec_new(wrap_seconds: u64) -> Clock {
        Clock {
            delta: Duration { nanos: 0 },
            elapsed: Duration { nanos: 0 },
            elapsed_wrapped: Duration { nanos: 0 },
            wrap_seconds,
        }
    }

    /// The clock after one advance by `d`: `delta` is replaced, `elapsed`
    /// grows by `d` (capped), and the wrapped view is recomputed from the
    /// new total.
    pub open spec fn spec_advanced(self, d: Duration) -> Clock {
        let new_elapsed = sat_add_nanos(self.elapsed.nanos, d.nanos);
        Clock {
            delta: d,
            elapsed: Duration { nanos: new_elapsed },
            elapsed_wrapped: Duration { nanos: ((new_elapsed as int) % self.wrap_nanos()) as u64 },
            wrap_seconds: self.wrap_seconds,
        }
    }

    /// The tracked readings of two clocks agree, whatever their configured
    /// wrap moduli.
    pub open spec fn same_track(self, other: Clock) -> bool {
        &&& self.delta == other.delta
        &&& self.elapsed == other.elapsed
        &&& self.elapsed_wrapped == other.elapsed_wrapped
    }

    /// Constructs a fresh clock with the given wrap modulus.
    pub fn new(wrap_seconds: u64) -> (r: Clock)
        requires
            wrap_seconds >= 1,
        ensures
            r == Clock::spec_new(wrap_seconds),
            r.wf(),
    {
        Clock {
            delta: Duration { nanos: 0 },
            elapsed: Duration { nanos: 0 },
            elapsed_wrapped: Duration { nanos: 0 },
            wrap_seconds,
        }
    }

    /// Advances the clock by `delta`: records it as the latest increment,
    /// adds it to the running total (capping at the largest representable
    /// span), and recomputes the wrapped view from the new total.
    pub fn advance_by(&mut self, delta: Duration)
        requires
            old(self).wf(),
        ensures
            *final(self) == old(self).spec_advanced(delta),
            final(self).wf(),
            final(self).elapsed.nanos >= old(self).elapsed.nanos,
            final(self).elapsed_wrapped.nanos < old(self).wrap_nanos(),
    {
        self.delta = delta;
        let new_elapsed: u64 = if self.elapsed.nanos <= u64::MAX - delta.nanos {
            self.elapsed.nanos + delta.nanos
        } else {
            u64::MAX
        };
        self.elapsed = Duration { nanos: new_elapsed };
        let w: u128 = self.wrap_seconds as u128;
        proof {
            assert((NANOS_PER_SEC as u128) <= w * (NANOS_PER_SEC as u128) <= u128::MAX)
                by (nonlinear_arith)
                requires
                    1 <= w <= u64::MAX,
            ;
        }
        let modulus: u128 = w * (NANOS_PER_SEC as u128);
        let rem: u128 = (new_elapsed as u128) % modulus;
        proof {
            vstd::arithmetic::div_mod::lemma_mod_decreases(
                new_elapsed as nat,
                modulus as nat,
            );
        }
        self.elapsed_wrapped = Duration { nanos: rem as u64 };
    }
}

} // verus!
