//! The general guarantees of the timekeeping model, stated and proved over
//! the specification-level update and expenditure steps.

use vstd::prelude::*;
use crate::clock::Clock;
use crate::time::Time;
use crate::time::DEFAULT_MAX_DELTA_NANOS;
use crate::units::Duration;
use crate::units::Instant;
use crate::units::Speed;
use crate::units::NANOS_PER_SEC;
use crate::units::sat_add_nanos;

verus! {

/// The state after feeding every timestamp of `s` to the update step,
/// oldest first.
pub open spec fn spec_updated_seq(t: Time, s: Seq<Instant>) -> Time
    decreases s.len(),
{
    if s.len() == 0 {
        t
    } else {
        spec_updated_seq(t.spec_updated(s[0]), s.drop_first())
    }
}

/// The timestamps of `s` are admissible after `t`: each is at or after the
/// reference point current at the moment it is fed.
pub open spec fn spec_admissible(t: Time, s: Seq<Instant>) -> bool
    decreases s.len(),
{
    s.len() == 0 || (s[0].nanos >= t.last_or_startup().nanos && spec_admissible(
        t.spec_updated(s[0]),
        s.drop_first(),
    ))
}

/// The timestamps of `s` never decrease, and none lies before `start`.
pub open spec fn spec_nondecreasing_from(start: Instant, s: Seq<Instant>) -> bool {
    &&& forall|i: int, j: int| 0 <= i <= j < s.len() ==> #[trigger] s[i].nanos <= #[trigger] s[j].nanos
    &&& forall|i: int| 0 <= i < s.len() ==> start.nanos <= #[trigger] s[i].nanos
}

/// Any sequence of non-decreasing timestamps, none before the pending
/// reference point, is admissible.
pub proof fn lemma_nondecreasing_admissible(t: Time, s: Seq<Instant>)
    requires
        t.wf(),
        spec_nondecreasing_from(t.last_or_startup(), s),
    ensures
        spec_admissible(t, s),
    decreases s.len(),
{
    if s.len() > 0 {
        lemma_updated_wf(t, s[0]);
        assert(spec_nondecreasing_from(s[0], s.drop_first())) by {
            assert forall|i: int, j: int|
                0 <= i <= j < s.drop_first().len() implies #[trigger] s.drop_first()[i].nanos
                <= #[trigger] s.drop_first()[j].nanos by {
                assert(s.drop_first()[i] == s[i + 1]);
                assert(s.drop_first()[j] == s[j + 1]);
            }
            assert forall|i: int| 0 <= i < s.drop_first().len() implies s[0].nanos <= #[trigger] s
                .drop_first()[i].nanos by {
                assert(s.drop_first()[i] == s[i + 1]);
            }
        }
        lemma_nondecreasing_admissible(t.spec_updated(s[0]), s.drop_first());
    }
}

/// One update step preserves internal consistency.
pub proof fn lemma_updated_wf(t: Time, i: Instant)
    requires
        t.wf(),
        i.nanos >= t.last_or_startup().nanos,
    ensures
        t.spec_updated(i).wf(),
        t.spec_updated(i).last_or_startup() == i,
{
}

/// Monotonic elapsed: however many admissible timestamps are fed to the
/// update step, the virtual and raw elapsed totals never decrease.
pub proof fn lemma_elapsed_monotonic(t: Time, s: Seq<Instant>)
    requires
        t.wf(),
        spec_admissible(t, s),
    ensures
        spec_updated_seq(t, s).wf(),
        spec_updated_seq(t, s).virtual_clock.elapsed.nanos >= t.virtual_clock.elapsed.nanos,
        spec_updated_seq(t, s).raw_clock.elapsed.nanos >= t.raw_clock.elapsed.nanos,
        s.len() > 0 ==> spec_updated_seq(t, s).current_clock == spec_updated_seq(
            t,
            s,
        ).virtual_clock,
    decreases s.len(),
{
    if s.len() > 0 {
        lemma_updated_wf(t, s[0]);
        lemma_elapsed_monotonic(t.spec_updated(s[0]), s.drop_first());
    }
}

/// First-tick zeroing: on a fresh clock, an update at `t1` leaves every
/// delta zero while the elapsed totals take the whole measured span from
/// startup; only a second update, at `t2`, yields a non-zero delta, equal
/// to the gap between the two update timestamps. (The spans are asked to
/// stay under the default clamp, which would otherwise cut the virtual
/// readings short.)
pub proof fn lemma_first_tick_zeroing(t0: Instant, t1: Instant, t2: Instant)
    requires
        t0.nanos <= t1.nanos <= t2.nanos,
        t1.nanos - t0.nanos <= DEFAULT_MAX_DELTA_NANOS,
        t2.nanos - t1.nanos <= DEFAULT_MAX_DELTA_NANOS,
    ensures
        ({
            let s1 = Time::spec_new(t0).spec_updated(t1);
            let s2 = s1.spec_updated(t2);
            &&& s1.current_clock.delta.nanos == 0
            &&& s1.raw_clock.delta.nanos == 0
            &&& s1.current_clock.elapsed.nanos == t1.nanos - t0.nanos
            &&& s1.raw_clock.elapsed.nanos == t1.nanos - t0.nanos
            &&& s2.current_clock.delta.nanos == t2.nanos - t1.nanos
            &&& s2.raw_clock.delta.nanos == t2.nanos - t1.nanos
        }),
{
}

/// Speed scaling: with pause off, past the first update, and the clamp not
/// triggered, the delta of an update is exactly the raw delta scaled by the
/// configured factor (rounded down to whole nanoseconds), while the raw
/// delta is untouched.
pub proof fn lemma_speed_scaling(t: Time, i: Instant)
    requires
        t.wf(),
        !t.paused,
        t.last_update is Some,
        i.nanos >= t.last_or_startup().nanos,
        t.maximum_delta is Some ==> t.spec_scaled_delta_nanos(i) <= t.maximum_delta->0.nanos,
        t.spec_scaled_delta_nanos(i) <= u64::MAX,
    ensures
        t.spec_updated(i).current_clock.delta.nanos == t.spec_raw_delta_nanos(i) * (
        t.relative_speed.num as int) / (t.relative_speed.den as int),
        t.spec_updated(i).raw_clock.delta.nanos == t.spec_raw_delta_nanos(i),
{
    vstd::arithmetic::mul::lemma_mul_nonnegative(
        t.spec_raw_delta_nanos(i),
        t.relative_speed.num as int,
    );
    vstd::arithmetic::div_mod::lemma_div_pos_is_pos(
        t.spec_raw_delta_nanos(i) * t.relative_speed.num,
        t.relative_speed.den as int,
    );
}

/// Pause: while paused, an update leaves the virtual track still (delta
/// zero, elapsed unchanged) and the observed speed is zero, while the raw
/// track advances by the full raw delta as usual.
pub proof fn lemma_pause(t: Time, i: Instant)
    requires
        t.wf(),
        t.paused,
        t.last_update is Some,
        i.nanos >= t.last_or_startup().nanos,
    ensures
        t.spec_updated(i).current_clock.delta.nanos == 0,
        t.spec_updated(i).virtual_clock.elapsed == t.virtual_clock.elapsed,
        t.spec_updated(i).raw_clock.delta.nanos == i.nanos - t.last_or_startup().nanos,
        t.spec_updated(i).raw_clock.elapsed.nanos == sat_add_nanos(
            t.raw_clock.elapsed.nanos,
            (i.nanos - t.last_or_startup().nanos) as u64,
        ),
        t.spec_updated(i).spec_relative_speed() == (Speed { num: 0u64, den: 1u64 }),
{
}

/// Wrap correctness: after an advance, the wrapped elapsed reading is
/// exactly the elapsed total modulo the wrap period, and in particular lies
/// below the modulus.
pub proof fn lemma_wrap_correctness(c: Clock, d: Duration)
    requires
        c.wf(),
    ensures
        c.spec_advanced(d).elapsed_wrapped.nanos == (c.spec_advanced(d).elapsed.nanos as int)
            % c.wrap_nanos(),
        c.spec_advanced(d).elapsed_wrapped.nanos < c.wrap_nanos(),
{
    let e = sat_add_nanos(c.elapsed.nanos, d.nanos);
    assert((NANOS_PER_SEC as int) <= c.wrap_nanos()) by (nonlinear_arith)
        requires
            1 <= c.wrap_seconds,
            c.wrap_nanos() == c.wrap_seconds * NANOS_PER_SEC,
    ;
    vstd::arithmetic::div_mod::lemma_mod_decreases(e as nat, c.wrap_nanos() as nat);
    vstd::arithmetic::div_mod::lemma_mod_bound(e as int, c.wrap_nanos());
}

/// Clamp: when a single update's scaled delta exceeds the configured
/// maximum, the delta is the maximum, not the unclamped value, while the
/// raw delta is unaffected.
pub proof fn lemma_clamp(t: Time, i: Instant)
    requires
        t.wf(),
        t.last_update is Some,
        i.nanos >= t.last_or_startup().nanos,
        t.maximum_delta is Some,
        t.spec_scaled_delta_nanos(i) > t.maximum_delta->0.nanos,
    ensures
        t.spec_updated(i).current_clock.delta == t.maximum_delta->0,
        t.spec_updated(i).raw_clock.delta.nanos == i.nanos - t.last_or_startup().nanos,
{
}

/// The state after repeatedly attempting to expend fixed periods until a
/// whole period is no longer available (the final, failed attempt included:
/// it is the one that hands the current snapshot back to the virtual track).
pub open spec fn spec_drained(t: Time) -> Time
    decreases t.fixed_accumulated.nanos,
        when t.fixed_period.nanos >= 1
{
    if t.spec_can_expend() {
        spec_drained(t.spec_expended())
    } else {
        t.spec_expended()
    }
}

/// Fixed-step conservation: draining the accumulator consumes exactly the
/// whole periods it holds. What remains is the accumulated total modulo the
/// period — non-negative and below one period — and the fixed track's
/// elapsed total grows by exactly the whole periods consumed. (The fixed
/// track's total is asked to stay in range, so that no reading is capped.)
pub proof fn lemma_fixed_step_conservation(t: Time)
    requires
        t.wf(),
        t.fixed_clock.elapsed.nanos + t.fixed_accumulated.nanos <= u64::MAX,
    ensures
        spec_drained(t).wf(),
        spec_drained(t).fixed_accumulated.nanos == (t.fixed_accumulated.nanos as int) % (
        t.fixed_period.nanos as int),
        spec_drained(t).fixed_accumulated.nanos < t.fixed_period.nanos,
        spec_drained(t).fixed_clock.elapsed.nanos == t.fixed_clock.elapsed.nanos + ((
        t.fixed_accumulated.nanos as int) / (t.fixed_period.nanos as int)) * (
        t.fixed_period.nanos as int),
        spec_drained(t).current_clock == t.virtual_clock,
    decreases t.fixed_accumulated.nanos,
{
    let acc = t.fixed_accumulated.nanos as int;
    let p = t.fixed_period.nanos as int;
    if t.spec_can_expend() {
        let t1 = t.spec_expended();
        lemma_fixed_step_conservation(t1);
        vstd::arithmetic::div_mod::lemma_mod_sub_multiples_vanish(acc, p);
        vstd::arithmetic::div_mod::lemma_div_minus_one(acc, p);
        vstd::arithmetic::mul::lemma_mul_is_distributive_sub_other_way(p, acc / p, 1);
    } else {
        vstd::arithmetic::div_mod::lemma_small_mod(
            t.fixed_accumulated.nanos as nat,
            t.fixed_period.nanos as nat,
        );
        vstd::arithmetic::div_mod::lemma_basic_div(acc, p);
    }
}

} // verus!
