//! The per-tick update algorithm and the fixed-step consumption protocol.

use vstd::prelude::*;
use crate::clock::Clock;
use crate::units::Duration;
use crate::units::Instant;
use crate::units::Speed;
use crate::units::NANOS_PER_SEC;
use crate::units::cap_nanos;
use crate::units::sat_add_nanos;

verus! {

/// Default wrap modulus: one hour, in whole seconds.
pub const DEFAULT_WRAP_SECONDS: u64 = 3600;

/// Default clamp on the scaled per-update delta, in nanoseconds (333 ms).
pub const DEFAULT_MAX_DELTA_NANOS: u64 = 333_000_000;

/// Default fixed-step period, in nanoseconds (one sixtieth of a second,
/// rounded to the nearest nanosecond).
pub const DEFAULT_FIXED_PERIOD_NANOS: u64 = 16_666_667;

/// A clock that fans one timestamp sample per tick out into four coherent
/// time tracks.
///
/// - `raw_clock` accumulates unscaled wall time,
/// - `virtual_clock` accumulates the pause/speed-adjusted, clamped time,
/// - `fixed_clock` advances only in whole fixed periods, driven by an
///   accumulator of unconsumed virtual time,
/// - `current_clock` is a value snapshot of whichever track is presently
///   active: the virtual track after an update, the fixed track during
///   fixed-step consumption.
#[derive(Clone, Debug)]
pub struct Time {
    /// The timeline point at which this value was constructed; never changes.
    pub startup: Instant,
    /// The timestamp of the first update; `None` until the first update.
    pub first_update: Option<Instant>,
    /// The timestamp of the most recent update; `None` until the first update.
    pub last_update: Option<Instant>,
    /// While set, updates advance the virtual track by nothing.
    pub paused: bool,
    /// The rate of virtual time relative to raw time; preserved across pauses.
    pub relative_speed: Speed,
    /// The wrap modulus handed to the clocks on the next wrap-period change.
    pub wrap_seconds: u64,
    /// An optional clamp applied to the scaled delta on every update.
    pub maximum_delta: Option<Duration>,
    /// Virtual time not yet consumed by fixed-step expenditure.
    pub fixed_accumulated: Duration,
    /// The length of one fixed step.
    pub fixed_period: Duration,
    /// The unscaled wall-time track.
    pub raw_clock: Clock,
    /// The pause/speed-adjusted track.
    pub virtual_clock: Clock,
    /// The track advanced only in whole fixed periods.
    pub fixed_clock: Clock,
    /// A value snapshot of the presently active track.
    pub current_clock: Clock,
}

impl Time {
    /// Internal consistency of a `Time` value: every configured quantity is
    /// in range, and the current snapshot reads as one of the virtual or
    /// fixed tracks.
    pub open spec fn wf(self) -> bool {
        &&& self.relative_speed.wf()
        &&& 1 <= self.wrap_seconds
        &&& self.wrap_seconds * NANOS_PER_SEC <= u64::MAX
        &&& self.raw_clock.wf()
        &&& self.virtual_clock.wf()
        &&& self.fixed_clock.wf()
        &&& self.current_clock.wf()
        &&& self.fixed_period.nanos >= 1
        &&& (self.current_clock.same_track(self.virtual_clock) || self.current_clock.same_track(
            self.fixed_clock,
        ))
        &&& (self.first_update is Some <==> self.last_update is Some)
    }

    /// The reference point the next raw delta is measured from: the previous
    /// update's timestamp, or startup before any update.
    pub open spec fn last_or_startup(self) -> Instant {
        match self.last_update {
            Some(i) => i,
            None => self.startup,
        }
    }

    /// The raw delta an update at `instant` measures, as a mathematical
    /// value (negative only for a non-monotonic timestamp, which callers
    /// must not supply).
    pub open spec fn spec_raw_delta_nanos(self, instant: Instant) -> int {
        instant.nanos - self.last_or_startup().nanos
    }

    /// The scaled delta: zero while paused, otherwise the raw delta times
    /// the relative speed, rounded down to whole nanoseconds.
    pub open spec fn spec_scaled_delta_nanos(self, instant: Instant) -> int {
        if self.paused {
            0
        } else {
            self.spec_raw_delta_nanos(instant) * (self.relative_speed.num as int) / (
            self.relative_speed.den as int)
        }
    }

    /// The delta the virtual track advances by: the scaled delta, clamped to
    /// `maximum_delta` when one is configured, and brought into nanosecond
    /// range.
    pub open spec fn spec_delta_nanos(self, instant: Instant) -> u64 {
        let scaled = self.spec_scaled_delta_nanos(instant);
        match self.maximum_delta {
            Some(m) => if scaled <= m.nanos {
                cap_nanos(scaled)
            } else {
                m.nanos
            },
            None => cap_nanos(scaled),
        }
    }

    /// A fresh `Time` with the given startup point and every control at its
    /// default: not paused, speed one, a one-hour wrap modulus, a 333 ms
    /// delta clamp, a one-sixtieth-second fixed period, and an empty
    /// accumulator.
    pub open spec fn spec_new(startup: Instant) -> Time {
        Time {
            startup,
            first_update: None,
            last_update: None,
            paused: false,
            relative_speed: Speed { num: 1, den: 1 },
            wrap_seconds: DEFAULT_WRAP_SECONDS,
            maximum_delta: Some(Duration { nanos: DEFAULT_MAX_DELTA_NANOS }),
            fixed_accumulated: Duration { nanos: 0 },
            fixed_period: Duration { nanos: DEFAULT_FIXED_PERIOD_NANOS },
            raw_clock: Clock::spec_new(DEFAULT_WRAP_SECONDS),
            virtual_clock: Clock::spec_new(DEFAULT_WRAP_SECONDS),
            fixed_clock: Clock::spec_new(DEFAULT_WRAP_SECONDS),
            current_clock: Clock::spec_new(DEFAULT_WRAP_SECONDS),
        }
    }

    /// The state after one update at `instant`: the raw track advances by
    /// the raw delta and the virtual track by the scaled, clamped delta,
    /// which is also added to the fixed-step accumulator; on the very first
    /// update both advancing tracks have their delta re-zeroed (their
    /// elapsed totals keep the measured time); the current snapshot becomes
    /// the virtual track.
    pub open spec fn spec_updated(self, instant: Instant) -> Time {
        let raw = Duration { nanos: cap_nanos(self.spec_raw_delta_nanos(instant)) };
        let delta = Duration { nanos: self.spec_delta_nanos(instant) };
        let first = self.last_update is None;
        let zero = Duration { nanos: 0 };
        let raw_adv = if first {
            self.raw_clock.spec_advanced(raw).spec_advanced(zero)
        } else {
            self.raw_clock.spec_advanced(raw)
        };
        let virt_adv = if first {
            self.virtual_clock.spec_advanced(delta).spec_advanced(zero)
        } else {
            self.virtual_clock.spec_advanced(delta)
        };
        Time {
            first_update: if first {
                Some(instant)
            } else {
                self.first_update
            },
            last_update: Some(instant),
            fixed_accumulated: Duration {
                nanos: sat_add_nanos(self.fixed_accumulated.nanos, delta.nanos),
            },
            raw_clock: raw_adv,
            virtual_clock: virt_adv,
            current_clock: virt_adv,
            ..self
        }
    }

    /// Whether the accumulator holds at least one whole fixed period.
    pub open spec fn spec_can_expend(self) -> bool {
        self.fixed_accumulated.nanos >= self.fixed_period.nanos
    }

    /// The state after one expenditure attempt: when a whole period is
    /// available it moves from the accumulator onto the fixed track, which
    /// becomes the current snapshot; otherwise nothing moves and the current
    /// snapshot falls back to the virtual track.
    pub open spec fn spec_expended(self) -> Time {
        if self.spec_can_expend() {
            let fixed_adv = self.fixed_clock.spec_advanced(self.fixed_period);
            Time {
                fixed_accumulated: Duration {
                    nanos: (self.fixed_accumulated.nanos - self.fixed_period.nanos) as u64,
                },
                fixed_clock: fixed_adv,
                current_clock: fixed_adv,
                ..self
            }
        } else {
            Time { current_clock: self.virtual_clock, ..self }
        }
    }

    /// The state after the wrap modulus is reset to `ws` whole seconds: the
    /// raw, virtual and fixed tracks take the new modulus (effective on
    /// their next advance); the current snapshot, being a copy of a past
    /// reading, is left as it is.
    pub open spec fn spec_with_wrap_seconds(self, ws: u64) -> Time {
        Time {
            wrap_seconds: ws,
            raw_clock: Clock { wrap_seconds: ws, ..self.raw_clock },
            virtual_clock: Clock { wrap_seconds: ws, ..self.virtual_clock },
            fixed_clock: Clock { wrap_seconds: ws, ..self.fixed_clock },
            ..self
        }
    }

    /// The speed an observer sees: zero while paused (a consistent "not
    /// advancing" signal), otherwise the stored factor.
    pub open spec fn spec_relative_speed(self) -> Speed {
        if self.paused {
            Speed { num: 0, den: 1 }
        } else {
            self.relative_speed
        }
    }

    /// Constructs a new `Time` with a specific startup point.
    pub fn new(startup: Instant) -> (r: Time)
        ensures
            r == Time::spec_new(startup),
            r.wf(),
    {
        Time {
            startup,
            first_update: None,
            last_update: None,
            paused: false,
            relative_speed: Speed::one(),
            wrap_seconds: DEFAULT_WRAP_SECONDS,
            maximum_delta: Some(Duration { nanos: DEFAULT_MAX_DELTA_NANOS }),
            fixed_accumulated: Duration { nanos: 0 },
            fixed_period: Duration { nanos: DEFAULT_FIXED_PERIOD_NANOS },
            raw_clock: Clock::new(DEFAULT_WRAP_SECONDS),
            virtual_clock: Clock::new(DEFAULT_WRAP_SECONDS),
            fixed_clock: Clock::new(DEFAULT_WRAP_SECONDS),
            current_clock: Clock::new(DEFAULT_WRAP_SECONDS),
        }
    }

    /// Updates the time measurements from one timestamp sample.
    ///
    /// The sample must be chronologically at or after the previous one (or
    /// startup, before any update); a backwards timestamp has no meaningful
    /// reading and is ruled out here.
    pub fn update_with_instant(&mut self, instant: Instant)
        requires
            old(self).wf(),
            instant.nanos >= old(self).last_or_startup().nanos,
        ensures
            *final(self) == old(self).spec_updated(instant),
            final(self).wf(),
            final(self).last_update == Some(instant),
            final(self).current_clock == final(self).virtual_clock,
            final(self).raw_clock.elapsed.nanos >= old(self).raw_clock.elapsed.nanos,
            final(self).virtual_clock.elapsed.nanos >= old(self).virtual_clock.elapsed.nanos,
    {
        let last: Instant = match self.last_update {
            Some(i) => i,
            None => self.startup,
        };
        let raw_delta: Duration = instant.duration_since(last);
        self.raw_clock.advance_by(raw_delta);
        let scaled_delta: Duration = if self.paused {
            Duration::from_nanos(0)
        } else if self.relative_speed.num != self.relative_speed.den {
            self.relative_speed.scale(raw_delta)
        } else {
            // at speed one, pass the raw delta through untouched
            proof {
                lemma_scale_by_one(raw_delta.nanos as int, self.relative_speed.num as int);
            }
            raw_delta
        };
        proof {
            if !self.paused {
                vstd::arithmetic::div_mod::lemma_div_pos_is_pos(
                    old(self).spec_raw_delta_nanos(instant) * self.relative_speed.num,
                    self.relative_speed.den as int,
                );
                vstd::arithmetic::mul::lemma_mul_nonnegative(
                    old(self).spec_raw_delta_nanos(instant),
                    self.relative_speed.num as int,
                );
            }
            assert(scaled_delta.nanos == cap_nanos(old(self).spec_scaled_delta_nanos(instant)));
        }
        let delta: Duration = match self.maximum_delta {
            Some(m) => if scaled_delta.nanos <= m.nanos {
                scaled_delta
            } else {
                m
            },
            None => scaled_delta,
        };
        self.virtual_clock.advance_by(delta);
        self.fixed_accumulated = self.fixed_accumulated.saturating_add(delta);
        if self.last_update.is_none() {
            self.first_update = Some(instant);
            // zero out the deltas so the arbitrary pre-loop work between
            // startup and the first update does not show as one huge step
            self.raw_clock.advance_by(Duration::from_nanos(0));
            self.virtual_clock.advance_by(Duration::from_nanos(0));
        }
        self.last_update = Some(instant);
        self.current_clock = self.virtual_clock;
    }

    /// Attempts to consume exactly one fixed period from the accumulator.
    ///
    /// On success the fixed track advances by one period and becomes the
    /// current snapshot, and `true` comes back; once the accumulator holds
    /// less than one period, the current snapshot falls back to the virtual
    /// track and `false` comes back. A fixed-step consumer calls this in a
    /// loop after each update, running its step logic once per `true`.
    pub fn expend_fixed(&mut self) -> (stepped: bool)
        requires
            old(self).wf(),
        ensures
            *final(self) == old(self).spec_expended(),
            stepped == old(self).spec_can_expend(),
            final(self).wf(),
            stepped ==> final(self).fixed_accumulated.nanos == old(self).fixed_accumulated.nanos
                - old(self).fixed_period.nanos,
            !stepped ==> final(self).fixed_accumulated == old(self).fixed_accumulated
                && final(self).current_clock == old(self).virtual_clock,
    {
        match self.fixed_accumulated.checked_sub(self.fixed_period) {
            Some(new_value) => {
                // reduce the accumulator and grow the fixed track by one period
                self.fixed_accumulated = new_value;
                let period: Duration = self.fixed_period;
                self.fixed_clock.advance_by(period);
                self.current_clock = self.fixed_clock;
                true
            },
            None => {
                // no whole period left in the accumulator
                self.current_clock = self.virtual_clock;
                false
            },
        }
    }

    /// Returns the timeline point the clock was created at.
    pub fn startup(&self) -> (r: Instant)
        ensures
            r == self.startup,
    {
        self.startup
    }

    /// Returns the timestamp of the first update, if one has happened.
    pub fn first_update(&self) -> (r: Option<Instant>)
        ensures
            r == self.first_update,
    {
        self.first_update
    }

    /// Returns the timestamp of the most recent update, if one has happened.
    pub fn last_update(&self) -> (r: Option<Instant>)
        ensures
            r == self.last_update,
    {
        self.last_update
    }

    /// Returns how much the active track advanced on the most recent update.
    pub fn delta(&self) -> (r: Duration)
        ensures
            r == self.current_clock.delta,
    {
        self.current_clock.delta
    }

    /// Returns how much the active track has advanced since startup.
    pub fn elapsed(&self) -> (r: Duration)
        ensures
            r == self.current_clock.elapsed,
    {
        self.current_clock.elapsed
    }

    /// Returns how much the active track has advanced since startup, modulo
    /// the wrap period.
    pub fn elapsed_wrapped(&self) -> (r: Duration)
        ensures
            r == self.current_clock.elapsed_wrapped,
    {
        self.current_clock.elapsed_wrapped
    }

    /// Returns how much real time passed between the two most recent updates.
    pub fn raw_delta(&self) -> (r: Duration)
        ensures
            r == self.raw_clock.delta,
    {
        self.raw_clock.delta
    }

    /// Returns how much real time has passed since startup.
    pub fn raw_elapsed(&self) -> (r: Duration)
        ensures
            r == self.raw_clock.elapsed,
    {
        self.raw_clock.elapsed
    }

    /// Returns how much real time has passed since startup, modulo the wrap
    /// period.
    pub fn raw_elapsed_wrapped(&self) -> (r: Duration)
        ensures
            r == self.raw_clock.elapsed_wrapped,
    {
        self.raw_clock.elapsed_wrapped
    }

    /// Returns the modulus the wrapped elapsed readings are taken by.
    pub fn wrap_period(&self) -> (r: Duration)
        requires
            self.wf(),
        ensures
            r.nanos == self.wrap_seconds * NANOS_PER_SEC,
    {
        Duration { nanos: self.wrap_seconds * NANOS_PER_SEC }
    }

    /// Resets the wrap modulus for the raw, virtual and fixed tracks; each
    /// takes it into account on its next advance. The period must be a
    /// positive whole number of seconds.
    pub fn set_wrap_period(&mut self, wrap_period: Duration)
        requires
            old(self).wf(),
            wrap_period.nanos >= 1,
            wrap_period.nanos % NANOS_PER_SEC == 0,
        ensures
            *final(self) == old(self).spec_with_wrap_seconds(
                (wrap_period.nanos / NANOS_PER_SEC) as u64,
            ),
            final(self).wf(),
    {
        let ws: u64 = wrap_period.as_secs();
        proof {
            vstd::arithmetic::div_mod::lemma_fundamental_div_mod(
                wrap_period.nanos as int,
                NANOS_PER_SEC as int,
            );
            vstd::arithmetic::mul::lemma_mul_is_commutative(
                NANOS_PER_SEC as int,
                ws as int,
            );
        }
        self.wrap_seconds = ws;
        self.raw_clock.wrap_seconds = ws;
        self.virtual_clock.wrap_seconds = ws;
        self.fixed_clock.wrap_seconds = ws;
    }

    /// Returns the speed virtual time advances at relative to raw time:
    /// zero while paused, otherwise the configured factor.
    pub fn relative_speed(&self) -> (r: Speed)
        ensures
            r == self.spec_relative_speed(),
    {
        if self.paused {
            Speed::stopped()
        } else {
            self.relative_speed
        }
    }

    /// Sets the speed virtual time advances at relative to raw time. Raw
    /// measurements are unaffected.
    pub fn set_relative_speed(&mut self, ratio: Speed)
        requires
            old(self).wf(),
            ratio.wf(),
        ensures
            *final(self) == (Time { relative_speed: ratio, ..*old(self) }),
            final(self).wf(),
    {
        self.relative_speed = ratio;
    }

    /// Stops virtual time until resumed. Raw measurements are unaffected.
    pub fn pause(&mut self)
        ensures
            *final(self) == (Time { paused: true, ..*old(self) }),
            old(self).wf() ==> final(self).wf(),
    {
        self.paused = true;
    }

    /// Resumes virtual time at the preserved speed.
    pub fn unpause(&mut self)
        ensures
            *final(self) == (Time { paused: false, ..*old(self) }),
            old(self).wf() ==> final(self).wf(),
    {
        self.paused = false;
    }

    /// Returns `true` while virtual time is paused.
    pub fn is_paused(&self) -> (r: bool)
        ensures
            r == self.paused,
    {
        self.paused
    }

    /// Read access to the raw track.
    pub fn raw_clock(&self) -> (r: &Clock)
        ensures
            *r == self.raw_clock,
    {
        &self.raw_clock
    }

    /// Read access to the virtual track.
    pub fn virtual_clock(&self) -> (r: &Clock)
        ensures
            *r == self.virtual_clock,
    {
        &self.virtual_clock
    }

    /// Read access to the fixed track.
    pub fn fixed_clock(&self) -> (r: &Clock)
        ensures
            *r == self.fixed_clock,
    {
        &self.fixed_clock
    }

    /// Read access to the snapshot of the presently active track.
    pub fn current_clock(&self) -> (r: &Clock)
        ensures
            *r == self.current_clock,
    {
        &self.current_clock
    }
}

/// Scaling by a factor whose numerator and denominator agree leaves a
/// non-negative value unchanged.
proof fn lemma_scale_by_one(v: int, n: int)
    requires
        v >= 0,
        n >= 1,
    ensures
        v * n / n == v,
{
    vstd::arithmetic::div_mod::lemma_div_multiples_vanish(v, n);
    vstd::arithmetic::mul::lemma_mul_is_commutative(v, n);
}

} // verus!
