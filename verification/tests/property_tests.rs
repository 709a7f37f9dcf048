use tick_time::Duration;
use tick_time::Instant;
use tick_time::Speed;
use tick_time::Time;
use tick_time::time::DEFAULT_FIXED_PERIOD_NANOS;
use tick_time::time::DEFAULT_MAX_DELTA_NANOS;

#[test]
fn monotonic_elapsed_test() {
    let mut time = Time::new(Instant::from_nanos(5));
    let stamps: Vec<u64> = vec![5, 10, 10, 250, 1_000, 1_000, 2_000_000];
    let mut prev_elapsed: u64 = 0;
    let mut prev_raw_elapsed: u64 = 0;
    for s in stamps {
        time.update_with_instant(Instant::from_nanos(s));
        assert!(time.elapsed().as_nanos() >= prev_elapsed);
        assert!(time.raw_elapsed().as_nanos() >= prev_raw_elapsed);
        prev_elapsed = time.elapsed().as_nanos();
        prev_raw_elapsed = time.raw_elapsed().as_nanos();
    }
}

#[test]
fn first_tick_zeroing_test() {
    let mut time = Time::new(Instant::from_nanos(1_000));
    time.update_with_instant(Instant::from_nanos(51_000));
    assert_eq!(time.delta().as_nanos(), 0);
    assert_eq!(time.raw_delta().as_nanos(), 0);
    assert_eq!(time.elapsed().as_nanos(), 50_000);
    assert_eq!(time.raw_elapsed().as_nanos(), 50_000);
    time.update_with_instant(Instant::from_nanos(71_000));
    assert_eq!(time.delta().as_nanos(), 20_000);
    assert_eq!(time.raw_delta().as_nanos(), 20_000);
}

#[test]
fn speed_scaling_exact_test() {
    let mut time = Time::new(Instant::from_nanos(0));
    time.update_with_instant(Instant::from_nanos(100));

    // at three halves speed, an odd raw delta rounds down
    time.set_relative_speed(Speed::from_ratio(3, 2));
    time.update_with_instant(Instant::from_nanos(201));
    assert_eq!(time.raw_delta().as_nanos(), 101);
    assert_eq!(time.delta().as_nanos(), 151);  // 101 * 3 / 2 rounded down

    // at one third speed
    time.set_relative_speed(Speed::from_ratio(1, 3));
    time.update_with_instant(Instant::from_nanos(301));
    assert_eq!(time.raw_delta().as_nanos(), 100);
    assert_eq!(time.delta().as_nanos(), 33);  // 100 / 3 rounded down
}

#[test]
fn pause_keeps_raw_advancing_test() {
    let mut time = Time::new(Instant::from_nanos(0));
    time.update_with_instant(Instant::from_nanos(1_000));
    time.pause();
    assert_eq!(time.relative_speed(), Speed::stopped());
    time.update_with_instant(Instant::from_nanos(400_000));
    assert_eq!(time.delta().as_nanos(), 0);
    assert_eq!(time.elapsed().as_nanos(), 1_000);
    assert_eq!(time.raw_delta().as_nanos(), 399_000);
    assert_eq!(time.raw_elapsed().as_nanos(), 400_000);
    // the configured speed is preserved across the pause
    time.unpause();
    assert_eq!(time.relative_speed(), Speed::one());
}

#[test]
fn wrap_exact_test() {
    let mut time = Time::new(Instant::from_nanos(0));
    time.set_wrap_period(Duration::from_secs(3));
    time.maximum_delta = None;
    assert_eq!(time.wrap_period(), Duration::from_secs(3));

    // run far past the wrap period and check the modulus exactly
    let mut stamp: u64 = 0;
    for _ in 0..25 {
        stamp += 700_000_000;  // 0.7 s steps
        time.update_with_instant(Instant::from_nanos(stamp));
        assert_eq!(
            time.elapsed_wrapped().as_nanos(),
            time.elapsed().as_nanos() % 3_000_000_000,
        );
        assert_eq!(
            time.raw_elapsed_wrapped().as_nanos(),
            time.raw_elapsed().as_nanos() % 3_000_000_000,
        );
    }
    assert_eq!(time.elapsed().as_nanos(), 17_500_000_000);
    assert_eq!(time.elapsed_wrapped().as_nanos(), 2_500_000_000);
}

#[test]
fn fixed_step_conservation_test() {
    let mut time = Time::new(Instant::from_nanos(0));
    time.update_with_instant(Instant::from_nanos(0));
    // feed 50 ms of virtual time in two updates
    time.update_with_instant(Instant::from_nanos(20_000_000));
    time.update_with_instant(Instant::from_nanos(50_000_000));
    assert_eq!(time.fixed_accumulated.as_nanos(), 50_000_000);

    let total: u64 = 50_000_000;
    let period: u64 = DEFAULT_FIXED_PERIOD_NANOS;
    let mut steps: u64 = 0;
    while time.expend_fixed() {
        steps += 1;
        assert_eq!(time.current_clock().elapsed.as_nanos(), steps * period);
        assert!(steps <= total / period);
    }
    assert_eq!(steps, 2);  // two whole periods fit in 50 ms
    assert_eq!(steps, total / period);
    assert_eq!(time.fixed_clock().elapsed.as_nanos(), (total / period) * period);
    assert_eq!(time.fixed_accumulated.as_nanos(), total % period);
    assert!(time.fixed_accumulated.as_nanos() < period);
    // the failed attempt hands the current snapshot back to the virtual track
    assert_eq!(
        time.current_clock().elapsed.as_nanos(),
        time.virtual_clock().elapsed.as_nanos(),
    );
}

#[test]
fn expend_on_empty_accumulator_test() {
    let mut time = Time::new(Instant::from_nanos(0));
    assert!(!time.expend_fixed());
    assert_eq!(time.fixed_accumulated.as_nanos(), 0);
    assert_eq!(time.fixed_clock().elapsed.as_nanos(), 0);
}

#[test]
fn clamp_test() {
    let mut time = Time::new(Instant::from_nanos(0));
    time.update_with_instant(Instant::from_nanos(1_000));
    // a full second of raw delta is cut down to the configured maximum
    time.update_with_instant(Instant::from_nanos(1_000_001_000));
    assert_eq!(time.delta().as_nanos(), DEFAULT_MAX_DELTA_NANOS);
    assert_eq!(time.raw_delta().as_nanos(), 1_000_000_000);
    // with the clamp off, the full scaled delta passes through
    time.maximum_delta = None;
    time.update_with_instant(Instant::from_nanos(2_000_001_000));
    assert_eq!(time.delta().as_nanos(), 1_000_000_000);
}

#[test]
fn clamp_applies_to_scaled_delta_test() {
    let mut time = Time::new(Instant::from_nanos(0));
    time.update_with_instant(Instant::from_nanos(0));
    // 200 ms of raw time at 2x speed exceeds the 333 ms clamp
    time.set_relative_speed(Speed::from_ratio(2, 1));
    time.update_with_instant(Instant::from_nanos(200_000_000));
    assert_eq!(time.raw_delta().as_nanos(), 200_000_000);
    assert_eq!(time.delta().as_nanos(), DEFAULT_MAX_DELTA_NANOS);
}

#[test]
fn idempotent_reads_test() {
    let mut time = Time::new(Instant::from_nanos(7));
    time.update_with_instant(Instant::from_nanos(1_007));
    time.update_with_instant(Instant::from_nanos(2_107));
    assert_eq!(time.startup(), time.startup());
    assert_eq!(time.first_update(), time.first_update());
    assert_eq!(time.last_update(), time.last_update());
    assert_eq!(time.delta(), time.delta());
    assert_eq!(time.elapsed(), time.elapsed());
    assert_eq!(time.elapsed_wrapped(), time.elapsed_wrapped());
    assert_eq!(time.raw_delta(), time.raw_delta());
    assert_eq!(time.raw_elapsed(), time.raw_elapsed());
    assert_eq!(time.raw_elapsed_wrapped(), time.raw_elapsed_wrapped());
    assert_eq!(time.wrap_period(), time.wrap_period());
    assert_eq!(time.relative_speed(), time.relative_speed());
    assert_eq!(time.is_paused(), time.is_paused());
    assert_eq!(time.current_clock(), time.current_clock());
    assert_eq!(time.raw_clock(), time.raw_clock());
    assert_eq!(time.virtual_clock(), time.virtual_clock());
    assert_eq!(time.fixed_clock(), time.fixed_clock());
}

#[test]
fn zero_gap_update_test() {
    let mut time = Time::new(Instant::from_nanos(500));
    time.update_with_instant(Instant::from_nanos(500));
    assert_eq!(time.elapsed().as_nanos(), 0);
    // an update at the same timestamp leaves everything still
    time.update_with_instant(Instant::from_nanos(500));
    assert_eq!(time.delta().as_nanos(), 0);
    assert_eq!(time.raw_delta().as_nanos(), 0);
    assert_eq!(time.elapsed().as_nanos(), 0);
}

#[test]
fn set_wrap_period_takes_effect_next_advance_test() {
    let mut time = Time::new(Instant::from_nanos(0));
    time.maximum_delta = None;
    time.update_with_instant(Instant::from_nanos(0));
    time.update_with_instant(Instant::from_nanos(5_000_000_000));
    assert_eq!(time.elapsed_wrapped().as_nanos(), 5_000_000_000);
    time.set_wrap_period(Duration::from_secs(2));
    // the stored reading is untouched until the next advance
    assert_eq!(time.elapsed_wrapped().as_nanos(), 5_000_000_000);
    time.update_with_instant(Instant::from_nanos(5_000_000_000));
    assert_eq!(time.elapsed_wrapped().as_nanos(), 1_000_000_000);
}
