use bella::time::{update_time, Real, Speed, Time, Virtual, DEFAULT_MAX_DELTA, NANOS_PER_MILLI};

#[test]
fn virtual_step_is_clamped_to_max_delta() {
    let mut t: Time<Virtual> = Time::default();
    t.advance_with_raw_delta(1_000 * NANOS_PER_MILLI);
    assert_eq!(t.delta(), DEFAULT_MAX_DELTA);
    assert_eq!(t.delta(), 250_000_000);
}

#[test]
fn virtual_step_below_max_is_kept() {
    let mut t: Time<Virtual> = Time::default();
    t.advance_with_raw_delta(16 * NANOS_PER_MILLI);
    assert_eq!(t.delta(), 16_000_000);
}

#[test]
fn paused_virtual_step_is_zero() {
    let mut t: Time<Virtual> = Time::default();
    t.set_relative_speed(Speed::new(3, 1).unwrap());
    t.set_paused(true);
    t.advance_with_raw_delta(10 * NANOS_PER_MILLI);
    assert_eq!(t.delta(), 0);
    assert_eq!(t.effective_speed().numerator(), 0);
    t.set_paused(false);
    t.advance_with_raw_delta(10 * NANOS_PER_MILLI);
    assert_eq!(t.delta(), 30_000_000);
}

#[test]
fn sequence_of_steps_never_exceeds_max_delta() {
    let mut t: Time<Virtual> = Time::new_with(Virtual::with_max_delta(100));
    t.set_relative_speed(Speed::new(2, 3).unwrap());
    let raws: [u64; 6] = [0, 1, 99, 100, 101, u64::MAX];
    for raw in raws {
        t.advance_with_raw_delta(raw);
        assert!(t.delta() <= t.max_delta());
    }
    assert_eq!(t.delta(), 66);
}

#[test]
fn normal_speed_step_is_exact() {
    let mut t: Time<Virtual> = Time::default();
    t.advance_with_raw_delta(123_456_789);
    assert_eq!(t.delta(), 123_456_789);
    t.set_relative_speed(Speed::new(7, 7).unwrap());
    t.advance_with_raw_delta(3);
    assert_eq!(t.delta(), 3);
}

#[test]
fn half_speed_step_rounds_down() {
    let mut t: Time<Virtual> = Time::default();
    t.set_relative_speed(Speed::new(1, 2).unwrap());
    t.advance_with_raw_delta(15);
    assert_eq!(t.delta(), 7);
}

#[test]
fn fast_step_scales_the_clamped_step() {
    let mut t: Time<Virtual> = Time::default();
    t.set_relative_speed(Speed::new(2, 1).unwrap());
    t.advance_with_raw_delta(1_000 * NANOS_PER_MILLI);
    assert_eq!(t.delta(), 500_000_000);
}

#[test]
fn scaled_step_saturates() {
    let mut t: Time<Virtual> = Time::new_with(Virtual::with_max_delta(u64::MAX));
    t.set_relative_speed(Speed::new(u32::MAX, 1).unwrap());
    t.advance_with_raw_delta(u64::MAX);
    assert_eq!(t.delta(), u64::MAX);
    assert_eq!(Speed::one().scale(u64::MAX), u64::MAX);
    assert_eq!(Speed::zero().scale(5), 0);
}

#[test]
fn speed_with_zero_denominator_is_refused() {
    assert!(Speed::new(1, 0).is_none());
    let s = Speed::new(3, 4).unwrap();
    assert_eq!(s.numerator(), 3);
    assert_eq!(s.denominator(), 4);
}

#[test]
fn virtual_setters_change_only_their_field() {
    let mut t: Time<Virtual> = Time::default();
    assert!(!t.is_paused());
    t.set_max_delta(42);
    assert_eq!(t.max_delta(), 42);
    t.set_paused(true);
    assert!(t.is_paused());
    assert_eq!(t.max_delta(), 42);
    let s = t.relative_speed();
    assert_eq!((s.numerator(), s.denominator()), (1, 1));
}

#[test]
fn real_clock_deltas_follow_instants() {
    let mut r = Time::<Real>::new(0);
    r.update_with_instant(1_000);
    assert_eq!(r.delta(), 0);
    r.update_with_instant(1_500);
    assert_eq!(r.delta(), 500);
    r.update_with_instant(4_000);
    assert_eq!(r.delta(), 2_500);
    assert_eq!(r.context().first_update(), Some(1_000));
    assert_eq!(r.context().last_update(), Some(4_000));
    assert_eq!(r.context().startup(), 0);
}

#[test]
fn real_clock_going_backwards_gives_zero() {
    let mut r = Time::<Real>::new(7);
    r.update_with_instant(5_000);
    r.update_with_instant(3_000);
    assert_eq!(r.delta(), 0);
    assert_eq!(r.context().last_update(), Some(3_000));
    r.update_with_instant(3_250);
    assert_eq!(r.delta(), 250);
}

#[test]
fn real_default_is_not_updated() {
    let r = Real::default();
    assert_eq!(r.first_update(), None);
    assert_eq!(r.last_update(), None);
}

#[test]
fn update_time_copies_the_virtual_step() {
    let mut real = Time::<Real>::new(0);
    let mut virt: Time<Virtual> = Time::default();
    let mut current: Time = Time::default();
    real.update_with_instant(10);
    real.update_with_instant(10 + 20 * NANOS_PER_MILLI);
    virt.set_relative_speed(Speed::new(1, 4).unwrap());
    update_time(&mut current, &mut virt, &real);
    assert_eq!(virt.delta(), 5_000_000);
    assert_eq!(current.delta(), 5_000_000);
    assert_eq!(current.wrap_period(), virt.wrap_period());
    assert_eq!(virt.as_generic().delta(), 5_000_000);
}

#[test]
fn context_mut_changes_the_context() {
    let mut t = Time::new_with(5u8);
    *t.context_mut() = 9;
    assert_eq!(*t.context(), 9);
    t.advance_by(11);
    assert_eq!(t.delta(), 11);
}
