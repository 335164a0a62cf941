use feetech_io::units::{microradians_to_ticks, speed_to_steps, steps_to_speed, ticks_to_microradians};

#[test]
fn every_register_tick_round_trips() {
    for t in -65535i32..=65535 {
        assert_eq!(microradians_to_ticks(ticks_to_microradians(t)), t);
    }
}

#[test]
fn extreme_ticks_round_trip() {
    for t in [i32::MIN, i32::MIN + 1, -1_000_000_007, 1_000_000_007, i32::MAX - 1, i32::MAX] {
        assert_eq!(microradians_to_ticks(ticks_to_microradians(t)), t);
    }
}

#[test]
fn center_tick_is_zero_radians() {
    assert_eq!(ticks_to_microradians(2048), 0);
    assert_eq!(microradians_to_ticks(0), 2048);
}

#[test]
fn quarter_turn_is_tick_3072() {
    // pi / 2 = 1.5707963 rad
    assert_eq!(microradians_to_ticks(1_570_796), 3072);
    assert_eq!(ticks_to_microradians(3072), 1_570_796);
    assert_eq!(ticks_to_microradians(1024), -1_570_796);
}

#[test]
fn angle_rounds_to_nearest_tick() {
    // one tick is 1533.98 microradians: 766 is below half of it, 767 above
    assert_eq!(microradians_to_ticks(766), 2048);
    assert_eq!(microradians_to_ticks(767), 2049);
    assert_eq!(microradians_to_ticks(-767), 2047);
    assert_eq!(microradians_to_ticks(-766), 2048);
}

#[test]
fn angle_saturates_at_tick_range() {
    assert_eq!(microradians_to_ticks(i64::MAX), i32::MAX);
    assert_eq!(microradians_to_ticks(i64::MIN), i32::MIN);
}

#[test]
fn angle_comes_back_within_half_a_tick() {
    let mut a: i64 = -60_000_000;
    while a <= 60_000_000 {
        let back = ticks_to_microradians(microradians_to_ticks(a));
        assert!((back - a).abs() <= 767, "{a} came back as {back}");
        a += 9_973;
    }
}

#[test]
fn every_register_speed_round_trips() {
    for s in -32767i32..=32767 {
        assert_eq!(speed_to_steps(steps_to_speed(s)), s);
    }
    assert_eq!(speed_to_steps(steps_to_speed(i32::MAX)), i32::MAX);
}

#[test]
fn speed_sign_is_kept() {
    assert_eq!(steps_to_speed(1024), 1_570_796);
    assert_eq!(steps_to_speed(-1024), -1_570_796);
    assert_eq!(speed_to_steps(-1_570_796), -1024);
    assert_eq!(speed_to_steps(1_570_796), 1024);
    assert_eq!(speed_to_steps(-100), 0);
}

#[test]
fn speed_saturates() {
    assert_eq!(speed_to_steps(i64::MAX), i32::MAX);
    assert_eq!(speed_to_steps(i64::MIN), -i32::MAX);
}
