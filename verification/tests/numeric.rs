use game_bridge::numeric::clamp_to_bounds;

#[test]
fn a_value_between_the_bounds_is_kept() {
    assert_eq!(clamp_to_bounds(5, Some(0), Some(10)), 5);
    assert_eq!(clamp_to_bounds(0, Some(0), Some(10)), 0);
    assert_eq!(clamp_to_bounds(10, Some(0), Some(10)), 10);
}

#[test]
fn a_value_below_the_minimum_is_raised() {
    assert_eq!(clamp_to_bounds(-3, Some(0), Some(10)), 0);
    assert_eq!(clamp_to_bounds(i64::MIN, Some(-7), None), -7);
}

#[test]
fn a_value_above_the_maximum_is_lowered() {
    assert_eq!(clamp_to_bounds(12, Some(0), Some(10)), 10);
    assert_eq!(clamp_to_bounds(u8::MAX, None, Some(200u8)), 200);
}

#[test]
fn absent_bounds_keep_every_value() {
    assert_eq!(clamp_to_bounds(i32::MIN, None, None), i32::MIN);
    assert_eq!(clamp_to_bounds(i32::MAX, None, None), i32::MAX);
    assert_eq!(clamp_to_bounds(3u64, None, Some(7)), 3);
    assert_eq!(clamp_to_bounds(9u64, Some(7), None), 9);
}

#[test]
fn with_crossed_bounds_the_maximum_wins() {
    assert_eq!(clamp_to_bounds(5, Some(10), Some(0)), 0);
    assert_eq!(clamp_to_bounds(-5, Some(10), Some(0)), 0);
    assert_eq!(clamp_to_bounds(50, Some(10), Some(0)), 0);
}

#[test]
fn floats_are_clamped_too() {
    assert_eq!(clamp_to_bounds(1.5f64, Some(2.0), None), 2.0);
    assert_eq!(clamp_to_bounds(2.5f64, Some(2.0), Some(2.25)), 2.25);
    assert_eq!(clamp_to_bounds(0.5f32, Some(0.0), Some(1.0)), 0.5);
    assert!(clamp_to_bounds(f64::NAN, Some(0.0), Some(1.0)).is_nan());
}
