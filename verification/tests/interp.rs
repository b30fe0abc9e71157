//! Exact fixed-point interpolation values, including rounding direction
//! and the extremes of the coordinate range.

use netphys::vec3::COORD_LIMIT;
use netphys::vec3::Vec3;
use netphys::vec3::lerp;
use netphys::vec3::lerp_component;

#[test]
fn endpoints_are_exact() {
    assert_eq!(lerp_component(-7_000, 13_000, 0, 100), -7_000);
    assert_eq!(lerp_component(-7_000, 13_000, 100, 100), 13_000);
}

#[test]
fn midpoint_is_exact_when_even() {
    assert_eq!(lerp_component(24_000, 25_000, 50, 100), 24_500);
    assert_eq!(lerp_component(25_000, 24_000, 50, 100), 24_500);
}

#[test]
fn fractional_steps_round_toward_the_start() {
    // Rising: 0 toward 10 at a third of the way is 3.33, kept at 3.
    assert_eq!(lerp_component(0, 10, 333, 1000), 3);
    // Falling: 0 toward -10 at a third of the way is -3.33, kept at -3.
    assert_eq!(lerp_component(0, -10, 333, 1000), -3);
}

#[test]
fn negative_spans_interpolate_exactly() {
    assert_eq!(lerp_component(0, -1_000, 333, 1000), -333);
    assert_eq!(lerp_component(-1_000, 1_000, 250, 1000), -500);
}

#[test]
fn full_coordinate_range_does_not_overflow() {
    let r = lerp_component(-COORD_LIMIT, COORD_LIMIT, 999_999_999, 1_000_000_000);
    assert!((-COORD_LIMIT..=COORD_LIMIT).contains(&r));
    assert_eq!(
        lerp_component(-COORD_LIMIT, COORD_LIMIT, 1_000_000_000, 1_000_000_000),
        COORD_LIMIT
    );
    assert_eq!(lerp_component(COORD_LIMIT, -COORD_LIMIT, 0, 1_000_000_000), COORD_LIMIT);
}

#[test]
fn vectors_interpolate_componentwise() {
    let a = Vec3::new(0, 25_000, -2_000);
    let b = Vec3::new(3_000, 24_000, 2_000);
    let r = lerp(&a, &b, 25, 100);
    assert_eq!(r, Vec3::new(750, 24_750, -1_000));
}
