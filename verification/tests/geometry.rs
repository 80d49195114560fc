//! The fixed-point geometry: wraparound, truncating division, square
//! roots, rescaling and the integer trigonometry.

use asteroids::geom::{
    clamp_norm, distance2, div_trunc, isqrt_up, rot_quarter_ccw, rot_quarter_cw, scale_to,
    wrap_around, wrap_coord, Vec2,
};
use asteroids::trig::{cos_mdeg, heading, sin_mdeg};

#[test]
fn wrap_resets_past_the_extent_to_zero() {
    assert_eq!(wrap_coord(1_500, 1_000), 0);
    assert_eq!(wrap_coord(1_001, 1_000), 0);
}

#[test]
fn wrap_resets_below_zero_to_the_extent() {
    assert_eq!(wrap_coord(-5, 1_000), 1_000);
    assert_eq!(wrap_coord(-1, 1_000), 1_000);
}

#[test]
fn wrap_keeps_in_range_values() {
    assert_eq!(wrap_coord(0, 1_000), 0);
    assert_eq!(wrap_coord(500, 1_000), 500);
    assert_eq!(wrap_coord(1_000, 1_000), 1_000);
}

#[test]
fn wrap_is_idempotent_on_any_input() {
    for p in [-7i64, 0, 3, 999, 1_000, 1_001, 250_000] {
        let once = wrap_coord(p, 1_000);
        let twice = wrap_coord(once, 1_000);
        assert_eq!(once, twice);
        assert!(0 <= once && once <= 1_000);
    }
}

#[test]
fn wrap_around_handles_both_axes() {
    let v = Vec2 { x: -3, y: 2_500 };
    let r = wrap_around(v, 2_000, 2_000);
    assert_eq!(r, Vec2 { x: 2_000, y: 0 });
}

#[test]
fn division_truncates_toward_zero() {
    assert_eq!(div_trunc(-7, 2), -3);
    assert_eq!(div_trunc(7, 2), 3);
    assert_eq!(div_trunc(-250, 100), -2);
    assert_eq!(div_trunc(99, 100), 0);
}

#[test]
fn square_root_rounds_up() {
    assert_eq!(isqrt_up(0), 0);
    assert_eq!(isqrt_up(1), 1);
    assert_eq!(isqrt_up(2), 2);
    assert_eq!(isqrt_up(4), 2);
    assert_eq!(isqrt_up(25_000_000), 5_000);
    assert_eq!(isqrt_up(25_000_001), 5_001);
}

#[test]
fn scale_to_rescales_a_three_four_five_triangle() {
    let r = scale_to(Vec2 { x: 3_000, y: 4_000 }, 1_000);
    assert_eq!(r, Vec2 { x: 600, y: 800 });
}

#[test]
fn scale_to_of_the_zero_vector_falls_back_to_the_unit_direction() {
    let r = scale_to(Vec2 { x: 0, y: 0 }, 1_500);
    assert_eq!(r, Vec2 { x: 1_500, y: 0 });
}

#[test]
fn clamp_keeps_a_slow_vector_and_rescales_a_fast_one() {
    let slow = Vec2 { x: 3_000, y: 4_000 };
    assert_eq!(clamp_norm(slow, 5_000), slow);
    let fast = Vec2 { x: 6_000, y: 8_000 };
    assert_eq!(clamp_norm(fast, 5_000), Vec2 { x: 3_000, y: 4_000 });
}

#[test]
fn clamped_speed_never_exceeds_the_cap() {
    for (x, y) in [(9_999, 1), (-5_000, 5_000), (7_071, 7_071), (0, -9_000)] {
        let r = clamp_norm(Vec2 { x, y }, 5_000);
        assert!(r.x * r.x + r.y * r.y <= 5_000 * 5_000);
    }
}

#[test]
fn quarter_turns_swap_and_negate() {
    let v = Vec2 { x: 10, y: 20 };
    assert_eq!(rot_quarter_cw(v), Vec2 { x: 20, y: -10 });
    assert_eq!(rot_quarter_ccw(v), Vec2 { x: -20, y: 10 });
}

#[test]
fn squared_distance_is_exact() {
    let a = Vec2 { x: 100, y: 200 };
    let b = Vec2 { x: 103, y: 196 };
    assert_eq!(distance2(a, b), 25);
}

#[test]
fn sine_hits_the_cardinal_points() {
    assert_eq!(sin_mdeg(0), 0);
    assert_eq!(sin_mdeg(90), 1_000);
    assert_eq!(sin_mdeg(180), 0);
    assert_eq!(sin_mdeg(270), -1_000);
}

#[test]
fn cosine_hits_the_cardinal_points() {
    assert_eq!(cos_mdeg(0), 1_000);
    assert_eq!(cos_mdeg(90), 0);
    assert_eq!(cos_mdeg(180), -1_000);
    assert_eq!(cos_mdeg(270), 0);
}

#[test]
fn sine_of_thirty_degrees_is_exactly_half() {
    assert_eq!(sin_mdeg(30), 500);
    assert_eq!(sin_mdeg(150), 500);
}

#[test]
fn sine_stays_within_one() {
    for d in 0..360u32 {
        let s = sin_mdeg(d);
        assert!(-1_000 <= s && s <= 1_000);
    }
}

#[test]
fn heading_points_up_at_rotation_zero() {
    assert_eq!(heading(0), Vec2 { x: 0, y: -1_000 });
    assert_eq!(heading(90), Vec2 { x: 1_000, y: 0 });
    assert_eq!(heading(180), Vec2 { x: 0, y: 1_000 });
    assert_eq!(heading(270), Vec2 { x: -1_000, y: 0 });
}
