//! The input resolver: the keyboard command set, the on-screen touch
//! zones, their fixed test order, and the auto-fire asymmetry of the touch
//! scheme.

use asteroids::geom::Vec2;
use asteroids::input::{
    resolve_input, resolve_keyboard, resolve_touch, ControlMode, FrameInput,
};
use asteroids::level::{
    asteroid_count, max_speed, pick_palette_for_level, random_asteroid_color, sample_palettes,
    speed_factor,
};

const W: i64 = 800_000;
const H: i64 = 600_000;

fn idle() -> FrameInput {
    FrameInput {
        left_held: false,
        right_held: false,
        thrust_held: false,
        fire_held: false,
        pause_pressed: false,
        confirm_pressed: false,
        touch_started: false,
        touches: Vec::new(),
    }
}

#[test]
fn keyboard_rotation_steps_five_degrees() {
    let left = FrameInput { left_held: true, ..idle() };
    assert_eq!(resolve_keyboard(&left).rot_delta, -5);
    let right = FrameInput { right_held: true, ..idle() };
    assert_eq!(resolve_keyboard(&right).rot_delta, 5);
    let both = FrameInput { left_held: true, right_held: true, ..idle() };
    assert_eq!(resolve_keyboard(&both).rot_delta, 0);
}

#[test]
fn keyboard_fire_follows_the_key() {
    let quiet = resolve_keyboard(&idle());
    assert!(!quiet.fire);
    assert!(!quiet.thrust);
    assert!(!quiet.pause);
    let firing = FrameInput { fire_held: true, thrust_held: true, ..idle() };
    let c = resolve_keyboard(&firing);
    assert!(c.fire);
    assert!(c.thrust);
    assert_eq!(c.thrust_mag, 2_000);
}

#[test]
fn touch_fire_is_automatic() {
    let c = resolve_touch(&idle(), W, H);
    assert!(c.fire);
    assert!(!c.thrust);
    assert_eq!(c.rot_delta, 0);
    assert_eq!(c.thrust_mag, 250);
}

#[test]
fn touch_zones_sit_on_the_bottom_strip() {
    // The strip is a fifth of the width tall: y in [440000, 600000] here.
    // A rotate-left touch: left quarter of the strip.
    let left = FrameInput { touches: vec![Vec2 { x: 100_000, y: 500_000 }], ..idle() };
    assert_eq!(resolve_touch(&left, W, H).rot_delta, -3);
    // A rotate-right touch: second quarter.
    let right = FrameInput { touches: vec![Vec2 { x: 300_000, y: 500_000 }], ..idle() };
    assert_eq!(resolve_touch(&right, W, H).rot_delta, 3);
    // Thrust: the right half of the strip.
    let thrust = FrameInput { touches: vec![Vec2 { x: 600_000, y: 500_000 }], ..idle() };
    let c = resolve_touch(&thrust, W, H);
    assert!(c.thrust);
    assert_eq!(c.rot_delta, 0);
    // Above the strip nothing is commanded.
    let high = FrameInput { touches: vec![Vec2 { x: 100_000, y: 100_000 }], ..idle() };
    let c = resolve_touch(&high, W, H);
    assert_eq!(c.rot_delta, 0);
    assert!(!c.thrust && !c.pause);
}

#[test]
fn touch_rotation_accumulates_per_point() {
    let two_left_one_right = FrameInput {
        touches: vec![
            Vec2 { x: 50_000, y: 590_000 },
            Vec2 { x: 150_000, y: 450_000 },
            Vec2 { x: 250_000, y: 500_000 },
        ],
        ..idle()
    };
    assert_eq!(resolve_touch(&two_left_one_right, W, H).rot_delta, -3);
}

#[test]
fn two_thrust_touches_still_thrust_once() {
    let pair = FrameInput {
        touches: vec![Vec2 { x: 500_000, y: 500_000 }, Vec2 { x: 700_000, y: 500_000 }],
        ..idle()
    };
    let c = resolve_touch(&pair, W, H);
    assert!(c.thrust);
    assert_eq!(c.rot_delta, 0);
}

#[test]
fn overlapping_zones_resolve_to_the_earlier_one() {
    // The pause rectangle overlaps the rotate zones; the rotate zones are
    // tested first, so a point there rotates rather than pauses.
    let p = FrameInput { touches: vec![Vec2 { x: 220_000, y: 500_000 }], ..idle() };
    let c = resolve_touch(&p, W, H);
    assert_eq!(c.rot_delta, 3);
    assert!(!c.pause);
}

#[test]
fn resolve_input_dispatches_on_the_scheme() {
    let firing = FrameInput { fire_held: true, ..idle() };
    let kb = resolve_input(ControlMode::Keyboard, &firing, W, H);
    assert!(kb.fire);
    assert_eq!(kb.thrust_mag, 2_000);
    let touch = resolve_input(ControlMode::Touch, &firing, W, H);
    assert!(touch.fire);
    assert_eq!(touch.thrust_mag, 250);
}

#[test]
fn difficulty_scales_with_the_level() {
    assert_eq!(asteroid_count(1), 12);
    assert_eq!(asteroid_count(5), 20);
    assert_eq!(speed_factor(1), 1_000);
    assert_eq!(speed_factor(3), 1_500);
    assert_eq!(max_speed(1), 5_500);
    assert_eq!(max_speed(2), 6_000);
}

#[test]
fn the_palette_table_is_fixed() {
    let ps = sample_palettes();
    assert_eq!(ps.len(), 10);
    for p in ps.iter() {
        assert_eq!(p.asteroid_colors.len(), 6);
    }
    assert_eq!(ps[0].background.red, 10);
    assert_eq!(ps[0].background.green, 10);
    assert_eq!(ps[0].background.blue, 30);
    assert_eq!(ps[0].ship.green, 255);
    assert_eq!(ps[0].ship.blue, 255);
}

#[test]
fn the_first_level_always_takes_the_baseline_palette() {
    for _ in 0..20 {
        assert_eq!(pick_palette_for_level(1, 10), 0);
    }
}

#[test]
fn later_levels_stay_inside_the_table() {
    quad_rand::srand(12345);
    for _ in 0..50 {
        assert!(pick_palette_for_level(2, 10) < 10);
    }
}

#[test]
fn asteroid_colors_come_from_the_palette() {
    quad_rand::srand(99);
    let ps = sample_palettes();
    for _ in 0..50 {
        let c = random_asteroid_color(&ps[3]);
        assert!(ps[3].asteroid_colors.contains(&c));
    }
}
