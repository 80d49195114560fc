//! Gameplay: the physics step, collisions, splitting, scoring and the
//! round-ending conditions, driven through whole frames.

use asteroids::entities::{Asteroid, Bullet, ColorPalette, Rgba, Ship};
use asteroids::game::{frame, new_game, Game, GameState, Round};
use asteroids::geom::Vec2;
use asteroids::input::{ControlMode, FrameInput};
use asteroids::physics::{apply_rotation, drag_accel, integrate_ship, spin_rotation, thrust_accel};

const W: i64 = 1_000_000;
const H: i64 = 1_000_000;

fn gray() -> Rgba {
    Rgba { red: 128, green: 128, blue: 128, alpha: 255 }
}

fn one_color_palette() -> ColorPalette {
    ColorPalette { background: gray(), ship: gray(), asteroid_colors: vec![gray()] }
}

fn still_ship(x: i64, y: i64) -> Ship {
    Ship { pos: Vec2 { x, y }, rot: 0, vel: Vec2 { x: 0, y: 0 } }
}

fn still_asteroid(x: i64, y: i64, size: i64, sides: u8) -> Asteroid {
    Asteroid {
        pos: Vec2 { x, y },
        vel: Vec2 { x: 0, y: 0 },
        rot: 0,
        rot_speed: 0,
        size,
        sides,
        collided: false,
        color: gray(),
    }
}

fn still_bullet(x: i64, y: i64, shot_at: u64) -> Bullet {
    Bullet { pos: Vec2 { x, y }, vel: Vec2 { x: 0, y: 0 }, shot_at, collided: false }
}

fn no_input() -> FrameInput {
    FrameInput {
        left_held: false,
        right_held: false,
        thrust_held: false,
        fire_held: false,
        pause_pressed: false,
        confirm_pressed: false,
        touch_started: false,
        touches: Vec::new(),
    }
}

fn playing_game(ship: Ship, bullets: Vec<Bullet>, asteroids: Vec<Asteroid>, now: u64) -> Game {
    Game {
        state: GameState::Playing,
        mode: ControlMode::Keyboard,
        level: 1,
        palette_index: 0,
        palette: one_color_palette(),
        score: 0,
        round: Round { ship, bullets, asteroids, last_shot: now, clock: now },
    }
}

#[test]
fn direct_hit_splits_a_four_sided_asteroid_into_two_children() {
    // One asteroid of 10 units and 4 sides, the ship far away, one bullet
    // dead on target: two children of 3 sides and 8 units, play goes on,
    // and the score rises by 4 times the multiplier.
    let asteroid = still_asteroid(500_000, 200_000, 10_000, 4);
    let bullet = still_bullet(500_000, 200_000, 1_000);
    let ship = still_ship(500_000, 900_000);
    let mut g = playing_game(ship, vec![bullet], vec![asteroid], 1_000);
    frame(&mut g, &no_input(), 1_000, W, H);
    assert_eq!(g.state, GameState::Playing);
    assert_eq!(g.score, 20);
    assert_eq!(g.round.asteroids.len(), 2);
    for child in g.round.asteroids.iter() {
        assert_eq!(child.sides, 3);
        assert_eq!(child.size, 8_000);
        assert_eq!(child.pos, Vec2 { x: 500_000, y: 200_000 });
        assert!(!child.collided);
    }
    // The consumed bullet is gone only at the next expiry; this frame it is
    // marked.
    assert!(g.round.bullets.iter().all(|b| b.collided));
}

#[test]
fn destroying_the_last_three_sided_asteroid_wins_the_round() {
    let asteroid = still_asteroid(500_000, 200_000, 10_000, 3);
    let bullet = still_bullet(500_000, 200_000, 1_000);
    let ship = still_ship(500_000, 900_000);
    let mut g = playing_game(ship, vec![bullet], vec![asteroid], 1_000);
    frame(&mut g, &no_input(), 1_000, W, H);
    assert_eq!(g.state, GameState::Win);
    assert_eq!(g.score, 15);
    assert_eq!(g.round.asteroids.len(), 0);
}

#[test]
fn ship_collision_wins_over_a_simultaneous_bullet_hit() {
    // The ship sits within size + a third of its height of the asteroid,
    // and a bullet also overlaps it: the ship collision is detected first,
    // the round ends in GameOver, nothing is scored and nothing splits.
    let asteroid = still_asteroid(500_000, 200_000, 10_000, 4);
    let ship = still_ship(500_000, 210_000);
    let bullet = still_bullet(500_000, 200_000, 1_000);
    let mut g = playing_game(ship, vec![bullet], vec![asteroid], 1_000);
    frame(&mut g, &no_input(), 1_000, W, H);
    assert_eq!(g.state, GameState::GameOver);
    assert_eq!(g.score, 0);
    assert_eq!(g.round.asteroids.len(), 1);
    assert_eq!(g.round.asteroids[0].sides, 4);
}

#[test]
fn ship_collision_threshold_is_strict() {
    // Threshold is size + 8333 (a third of the ship height): at exactly
    // that distance there is no collision, one closer there is.
    let asteroid = still_asteroid(100_000, 100_000, 10_000, 5);
    let at_threshold = still_ship(118_333, 100_000);
    let mut g = playing_game(at_threshold, vec![], vec![asteroid], 0);
    frame(&mut g, &no_input(), 0, W, H);
    assert_eq!(g.state, GameState::Playing);

    let inside = still_ship(118_332, 100_000);
    let mut g = playing_game(inside, vec![], vec![asteroid], 0);
    frame(&mut g, &no_input(), 0, W, H);
    assert_eq!(g.state, GameState::GameOver);
}

#[test]
fn one_bullet_destroys_only_the_first_asteroid_it_overlaps() {
    // Two asteroids stacked on the same spot, one bullet: only the first
    // in order is destroyed; the consumed bullet cannot match again.
    let a1 = still_asteroid(500_000, 200_000, 10_000, 3);
    let a2 = still_asteroid(500_000, 200_000, 10_000, 3);
    let bullet = still_bullet(500_000, 200_000, 1_000);
    let ship = still_ship(500_000, 900_000);
    let mut g = playing_game(ship, vec![bullet], vec![a1, a2], 1_000);
    frame(&mut g, &no_input(), 1_000, W, H);
    assert_eq!(g.round.asteroids.len(), 1);
    assert_eq!(g.score, 15);
    assert_eq!(g.state, GameState::Playing);
}

#[test]
fn bullets_expire_after_their_time_to_live() {
    // Age up to the time-to-live keeps a bullet, anything older drops it.
    let fresh = still_bullet(100_000, 100_000, 2_000);
    let at_limit = still_bullet(200_000, 200_000, 500);
    let stale = still_bullet(300_000, 300_000, 499);
    let ship = still_ship(900_000, 900_000);
    let mut g = playing_game(ship, vec![fresh, at_limit, stale], vec![], 2_000);
    // No asteroids at all: the frame reports the round cleared.
    frame(&mut g, &no_input(), 2_000, W, H);
    assert_eq!(g.state, GameState::Win);
    assert_eq!(g.round.bullets.len(), 2);
    assert_eq!(g.round.bullets[0].shot_at, 2_000);
    assert_eq!(g.round.bullets[1].shot_at, 500);
}

#[test]
fn fire_waits_for_the_cooldown() {
    let ship = still_ship(500_000, 500_000);
    let mut inp = no_input();
    inp.fire_held = true;
    // Exactly at the cooldown: no shot yet.
    let asteroid = still_asteroid(100_000, 100_000, 10_000, 5);
    let mut g = playing_game(ship, vec![], vec![asteroid.clone()], 1_000);
    g.round.last_shot = 1_000;
    frame(&mut g, &inp, 1_250, W, H);
    assert_eq!(g.round.bullets.len(), 0);
    assert_eq!(g.round.last_shot, 1_000);
    // One past the cooldown: the shot leaves, and the timer resets.
    let mut g = playing_game(ship, vec![], vec![asteroid], 1_000);
    g.round.last_shot = 1_000;
    frame(&mut g, &inp, 1_251, W, H);
    assert_eq!(g.round.bullets.len(), 1);
    assert_eq!(g.round.last_shot, 1_251);
    let b = &g.round.bullets[0];
    // Fired straight up from the center, half a ship height ahead.
    assert_eq!(b.vel, Vec2 { x: 0, y: -7_000 });
    assert_eq!(b.pos, Vec2 { x: 500_000, y: 500_000 - 12_500 - 7_000 });
    assert_eq!(b.shot_at, 1_251);
}

#[test]
fn thrust_accelerates_along_the_heading() {
    assert_eq!(thrust_accel(90, 2_000), Vec2 { x: 2_000, y: 0 });
    assert_eq!(thrust_accel(0, 2_000), Vec2 { x: 0, y: -2_000 });
    assert_eq!(thrust_accel(180, 250), Vec2 { x: 0, y: 250 });
}

#[test]
fn drag_takes_a_truncated_hundredth_each_frame() {
    assert_eq!(drag_accel(Vec2 { x: 300, y: -250 }), Vec2 { x: -3, y: 2 });
    assert_eq!(drag_accel(Vec2 { x: 99, y: -99 }), Vec2 { x: 0, y: 0 });
}

#[test]
fn ship_speed_is_capped_by_the_physics_step() {
    let mut ship = still_ship(500_000, 500_000);
    integrate_ship(&mut ship, Vec2 { x: 9_000, y: 0 }, W, H);
    assert_eq!(ship.vel, Vec2 { x: 5_000, y: 0 });
    assert_eq!(ship.pos, Vec2 { x: 505_000, y: 500_000 });
    // Pushing again in the same direction cannot pass the cap either.
    integrate_ship(&mut ship, Vec2 { x: 9_000, y: 9_000 }, W, H);
    assert!(ship.vel.x * ship.vel.x + ship.vel.y * ship.vel.y <= 5_000 * 5_000);
}

#[test]
fn ship_wraps_across_the_field_edge() {
    let mut ship = Ship {
        pos: Vec2 { x: 999_000, y: 500 },
        rot: 0,
        vel: Vec2 { x: 3_000, y: -3_000 },
    };
    integrate_ship(&mut ship, Vec2 { x: 0, y: 0 }, W, H);
    // Drag was applied by the caller normally; with zero acceleration the
    // velocity is kept, the position leaves the field and resets.
    assert_eq!(ship.pos, Vec2 { x: 0, y: H });
}

#[test]
fn rotation_stays_normalized() {
    assert_eq!(apply_rotation(0, -5), 355);
    assert_eq!(apply_rotation(355, 10), 5);
    assert_eq!(apply_rotation(90, 0), 90);
    assert_eq!(spin_rotation(359_999, 2_000), 1_999);
    assert_eq!(spin_rotation(500, -2_000), 358_500);
}

#[test]
fn a_fresh_round_is_centered_and_fully_stocked() {
    let palette = one_color_palette();
    let r = new_game(1, 5_000, W, H, &palette);
    assert_eq!(r.ship.pos, Vec2 { x: 500_000, y: 500_000 });
    assert_eq!(r.ship.vel, Vec2 { x: 0, y: 0 });
    assert_eq!(r.ship.rot, 0);
    assert_eq!(r.bullets.len(), 0);
    assert_eq!(r.asteroids.len(), 12);
    assert_eq!(r.last_shot, 5_000);
    for a in r.asteroids.iter() {
        assert!(3 <= a.sides && a.sides <= 7);
        assert_eq!(a.size, 100_000);
        assert!(!a.collided);
        assert!(0 <= a.pos.x && a.pos.x <= W);
        assert!(0 <= a.pos.y && a.pos.y <= H);
        assert!(-2_000 <= a.rot_speed && a.rot_speed <= 2_000);
        assert_eq!(a.color, gray());
    }
}

#[test]
fn drag_slows_the_ship_a_hundredth_each_frame() {
    let ship = Ship {
        pos: Vec2 { x: 500_000, y: 500_000 },
        rot: 0,
        vel: Vec2 { x: 300, y: 0 },
    };
    let asteroid = still_asteroid(100_000, 100_000, 10_000, 5);
    let mut g = playing_game(ship, vec![], vec![asteroid], 1_000);
    frame(&mut g, &no_input(), 1_001, W, H);
    assert_eq!(g.round.ship.vel, Vec2 { x: 297, y: 0 });
    assert_eq!(g.round.ship.pos, Vec2 { x: 500_297, y: 500_000 });
}

#[test]
fn the_touch_scheme_fires_by_itself() {
    let ship = still_ship(500_000, 500_000);
    let asteroid = still_asteroid(100_000, 100_000, 10_000, 5);
    let mut g = playing_game(ship, vec![], vec![asteroid], 1_000);
    g.mode = ControlMode::Touch;
    // No touch input at all: past the cooldown the ship still shoots.
    frame(&mut g, &no_input(), 1_500, W, H);
    assert_eq!(g.round.bullets.len(), 1);
    assert_eq!(g.round.last_shot, 1_500);
}

#[test]
fn a_touch_in_the_thrust_zone_accelerates_the_ship() {
    let ship = still_ship(500_000, 500_000);
    let asteroid = still_asteroid(100_000, 100_000, 10_000, 5);
    let mut g = playing_game(ship, vec![], vec![asteroid], 1_000);
    g.mode = ControlMode::Touch;
    g.round.ship.rot = 90;
    let mut inp = no_input();
    // Bottom-right strip of the field: the thrust zone.
    inp.touches = vec![Vec2 { x: 900_000, y: 950_000 }];
    frame(&mut g, &inp, 1_100, W, H);
    // Heading 90 degrees: thrust of 0.25 units to the right.
    assert_eq!(g.round.ship.vel, Vec2 { x: 250, y: 0 });
}
