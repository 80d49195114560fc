//! The per-frame physics step: rotation bookkeeping, thrust and drag, the
//! ship's speed cap, and motion with toroidal wraparound for every entity.

use vstd::prelude::*;

verus! {

use crate::entities::{asteroid_wf, bullet_in_flight, bullet_wf, lemma_norm2_component_bound, ship_wf, Asteroid,
    Bullet, Ship};
use crate::geom::{clamp_norm, clamp_x_spec, clamp_y_spec, div_trunc, div_tz, norm2, wrap_around,
    wrap_coord_spec, Vec2};
use crate::level::{max_speed, max_speed_spec};
use crate::trig::{heading, sin_milli, cos_milli};
use crate::{MAX_EXTENT, MAX_LEVEL, SHIP_MAX_SPEED};
use vstd::arithmetic::div_mod::{lemma_div_is_ordered, lemma_div_multiples_vanish,
    lemma_mod_bound, lemma_mod_multiples_vanish};

/// Turn a rotation in `[0, 360)` degrees by `delta` degrees, staying
/// normalized; the result is the mathematical `(rot + delta) mod 360`.
pub fn apply_rotation(rot: u32, delta: i32) -> (r: u32)
    requires
        rot < 360,
        -100_000 <= delta <= 100_000,
    ensures
        r == (rot as int + delta as int) % 360,
        r < 360,
{
    let s: i64 = rot as i64 + delta as i64 + 360_000;
    let r = ((s as u64) % 360) as u32;
    proof {
        lemma_mod_multiples_vanish(1000, rot as int + delta as int, 360);
        lemma_mod_bound(rot as int + delta as int, 360);
    }
    r
}

/// Advance an asteroid's cosmetic spin, in milli-degrees mod a full turn.
pub fn spin_rotation(rot: u32, speed: i32) -> (r: u32)
    requires
        rot < 360_000,
        -2000 <= speed <= 2000,
    ensures
        r == (rot as int + speed as int) % 360_000,
        r < 360_000,
{
    let s: i64 = rot as i64 + speed as i64 + 360_000;
    let r = ((s as u64) % 360_000) as u32;
    proof {
        lemma_mod_multiples_vanish(1, rot as int + speed as int, 360_000);
        lemma_mod_bound(rot as int + speed as int, 360_000);
    }
    r
}

/// The drag acceleration: minus a hundredth of the velocity, truncated
/// toward zero, applied every frame the thrust is off.
pub fn drag_accel(vel: Vec2) -> (a: Vec2)
    requires
        -1_000_000_000 <= vel.x <= 1_000_000_000,
        -1_000_000_000 <= vel.y <= 1_000_000_000,
    ensures
        a.x == -div_tz(vel.x as int, 100),
        a.y == -div_tz(vel.y as int, 100),
        -10_000_000 <= a.x <= 10_000_000,
        -10_000_000 <= a.y <= 10_000_000,
{
    let ax = div_trunc(vel.x, 100);
    let ay = div_trunc(vel.y, 100);
    Vec2 { x: -ax, y: -ay }
}

/// The thrust acceleration: magnitude `mag` along the heading of `rot`
/// degrees; each component stays within `mag`.
pub fn thrust_accel(rot: u32, mag: i64) -> (a: Vec2)
    requires
        rot < 360,
        0 <= mag <= 10_000,
    ensures
        a.x == div_tz(sin_milli(rot as int) * mag, 1000),
        a.y == div_tz(-cos_milli(rot as int) * mag, 1000),
        -mag <= a.x <= mag,
        -mag <= a.y <= mag,
{
    let dir = heading(rot);
    proof {
        assert(-1000 * mag <= dir.x * mag <= 1000 * mag && -1000 * mag <= dir.y * mag <= 1000
            * mag) by (nonlinear_arith)
            requires
                -1000 <= dir.x <= 1000,
                -1000 <= dir.y <= 1000,
                0 <= mag,
        ;
        lemma_div_multiples_vanish(mag as int, 1000);
        lemma_div_is_ordered(dir.x as int * mag as int, 1000 * mag as int, 1000);
        lemma_div_is_ordered(-(dir.x as int * mag as int), 1000 * mag as int, 1000);
        lemma_div_is_ordered(dir.y as int * mag as int, 1000 * mag as int, 1000);
        lemma_div_is_ordered(-(dir.y as int * mag as int), 1000 * mag as int, 1000);
    }
    let ax = div_trunc(dir.x * mag, 1000);
    let ay = div_trunc(dir.y * mag, 1000);
    Vec2 { x: ax, y: ay }
}

/// A bullet after one physics step: moved by its velocity and wrapped into
/// the field; nothing else changes.
pub open spec fn moved_bullet(b: Bullet, w: int, h: int) -> Bullet {
    Bullet {
        pos: Vec2 {
            x: wrap_coord_spec(b.pos.x + b.vel.x, w) as i64,
            y: wrap_coord_spec(b.pos.y + b.vel.y, h) as i64,
        },
        ..b
    }
}

/// An asteroid after one physics step: moved and wrapped, spun by its
/// rotation speed, velocity clamped to the level's cap.
pub open spec fn stepped_asteroid(a: Asteroid, level: int, w: int, h: int) -> Asteroid {
    Asteroid {
        pos: Vec2 {
            x: wrap_coord_spec(a.pos.x + a.vel.x, w) as i64,
            y: wrap_coord_spec(a.pos.y + a.vel.y, h) as i64,
        },
        rot: ((a.rot + a.rot_speed) % 360_000) as u32,
        vel: Vec2 {
            x: clamp_x_spec(a.vel.x as int, a.vel.y as int, max_speed_spec(level)) as i64,
            y: clamp_y_spec(a.vel.x as int, a.vel.y as int, max_speed_spec(level)) as i64,
        },
        ..a
    }
}

/// The ship after one physics step with acceleration `acc`.
pub open spec fn integrated_ship(s: Ship, acc: Vec2, w: int, h: int) -> Ship {
    let vx = clamp_x_spec(s.vel.x + acc.x, s.vel.y + acc.y, SHIP_MAX_SPEED as int) as i64;
    let vy = clamp_y_spec(s.vel.x + acc.x, s.vel.y + acc.y, SHIP_MAX_SPEED as int) as i64;
    Ship {
        pos: Vec2 {
            x: wrap_coord_spec(s.pos.x + vx, w) as i64,
            y: wrap_coord_spec(s.pos.y + vy, h) as i64,
        },
        rot: s.rot,
        vel: Vec2 { x: vx, y: vy },
    }
}

/// One physics step for the ship: add the frame's acceleration, clamp the
/// speed to the cap, move, and wrap into the field. The speed cap holds of
/// the result whatever the acceleration was.
pub fn integrate_ship(ship: &mut Ship, acc: Vec2, w: i64, h: i64)
    requires
        ship_wf(*old(ship)),
        -10_000_000 <= acc.x <= 10_000_000,
        -10_000_000 <= acc.y <= 10_000_000,
        0 < w <= MAX_EXTENT,
        0 < h <= MAX_EXTENT,
    ensures
        final(ship).rot == old(ship).rot,
        final(ship).vel.x == clamp_x_spec(
            old(ship).vel.x + acc.x,
            old(ship).vel.y + acc.y,
            SHIP_MAX_SPEED as int,
        ),
        final(ship).vel.y == clamp_y_spec(
            old(ship).vel.x + acc.x,
            old(ship).vel.y + acc.y,
            SHIP_MAX_SPEED as int,
        ),
        norm2(final(ship).vel) <= SHIP_MAX_SPEED * SHIP_MAX_SPEED,
        final(ship).pos.x == wrap_coord_spec(old(ship).pos.x + final(ship).vel.x, w as int),
        final(ship).pos.y == wrap_coord_spec(old(ship).pos.y + final(ship).vel.y, h as int),
        ship_wf(*final(ship)),
        *final(ship) == integrated_ship(*old(ship), acc, w as int, h as int),
{
    proof {
        lemma_norm2_component_bound(ship.vel, SHIP_MAX_SPEED as int);
    }
    let v1 = Vec2 { x: ship.vel.x + acc.x, y: ship.vel.y + acc.y };
    let v2 = clamp_norm(v1, SHIP_MAX_SPEED);
    proof {
        lemma_norm2_component_bound(v2, SHIP_MAX_SPEED as int);
    }
    let p = Vec2 { x: ship.pos.x + v2.x, y: ship.pos.y + v2.y };
    ship.vel = v2;
    ship.pos = wrap_around(p, w, h);
}

/// One physics step for every bullet: move by its velocity and wrap into
/// the field; nothing else of a bullet changes.
#[verifier::loop_isolation(false)]
pub fn step_bullets(bullets: &mut Vec<Bullet>, w: i64, h: i64)
    requires
        forall|i: int|
            0 <= i < old(bullets)@.len() ==> bullet_in_flight(#[trigger] old(bullets)@[i]),
        0 < w <= MAX_EXTENT,
        0 < h <= MAX_EXTENT,
    ensures
        final(bullets)@.len() == old(bullets)@.len(),
        forall|i: int|
            0 <= i < old(bullets)@.len() ==> (#[trigger] final(bullets)@[i]).pos.x
                == wrap_coord_spec(old(bullets)@[i].pos.x + old(bullets)@[i].vel.x, w as int),
        forall|i: int|
            0 <= i < old(bullets)@.len() ==> (#[trigger] final(bullets)@[i]).pos.y
                == wrap_coord_spec(old(bullets)@[i].pos.y + old(bullets)@[i].vel.y, h as int),
        forall|i: int|
            0 <= i < old(bullets)@.len() ==> (#[trigger] final(bullets)@[i]).vel
                == old(bullets)@[i].vel && final(bullets)@[i].shot_at == old(bullets)@[i].shot_at
                && final(bullets)@[i].collided == old(bullets)@[i].collided,
        forall|i: int| 0 <= i < final(bullets)@.len() ==> bullet_wf(#[trigger] final(bullets)@[i]),
        final(bullets)@ == old(bullets)@.map_values(
            |b: Bullet| moved_bullet(b, w as int, h as int),
        ),
{
    let n = bullets.len();
    let mut i: usize = 0;
    while i < n
        invariant
            i <= n,
            bullets@.len() == n,
            forall|k: int|
                i <= k < n ==> #[trigger] bullets@[k] == old(bullets)@[k],
            forall|k: int|
                0 <= k < i ==> (#[trigger] bullets@[k]).pos.x == wrap_coord_spec(
                    old(bullets)@[k].pos.x + old(bullets)@[k].vel.x,
                    w as int,
                ) && bullets@[k].pos.y == wrap_coord_spec(
                    old(bullets)@[k].pos.y + old(bullets)@[k].vel.y,
                    h as int,
                ) && bullets@[k].vel == old(bullets)@[k].vel && bullets@[k].shot_at == old(bullets)@[k].shot_at && bullets@[k].collided == old(bullets)@[k].collided && bullet_wf(
                    bullets@[k],
                ),
        decreases n - i,
    {
        let mut b = bullets[i];
        let p = Vec2 { x: b.pos.x + b.vel.x, y: b.pos.y + b.vel.y };
        b.pos = wrap_around(p, w, h);
        bullets[i] = b;
        i = i + 1;
    }
    proof {
        assert forall|k: int| 0 <= k < bullets@.len() implies #[trigger] bullets@[k]
            == moved_bullet(old(bullets)@[k], w as int, h as int) by {}
        assert(bullets@ =~= old(bullets)@.map_values(
            |b: Bullet| moved_bullet(b, w as int, h as int),
        ));
    }
}

/// One physics step for every asteroid: move and wrap, advance the spin,
/// and clamp the velocity to the level's cap; size, sides, color and the
/// consumed flag are untouched.
#[verifier::loop_isolation(false)]
pub fn step_asteroids(asteroids: &mut Vec<Asteroid>, level: u32, w: i64, h: i64)
    requires
        forall|i: int|
            0 <= i < old(asteroids)@.len() ==> asteroid_wf(
                #[trigger] old(asteroids)@[i],
                level as int,
            ),
        1 <= level <= MAX_LEVEL,
        0 < w <= MAX_EXTENT,
        0 < h <= MAX_EXTENT,
    ensures
        final(asteroids)@.len() == old(asteroids)@.len(),
        forall|i: int|
            0 <= i < old(asteroids)@.len() ==> (#[trigger] final(asteroids)@[i]).pos.x
                == wrap_coord_spec(old(asteroids)@[i].pos.x + old(asteroids)@[i].vel.x, w as int)
                && final(asteroids)@[i].pos.y == wrap_coord_spec(
                old(asteroids)@[i].pos.y + old(asteroids)@[i].vel.y,
                h as int,
            ),
        forall|i: int|
            0 <= i < old(asteroids)@.len() ==> (#[trigger] final(asteroids)@[i]).rot == (old(asteroids)@[i].rot as int + old(asteroids)@[i].rot_speed as int) % 360_000,
        forall|i: int|
            0 <= i < old(asteroids)@.len() ==> (#[trigger] final(asteroids)@[i]).vel.x
                == clamp_x_spec(
                old(asteroids)@[i].vel.x as int,
                old(asteroids)@[i].vel.y as int,
                max_speed_spec(level as int),
            ) && final(asteroids)@[i].vel.y == clamp_y_spec(
                old(asteroids)@[i].vel.x as int,
                old(asteroids)@[i].vel.y as int,
                max_speed_spec(level as int),
            ),
        forall|i: int|
            0 <= i < old(asteroids)@.len() ==> (#[trigger] final(asteroids)@[i]).size == old(asteroids)@[i].size && final(asteroids)@[i].sides == old(asteroids)@[i].sides && final(asteroids)@[i].collided == old(asteroids)@[i].collided && final(asteroids)@[i].color == old(asteroids)@[i].color && final(asteroids)@[i].rot_speed == old(asteroids)@[i].rot_speed,
        forall|i: int|
            0 <= i < final(asteroids)@.len() ==> asteroid_wf(
                #[trigger] final(asteroids)@[i],
                level as int,
            ),
        final(asteroids)@ == old(asteroids)@.map_values(
            |a: Asteroid| stepped_asteroid(a, level as int, w as int, h as int),
        ),
{
    let ms = max_speed(level);
    let n = asteroids.len();
    let mut i: usize = 0;
    while i < n
        invariant
            i <= n,
            asteroids@.len() == n,
            forall|k: int|
                i <= k < n ==> #[trigger] asteroids@[k] == old(asteroids)@[k],
            forall|k: int|
                0 <= k < i ==> (#[trigger] asteroids@[k]).pos.x == wrap_coord_spec(
                    old(asteroids)@[k].pos.x + old(asteroids)@[k].vel.x,
                    w as int,
                ) && asteroids@[k].pos.y == wrap_coord_spec(
                    old(asteroids)@[k].pos.y + old(asteroids)@[k].vel.y,
                    h as int,
                ) && asteroids@[k].rot == (old(asteroids)@[k].rot as int + old(asteroids)@[k].rot_speed as int) % 360_000 && asteroids@[k].vel.x == clamp_x_spec(
                    old(asteroids)@[k].vel.x as int,
                    old(asteroids)@[k].vel.y as int,
                    max_speed_spec(level as int),
                ) && asteroids@[k].vel.y == clamp_y_spec(
                    old(asteroids)@[k].vel.x as int,
                    old(asteroids)@[k].vel.y as int,
                    max_speed_spec(level as int),
                ) && asteroids@[k].size == old(asteroids)@[k].size && asteroids@[k].sides == old(asteroids)@[k].sides && asteroids@[k].collided == old(asteroids)@[k].collided
                && asteroids@[k].color == old(asteroids)@[k].color && asteroids@[k].rot_speed
                == old(asteroids)@[k].rot_speed && asteroid_wf(asteroids@[k], level as int),
        decreases n - i,
    {
        let mut a = asteroids[i];
        proof {
            lemma_norm2_component_bound(a.vel, max_speed_spec(level as int));
        }
        let p = Vec2 { x: a.pos.x + a.vel.x, y: a.pos.y + a.vel.y };
        a.pos = wrap_around(p, w, h);
        a.rot = spin_rotation(a.rot, a.rot_speed);
        a.vel = clamp_norm(a.vel, ms);
        asteroids[i] = a;
        i = i + 1;
    }
    proof {
        assert forall|k: int| 0 <= k < asteroids@.len() implies #[trigger] asteroids@[k]
            == stepped_asteroid(old(asteroids)@[k], level as int, w as int, h as int) by {}
        assert(asteroids@ =~= old(asteroids)@.map_values(
            |a: Asteroid| stepped_asteroid(a, level as int, w as int, h as int),
        ));
    }
}

} // verus!
