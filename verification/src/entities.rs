//! The entity model: ship, bullets, asteroids, colors and palettes, and the
//! well-formedness that every part of the engine establishes and preserves.

use vstd::prelude::*;

verus! {

use crate::geom::{norm2, Vec2};
use crate::level::max_speed_spec;
use crate::{BULLET_SPEED, MAX_EXTENT, MAX_SIZE, SHIP_MAX_SPEED};

/// A color as four 8-bit channels.
#[derive(Clone, Copy, PartialEq, Eq, Structural, Debug)]
pub struct Rgba {
    pub red: u8,
    pub green: u8,
    pub blue: u8,
    pub alpha: u8,
}

/// The fixed colors of one level: the background, the ship, and the choices
/// an asteroid's color is drawn from.
pub struct ColorPalette {
    pub background: Rgba,
    pub ship: Rgba,
    pub asteroid_colors: Vec<Rgba>,
}

/// The player's ship. Rotation is in whole degrees, kept in `[0, 360)`;
/// 0 points up.
#[derive(Clone, Copy, PartialEq, Eq, Structural, Debug)]
pub struct Ship {
    pub pos: Vec2,
    pub rot: u32,
    pub vel: Vec2,
}

/// One bullet: fixed velocity along the ship's heading at fire time, a
/// creation timestamp, and a consumed flag set by a collision.
#[derive(Clone, Copy, PartialEq, Eq, Structural, Debug)]
pub struct Bullet {
    pub pos: Vec2,
    pub vel: Vec2,
    pub shot_at: u64,
    pub collided: bool,
}

/// One asteroid. `sides` encodes both the polygon drawn and the remaining
/// splittability; rotation is cosmetic spin in milli-degrees, kept in
/// `[0, 360000)`.
#[derive(Clone, Copy, PartialEq, Eq, Structural, Debug)]
pub struct Asteroid {
    pub pos: Vec2,
    pub vel: Vec2,
    pub rot: u32,
    pub rot_speed: i32,
    pub size: i64,
    pub sides: u8,
    pub collided: bool,
    pub color: Rgba,
}

/// A position the engine accepts: inside the largest play field.
pub open spec fn pos_in_field(p: Vec2) -> bool {
    0 <= p.x <= MAX_EXTENT && 0 <= p.y <= MAX_EXTENT
}

/// Well-formed ship: in the field, rotation normalized, speed at most the cap.
pub open spec fn ship_wf(s: Ship) -> bool {
    &&& pos_in_field(s.pos)
    &&& s.rot < 360
    &&& norm2(s.vel) <= SHIP_MAX_SPEED * SHIP_MAX_SPEED
}

/// Well-formed bullet: in the field, velocity componentwise within the
/// bullet speed.
pub open spec fn bullet_wf(b: Bullet) -> bool {
    &&& pos_in_field(b.pos)
    &&& -BULLET_SPEED <= b.vel.x <= BULLET_SPEED
    &&& -BULLET_SPEED <= b.vel.y <= BULLET_SPEED
}

/// A bullet between firing and its first wrap may sit a little outside the
/// field: the bounds every bullet in flight satisfies.
pub open spec fn bullet_in_flight(b: Bullet) -> bool {
    &&& -100_000 <= b.pos.x <= MAX_EXTENT + 100_000
    &&& -100_000 <= b.pos.y <= MAX_EXTENT + 100_000
    &&& -BULLET_SPEED <= b.vel.x <= BULLET_SPEED
    &&& -BULLET_SPEED <= b.vel.y <= BULLET_SPEED
}

/// Well-formed asteroid for a level: in the field, at most the level's speed
/// cap, sides in `{3, ..., 7}`, size and spin within the engine's bounds.
pub open spec fn asteroid_wf(a: Asteroid, level: int) -> bool {
    &&& pos_in_field(a.pos)
    &&& norm2(a.vel) <= max_speed_spec(level) * max_speed_spec(level)
    &&& 3 <= a.sides <= 7
    &&& 0 <= a.size <= MAX_SIZE
    &&& a.rot < 360_000
    &&& -2000 <= a.rot_speed <= 2000
}

/// A squared-norm bound caps each component: `|v| <= c` componentwise
/// whenever `norm2(v) <= c * c`.
pub proof fn lemma_norm2_component_bound(v: Vec2, c: int)
    requires
        norm2(v) <= c * c,
        0 <= c,
    ensures
        -c <= v.x <= c,
        -c <= v.y <= c,
{
    assert(-c <= v.x <= c && -c <= v.y <= c) by (nonlinear_arith)
        requires
            v.x * v.x + v.y * v.y <= c * c,
            0 <= c,
    ;
}

} // verus!
