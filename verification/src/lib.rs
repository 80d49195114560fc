//! Core engine of a 2D "Asteroids"-style arcade game: entity physics with
//! toroidal wraparound and speed clamping, collision detection and asteroid
//! splitting, scoring, level/difficulty scaling, input resolution for keyboard
//! and touch schemes, and the menu/play/pause/win/lose state machine.
//!
//! All geometry is fixed-point: lengths and velocities are kept in
//! milli-units (1000 = one source unit) and times in milli-time-units, so
//! that every computation is exact integer arithmetic. Rendering and input
//! polling are out of scope; a host loop feeds frames in and draws the state.

use vstd::prelude::*;

pub mod game;
pub mod geom;
pub mod input;
pub mod trig;
pub mod collision;
pub mod entities;
pub mod level;
pub mod physics;
pub mod rng;

verus! {

/// Fixed-point scale: 1000 milli-units to one source unit.
pub const MILLI: i64 = 1000;

/// Largest field extent (width or height) the engine accepts, in milli-units.
pub const MAX_EXTENT: i64 = 10_000_000;

/// Ship height, in milli-units (25 source units).
pub const SHIP_HEIGHT: i64 = 25_000;

/// Radius margin added to an asteroid's size for the ship collision test:
/// a third of the ship height, truncated.
pub const SHIP_MARGIN: i64 = 8_333;

/// Speed cap of the ship, in milli-units per frame (5 source units).
pub const SHIP_MAX_SPEED: i64 = 5_000;

/// Magnitude of a bullet's velocity, in milli-units per frame (7 source units).
pub const BULLET_SPEED: i64 = 7_000;

/// A bullet is discarded once its age exceeds this, in milli-time-units (1.5).
pub const BULLET_TTL: u64 = 1_500;

/// Minimum elapsed time between two shots, in milli-time-units (0.25).
pub const FIRE_COOLDOWN: u64 = 250;

/// Score awarded per destroyed asteroid is its side count times this.
pub const SCORE_MULTIPLIER: u64 = 5;

/// Thrust acceleration under the keyboard scheme, milli-units per frame^2.
pub const THRUST_KEYBOARD: i64 = 2_000;

/// Thrust acceleration under the touch scheme, milli-units per frame^2.
pub const THRUST_TOUCH: i64 = 250;

/// Drag: each frame without thrust, velocity loses 1/100th of itself.
pub const DRAG_DIVISOR: i64 = 100;

/// Rotation step per frame while a rotate key is held, in degrees.
pub const ROT_STEP_KEYBOARD: i32 = 5;

/// Rotation step per frame and touch point inside a rotate zone, in degrees.
pub const ROT_STEP_TOUCH: i32 = 3;

/// Highest level the session can reach; the level saturates here on Win.
pub const MAX_LEVEL: u32 = 1_000_000;

/// Largest asteroid size the engine accepts, in milli-units: a tenth of the
/// largest field extent.
pub const MAX_SIZE: i64 = 1_000_000;

/// Largest time value the engine accepts, in milli-time-units.
pub const MAX_TIME: u64 = 0x1000_0000_0000_0000;

} // verus!
