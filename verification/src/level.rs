//! Level and difficulty: how many asteroids a level starts with, how fast
//! they move, which palette colors a level, and the spawning of a round's
//! asteroid field.

use vstd::prelude::*;

verus! {

use crate::entities::{asteroid_wf, Asteroid, ColorPalette, Rgba};
use crate::geom::{div_trunc, scale_to, Vec2};
use crate::rng::{rand_between, rand_centered};
use crate::{MAX_EXTENT, MAX_LEVEL, MAX_SIZE};
use vstd::arithmetic::div_mod::{lemma_div_is_ordered, lemma_div_pos_is_pos,
    lemma_fundamental_div_mod, lemma_mod_bound};

/// Initial asteroid speed of a level, milli-units per frame: 1 + (L-1)/4.
pub open spec fn speed_factor_spec(level: int) -> int {
    1000 + 250 * (level - 1)
}

/// Asteroid speed cap of a level, milli-units per frame: 5 + L/2.
pub open spec fn max_speed_spec(level: int) -> int {
    5000 + 500 * level
}

/// How many asteroids a level starts with: 10 + 2 L.
pub open spec fn asteroid_count_spec(level: int) -> int {
    10 + 2 * level
}

/// Initial asteroid speed of a level.
pub fn speed_factor(level: u32) -> (s: i64)
    requires
        1 <= level <= MAX_LEVEL,
    ensures
        s == speed_factor_spec(level as int),
        1000 <= s <= 250_000_750,
{
    1000 + 250 * (level as i64 - 1)
}

/// Asteroid speed cap of a level.
pub fn max_speed(level: u32) -> (s: i64)
    requires
        1 <= level <= MAX_LEVEL,
    ensures
        s == max_speed_spec(level as int),
        5500 <= s <= 500_005_000,
{
    5000 + 500 * (level as i64)
}

/// A level's initial speed never exceeds its speed cap.
pub proof fn lemma_speed_factor_within_cap(level: int)
    requires
        1 <= level,
    ensures
        0 < speed_factor_spec(level) <= max_speed_spec(level),
{
}

/// How many asteroids a level starts with.
pub fn asteroid_count(level: u32) -> (n: u32)
    requires
        1 <= level <= MAX_LEVEL,
    ensures
        n == asteroid_count_spec(level as int),
{
    10 + 2 * level
}

/// An opaque color, fully filled.
fn rgb(red: u8, green: u8, blue: u8) -> (c: Rgba)
    ensures
        c == (Rgba { red, green, blue, alpha: 255 }),
{
    Rgba { red, green, blue, alpha: 255 }
}

/// A palette of a background, a ship color and six asteroid colors.
fn palette6(background: Rgba, ship: Rgba, c0: Rgba, c1: Rgba, c2: Rgba, c3: Rgba, c4: Rgba, c5: Rgba) -> (p: ColorPalette)
    ensures
        p.background == background,
        p.ship == ship,
        p.asteroid_colors@.len() == 6,
{
    let mut asteroid_colors: Vec<Rgba> = Vec::new();
    asteroid_colors.push(c0);
    asteroid_colors.push(c1);
    asteroid_colors.push(c2);
    asteroid_colors.push(c3);
    asteroid_colors.push(c4);
    asteroid_colors.push(c5);
    ColorPalette { background, ship, asteroid_colors }
}

/// The fixed palette table; the first entry is the baseline palette every
/// session starts with.
pub fn sample_palettes() -> (v: Vec<ColorPalette>)
    ensures
        v@.len() == 10,
        forall|i: int| 0 <= i < v@.len() ==> (#[trigger] v@[i]).asteroid_colors@.len() == 6,
{
    let mut v: Vec<ColorPalette> = Vec::new();
    v.push(palette6(rgb(10, 10, 30), rgb(0, 255, 255), rgb(255, 100, 255), rgb(100, 255, 100),
        rgb(255, 255, 100), rgb(100, 255, 255), rgb(255, 150, 50), rgb(255, 50, 150)));
    v.push(palette6(rgb(40, 10, 10), rgb(255, 200, 150), rgb(255, 120, 40), rgb(255, 60, 180),
        rgb(255, 220, 60), rgb(60, 255, 100), rgb(220, 60, 255), rgb(255, 80, 80)));
    v.push(palette6(rgb(10, 20, 40), rgb(220, 240, 255), rgb(200, 220, 255), rgb(100, 255, 255),
        rgb(255, 100, 255), rgb(255, 255, 100), rgb(120, 200, 255), rgb(255, 120, 200)));
    v.push(palette6(rgb(5, 5, 25), rgb(180, 200, 255), rgb(180, 130, 230), rgb(255, 60, 210),
        rgb(220, 220, 80), rgb(80, 255, 220), rgb(210, 80, 255), rgb(255, 180, 60)));
    v.push(palette6(rgb(30, 30, 10), rgb(255, 255, 200), rgb(255, 240, 120), rgb(255, 60, 150),
        rgb(60, 255, 180), rgb(140, 0, 255), rgb(255, 90, 30), rgb(50, 200, 120)));
    v.push(palette6(rgb(15, 45, 15), rgb(200, 255, 200), rgb(180, 255, 180), rgb(140, 255, 140),
        rgb(220, 255, 180), rgb(210, 200, 255), rgb(170, 230, 200), rgb(190, 240, 210)));
    v.push(palette6(rgb(50, 10, 50), rgb(255, 200, 255), rgb(255, 130, 255), rgb(255, 60, 255),
        rgb(255, 220, 240), rgb(180, 80, 255), rgb(255, 100, 200), rgb(255, 150, 240)));
    v.push(palette6(rgb(20, 50, 50), rgb(200, 255, 255), rgb(160, 255, 255), rgb(100, 255, 230),
        rgb(255, 100, 255), rgb(170, 230, 230), rgb(150, 210, 210), rgb(255, 50, 255)));
    v.push(palette6(rgb(25, 15, 45), rgb(240, 200, 255), rgb(255, 120, 200), rgb(255, 60, 180),
        rgb(255, 0, 255), rgb(255, 110, 190), rgb(255, 130, 210), rgb(255, 150, 230)));
    v.push(palette6(rgb(40, 20, 5), rgb(255, 240, 200), rgb(255, 220, 100), rgb(255, 0, 140),
        rgb(255, 240, 140), rgb(255, 210, 90), rgb(255, 230, 110), rgb(255, 245, 130)));
    v
}

/// A uniform-ish index below `n`.
fn rand_index(n: usize) -> (i: usize)
    requires
        1 <= n <= 0xFFFF_FFFF,
    ensures
        i < n,
{
    rand_between(0, (n - 1) as u32) as usize
}

/// Which palette a level uses: the first level always takes the baseline
/// palette at index 0; every later level draws one at random.
pub fn pick_palette_for_level(level: u32, n: usize) -> (i: usize)
    requires
        1 <= n <= 0xFFFF_FFFF,
        1 <= level,
    ensures
        i < n,
        level == 1 ==> i == 0,
{
    if level == 1 {
        0
    } else {
        rand_index(n)
    }
}

/// One of the palette's asteroid colors, drawn at random.
pub fn random_asteroid_color(palette: &ColorPalette) -> (c: Rgba)
    requires
        1 <= palette.asteroid_colors@.len() <= 0xFFFF_FFFF,
    ensures
        exists|i: int|
            0 <= i < palette.asteroid_colors@.len() && c == palette.asteroid_colors@[i],
{
    let i = rand_index(palette.asteroid_colors.len());
    let c = palette.asteroid_colors[i];
    proof {
        assert(c == palette.asteroid_colors@[i as int]);
    }
    c
}

/// Spawn a level's asteroid field: `10 + 2 L` well-formed asteroids, each on
/// a circle of half the smaller extent around the field's center, moving in
/// a random direction at the level's initial speed, spinning at a random
/// rate, with 3 to 7 sides and a palette color.
#[verifier::loop_isolation(false)]
pub fn spawn_asteroids(level: u32, w: i64, h: i64, palette: &ColorPalette) -> (v: Vec<Asteroid>)
    requires
        1 <= level <= MAX_LEVEL,
        0 < w <= MAX_EXTENT,
        0 < h <= MAX_EXTENT,
        1 <= palette.asteroid_colors@.len() <= 0xFFFF_FFFF,
    ensures
        v@.len() == asteroid_count_spec(level as int),
        forall|i: int| 0 <= i < v@.len() ==> asteroid_wf(#[trigger] v@[i], level as int),
        forall|i: int| 0 <= i < v@.len() ==> !(#[trigger] v@[i]).collided,
        forall|i: int|
            0 <= i < v@.len() ==> (#[trigger] v@[i]).size == (if w <= h {
                w as int
            } else {
                h as int
            }) / 10,
        forall|i: int| 0 <= i < v@.len() ==> (#[trigger] v@[i]).rot == 0,
        forall|i: int|
            0 <= i < v@.len() ==> crate::geom::norm2((#[trigger] v@[i]).vel)
                <= speed_factor_spec(level as int) * speed_factor_spec(level as int),
{
    let count = asteroid_count(level);
    let factor = speed_factor(level);
    let m = if w <= h {
        w
    } else {
        h
    };
    let radius = div_trunc(m, 2);
    let cx = div_trunc(w, 2);
    let cy = div_trunc(h, 2);
    let size = div_trunc(m, 10);
    proof {
        // The offset circle stays inside the field, and the size within bounds.
        lemma_div_is_ordered(m as int, w as int, 2);
        lemma_div_is_ordered(m as int, h as int, 2);
        lemma_fundamental_div_mod(w as int, 2);
        lemma_mod_bound(w as int, 2);
        lemma_fundamental_div_mod(h as int, 2);
        lemma_mod_bound(h as int, 2);
        lemma_div_is_ordered(m as int, MAX_EXTENT as int, 10);
        lemma_div_pos_is_pos(m as int, 10);
    }
    let mut v: Vec<Asteroid> = Vec::new();
    let mut k: u32 = 0;
    while k < count
        invariant
            k <= count,
            v@.len() == k as int,
            forall|i: int| 0 <= i < v@.len() ==> asteroid_wf(#[trigger] v@[i], level as int),
            forall|i: int| 0 <= i < v@.len() ==> !(#[trigger] v@[i]).collided,
            forall|i: int| 0 <= i < v@.len() ==> (#[trigger] v@[i]).size == size,
            forall|i: int| 0 <= i < v@.len() ==> (#[trigger] v@[i]).rot == 0,
            forall|i: int|
                0 <= i < v@.len() ==> crate::geom::norm2((#[trigger] v@[i]).vel)
                    <= (factor as int) * (factor as int),
        decreases count - k,
    {
        let bx = rand_centered(1000);
        let by = rand_centered(1000);
        let vel = scale_to(Vec2 { x: bx, y: by }, factor);
        let dx = rand_centered(1000);
        let dy = rand_centered(1000);
        let off = scale_to(Vec2 { x: dx, y: dy }, radius);
        let pos = Vec2 { x: cx + off.x, y: cy + off.y };
        let rs = rand_centered(2000);
        let sides0 = rand_between(3, 8);
        let sides: u8 = if sides0 > 7 {
            7
        } else {
            sides0 as u8
        };
        let color = random_asteroid_color(palette);
        proof {
            lemma_speed_factor_within_cap(level as int);
            assert(vel.x * vel.x + vel.y * vel.y <= max_speed_spec(level as int) * max_speed_spec(
                level as int)) by (nonlinear_arith)
                requires
                    vel.x * vel.x + vel.y * vel.y <= (factor as int) * (factor as int),
                    0 <= factor as int <= max_speed_spec(level as int),
            ;
        }
        let a = Asteroid {
            pos,
            vel,
            rot: 0,
            rot_speed: rs as i32,
            size,
            sides,
            collided: false,
            color,
        };
        v.push(a);
        k = k + 1;
    }
    v
}

} // verus!
