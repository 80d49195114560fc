//! Integer trigonometry: sine and cosine per whole degree, in milli-units,
//! through a rational approximation that is exact at 0, 90 and 180 degrees
//! and never leaves `[-1000, 1000]`. The ship's heading is derived from it.

use vstd::prelude::*;

verus! {

use crate::geom::Vec2;
use vstd::arithmetic::div_mod::{lemma_div_is_ordered, lemma_div_multiples_vanish};

/// Sine on `[0, 180]` degrees, in milli-units: the rational approximation
/// `4000 d (180 - d) / (40500 - d (180 - d))`.
pub open spec fn half_sin_milli(d: int) -> int {
    (4000 * d * (180 - d)) / (40500 - d * (180 - d))
}

/// Sine of a whole degree in `[0, 360)`, in milli-units (1000 = 1.0).
pub open spec fn sin_milli(d: int) -> int {
    if d <= 180 {
        half_sin_milli(d)
    } else {
        -half_sin_milli(d - 180)
    }
}

/// Cosine of a whole degree in `[0, 360)`, in milli-units.
pub open spec fn cos_milli(d: int) -> int {
    sin_milli((d + 90) % 360)
}

/// Sine on the first half turn, nonnegative and at most 1000.
fn half_sin(d: u32) -> (r: u64)
    requires
        d <= 180,
    ensures
        r == half_sin_milli(d as int),
        r <= 1000,
{
    proof {
        assert(0 <= (d as int) * (180 - d as int) <= 8100) by (nonlinear_arith)
            requires
                0 <= d as int <= 180,
        ;
    }
    let p: u64 = (d as u64) * ((180 - d) as u64);
    let num: u64 = 4000 * p;
    let den: u64 = 40500 - p;
    let q = num / den;
    proof {
        assert(4000 * ((d as int) * (180 - d as int)) == (4000 * (d as int)) * (180 - d as int))
            by (nonlinear_arith);
        assert((1000 * (den as int)) / (den as int) == 1000) by {
            lemma_div_multiples_vanish(1000, den as int);
            assert((den as int) * 1000 == 1000 * (den as int));
        }
        lemma_div_is_ordered(num as int, 1000 * (den as int), den as int);
    }
    q
}

/// Sine of a whole degree, in milli-units.
pub fn sin_mdeg(d: u32) -> (r: i64)
    requires
        d < 360,
    ensures
        r == sin_milli(d as int),
        -1000 <= r <= 1000,
{
    if d <= 180 {
        half_sin(d) as i64
    } else {
        -(half_sin(d - 180) as i64)
    }
}

/// Cosine of a whole degree, in milli-units.
pub fn cos_mdeg(d: u32) -> (r: i64)
    requires
        d < 360,
    ensures
        r == cos_milli(d as int),
        -1000 <= r <= 1000,
{
    sin_mdeg((d + 90) % 360)
}

/// Unit direction of the ship's nose for a rotation in degrees: rotation 0
/// points up, the y axis growing downward on screen, so the direction is
/// `(sin r, -cos r)` in milli-units.
pub fn heading(rot: u32) -> (r: Vec2)
    requires
        rot < 360,
    ensures
        r.x == sin_milli(rot as int),
        r.y == -cos_milli(rot as int),
        -1000 <= r.x <= 1000,
        -1000 <= r.y <= 1000,
{
    let sx = sin_mdeg(rot);
    let cy = cos_mdeg(rot);
    Vec2 { x: sx, y: -cy }
}

} // verus!
