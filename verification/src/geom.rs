//! Fixed-point 2D vectors and the arithmetic the engine is built on:
//! toroidal wraparound, truncating division, integer square roots, and
//! rescaling a vector to a target magnitude.

use vstd::prelude::*;

verus! {

use vstd::arithmetic::div_mod::{
    lemma_div_basics_2, lemma_div_is_ordered_by_denominator, lemma_div_pos_is_pos,
    lemma_fundamental_div_mod, lemma_mod_bound,
};

/// Bound on every coordinate, velocity and scale factor fed to the vector
/// helpers, generous enough for the whole engine (in milli-units).
pub const COORD_BOUND: i64 = 1_000_000_000;

/// A 2D point or velocity in milli-units.
#[derive(Clone, Copy, PartialEq, Eq, Structural, Debug)]
pub struct Vec2 {
    pub x: i64,
    pub y: i64,
}

/// Squared magnitude of a vector.
pub open spec fn norm2(v: Vec2) -> int {
    v.x * v.x + v.y * v.y
}

/// Squared distance between two points.
pub open spec fn dist2(a: Vec2, b: Vec2) -> int {
    (a.x - b.x) * (a.x - b.x) + (a.y - b.y) * (a.y - b.y)
}

/// The toroidal wrap of one coordinate: past the extent resets to 0, below 0
/// resets to the extent; this is reset-to-boundary, not a modulo wrap.
pub open spec fn wrap_coord_spec(p: int, extent: int) -> int {
    if p > extent {
        0
    } else if p < 0 {
        extent
    } else {
        p
    }
}

/// A wrapped coordinate always lies in `[0, extent]`, and an in-range
/// coordinate is left unchanged.
pub proof fn lemma_wrap_in_range(p: int, extent: int)
    requires
        0 <= extent,
    ensures
        0 <= wrap_coord_spec(p, extent) <= extent,
        0 <= p <= extent ==> wrap_coord_spec(p, extent) == p,
{
}

/// Wrapping is idempotent: wrapping a wrapped coordinate changes nothing.
pub proof fn lemma_wrap_idempotent(p: int, extent: int)
    requires
        0 <= extent,
    ensures
        wrap_coord_spec(wrap_coord_spec(p, extent), extent) == wrap_coord_spec(p, extent),
{
}

/// Wrap one coordinate into the play field.
pub fn wrap_coord(p: i64, extent: i64) -> (r: i64)
    requires
        0 <= extent,
    ensures
        r == wrap_coord_spec(p as int, extent as int),
        0 <= r <= extent,
        0 <= p <= extent ==> r == p,
{
    if p > extent {
        0
    } else if p < 0 {
        extent
    } else {
        p
    }
}

/// Wrap a position into the `[0, w] x [0, h]` play field.
pub fn wrap_around(v: Vec2, w: i64, h: i64) -> (r: Vec2)
    requires
        0 <= w,
        0 <= h,
    ensures
        r.x == wrap_coord_spec(v.x as int, w as int),
        r.y == wrap_coord_spec(v.y as int, h as int),
        0 <= r.x <= w,
        0 <= r.y <= h,
{
    Vec2 { x: wrap_coord(v.x, w), y: wrap_coord(v.y, h) }
}

/// Division truncating toward zero (the native `/` of the machine), defined
/// for a positive divisor.
pub open spec fn div_tz(a: int, d: int) -> int {
    if a >= 0 {
        a / d
    } else {
        -((-a) / d)
    }
}

/// Truncating division keeps the sign of the dividend and never grows the
/// magnitude; `div_tz(a, d) * d` stays on the zero side of `a`.
pub proof fn lemma_div_tz_mag(a: int, d: int)
    requires
        0 < d,
    ensures
        a >= 0 ==> 0 <= div_tz(a, d) <= a && div_tz(a, d) * d <= a,
        a < 0 ==> a <= div_tz(a, d) <= 0 && div_tz(a, d) * d >= a,
{
    if a >= 0 {
        lemma_div_pos_is_pos(a, d);
        lemma_div_is_ordered_by_denominator(a, 1, d);
        lemma_div_basics_2(a);
        lemma_fundamental_div_mod(a, d);
        lemma_mod_bound(a, d);
        assert(div_tz(a, d) == a / d);
        assert(0 <= a / d);
        assert(a / d <= a);
        assert(a == d * (a / d) + a % d);
        assert(0 <= a % d);
        assert((a / d) * d <= a);
    } else {
        lemma_div_pos_is_pos(-a, d);
        lemma_div_is_ordered_by_denominator(-a, 1, d);
        lemma_div_basics_2(-a);
        lemma_fundamental_div_mod(-a, d);
        lemma_mod_bound(-a, d);
        let q = (-a) / d;
        assert(div_tz(a, d) == -q);
        assert(0 <= q && q <= -a);
        assert(-a == d * q + (-a) % d);
        assert(0 <= (-a) % d);
        assert(q * d <= -a);
        assert((-q) * d == -(q * d)) by (nonlinear_arith);
        assert((-q) * d >= a);
    }
}

/// Divide truncating toward zero, as native machine division rounds.
pub fn div_trunc(a: i64, d: i64) -> (r: i64)
    requires
        0 < d,
        i64::MIN < a,
    ensures
        r == div_tz(a as int, d as int),
        a >= 0 ==> 0 <= r <= a,
        a < 0 ==> a <= r <= 0,
{
    proof {
        lemma_div_tz_mag(a as int, d as int);
    }
    if a >= 0 {
        ((a as u64) / (d as u64)) as i64
    } else {
        let m = ((-a) as u64) / (d as u64);
        -(m as i64)
    }
}

/// `r` is the integer square root of `n` rounded up: the least `r` with
/// `r * r >= n`.
pub open spec fn is_sqrt_up(n: int, r: int) -> bool {
    0 <= r && n <= r * r && (r == 0 || (r - 1) * (r - 1) < n)
}

/// The integer square root rounded up, as a value.
pub open spec fn sqrt_up(n: int) -> int {
    choose|r: int| is_sqrt_up(n, r)
}

/// Every nonnegative integer has a rounded-up square root.
pub proof fn lemma_sqrt_up_exists(n: int)
    requires
        0 <= n,
    ensures
        is_sqrt_up(n, sqrt_up(n)),
    decreases n,
{
    if n == 0 {
        assert(is_sqrt_up(0, 0));
    } else {
        lemma_sqrt_up_exists(n - 1);
        let r = sqrt_up(n - 1);
        if n <= r * r {
            assert(is_sqrt_up(n, r));
        } else {
            assert(r * r == n - 1);
            assert((r + 1 - 1) * (r + 1 - 1) < n);
            assert(n <= (r + 1) * (r + 1)) by (nonlinear_arith)
                requires
                    0 <= r,
                    r * r == n - 1,
            ;
            assert(is_sqrt_up(n, r + 1));
        }
    }
}

/// Any witness of `is_sqrt_up` is the rounded-up square root.
pub proof fn lemma_sqrt_up_is(n: int, r: int)
    requires
        is_sqrt_up(n, r),
    ensures
        sqrt_up(n) == r,
{
    assert(is_sqrt_up(n, sqrt_up(n)));
    let s = sqrt_up(n);
    if s < r {
        assert(s * s <= (r - 1) * (r - 1)) by (nonlinear_arith)
            requires
                0 <= s <= r - 1,
        ;
        assert(false);
    } else if r < s {
        assert(r * r <= (s - 1) * (s - 1)) by (nonlinear_arith)
            requires
                0 <= r <= s - 1,
        ;
        assert(false);
    }
}

/// Integer square root rounded up, by binary search.
pub fn isqrt_up(n: u64) -> (r: u64)
    requires
        n <= 0x4000_0000_0000_0000,
    ensures
        is_sqrt_up(n as int, r as int),
        r as int == sqrt_up(n as int),
        r <= 0x8000_0000,
{
    let mut lo: u64 = 0;
    let mut hi: u64 = 0x8000_0000;
    while lo < hi
        invariant
            lo <= hi <= 0x8000_0000,
            n as int <= (hi as int) * (hi as int),
            lo == 0 || ((lo as int) - 1) * ((lo as int) - 1) < n as int,
        decreases hi - lo,
    {
        let mid = lo + (hi - lo) / 2;
        proof {
            assert((mid as int) * (mid as int) <= 0x4000_0000_0000_0000) by (nonlinear_arith)
                requires
                    0 <= mid as int <= 0x8000_0000,
            ;
        }
        if mid * mid >= n {
            hi = mid;
        } else {
            lo = mid + 1;
        }
    }
    proof {
        lemma_sqrt_up_is(n as int, lo as int);
    }
    lo
}

/// X component of `(x, y)` rescaled to magnitude `t`: each component is
/// multiplied by `t` and divided (truncating) by the rounded-up magnitude.
/// The zero vector, which has no direction, falls back to the unit vector
/// along the x axis, giving `(t, 0)`.
pub open spec fn scale_x_spec(x: int, y: int, t: int) -> int {
    if x == 0 && y == 0 {
        t
    } else {
        div_tz(x * t, sqrt_up(x * x + y * y))
    }
}

/// Y component of `(x, y)` rescaled to magnitude `t`.
pub open spec fn scale_y_spec(x: int, y: int, t: int) -> int {
    if x == 0 && y == 0 {
        0
    } else {
        div_tz(y * t, sqrt_up(x * x + y * y))
    }
}

/// A rescaled vector never exceeds the target magnitude: its squared norm is
/// at most `t * t` and each component lies in `[-t, t]`.
pub proof fn lemma_scale_bounds(x: int, y: int, t: int)
    requires
        0 <= t,
    ensures
        scale_x_spec(x, y, t) * scale_x_spec(x, y, t) + scale_y_spec(x, y, t) * scale_y_spec(
            x,
            y,
            t,
        ) <= t * t,
        -t <= scale_x_spec(x, y, t) <= t,
        -t <= scale_y_spec(x, y, t) <= t,
{
    if x == 0 && y == 0 {
    } else {
        let n = x * x + y * y;
        assert(n >= 1) by (nonlinear_arith)
            requires
                x != 0 || y != 0,
                n == x * x + y * y,
        ;
        lemma_sqrt_up_exists(n);
        let m = sqrt_up(n);
        assert(m >= 1) by (nonlinear_arith)
            requires
                0 <= m,
                n <= m * m,
                n >= 1,
        ;
        lemma_div_tz_mag(x * t, m);
        lemma_div_tz_mag(y * t, m);
        let qx = div_tz(x * t, m);
        let qy = div_tz(y * t, m);
        assert((qx * m) * (qx * m) <= (x * t) * (x * t)) by (nonlinear_arith)
            requires
                m >= 1,
                x * t >= 0 ==> 0 <= qx && qx * m <= x * t,
                x * t < 0 ==> qx <= 0 && qx * m >= x * t,
        ;
        assert((qy * m) * (qy * m) <= (y * t) * (y * t)) by (nonlinear_arith)
            requires
                m >= 1,
                y * t >= 0 ==> 0 <= qy && qy * m <= y * t,
                y * t < 0 ==> qy <= 0 && qy * m >= y * t,
        ;
        assert((qx * m) * (qx * m) + (qy * m) * (qy * m) == (m * m) * (qx * qx + qy * qy))
            by (nonlinear_arith);
        assert((x * t) * (x * t) + (y * t) * (y * t) == n * (t * t)) by (nonlinear_arith)
            requires
                n == x * x + y * y,
        ;
        assert(n * (t * t) <= (m * m) * (t * t)) by (nonlinear_arith)
            requires
                n <= m * m,
                0 <= t,
        ;
        assert(qx * qx + qy * qy <= t * t) by (nonlinear_arith)
            requires
                (m * m) * (qx * qx + qy * qy) <= (m * m) * (t * t),
                m >= 1,
        ;
        assert(-t <= qx <= t && -t <= qy <= t) by (nonlinear_arith)
            requires
                qx * qx + qy * qy <= t * t,
                0 <= t,
        ;
    }
}

/// Rescale `v` to magnitude `t` (truncating); the zero vector falls back to
/// the fixed unit direction, as the defensive policy asks.
pub fn scale_to(v: Vec2, t: i64) -> (r: Vec2)
    requires
        0 <= t <= COORD_BOUND,
        -COORD_BOUND <= v.x <= COORD_BOUND,
        -COORD_BOUND <= v.y <= COORD_BOUND,
    ensures
        r.x == scale_x_spec(v.x as int, v.y as int, t as int),
        r.y == scale_y_spec(v.x as int, v.y as int, t as int),
        norm2(r) <= t * t,
        -t <= r.x <= t,
        -t <= r.y <= t,
{
    proof {
        lemma_scale_bounds(v.x as int, v.y as int, t as int);
    }
    if v.x == 0 && v.y == 0 {
        Vec2 { x: t, y: 0 }
    } else {
        proof {
            assert(0 <= v.x * v.x <= 1_000_000_000_000_000_000 && 0 <= v.y * v.y
                <= 1_000_000_000_000_000_000 && v.x * v.x + v.y * v.y >= 1
                && -1_000_000_000_000_000_000 <= v.x * t <= 1_000_000_000_000_000_000
                && -1_000_000_000_000_000_000 <= v.y * t <= 1_000_000_000_000_000_000)
                by (nonlinear_arith)
                requires
                    -COORD_BOUND <= v.x <= COORD_BOUND,
                    -COORD_BOUND <= v.y <= COORD_BOUND,
                    0 <= t <= COORD_BOUND,
                    !(v.x == 0 && v.y == 0),
            ;
        }
        let n2: u64 = (v.x * v.x + v.y * v.y) as u64;
        let m64 = isqrt_up(n2);
        let m = m64 as i64;
        proof {
            assert(m >= 1);
        }
        let rx = div_trunc(v.x * t, m);
        let ry = div_trunc(v.y * t, m);
        Vec2 { x: rx, y: ry }
    }
}

/// X component of `(x, y)` clamped to magnitude at most `cap`: unchanged
/// when already within the cap, else rescaled to the cap.
pub open spec fn clamp_x_spec(x: int, y: int, cap: int) -> int {
    if x * x + y * y <= cap * cap {
        x
    } else {
        scale_x_spec(x, y, cap)
    }
}

/// Y component of `(x, y)` clamped to magnitude at most `cap`.
pub open spec fn clamp_y_spec(x: int, y: int, cap: int) -> int {
    if x * x + y * y <= cap * cap {
        y
    } else {
        scale_y_spec(x, y, cap)
    }
}

/// Clamp `v` to magnitude at most `cap`: left unchanged when already within
/// the cap, else rescaled to the cap.
pub fn clamp_norm(v: Vec2, cap: i64) -> (r: Vec2)
    requires
        0 <= cap <= COORD_BOUND,
        -COORD_BOUND <= v.x <= COORD_BOUND,
        -COORD_BOUND <= v.y <= COORD_BOUND,
    ensures
        r.x == clamp_x_spec(v.x as int, v.y as int, cap as int),
        r.y == clamp_y_spec(v.x as int, v.y as int, cap as int),
        norm2(v) <= cap * cap ==> r == v,
        norm2(r) <= cap * cap,
        -COORD_BOUND <= r.x <= COORD_BOUND,
        -COORD_BOUND <= r.y <= COORD_BOUND,
{
    proof {
        assert(0 <= v.x * v.x <= 1_000_000_000_000_000_000 && 0 <= v.y * v.y
            <= 1_000_000_000_000_000_000 && 0 <= cap * cap <= 1_000_000_000_000_000_000)
            by (nonlinear_arith)
            requires
                -COORD_BOUND <= v.x <= COORD_BOUND,
                -COORD_BOUND <= v.y <= COORD_BOUND,
                0 <= cap <= COORD_BOUND,
        ;
    }
    let n2 = v.x * v.x + v.y * v.y;
    if n2 <= cap * cap {
        v
    } else {
        scale_to(v, cap)
    }
}

/// Rotate a vector a quarter turn clockwise (y grows downward on screen).
pub fn rot_quarter_cw(v: Vec2) -> (r: Vec2)
    requires
        i64::MIN < v.x,
        i64::MIN < v.y,
    ensures
        r.x == v.y,
        r.y == -v.x,
{
    Vec2 { x: v.y, y: -v.x }
}

/// Rotate a vector a quarter turn counterclockwise.
pub fn rot_quarter_ccw(v: Vec2) -> (r: Vec2)
    requires
        i64::MIN < v.x,
        i64::MIN < v.y,
    ensures
        r.x == -v.y,
        r.y == v.x,
{
    Vec2 { x: -v.y, y: v.x }
}

/// Squared distance between two points, executable.
pub fn distance2(a: Vec2, b: Vec2) -> (d: i64)
    requires
        -COORD_BOUND <= a.x <= COORD_BOUND,
        -COORD_BOUND <= a.y <= COORD_BOUND,
        -COORD_BOUND <= b.x <= COORD_BOUND,
        -COORD_BOUND <= b.y <= COORD_BOUND,
    ensures
        d == dist2(a, b),
        d >= 0,
{
    let dx = a.x - b.x;
    let dy = a.y - b.y;
    proof {
        assert(0 <= dx * dx <= 4_000_000_000_000_000_000 && 0 <= dy * dy
            <= 4_000_000_000_000_000_000) by (nonlinear_arith)
            requires
                -2_000_000_000 <= dx <= 2_000_000_000,
                -2_000_000_000 <= dy <= 2_000_000_000,
        ;
    }
    dx * dx + dy * dy
}

} // verus!

