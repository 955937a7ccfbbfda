//! Planar vectors in fixed-point world coordinates (thousandths of a
//! world unit). Lengths and distances are exact integer square roots.

use vstd::prelude::*;

use crate::fp::{isqrt_i64, lemma_sqrt_floor_monotonic, lemma_sqrt_floor_square, sq, sqrt_floor,
    tdiv, div_fp};

verus! {

/// Coordinates handled by the vector operations stay within this bound,
/// which keeps every squared distance inside a machine word.
pub const COORD_LIMIT: i64 = 1_000_000_000;

/// A planar point or direction in fixed-point world coordinates.
#[derive(Clone, Copy, Debug, PartialEq, Eq, Structural)]
pub struct Vec2 {
    pub x: i64,
    pub y: i64,
}

/// Absolute value of an integer.
pub open spec fn absi(x: int) -> int {
    if x < 0 {
        -x
    } else {
        x
    }
}

/// Squared euclidean norm.
pub open spec fn norm2(v: Vec2) -> int {
    sq(v.x as int) + sq(v.y as int)
}

/// Squared euclidean distance between two points.
pub open spec fn dist2(a: Vec2, b: Vec2) -> int {
    sq(a.x as int - b.x as int) + sq(a.y as int - b.y as int)
}

/// Both coordinates within the given bound.
pub open spec fn in_box(v: Vec2, bound: int) -> bool {
    absi(v.x as int) <= bound && absi(v.y as int) <= bound
}

/// Component-wise sum.
pub fn vadd(a: Vec2, b: Vec2) -> (r: Vec2)
    requires
        in_box(a, COORD_LIMIT as int),
        in_box(b, COORD_LIMIT as int),
    ensures
        r.x == a.x + b.x,
        r.y == a.y + b.y,
{
    Vec2 { x: a.x + b.x, y: a.y + b.y }
}

/// Component-wise difference.
pub fn vsub(a: Vec2, b: Vec2) -> (r: Vec2)
    requires
        in_box(a, COORD_LIMIT as int),
        in_box(b, COORD_LIMIT as int),
    ensures
        r.x == a.x - b.x,
        r.y == a.y - b.y,
{
    Vec2 { x: a.x - b.x, y: a.y - b.y }
}

/// The squared norm of a vector whose coordinates stay within twice the
/// coordinate box fits comfortably in a machine word.
pub proof fn lemma_norm2_bound(v: Vec2)
    requires
        in_box(v, 2_100_000_000),
    ensures
        0 <= norm2(v) <= 0x7A83_06AE_4756_4000,
        sq(v.x as int) <= norm2(v),
        sq(v.y as int) <= norm2(v),
{
    assert(0 <= sq(v.x as int) <= 0x3D41_8357_23AB_2000 && 0 <= sq(v.y as int)
        <= 0x3D41_8357_23AB_2000) by (nonlinear_arith)
        requires
            absi(v.x as int) <= 2_100_000_000int,
            absi(v.y as int) <= 2_100_000_000int,
    ;
}

/// Exact euclidean length, rounded down; it dominates the absolute value
/// of each coordinate.
pub fn vlen(v: Vec2) -> (r: i64)
    requires
        in_box(v, 2_100_000_000),
    ensures
        r == sqrt_floor(norm2(v)),
        sq(r as int) <= norm2(v) < sq(r as int + 1),
        absi(v.x as int) <= r,
        absi(v.y as int) <= r,
        0 <= r < 0x1_0000_0000,
{
    proof {
        lemma_norm2_bound(v);
    }
    let n = v.x * v.x + v.y * v.y;
    let r = isqrt_i64(n);
    proof {
        crate::fp::lemma_sqrt_floor_props(n as int);
        let ax = absi(v.x as int);
        let ay = absi(v.y as int);
        assert(sq(ax) == sq(v.x as int)) by (nonlinear_arith)
            requires
                ax == v.x as int || ax == -(v.x as int),
        ;
        assert(sq(ay) == sq(v.y as int)) by (nonlinear_arith)
            requires
                ay == v.y as int || ay == -(v.y as int),
        ;
        lemma_sqrt_floor_square(ax);
        lemma_sqrt_floor_square(ay);
        lemma_sqrt_floor_monotonic(sq(ax), n as int);
        lemma_sqrt_floor_monotonic(sq(ay), n as int);
    }
    r
}

/// Exact squared euclidean distance between two points.
pub fn vdist2(a: Vec2, b: Vec2) -> (r: i64)
    requires
        in_box(a, 1_050_000_000),
        in_box(b, 1_050_000_000),
    ensures
        r == dist2(a, b),
        r >= 0,
{
    let d = Vec2 { x: a.x - b.x, y: a.y - b.y };
    proof {
        lemma_norm2_bound(d);
    }
    d.x * d.x + d.y * d.y
}

/// Exact euclidean distance between two points, rounded down.
pub fn vdist(a: Vec2, b: Vec2) -> (r: i64)
    requires
        in_box(a, 1_050_000_000),
        in_box(b, 1_050_000_000),
    ensures
        r == sqrt_floor(dist2(a, b)),
        sq(r as int) <= dist2(a, b) < sq(r as int + 1),
        absi(a.x as int - b.x as int) <= r,
        absi(a.y as int - b.y as int) <= r,
        0 <= r < 0x1_0000_0000,
{
    let d = Vec2 { x: a.x - b.x, y: a.y - b.y };
    vlen(d)
}

/// Scale a vector by the ratio `num / den`, rounding each coordinate
/// toward zero.
pub fn vscale(v: Vec2, num: i64, den: i64) -> (r: Vec2)
    requires
        den > 0,
        0 <= num,
        absi(v.x as int) * num <= i64::MAX,
        absi(v.y as int) * num <= i64::MAX,
    ensures
        r.x == tdiv(v.x as int * num as int, den as int),
        r.y == tdiv(v.y as int * num as int, den as int),
{
    proof {
        assert(absi(v.x as int * num as int) == absi(v.x as int) * num) by (nonlinear_arith)
            requires
                num >= 0,
        ;
        assert(absi(v.y as int * num as int) == absi(v.y as int) * num) by (nonlinear_arith)
            requires
                num >= 0,
        ;
    }
    let x = div_fp(v.x * num, den);
    let y = div_fp(v.y * num, den);
    Vec2 { x, y }
}

/// A truncating quotient is bounded by any bound on the exact quotient.
pub proof fn lemma_tdiv_le(a: int, b: int, c: int)
    requires
        b > 0,
        c >= 0,
        -c * b <= a <= c * b,
    ensures
        -c <= tdiv(a, b) <= c,
{
    assert((-c) * b == -(c * b)) by (nonlinear_arith);
    if a >= 0 {
        assert(0 <= a / b <= c) by (nonlinear_arith)
            requires
                b > 0,
                c >= 0,
                0 <= a <= c * b,
        ;
    } else {
        assert(0 <= (-a) / b <= c) by (nonlinear_arith)
            requires
                b > 0,
                c >= 0,
                0 <= -a <= c * b,
        ;
    }
}

/// A truncating quotient never flips the sign of its dividend.
pub proof fn lemma_tdiv_sign(a: int, b: int)
    requires
        b > 0,
    ensures
        a >= 0 ==> tdiv(a, b) >= 0,
        a <= 0 ==> tdiv(a, b) <= 0,
{
    if a >= 0 {
        assert(a / b >= 0) by (nonlinear_arith)
            requires
                a >= 0,
                b > 0,
        ;
    } else {
        assert((-a) / b >= 0) by (nonlinear_arith)
            requires
                -a >= 0,
                b > 0,
        ;
    }
}

} // verus!
