//! Fixed-point scalar arithmetic: the whole simulation works on `i64`
//! values holding thousandths of a unit (world units for lengths,
//! radians for angles). This module provides the truncating division the
//! integrator relies on, an exact integer square root for distances, and
//! a polynomial fixed-point sine used for headings and gait curves.

use vstd::prelude::*;

verus! {

/// Fixed-point one: all scalars are counted in thousandths.
pub const SCALE: i64 = 1000;

/// Fixed-point pi, in milliradians.
pub const PI_FP: i64 = 3142;

/// Fixed-point pi/2, in milliradians.
pub const HALF_PI_FP: i64 = 1571;

/// Fixed-point 2*pi, in milliradians: one full turn.
pub const TAU_FP: i64 = 6284;

/// Truncating division (round toward zero), the behaviour of `/` on the
/// machine integers the simulation runs on; `b` must be positive.
pub open spec fn tdiv(a: int, b: int) -> int {
    if a >= 0 {
        a / b
    } else {
        -((-a) / b)
    }
}

/// The square of an integer.
pub open spec fn sq(x: int) -> int {
    x * x
}

/// Largest integer whose square does not exceed `n` (0 for negative `n`).
pub open spec fn sqrt_floor(n: int) -> int
    decreases n,
{
    if n <= 0 {
        0
    } else {
        let r = sqrt_floor(n - 1);
        if sq(r + 1) <= n {
            r + 1
        } else {
            r
        }
    }
}

/// `sqrt_floor(n)` is the floor of the square root: it is nonnegative,
/// its square is at most `n`, and the next square is beyond `n`.
pub proof fn lemma_sqrt_floor_props(n: int)
    requires
        n >= 0,
    ensures
        sqrt_floor(n) >= 0,
        sq(sqrt_floor(n)) <= n,
        n < sq(sqrt_floor(n) + 1),
    decreases n,
{
    if n > 0 {
        lemma_sqrt_floor_props(n - 1);
        let r = sqrt_floor(n - 1);
        assert(sq(r) <= n - 1 < sq(r + 1));
        if sq(r + 1) <= n {
            assert(n - 1 < sq(r + 1));
            assert(n < sq(r + 2)) by (nonlinear_arith)
                requires
                    r >= 0,
                    n <= sq(r + 1),
            ;
        }
    }
}

/// Any nonnegative `r` with `r*r <= n < (r+1)*(r+1)` is `sqrt_floor(n)`.
pub proof fn lemma_sqrt_floor_unique(n: int, r: int)
    requires
        n >= 0,
        r >= 0,
        sq(r) <= n,
        n < sq(r + 1),
    ensures
        r == sqrt_floor(n),
{
    lemma_sqrt_floor_props(n);
    let s = sqrt_floor(n);
    assert(r == s) by (nonlinear_arith)
        requires
            r >= 0,
            s >= 0,
            sq(r) <= n,
            n < sq(r + 1),
            sq(s) <= n,
            n < sq(s + 1),
    ;
}

/// The floor square root never decreases when its argument grows.
pub proof fn lemma_sqrt_floor_monotonic(m: int, n: int)
    requires
        0 <= m <= n,
    ensures
        sqrt_floor(m) <= sqrt_floor(n),
{
    lemma_sqrt_floor_props(m);
    lemma_sqrt_floor_props(n);
    let a = sqrt_floor(m);
    let b = sqrt_floor(n);
    assert(a <= b) by (nonlinear_arith)
        requires
            a >= 0,
            b >= 0,
            sq(a) <= m,
            m <= n,
            n < sq(b + 1),
    ;
}

/// The floor square root of a perfect square is its root.
pub proof fn lemma_sqrt_floor_square(r: int)
    requires
        r >= 0,
    ensures
        sqrt_floor(sq(r)) == r,
{
    assert(sq(r) <= sq(r));
    assert(sq(r) < sq(r + 1)) by (nonlinear_arith)
        requires
            r >= 0,
    ;
    lemma_sqrt_floor_unique(sq(r), r);
}

/// Integer square root by bisection.
pub fn isqrt_u64(n: u64) -> (r: u64)
    ensures
        r == sqrt_floor(n as int),
        r < 0x1_0000_0000,
{
    let mut lo: u64 = 0;
    let mut hi: u64 = 0x1_0000_0000;
    while hi - lo > 1
        invariant
            lo < hi <= 0x1_0000_0000,
            sq(lo as int) <= n as int,
            (n as int) < sq(hi as int),
        decreases hi - lo,
    {
        let mid = lo + (hi - lo) / 2;
        proof {
            assert(mid < 0x1_0000_0000);
            assert(mid * mid <= 0xFFFF_FFFF * 0xFFFF_FFFF) by (nonlinear_arith)
                requires
                    mid <= 0xFFFF_FFFFu64,
            ;
        }
        if mid * mid <= n {
            lo = mid;
        } else {
            hi = mid;
        }
    }
    proof {
        assert(hi == lo + 1);
        lemma_sqrt_floor_unique(n as int, lo as int);
    }
    lo
}

/// Integer square root of a nonnegative `i64`.
pub fn isqrt_i64(n: i64) -> (r: i64)
    requires
        n >= 0,
    ensures
        r == sqrt_floor(n as int),
        0 <= r < 0x1_0000_0000,
{
    let r = isqrt_u64(n as u64);
    r as i64
}

/// Truncating division of a scalar by a positive divisor.
pub fn div_fp(a: i64, b: i64) -> (r: i64)
    requires
        b > 0,
        a > i64::MIN,
    ensures
        r == tdiv(a as int, b as int),
{
    if a >= 0 {
        ((a as u64) / (b as u64)) as i64
    } else {
        let m = (-a) as u64;
        let q = m / (b as u64);
        -(q as i64)
    }
}

/// Clamp a scalar into `[lo, hi]`.
pub fn clamp_fp(x: i64, lo: i64, hi: i64) -> (r: i64)
    requires
        lo <= hi,
    ensures
        r == if x < lo { lo } else if x > hi { hi } else { x },
        lo <= r <= hi,
{
    if x < lo {
        lo
    } else if x > hi {
        hi
    } else {
        x
    }
}

/// Fixed-point sine on the half turn `[0, PI_FP]`, by the classical
/// rational approximation `16x(pi-x) / (5 pi^2 - 4x(pi-x))`, scaled to
/// thousandths. This formula is the library's definition of its sine.
pub open spec fn sin_half(x: int) -> int
    recommends
        0 <= x <= PI_FP as int,
{
    let u = x * (PI_FP as int - x);
    (16 * u * (SCALE as int)) / (5 * (PI_FP as int) * (PI_FP as int) - 4 * u)
}

/// Fixed-point sine on a full turn `[0, TAU_FP)`: the second half turn
/// mirrors the first with opposite sign.
pub open spec fn sin_fp_spec(a: int) -> int
    recommends
        0 <= a < TAU_FP as int,
{
    if a <= PI_FP as int {
        sin_half(a)
    } else {
        -sin_half(a - PI_FP as int)
    }
}

/// Fixed-point cosine: sine a quarter turn ahead.
pub open spec fn cos_fp_spec(a: int) -> int
    recommends
        0 <= a < TAU_FP as int,
{
    if a + HALF_PI_FP < TAU_FP {
        sin_fp_spec(a + HALF_PI_FP)
    } else {
        sin_fp_spec(a + HALF_PI_FP - TAU_FP)
    }
}

/// The product `x * (PI_FP - x)` stays within `[0, HALF_PI_FP^2]` on the
/// half turn.
proof fn lemma_sin_half_core(x: int)
    requires
        0 <= x <= PI_FP as int,
    ensures
        0 <= x * (PI_FP as int - x),
        x * (PI_FP as int - x) <= 2_468_041,
{
    assert(0 <= x * (3142 - x) && x * (3142 - x) <= 2_468_041) by (nonlinear_arith)
        requires
            0 <= x <= 3142,
    ;
}

fn sin_half_exec(x: i64) -> (r: i64)
    requires
        0 <= x <= PI_FP,
    ensures
        r == sin_half(x as int),
        0 <= r <= SCALE,
{
    proof {
        lemma_sin_half_core(x as int);
    }
    let u = x * (PI_FP - x);
    let num = 16 * u * SCALE;
    let den = 5 * PI_FP * PI_FP - 4 * u;
    let r = ((num as u64) / (den as u64)) as i64;
    proof {
        assert(r <= SCALE) by (nonlinear_arith)
            requires
                num >= 0,
                den > 0,
                num <= (SCALE as int) * den,
                r == num as int / den as int,
        ;
    }
    r
}

/// Fixed-point sine of an angle in `[0, TAU_FP)`.
pub fn sin_fp(a: i64) -> (r: i64)
    requires
        0 <= a < TAU_FP,
    ensures
        r == sin_fp_spec(a as int),
        -SCALE <= r <= SCALE,
{
    if a <= PI_FP {
        sin_half_exec(a)
    } else {
        let s = sin_half_exec(a - PI_FP);
        -s
    }
}

/// Fixed-point cosine of an angle in `[0, TAU_FP)`.
pub fn cos_fp(a: i64) -> (r: i64)
    requires
        0 <= a < TAU_FP,
    ensures
        r == cos_fp_spec(a as int),
        -SCALE <= r <= SCALE,
{
    let b = a + HALF_PI_FP;
    if b < TAU_FP {
        sin_fp(b)
    } else {
        sin_fp(b - TAU_FP)
    }
}

/// What wrapping an angle one step past either end of `[0, TAU_FP)`
/// brings it back to.
pub open spec fn wrap_angle_spec(a: int) -> int
    recommends
        -(TAU_FP as int) < a < 2 * TAU_FP as int,
{
    if a < 0 {
        a + TAU_FP as int
    } else if a >= TAU_FP as int {
        a - TAU_FP as int
    } else {
        a
    }
}

/// Wrap an angle that drifted at most one turn out of range back into
/// `[0, TAU_FP)`.
pub fn wrap_angle(a: i64) -> (r: i64)
    requires
        -TAU_FP < a < 2 * TAU_FP,
    ensures
        r == wrap_angle_spec(a as int),
        0 <= r < TAU_FP,
{
    if a < 0 {
        a + TAU_FP
    } else if a >= TAU_FP {
        a - TAU_FP
    } else {
        a
    }
}

/// Fixed-point arctangent of a ratio within the first octant (`q` in
/// thousandths of one), by the quadratic approximation
/// `atan(z) = (pi/4) z + 0.285 z (1 - z)`, in milliradians. This formula
/// is the library's definition of its arctangent.
pub open spec fn atan_unit_spec(q: int) -> int
    recommends
        0 <= q <= 1000,
{
    tdiv(785 * q, 1000) + tdiv(285 * q * (1000 - q), 1_000_000)
}

fn atan_unit(q: i64) -> (r: i64)
    requires
        0 <= q <= 1000,
    ensures
        r == atan_unit_spec(q as int),
        0 <= r <= 860,
{
    proof {
        assert(0 <= 285 * (q as int) * (1000 - q as int) <= 72_000_000) by (nonlinear_arith)
            requires
                0 <= q <= 1000,
        ;
        crate::vec2::lemma_tdiv_le(285 * (q as int) * (1000 - q as int), 1_000_000, 72);
    }
    let first = ((785 * q) as u64 / 1000u64) as i64;
    let second = ((285 * q * (1000 - q)) as u64 / 1_000_000u64) as i64;
    first + second
}

/// Fixed-point planar angle of the vector `(x, y)` against the positive
/// horizontal axis, in milliradians within `[-PI_FP, PI_FP]`: octant
/// reduction over [`atan_unit_spec`]. The zero vector maps to zero.
pub open spec fn atan2_spec(y: int, x: int) -> int {
    let ax = if x < 0 {
        -x
    } else {
        x
    };
    let ay = if y < 0 {
        -y
    } else {
        y
    };
    if ax == 0 && ay == 0 {
        0
    } else {
        let base = if ay <= ax {
            atan_unit_spec(tdiv(ay * 1000, ax))
        } else {
            HALF_PI_FP as int - atan_unit_spec(tdiv(ax * 1000, ay))
        };
        let mag = if x >= 0 {
            base
        } else {
            PI_FP as int - base
        };
        if y < 0 {
            -mag
        } else {
            mag
        }
    }
}

/// Fixed-point planar angle of a vector, in milliradians within
/// `[-PI_FP, PI_FP]`.
pub fn atan2_fp(y: i64, x: i64) -> (r: i64)
    requires
        -1_000_000_000_000 <= x <= 1_000_000_000_000,
        -1_000_000_000_000 <= y <= 1_000_000_000_000,
    ensures
        r == atan2_spec(y as int, x as int),
        -PI_FP <= r <= PI_FP,
{
    let ax = if x < 0 {
        -x
    } else {
        x
    };
    let ay = if y < 0 {
        -y
    } else {
        y
    };
    if ax == 0 && ay == 0 {
        return 0;
    }
    let base = if ay <= ax {
        proof {
            assert(0 <= ay * 1000 <= 1000 * (ax as int)) by (nonlinear_arith)
                requires
                    0 <= ay <= ax,
            ;
            crate::vec2::lemma_tdiv_le(ay as int * 1000, ax as int, 1000);
            crate::vec2::lemma_tdiv_sign(ay as int * 1000, ax as int);
        }
        let q = ((ay * 1000) as u64 / (ax as u64)) as i64;
        atan_unit(q)
    } else {
        proof {
            assert(0 <= ax * 1000 <= 1000 * (ay as int)) by (nonlinear_arith)
                requires
                    0 <= ax <= ay,
            ;
            crate::vec2::lemma_tdiv_le(ax as int * 1000, ay as int, 1000);
            crate::vec2::lemma_tdiv_sign(ax as int * 1000, ay as int);
        }
        let q = ((ax * 1000) as u64 / (ay as u64)) as i64;
        HALF_PI_FP - atan_unit(q)
    };
    let mag = if x >= 0 {
        base
    } else {
        PI_FP - base
    };
    if y < 0 {
        -mag
    } else {
        mag
    }
}

} // verus!
