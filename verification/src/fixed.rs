//! Fixed-point scalars and 2D vectors.
//!
//! World distances and camera scale are stored as `i64` milli-units:
//! `FP_ONE` (1000) milli-units make one world unit, so a camera scale of
//! one-and-a-half world units per pixel is the value 1500. Keeping every
//! quantity an integer makes all editor arithmetic exact.
use vstd::prelude::*;

verus! {

/// Number of milli-units in one world unit.
pub const FP_ONE: i64 = 1000;

/// Largest magnitude a stored camera coordinate may take, in milli-units.
/// Camera updates clamp their result into `[-WORLD_LIMIT, WORLD_LIMIT]`.
pub const WORLD_LIMIT: i64 = 0x100_0000_0000;

/// Largest magnitude accepted for a world point handed in by a caller
/// (a cursor position mapped to world space), in milli-units. Points
/// produced by the cursor mapper always satisfy it.
pub const WORLD_INPUT_LIMIT: i64 = 0x400_0000_0000;

/// Largest magnitude accepted for a device (screen) coordinate, in pixels.
pub const PIXEL_LIMIT: i64 = 0x10_0000;

/// A 2D vector of fixed-point (or pixel) coordinates.
#[derive(Clone, Copy, PartialEq, Eq, Structural, Debug)]
pub struct Vec2i {
    pub x: i64,
    pub y: i64,
}

impl Vec2i {
    /// The zero vector.
    pub fn zero() -> (r: Vec2i)
        ensures
            r.x == 0 && r.y == 0,
    {
        Vec2i { x: 0, y: 0 }
    }

    /// Both coordinates bounded by `limit` in magnitude.
    pub open spec fn within(self, limit: i64) -> bool {
        -limit <= self.x <= limit && -limit <= self.y <= limit
    }
}

/// `v` forced into `[lo, hi]`.
pub open spec fn clamp_int(v: int, lo: int, hi: int) -> int {
    if v < lo {
        lo
    } else if v > hi {
        hi
    } else {
        v
    }
}

/// Integer division rounding toward zero, for a positive divisor.
/// (Verus's `/` on `int` rounds toward negative infinity; the executable
/// code follows the machine and rounds toward zero.)
pub open spec fn div_trunc(a: int, b: int) -> int
    recommends
        b > 0,
{
    if a >= 0 {
        a / b
    } else {
        -((-a) / b)
    }
}

/// Truncating division is exact on exact multiples: `(k * d) / d == k`.
pub proof fn lemma_div_trunc_exact(k: int, d: int)
    requires
        0 < d,
    ensures
        div_trunc(k * d, d) == k,
{
    if k * d >= 0 {
        if k < 0 {
            vstd::arithmetic::mul::lemma_mul_strictly_positive(-k, d);
            assert(k * d == -(-k * d)) by (nonlinear_arith);
            assert(false);
        }
        vstd::arithmetic::div_mod::lemma_div_multiples_vanish(k, d);
        assert(d * k == k * d) by (nonlinear_arith);
    } else {
        assert(-(k * d) == (-k) * d) by (nonlinear_arith);
        vstd::arithmetic::div_mod::lemma_div_multiples_vanish(-k, d);
        assert(d * (-k) == (-k) * d) by (nonlinear_arith);
    }
}

/// Executable clamp on `i64`.
pub fn clamp_i64(v: i64, lo: i64, hi: i64) -> (r: i64)
    requires
        lo <= hi,
    ensures
        r == clamp_int(v as int, lo as int, hi as int),
{
    if v < lo {
        lo
    } else if v > hi {
        hi
    } else {
        v
    }
}

/// Truncating division never grows the magnitude of the dividend.
pub proof fn lemma_div_trunc_bounds(a: int, b: int)
    requires
        0 < b,
    ensures
        a >= 0 ==> 0 <= div_trunc(a, b) <= a,
        a < 0 ==> a <= div_trunc(a, b) <= 0,
{
    if a >= 0 {
        vstd::arithmetic::div_mod::lemma_div_pos_is_pos(a, b);
        vstd::arithmetic::div_mod::lemma_div_nonincreasing(a, b);
    } else {
        vstd::arithmetic::div_mod::lemma_div_pos_is_pos(-a, b);
        vstd::arithmetic::div_mod::lemma_div_nonincreasing(-a, b);
    }
}

/// Bounds on factors bound their product.
pub proof fn lemma_mul_abs_bound(a: int, b: int, ma: int, mb: int)
    by (nonlinear_arith)
    requires
        -ma <= a <= ma,
        -mb <= b <= mb,
    ensures
        -(ma * mb) <= a * b <= ma * mb,
{
}

/// Executable truncating division, for a positive divisor.
pub fn div_trunc_i64(a: i64, b: i64) -> (r: i64)
    requires
        0 < b,
        a != i64::MIN,
    ensures
        r == div_trunc(a as int, b as int),
        a >= 0 ==> 0 <= r <= a,
        a < 0 ==> a <= r <= 0,
{
    proof {
        lemma_div_trunc_bounds(a as int, b as int);
    }
    if a >= 0 {
        let q: u64 = (a as u64) / (b as u64);
        q as i64
    } else {
        let m: u64 = (-a) as u64;
        let q: u64 = m / (b as u64);
        -(q as i64)
    }
}

} // verus!
