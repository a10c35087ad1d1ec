//! Fixed-point scalar arithmetic.
//!
//! Every physical quantity in this library (positions, speeds, angles,
//! rewards, table values, network weights) is a signed 64-bit integer
//! counting thousandths of a unit, so one unit is `SCALE` and the value
//! `1500` reads as `1.5`.  All operations are exact integer arithmetic
//! with Euclidean (floor-towards-minus-infinity for positive divisors)
//! rounding, so every computation in the library is a total,
//! deterministic function of its inputs.
use vstd::prelude::*;

verus! {

use vstd::arithmetic::div_mod::lemma_fundamental_div_mod;

/// Number of fixed-point steps per physical unit.
pub const SCALE: i64 = 1000;

/// Largest magnitude a state component (position, speed, coordinate)
/// may take; environment updates saturate here instead of overflowing.
pub const RANGE_LIMIT: i64 = 1_000_000_000;

/// Largest magnitude accepted by `fx_mul`; chosen so the intermediate
/// product of two operands always fits in an `i64`.
pub const FX_LIMIT: i64 = 2_000_000_000;

/// Milli-radian approximation of pi; angles live on a circle of
/// circumference `TAU_M`.
pub const PI_M: i64 = 3142;

/// Milli-radian approximation of pi/2.
pub const HALF_PI_M: i64 = 1571;

/// Milli-radian approximation of 2*pi.
pub const TAU_M: i64 = 6284;

/// Clamp `x` into the closed interval `[lo, hi]`.
pub open spec fn clamp_spec(x: int, lo: int, hi: int) -> int {
    if x < lo {
        lo
    } else if x > hi {
        hi
    } else {
        x
    }
}

/// Clamp a state component into the representable physical range.
pub open spec fn sat_spec(x: int) -> int {
    clamp_spec(x, -(RANGE_LIMIT as int), RANGE_LIMIT as int)
}

/// The fixed-point product: the mathematical product rescaled back to
/// thousandths, rounded towards minus infinity.
pub open spec fn fx_mul_spec(a: int, b: int) -> int {
    (a * b) / (SCALE as int)
}

/// The fixed-point quotient `a / b` in thousandths, rounded towards
/// minus infinity (callers normalize `b` to be positive).
pub open spec fn fx_div_spec(a: int, b: int) -> int {
    (a * (SCALE as int)) / b
}

/// Euclidean division by a positive divisor.  The quotient of any
/// `i64` by a divisor `>= 1` stays within `i64`, so no bound on `p`
/// is needed.
pub fn div_pos(p: i64, b: i64) -> (q: i64)
    requires
        b >= 1,
    ensures
        q == p as int / b as int,
{
    proof {
        lemma_fundamental_div_mod(p as int, b as int);
        let qq = p as int / b as int;
        let rr = p as int % b as int;
        assert(p <= qq <= 0 || 0 <= qq <= p) by (nonlinear_arith)
            requires
                p as int == b as int * qq + rr,
                0 <= rr < b,
                b >= 1,
        ;
    }
    let r = p.checked_div_euclid(b);
    r.unwrap()
}

/// Euclidean remainder by a positive divisor.
pub fn rem_pos(p: i64, b: i64) -> (r: i64)
    requires
        b >= 1,
    ensures
        r == p as int % b as int,
        0 <= r < b,
{
    let r = p.checked_rem_euclid(b);
    r.unwrap()
}

/// Fixed-point multiplication of two bounded operands.
pub fn fx_mul(a: i64, b: i64) -> (r: i64)
    requires
        -FX_LIMIT <= a <= FX_LIMIT,
        -FX_LIMIT <= b <= FX_LIMIT,
    ensures
        r == fx_mul_spec(a as int, b as int),
        -4_000_000_000_000_000 <= r <= 4_000_000_000_000_000,
{
    proof {
        assert(-4_000_000_000_000_000_000 <= a as int * b as int <= 4_000_000_000_000_000_000)
            by (nonlinear_arith)
            requires
                -FX_LIMIT <= a <= FX_LIMIT,
                -FX_LIMIT <= b <= FX_LIMIT,
        ;
    }
    let p = a * b;
    div_pos(p, SCALE)
}

/// Fixed-point division by a positive divisor.
pub fn fx_div(a: i64, b: i64) -> (r: i64)
    requires
        b >= 1,
        -4_000_000_000_000_000 <= a <= 4_000_000_000_000_000,
    ensures
        r == fx_div_spec(a as int, b as int),
{
    let p = a * SCALE;
    div_pos(p, b)
}

/// Clamp `x` into `[lo, hi]`.
pub fn clamp(x: i64, lo: i64, hi: i64) -> (r: i64)
    requires
        lo <= hi,
    ensures
        r == clamp_spec(x as int, lo as int, hi as int),
{
    if x < lo {
        lo
    } else if x > hi {
        hi
    } else {
        x
    }
}

/// Saturate a state component at the representable physical range.
pub fn sat(x: i64) -> (r: i64)
    ensures
        r == sat_spec(x as int),
        -RANGE_LIMIT <= r <= RANGE_LIMIT,
{
    clamp(x, -RANGE_LIMIT, RANGE_LIMIT)
}

/// Rational sine approximation on `[0, PI_M]`, in thousandths: the
/// classical `16 x (pi - x) / (5 pi^2 - 4 x (pi - x))` formula carried
/// out over the milli-radian circle.  It is exactly `0` at `0` and
/// `PI_M` and exactly `SCALE` at `HALF_PI_M`.
pub open spec fn bhaskara_spec(x: int) -> int {
    let y = x * (PI_M - x);
    // 49_360_820 == 5 * PI_M * PI_M
    (16_000 * y) / (49_360_820 - 4 * y)
}

/// Sine of a milli-radian angle, in thousandths, for any angle: the
/// angle is first reduced into `[0, TAU_M)`.
pub open spec fn fx_sin_spec(a: int) -> int {
    let m = a % (TAU_M as int);
    if m <= PI_M {
        bhaskara_spec(m)
    } else {
        -bhaskara_spec(m - PI_M)
    }
}

/// Cosine of a milli-radian angle, in thousandths.
pub open spec fn fx_cos_spec(a: int) -> int {
    fx_sin_spec(a + HALF_PI_M as int)
}

/// Sine approximation on the first half turn.
pub fn bhaskara(x: i64) -> (r: i64)
    requires
        0 <= x <= PI_M,
    ensures
        r == bhaskara_spec(x as int),
        0 <= r <= SCALE,
{
    proof {
        assert(0 <= x as int * (PI_M - x) as int <= 2_468_041) by (nonlinear_arith)
            requires
                0 <= x <= 3142,
        ;
    }
    let y = x * (PI_M - x);
    let num = 16_000 * y;
    let den = 49_360_820 - 4 * y;
    let q = div_pos(num, den);
    proof {
        vstd::arithmetic::div_mod::lemma_div_pos_is_pos(num as int, den as int);
        assert(num <= 1000 * (den as int));
        vstd::arithmetic::div_mod::lemma_div_is_ordered(
            num as int,
            1000 * (den as int),
            den as int,
        );
        vstd::arithmetic::div_mod::lemma_div_multiples_vanish(1000, den as int);
    }
    q
}

/// Sine of a milli-radian angle.
pub fn fx_sin(a: i64) -> (r: i64)
    requires
        -1_000_000_000 <= a <= 1_000_000_000,
    ensures
        r == fx_sin_spec(a as int),
        -SCALE <= r <= SCALE,
{
    let m = rem_pos(a, TAU_M);
    if m <= PI_M {
        bhaskara(m)
    } else {
        let v = bhaskara(m - PI_M);
        -v
    }
}

/// Cosine of a milli-radian angle.
pub fn fx_cos(a: i64) -> (r: i64)
    requires
        -999_000_000 <= a <= 999_000_000,
    ensures
        r == fx_cos_spec(a as int),
        -SCALE <= r <= SCALE,
{
    fx_sin(a + HALF_PI_M)
}

/// Integer square root: the greatest `r` with `r * r <= n`.
pub open spec fn is_isqrt(n: int, r: int) -> bool {
    &&& 0 <= r
    &&& r * r <= n
    &&& n < (r + 1) * (r + 1)
}

/// The integer square root as a spec-level value; `lemma_isqrt_exists`
/// shows it is well defined for every nonnegative operand.
pub open spec fn isqrt_spec(n: int) -> int {
    choose|r: int| is_isqrt(n, r)
}

/// Every nonnegative integer has an integer square root, so
/// `isqrt_spec` satisfies `is_isqrt`.
pub proof fn lemma_isqrt_exists(n: int)
    requires
        n >= 0,
    ensures
        is_isqrt(n, isqrt_spec(n)),
    decreases n,
{
    if n == 0 {
        assert(is_isqrt(0, 0));
    } else {
        lemma_isqrt_exists(n - 1);
        let r = isqrt_spec(n - 1);
        if (r + 1) * (r + 1) <= n {
            assert(is_isqrt(n, r + 1)) by (nonlinear_arith)
                requires
                    is_isqrt(n - 1, r),
                    (r + 1) * (r + 1) <= n,
            ;
        } else {
            assert(is_isqrt(n, r));
        }
    }
}

/// The integer square root is unique.
pub proof fn lemma_isqrt_unique(n: int, r1: int, r2: int)
    requires
        is_isqrt(n, r1),
        is_isqrt(n, r2),
    ensures
        r1 == r2,
{
    assert(r1 == r2) by (nonlinear_arith)
        requires
            0 <= r1 && r1 * r1 <= n && n < (r1 + 1) * (r1 + 1),
            0 <= r2 && r2 * r2 <= n && n < (r2 + 1) * (r2 + 1),
    ;
}

/// Integer square root of a bounded operand, by binary search.
pub fn isqrt(n: u64) -> (r: u64)
    requires
        n <= 4_000_000_000_000,
    ensures
        is_isqrt(n as int, r as int),
        r == isqrt_spec(n as int),
        r <= 2_000_000,
{
    let mut lo: u64 = 0;
    let mut hi: u64 = 2_000_001;
    proof {
        assert(n < 2_000_001 as int * 2_000_001 as int) by (nonlinear_arith)
            requires
                n <= 4_000_000_000_000,
        ;
    }
    while lo + 1 < hi
        invariant
            lo < hi,
            hi <= 2_000_001,
            lo as int * lo as int <= n,
            n < hi as int * hi as int,
            n <= 4_000_000_000_000,
        decreases hi - lo,
    {
        let mid = lo + (hi - lo) / 2;
        proof {
            assert(0 <= mid as int * mid as int <= 4_100_000_000_000_0) by (nonlinear_arith)
                requires
                    mid <= 2_000_001,
            ;
        }
        if mid * mid <= n {
            lo = mid;
        } else {
            hi = mid;
        }
    }
    proof {
        assert(is_isqrt(n as int, lo as int));
        lemma_isqrt_exists(n as int);
        lemma_isqrt_unique(n as int, lo as int, isqrt_spec(n as int));
    }
    lo
}

/// A two-dimensional fixed-point vector.
#[derive(Clone, Copy, Debug, PartialEq, Eq, Structural)]
pub struct Vec2 {
    /// Horizontal component, in thousandths of a unit.
    pub x: i64,
    /// Vertical component, in thousandths of a unit.
    pub y: i64,
}

} // verus!
