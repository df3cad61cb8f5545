//! Fixed-point arithmetic.
//!
//! Every physical quantity in this crate (stick deflection, degrees, pixels,
//! g) is stored as a signed integer count of millionths of its unit, so that
//! all arithmetic is exact integer arithmetic with explicit rounding.
//! Quotients are rounded toward zero, or to the nearest with ties away from
//! zero; either keeps every formula odd (`f(-x) == -f(x)`), and the first
//! lets decaying quantities reach exactly zero. Where a formula takes
//! several steps, the steps in between are carried on a finer scale, so
//! that the result is within a millionth of the exact value.

use vstd::prelude::*;

verus! {

/// The fixed-point representation of `1.0`.
pub const ONE: i64 = 1_000_000;

/// Absolute value.
pub open spec fn abs(a: int) -> int {
    if a < 0 {
        -a
    } else {
        a
    }
}

/// `a` limited to the interval `[lo, hi]`.
pub open spec fn clamp(a: int, lo: int, hi: int) -> int {
    if a < lo {
        lo
    } else if a > hi {
        hi
    } else {
        a
    }
}

/// The quotient `a / b` rounded toward zero, for a positive divisor.
pub open spec fn trunc_div(a: int, b: int) -> int
    recommends
        b > 0,
{
    if a >= 0 {
        a / b
    } else {
        -((-a) / b)
    }
}

/// The quotient `a / b` rounded to the nearest integer, ties away from zero,
/// for a positive divisor.
pub open spec fn round_div(a: int, b: int) -> int
    recommends
        b > 0,
{
    if a >= 0 {
        (2 * a + b) / (2 * b)
    } else {
        -((2 * (-a) + b) / (2 * b))
    }
}

/// A fixed-point value rounded to the nearest whole number of units, ties
/// away from zero.
pub open spec fn round_units(a: int) -> int {
    if a >= 0 {
        (a + 500_000) / 1_000_000
    } else {
        -((-a + 500_000) / 1_000_000)
    }
}

/// `r` is the integer square root of `n`: the largest `r` with `r * r <= n`.
pub open spec fn is_sqrt_floor(n: int, r: int) -> bool {
    0 <= r && r * r <= n < (r + 1) * (r + 1)
}

/// The integer square root of a non-negative `n`.
pub open spec fn sqrt_floor(n: int) -> int {
    choose|r: int| is_sqrt_floor(n, r)
}

/// Squaring is strictly monotone on the non-negative integers.
pub proof fn lemma_square_monotone(a: int, b: int)
    by (nonlinear_arith)
    requires
        0 <= a < b,
    ensures
        a * a < b * b,
{
}

/// The integer square root is unique, so any witness is `sqrt_floor(n)`.
pub proof fn lemma_sqrt_floor_unique(n: int, r: int)
    requires
        is_sqrt_floor(n, r),
    ensures
        sqrt_floor(n) == r,
{
    let s = sqrt_floor(n);
    assert(is_sqrt_floor(n, s));
    if s < r {
        lemma_square_monotone(s + 1, r + 1);
        if s + 1 < r {
            lemma_square_monotone(s + 1, r);
        }
    } else if r < s {
        lemma_square_monotone(r + 1, s + 1);
        if r + 1 < s {
            lemma_square_monotone(r + 1, s);
        }
    }
}

/// An integer lies below the square root of `n` exactly when its square lies
/// below `n`.
pub proof fn lemma_sqrt_floor_compare(n: int, r: int, t: int)
    requires
        is_sqrt_floor(n, r),
        0 <= t,
    ensures
        r < t <==> n < t * t,
        r >= t <==> n >= t * t,
{
    if r < t {
        if r + 1 < t {
            lemma_square_monotone(r + 1, t);
        }
    } else if t < r {
        lemma_square_monotone(t, r);
    }
}

/// A quotient rounded toward zero, multiplied back, misses the dividend by
/// less than the divisor.
pub proof fn lemma_trunc_div_error(a: int, b: int)
    by (nonlinear_arith)
    requires
        b > 0,
    ensures
        a - b < trunc_div(a, b) * b < a + b,
        a >= 0 ==> trunc_div(a, b) * b <= a,
        a <= 0 ==> trunc_div(a, b) * b >= a,
{
    if a >= 0 {
        assert(a == b * (a / b) + a % b);
        assert(0 <= a % b < b);
    } else {
        assert(-a == b * ((-a) / b) + (-a) % b);
        assert(0 <= (-a) % b < b);
    }
}

/// A quotient rounded toward zero is at least any integer that the exact
/// quotient is at least.
pub proof fn lemma_trunc_div_at_least(a: int, b: int, lo: int)
    by (nonlinear_arith)
    requires
        b > 0,
        lo * b <= a,
    ensures
        lo <= trunc_div(a, b),
{
    if a >= 0 {
        assert(a == b * (a / b) + a % b);
        assert(0 <= a % b < b);
        let q = a / b;
        if q < lo {
            assert((q + 1) * b <= lo * b);
        }
    } else {
        let m = -a;
        assert(m == b * (m / b) + m % b);
        assert(0 <= m % b < b);
        let q = m / b;
        if -q < lo {
            assert(q * b >= (-lo + 1) * b);
        }
    }
}

/// A quotient rounded toward zero is at most any integer that the exact
/// quotient is at most.
pub proof fn lemma_trunc_div_at_most(a: int, b: int, hi: int)
    by (nonlinear_arith)
    requires
        b > 0,
        a <= hi * b,
    ensures
        trunc_div(a, b) <= hi,
{
    if a >= 0 {
        assert(a == b * (a / b) + a % b);
        assert(0 <= a % b < b);
        let q = a / b;
        if q > hi {
            assert(q * b >= (hi + 1) * b);
        }
    } else {
        let m = -a;
        assert(m == b * (m / b) + m % b);
        assert(0 <= m % b < b);
        let q = m / b;
        if -q > hi {
            assert((q + 1) * b <= (-hi) * b);
        }
    }
}

/// Rounding toward zero keeps the order of the dividends.
pub proof fn lemma_trunc_div_monotone(a1: int, a2: int, b: int)
    requires
        b > 0,
        a1 <= a2,
    ensures
        trunc_div(a1, b) <= trunc_div(a2, b),
{
    lemma_trunc_div_error(a1, b);
    lemma_trunc_div_error(a2, b);
    if a1 >= 0 {
        lemma_trunc_div_at_least(a2, b, trunc_div(a1, b));
    } else if a2 >= 0 {
        lemma_trunc_div_at_most(a1, b, 0);
        lemma_trunc_div_at_least(a2, b, 0);
    } else {
        lemma_trunc_div_at_most(a1, b, trunc_div(a2, b));
    }
}

/// A quotient rounded toward zero stays between integer bounds of the exact
/// quotient.
pub proof fn lemma_trunc_div_between(a: int, b: int, lo: int, hi: int)
    requires
        b > 0,
        lo * b <= a <= hi * b,
    ensures
        lo <= trunc_div(a, b) <= hi,
{
    lemma_trunc_div_at_least(a, b, lo);
    lemma_trunc_div_at_most(a, b, hi);
}

/// A quotient rounded to the nearest integer misses the exact quotient by at
/// most a half, and stays between integer bounds of the exact quotient.
pub proof fn lemma_round_div_bounds(a: int, b: int, lo: int, hi: int)
    by (nonlinear_arith)
    requires
        b > 0,
        lo * b <= a <= hi * b,
    ensures
        lo <= round_div(a, b) <= hi,
        -b <= 2 * (round_div(a, b) * b - a) <= b,
        a == 0 ==> round_div(a, b) == 0,
{
    if a >= 0 {
        let n = 2 * a + b;
        let d = 2 * b;
        let q = n / d;
        assert(n == d * q + n % d);
        assert(0 <= n % d < d);
        if q > hi {
            assert(q * d >= (hi + 1) * d);
        }
        if q < lo {
            assert((q + 1) * d <= lo * d);
        }
    } else {
        let n = 2 * (-a) + b;
        let d = 2 * b;
        let q = n / d;
        assert(n == d * q + n % d);
        assert(0 <= n % d < d);
        if -q < lo {
            assert(q * d >= (-lo + 1) * d);
        }
        if -q > hi {
            assert((q + 1) * d <= (-hi) * d);
        }
    }
}

/// Rounding to the nearest unit leaves a remainder of at most half a unit.
pub proof fn lemma_round_units_remainder(a: int)
    ensures
        -500_000 <= a - round_units(a) * 1_000_000 <= 500_000,
{
}

/// The integer square root of `n`.
pub fn isqrt(n: u64) -> (r: u32)
    ensures
        is_sqrt_floor(n as int, r as int),
        r as int == sqrt_floor(n as int),
{
    let mut lo: u64 = 0;
    let mut hi: u64 = 0x1_0000_0000;
    assert(n < hi * hi) by (nonlinear_arith)
        requires
            hi == 0x1_0000_0000,
            n <= 0xffff_ffff_ffff_ffff,
    ;
    while hi - lo > 1
        invariant
            lo < hi <= 0x1_0000_0000,
            lo * lo <= n < hi * hi,
        decreases hi - lo,
    {
        let mid: u64 = lo + (hi - lo) / 2;
        assert(mid * mid <= 0xffff_ffff * 0xffff_ffff) by (nonlinear_arith)
            requires
                0 <= mid <= 0xffff_ffff,
        ;
        if mid * mid <= n {
            lo = mid;
        } else {
            hi = mid;
        }
    }
    proof {
        assert(hi == lo + 1);
        lemma_sqrt_floor_unique(n as int, lo as int);
    }
    lo as u32
}

/// The integer square root of a wide `n`.
pub fn isqrt_wide(n: u128) -> (r: u64)
    ensures
        is_sqrt_floor(n as int, r as int),
        r as int == sqrt_floor(n as int),
{
    let mut lo: u128 = 0;
    let mut hi: u128 = 0x1_0000_0000_0000_0000;
    assert(n < hi * hi) by (nonlinear_arith)
        requires
            hi == 0x1_0000_0000_0000_0000,
            n <= 0xffff_ffff_ffff_ffff_ffff_ffff_ffff_ffff,
    ;
    while hi - lo > 1
        invariant
            lo < hi <= 0x1_0000_0000_0000_0000,
            lo * lo <= n < hi * hi,
        decreases hi - lo,
    {
        let mid: u128 = lo + (hi - lo) / 2;
        assert(mid * mid <= 0xffff_ffff_ffff_ffff * 0xffff_ffff_ffff_ffff) by (nonlinear_arith)
            requires
                0 <= mid <= 0xffff_ffff_ffff_ffff,
        ;
        if mid * mid <= n {
            lo = mid;
        } else {
            hi = mid;
        }
    }
    proof {
        assert(hi == lo + 1);
        lemma_sqrt_floor_unique(n as int, lo as int);
    }
    lo as u64
}

/// `a` rounded to the nearest whole number of units, ties away from zero.
pub fn round_to_units(a: i64) -> (r: i64)
    ensures
        r == round_units(a as int),
{
    let half: i128 = 500_000;
    let wide: i128 = a as i128;
    let r: i128 = if wide >= 0 {
        (wide + half) / 1_000_000
    } else {
        -((-wide + half) / 1_000_000)
    };
    r as i64
}

} // verus!
