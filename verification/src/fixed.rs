//! Fixed-point scalars.
//!
//! Every scalar the library handles (gains, frequencies in hertz, rates in
//! one-per-second, times in seconds) is an `i64` counting millionths of its
//! unit.  `ONE` stands for 1.0, and a time of `ONE` is one second.

use vstd::prelude::*;

verus! {

/// The fixed-point representation of 1.0.
pub const ONE: i64 = 1_000_000;

/// Largest magnitude that settings may have: one million units.  Settings
/// beyond it are pulled to it before anything is computed from them, so
/// that no product of a setting and a constant of a sound leaves `i64`.
pub const LIMIT: i64 = 1_000_000_000_000;

/// Whether `v` lies within the working range `[-LIMIT, LIMIT]`.
pub open spec fn in_range(v: i64) -> bool {
    -LIMIT <= v <= LIMIT
}

/// Clamps `v` into `[lo, hi]`.
pub open spec fn clamp_spec(v: int, lo: int, hi: int) -> int {
    if v < lo {
        lo
    } else if v > hi {
        hi
    } else {
        v
    }
}

/// Clamps `v` into `[lo, hi]`.
pub fn clamp(v: i64, lo: i64, hi: i64) -> (r: i64)
    requires
        lo <= hi,
    ensures
        r == clamp_spec(v as int, lo as int, hi as int),
        lo <= r <= hi,
{
    if v < lo {
        lo
    } else if v > hi {
        hi
    } else {
        v
    }
}

/// `v` pulled into the working range.
pub open spec fn confine_spec(v: i64) -> i64 {
    clamp_spec(v as int, -LIMIT as int, LIMIT as int) as i64
}

/// Pulls `v` into the working range `[-LIMIT, LIMIT]`.
pub fn confine(v: i64) -> (r: i64)
    ensures
        r == confine_spec(v),
        in_range(r),
        in_range(v) ==> r == v,
{
    clamp(v, -LIMIT, LIMIT)
}

/// `v` pulled into the positive part of the working range.
pub open spec fn confine_positive_spec(v: i64) -> i64 {
    clamp_spec(v as int, 1, LIMIT as int) as i64
}

/// Pulls `v` into the positive part `[1, LIMIT]` of the working range.
pub fn confine_positive(v: i64) -> (r: i64)
    ensures
        r == confine_positive_spec(v),
        0 < r <= LIMIT,
        0 < v <= LIMIT ==> r == v,
{
    clamp(v, 1, LIMIT)
}

/// The product of two fixed-point numbers, rounded towards minus infinity.
pub open spec fn scale_spec(a: i64, b: i64) -> i64 {
    ((a * b) / (ONE as int)) as i64
}

/// A product of two numbers of bounded magnitude is bounded by the product of the bounds.
pub proof fn lemma_product_bounds(a: int, b: int, m: int, n: int)
    by (nonlinear_arith)
    requires
        -m <= a <= m,
        -n <= b <= n,
    ensures
        -(m * n) <= a * b <= m * n,
{
}

/// Multiplies two fixed-point numbers.
pub fn scale(a: i64, b: i64) -> (r: i64)
    requires
        in_range(a),
        in_range(b),
    ensures
        r == scale_spec(a, b),
        r == (a * b) / (ONE as int),
{
    proof {
        lemma_product_bounds(a as int, b as int, LIMIT as int, LIMIT as int);
    }
    let wide: i128 = (a as i128) * (b as i128);
    let q: i128 = if wide >= 0 || wide % 1_000_000 == 0 {
        wide / 1_000_000
    } else {
        wide / 1_000_000 - 1
    };
    q as i64
}

/// How far an oscillation of `rate` hertz is into its cycle at time `t`: a
/// fraction of a cycle, at least 0 and below `ONE`.
pub open spec fn cycle_spec(rate: i64, t: i64) -> i64 {
    (((rate * t) / (ONE as int)) % (ONE as int)) as i64
}

/// How far an oscillation of `rate` hertz is into its cycle at time `t`.
pub fn cycle(rate: i64, t: i64) -> (r: i64)
    ensures
        r == cycle_spec(rate, t),
        0 <= r < ONE,
{
    proof {
        lemma_product_bounds(
            rate as int,
            t as int,
            0x8000_0000_0000_0000,
            0x8000_0000_0000_0000,
        );
    }
    let wide: i128 = (rate as i128) * (t as i128);
    let turns: i128 = if wide >= 0 || wide % 1_000_000 == 0 {
        wide / 1_000_000
    } else {
        wide / 1_000_000 - 1
    };
    let part: i128 = if turns >= 0 {
        turns % 1_000_000
    } else {
        let m: i128 = (-turns) % 1_000_000;
        if m == 0 {
            0
        } else {
            1_000_000 - m
        }
    };
    part as i64
}

/// `x` less the whole units below it: a number that is at least 0 and below `ONE`.
pub open spec fn wrap_spec(x: i64) -> i64 {
    ((x as int) % (ONE as int)) as i64
}

/// Wraps `x` into `[0, ONE)` by taking away the whole units below it.
pub fn wrap(x: i64) -> (r: i64)
    ensures
        r == wrap_spec(x),
        0 <= r < ONE,
{
    if x >= 0 {
        x % 1_000_000
    } else {
        let wide: i128 = -(x as i128);
        let m: i128 = wide % 1_000_000;
        if m == 0 {
            0
        } else {
            (1_000_000 - m) as i64
        }
    }
}

/// The quotient of two fixed-point numbers, rounded towards minus infinity.
pub open spec fn ratio_spec(a: i64, b: i64) -> i64 {
    ((a * ONE) / (b as int)) as i64
}

/// Divides a non-negative fixed-point number by a positive one.
pub fn ratio(a: i64, b: i64) -> (r: i64)
    requires
        0 <= a <= LIMIT,
        0 < b,
    ensures
        r == ratio_spec(a, b),
        r == (a * ONE) / (b as int),
        0 <= r <= a * ONE,
{
    let wide: i64 = a * 1_000_000;
    proof {
        lemma_quotient_bounds(wide as int, b as int);
    }
    wide / b
}

/// Dividing by a positive number never increases the magnitude.
pub proof fn lemma_quotient_bounds(a: int, b: int)
    by (nonlinear_arith)
    requires
        0 < b,
    ensures
        a >= 0 ==> 0 <= a / b <= a,
        a < 0 ==> a <= a / b < 0,
{
}

/// Whether `r` is the fixed-point square root of `x`, rounded down.
pub open spec fn is_sqrt(x: int, r: int) -> bool {
    &&& 0 <= r
    &&& r * r <= x * ONE
    &&& x * ONE < (r + 1) * (r + 1)
}

/// The fixed-point square root of `x`, rounded down.
pub open spec fn sqrt_spec(x: i64) -> i64 {
    choose|r: i64| is_sqrt(x as int, r as int)
}

/// Squaring is strictly monotone on the non-negative integers.
pub proof fn lemma_square_monotone(a: int, b: int)
    by (nonlinear_arith)
    requires
        0 <= a < b,
    ensures
        a * a < b * b,
        (a + 1) * (a + 1) <= b * b,
{
}

/// At most one number is the rounded-down square root of `x`.
pub proof fn lemma_sqrt_unique(x: int, r: int, s: int)
    requires
        is_sqrt(x, r),
        is_sqrt(x, s),
    ensures
        r == s,
{
    if r < s {
        lemma_square_monotone(r, s);
    } else if s < r {
        lemma_square_monotone(s, r);
    }
}

/// The largest number whose square does not exceed `n`.
pub open spec fn floor_sqrt(n: nat) -> nat
    decreases n,
{
    if n == 0 {
        0
    } else {
        let r = floor_sqrt((n - 1) as nat);
        if (r + 1) * (r + 1) <= n {
            r + 1
        } else {
            r
        }
    }
}

/// `floor_sqrt(n)` is the largest number whose square does not exceed `n`.
pub proof fn lemma_floor_sqrt(n: nat)
    ensures
        floor_sqrt(n) * floor_sqrt(n) <= n < (floor_sqrt(n) + 1) * (floor_sqrt(n) + 1),
    decreases n,
{
    if n > 0 {
        lemma_floor_sqrt((n - 1) as nat);
        let r = floor_sqrt((n - 1) as nat) as int;
        let s = floor_sqrt(n) as int;
        if (r + 1) * (r + 1) <= n {
            assert(s == r + 1);
            assert((r + 1) * (r + 1) < (r + 1 + 1) * (r + 1 + 1)) by (nonlinear_arith)
                requires
                    r >= 0,
            ;
        } else {
            assert(s == r);
        }
    } else {
        assert(floor_sqrt(0) == 0);
        assert((0 + 1) * (0 + 1) == 1) by (nonlinear_arith);
    }
}

/// Every non-negative number of the working range has a square root.
pub proof fn lemma_sqrt_exists(x: i64)
    requires
        0 <= x <= LIMIT,
    ensures
        is_sqrt(x as int, sqrt_spec(x) as int),
{
    let n = (x * ONE) as nat;
    lemma_floor_sqrt(n);
    let r = floor_sqrt(n) as int;
    if r > 1_000_000_000 {
        lemma_square_monotone(1_000_000_000, r);
    }
    assert(is_sqrt(x as int, (r as i64) as int));
}

/// Computes the square root of a non-negative fixed-point number by bisection.
pub fn sqrt(x: i64) -> (r: i64)
    requires
        0 <= x <= LIMIT,
    ensures
        is_sqrt(x as int, r as int),
        r == sqrt_spec(x),
        0 <= r <= 1_000_000_000,
        x > 0 ==> r >= 1000,
{
    let n: i64 = x * 1_000_000;
    let mut lo: i64 = 0;
    let mut hi: i64 = 1_000_000_001;
    while hi - lo > 1
        invariant
            n == x * ONE,
            0 <= n <= 1_000_000_000_000_000_000,
            0 <= lo < hi <= 1_000_000_001,
            lo * lo <= n < hi * hi,
        decreases hi - lo,
    {
        let mid: i64 = lo + (hi - lo) / 2;
        assert(mid * mid <= 1_000_000_001 * 1_000_000_001) by (nonlinear_arith)
            requires
                0 <= mid <= 1_000_000_001,
        ;
        if mid * mid <= n {
            lo = mid;
        } else {
            hi = mid;
        }
    }
    proof {
        lemma_sqrt_unique(x as int, lo as int, sqrt_spec(x) as int);
        if x > 0 && lo < 1000 {
            lemma_square_monotone(lo as int, 1000);
        }
    }
    lo
}

} // verus!
