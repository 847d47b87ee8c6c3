//! Fixed-point arithmetic on millionths.

use vstd::prelude::*;

verus! {

/// One whole pixel, second or scale factor, in millionths.
pub const UNIT: i64 = 1_000_000;

/// Bound on coordinates (2^60): two values within it add without overflow.
pub const COORD_LIMIT: i64 = 1_152_921_504_606_846_976;

/// Bound on per-second rates (2^40): a rate within it, integrated over any
/// frame time, stays far inside `COORD_LIMIT`.
pub const RATE_LIMIT: i64 = 1_099_511_627_776;

/// The absolute value.
pub open spec fn magnitude(a: int) -> int {
    if a < 0 {
        -a
    } else {
        a
    }
}

/// Division that rounds toward zero, for a positive divisor.
pub open spec fn trunc_div(a: int, b: int) -> int
    recommends
        b > 0,
{
    if a >= 0 {
        a / b
    } else {
        -((-a) / b)
    }
}

/// What a quantity changing at `rate` per second gains over `dt` microseconds.
pub open spec fn over_time(rate: int, dt: int) -> int {
    trunc_div(rate * dt, UNIT as int)
}

/// The nearest value that an `i64` can hold.
pub open spec fn saturate(a: int) -> int {
    if a < i64::MIN {
        i64::MIN as int
    } else if a > i64::MAX {
        i64::MAX as int
    } else {
        a
    }
}

/// `n` is the least natural number whose square reaches `s`.
pub open spec fn is_ceil_sqrt(s: int, n: int) -> bool {
    &&& 0 <= n
    &&& s <= n * n
    &&& n == 0 || (n - 1) * (n - 1) < s
}

/// The square root of `s`, rounded up.
pub open spec fn ceil_sqrt(s: int) -> int {
    choose|n: int| is_ceil_sqrt(s, n)
}

/// Squaring is strictly monotone on the natural numbers.
pub proof fn lemma_square_strictly_monotone(a: int, b: int)
    by (nonlinear_arith)
    requires
        0 <= a < b,
    ensures
        a * a < b * b,
{
}

/// At most one number is the rounded-up square root of `s`.
pub proof fn lemma_ceil_sqrt_unique(s: int, a: int, b: int)
    requires
        is_ceil_sqrt(s, a),
        is_ceil_sqrt(s, b),
    ensures
        a == b,
{
    if a < b {
        // a <= b - 1, so a * a <= (b - 1) * (b - 1) < s <= a * a
        if a < b - 1 {
            lemma_square_strictly_monotone(a, b - 1);
        }
    } else if b < a {
        if b < a - 1 {
            lemma_square_strictly_monotone(b, a - 1);
        }
    }
}

/// Every natural number has a rounded-up square root.
pub proof fn lemma_ceil_sqrt_exists(s: int)
    requires
        0 <= s,
    ensures
        is_ceil_sqrt(s, ceil_sqrt(s)),
    decreases s,
{
    if s == 0 {
        assert(is_ceil_sqrt(s, 0));
    } else {
        lemma_ceil_sqrt_exists(s - 1);
        let n = ceil_sqrt(s - 1);
        if s <= n * n {
            assert(is_ceil_sqrt(s, n));
        } else {
            assert((n + 1) * (n + 1) == n * n + 2 * n + 1) by (nonlinear_arith);
            assert(is_ceil_sqrt(s, n + 1));
        }
    }
}

/// A product and its quotient by `UNIT` keep the sign of the rate and never
/// exceed the rate's bound times the elapsed time.
pub proof fn lemma_over_time_bounds(rate: int, dt: int, bound: int)
    requires
        0 <= dt,
        magnitude(rate) <= bound,
    ensures
        rate >= 0 ==> 0 <= over_time(rate, dt),
        rate <= 0 ==> over_time(rate, dt) <= 0,
        magnitude(over_time(rate, dt)) * UNIT <= bound * dt,
        magnitude(over_time(rate, dt)) * UNIT <= magnitude(rate) * dt,
        magnitude(rate) * dt < magnitude(over_time(rate, dt)) * UNIT + UNIT,
{
    let m = magnitude(rate);
    assert(0 <= m * dt <= bound * dt) by (nonlinear_arith)
        requires
            0 <= m <= bound,
            0 <= dt,
    ;
    if rate == 0 {
        assert(rate * dt == 0) by (nonlinear_arith)
            requires
                rate == 0,
        ;
    } else if rate > 0 {
        assert(rate * dt == m * dt);
    } else {
        assert(-(rate * dt) == m * dt) by (nonlinear_arith)
            requires
                m == -rate,
        ;
        assert(rate * dt <= 0);
    }
}

/// Adds two numbers, stopping at the ends of the `i64` range.
pub fn saturating_sum(a: i64, b: i64) -> (r: i64)
    ensures
        r == saturate(a + b),
{
    let wide: i128 = a as i128 + b as i128;
    if wide < i64::MIN as i128 {
        i64::MIN
    } else if wide > i64::MAX as i128 {
        i64::MAX
    } else {
        wide as i64
    }
}

/// Integrates a per-second rate over a frame time given in microseconds.
pub fn elapsed(rate: i64, dt: u32) -> (r: i64)
    requires
        -RATE_LIMIT <= rate <= RATE_LIMIT,
    ensures
        r == over_time(rate as int, dt as int),
{
    proof {
        lemma_over_time_bounds(rate as int, dt as int, RATE_LIMIT as int);
    }
    assert(-0x1_0000_0000_0000_0000_0000 <= rate * dt <= 0x1_0000_0000_0000_0000_0000)
        by (nonlinear_arith)
        requires
            -0x100_0000_0000 <= rate <= 0x100_0000_0000,
            0 <= dt <= 0xffff_ffff,
    ;
    let product: i128 = rate as i128 * dt as i128;
    let quotient: i128 = product / (UNIT as i128);
    quotient as i64
}

/// The square root of `s`, rounded up, found by bisection.
pub fn isqrt_ceil(s: u128) -> (n: u128)
    ensures
        n == ceil_sqrt(s as int),
        is_ceil_sqrt(s as int, n as int),
        n <= 0x1_0000_0000_0000_0000,
{
    let mut lo: u128 = 0;
    let mut hi: u128 = 0x1_0000_0000_0000_0000;
    assert(0x1_0000_0000_0000_0000int * 0x1_0000_0000_0000_0000int
        == 0x1_0000_0000_0000_0000_0000_0000_0000_0000int) by (nonlinear_arith);
    while lo < hi
        invariant
            lo <= hi <= 0x1_0000_0000_0000_0000,
            s <= hi * hi,
            lo == 0 || (lo - 1) * (lo - 1) < s,
        decreases hi - lo,
    {
        let mid: u128 = lo + (hi - lo) / 2;
        assert(mid * mid <= 0xffff_ffff_ffff_ffff_ffff_ffff_ffff_ffff) by (nonlinear_arith)
            requires
                mid <= 0xffff_ffff_ffff_ffff,
        ;
        if mid * mid >= s {
            hi = mid;
        } else {
            lo = mid + 1;
        }
    }
    proof {
        let witness = lo as int;
        assert(is_ceil_sqrt(s as int, witness));
        lemma_ceil_sqrt_unique(s as int, witness, ceil_sqrt(s as int));
    }
    lo
}

} // verus!
