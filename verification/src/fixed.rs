//! Fixed-point arithmetic used throughout the library.
//!
//! Every continuous quantity (a coordinate, a color channel, a duration in
//! seconds, an angle in degrees) is stored as an `i64` counting thousandths
//! of a unit, so `1500` stands for `1.5`. Division rounds toward zero, like
//! Rust's integer division.

use vstd::prelude::*;

verus! {

/// Number of fixed-point steps in one unit: `SCALE` represents `1.0`.
pub const SCALE: i64 = 1000;

/// Largest magnitude a coordinate, size or color channel may take
/// (one billion units), chosen so screen-projection sums stay in `i64`.
pub const COORD_LIMIT: i64 = 1_000_000_000_000;

/// Largest magnitude a duration, rate or decay factor may take
/// (one million units), chosen so fixed-point products stay in `i64`.
pub const TIME_LIMIT: i64 = 1_000_000_000;

/// Magnitude of an integer.
pub open spec fn abs_val(a: int) -> int {
    if a >= 0 {
        a
    } else {
        -a
    }
}

/// Integer division rounding toward zero, the meaning of every executable
/// division in this crate (`b` must not be zero for the result to matter).
pub open spec fn div_trunc(a: int, b: int) -> int {
    if (a >= 0) == (b >= 0) {
        abs_val(a) / abs_val(b)
    } else {
        -(abs_val(a) / abs_val(b))
    }
}

/// Fixed-point product: `a * b` rescaled back into thousandths.
pub open spec fn fp_mul_spec(a: int, b: int) -> int {
    div_trunc(a * b, SCALE as int)
}

/// `x` clamped into `[lo, hi]`.
pub open spec fn clamp_spec(x: int, lo: int, hi: int) -> int {
    if x < lo {
        lo
    } else if x > hi {
        hi
    } else {
        x
    }
}

/// `r` is the square root of `n` rounded down.
pub open spec fn is_sqrt_floor(n: int, r: int) -> bool {
    &&& r >= 0
    &&& r * r <= n
    &&& n < (r + 1) * (r + 1)
}

/// The square root of `n` rounded down, as a value (well defined for `n >= 0`).
pub open spec fn sqrt_floor(n: int) -> int {
    choose|r: int| is_sqrt_floor(n, r)
}

/// Two square-root floors of the same number are equal.
pub proof fn lemma_is_sqrt_floor_unique(n: int, r1: int, r2: int)
    requires
        is_sqrt_floor(n, r1),
        is_sqrt_floor(n, r2),
    ensures
        r1 == r2,
{
    if r1 < r2 {
        assert((r1 + 1) * (r1 + 1) <= r2 * r2) by (nonlinear_arith)
            requires
                0 <= r1 < r2,
        ;
    }
    if r2 < r1 {
        assert((r2 + 1) * (r2 + 1) <= r1 * r1) by (nonlinear_arith)
            requires
                0 <= r2 < r1,
        ;
    }
}

/// A witness pins down `sqrt_floor`.
pub proof fn lemma_sqrt_floor_is(n: int, r: int)
    requires
        is_sqrt_floor(n, r),
    ensures
        sqrt_floor(n) == r,
{
    let w = choose|w: int| is_sqrt_floor(n, w);
    lemma_is_sqrt_floor_unique(n, w, r);
}

/// Division of `i64` values, rounding toward zero.
pub fn div_i64(a: i64, b: i64) -> (r: i64)
    requires
        b != 0,
        a != i64::MIN,
        b != i64::MIN,
    ensures
        r == div_trunc(a as int, b as int),
        abs_val(r as int) <= abs_val(a as int),
{
    let am: u64 = if a >= 0 {
        a as u64
    } else {
        (-a) as u64
    };
    let bm: u64 = if b >= 0 {
        b as u64
    } else {
        (-b) as u64
    };
    let q: u64 = am / bm;
    proof {
        assert(am as int == abs_val(a as int));
        assert(bm as int == abs_val(b as int));
        vstd::arithmetic::div_mod::lemma_div_nonincreasing(am as int, bm as int);
        vstd::arithmetic::div_mod::lemma_div_pos_is_pos(am as int, bm as int);
    }
    if (a >= 0) == (b >= 0) {
        q as i64
    } else {
        -(q as i64)
    }
}

/// Largest factor magnitude accepted by [`fp_mul`].
pub const FP_LIMIT: i64 = 2_000_000_000;

/// Fixed-point multiplication: `a * b / SCALE`, rounding toward zero.
pub fn fp_mul(a: i64, b: i64) -> (r: i64)
    requires
        -FP_LIMIT <= a <= FP_LIMIT,
        -FP_LIMIT <= b <= FP_LIMIT,
    ensures
        r == fp_mul_spec(a as int, b as int),
{
    proof {
        assert(-4_000_000_000_000_000_000 <= a * b <= 4_000_000_000_000_000_000)
            by (nonlinear_arith)
            requires
                -FP_LIMIT <= a <= FP_LIMIT,
                -FP_LIMIT <= b <= FP_LIMIT,
        ;
    }
    let p: i64 = a * b;
    div_i64(p, SCALE)
}

/// Truncating division never grows a number's magnitude and keeps its sign.
pub proof fn lemma_div_trunc_magnitude(a: int, b: int)
    requires
        b >= 1,
    ensures
        abs_val(div_trunc(a, b)) <= abs_val(a),
        a >= 0 ==> 0 <= div_trunc(a, b),
        a < 0 ==> div_trunc(a, b) <= 0,
{
    vstd::arithmetic::div_mod::lemma_div_nonincreasing(abs_val(a), b);
    vstd::arithmetic::div_mod::lemma_div_pos_is_pos(abs_val(a), b);
}

/// The square-root floor of a positive number is positive.
pub proof fn lemma_sqrt_floor_pos(n: int, r: int)
    requires
        is_sqrt_floor(n, r),
        n >= 1,
    ensures
        r >= 1,
{
    if r == 0 {
        assert(n < 1) by (nonlinear_arith)
            requires
                n < (r + 1) * (r + 1),
                r == 0,
        ;
    }
}

/// `x` clamped into `[lo, hi]`.
pub fn clamp_i64(x: i64, lo: i64, hi: i64) -> (r: i64)
    requires
        lo <= hi,
    ensures
        r == clamp_spec(x as int, lo as int, hi as int),
{
    if x < lo {
        lo
    } else if x > hi {
        hi
    } else {
        x
    }
}

/// Square root of `n`, rounded down, by bisection.
pub fn isqrt_u64(n: u64) -> (r: u64)
    ensures
        is_sqrt_floor(n as int, r as int),
{
    if n == 0 {
        proof {
            assert(is_sqrt_floor(0, 0)) by (nonlinear_arith);
        }
        return 0;
    }
    let mut lo: u64 = 0;
    let mut hi: u64 = 0xFFFF_FFFF;
    if n < 0xFFFF_FFFF {
        hi = n;
    }
    proof {
        assert((hi + 1) * (hi + 1) > n) by (nonlinear_arith)
            requires
                hi == 0xFFFF_FFFFu64 || (hi < 0xFFFF_FFFFu64 && hi == n),
                n >= 1,
        ;
    }
    while lo < hi
        invariant
            lo <= hi,
            hi <= 0xFFFF_FFFF,
            lo * lo <= n,
            n < (hi + 1) * (hi + 1),
        decreases hi - lo,
    {
        let mid: u64 = lo + (hi - lo + 1) / 2;
        proof {
            assert(lo < mid <= hi);
            assert(mid * mid <= 0xFFFF_FFFFu64 * 0xFFFF_FFFFu64) by (nonlinear_arith)
                requires
                    mid <= 0xFFFF_FFFFu64,
            ;
        }
        if mid <= n / mid {
            proof {
                assert(mid * mid <= n) by (nonlinear_arith)
                    requires
                        mid >= 1,
                        mid <= n as int / mid as int,
                ;
            }
            lo = mid;
        } else {
            proof {
                assert(n < mid * mid) by (nonlinear_arith)
                    requires
                        mid >= 1,
                        mid > n as int / mid as int,
                ;
            }
            hi = mid - 1;
        }
    }
    lo
}

} // verus!
