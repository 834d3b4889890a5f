//! Saturating fixed-point arithmetic on `i64` with 20 fractional bits.
//!
//! A raw value `x: i64` stands for the number `x / SCALE`. Every operation
//! is total: a result that would fall outside the `i64` range is clamped to
//! the nearest representable value, and a quotient with a zero divisor is
//! zero, so no operation of the kernel panics or overflows.

use vstd::prelude::*;

verus! {

/// Number of raw units that stand for the number one.
pub const SCALE: i64 = 1048576;

/// Raw value of the number one.
pub const ONE_FP: i64 = 1048576;

/// Raw value of the number two.
pub const TWO_FP: i64 = 2097152;

/// Raw value of the number one half.
pub const HALF_FP: i64 = 524288;

/// Clamp a mathematical integer into the `i64` range.
pub open spec fn sat64(x: int) -> int {
    if x > i64::MAX {
        i64::MAX as int
    } else if x < i64::MIN {
        i64::MIN as int
    } else {
        x
    }
}

/// Fixed-point sum: the clamped sum of the raw values.
pub open spec fn fadd(a: int, b: int) -> int {
    sat64(a + b)
}

/// Fixed-point difference: the clamped difference of the raw values.
pub open spec fn fsub(a: int, b: int) -> int {
    sat64(a - b)
}

/// Fixed-point negation (clamped only at the smallest raw value).
pub open spec fn fneg(a: int) -> int {
    sat64(-a)
}

/// Fixed-point product: `a * b / SCALE`, rounded toward minus infinity
/// (Euclidean division by the positive scale), then clamped.
pub open spec fn fmul(a: int, b: int) -> int {
    sat64((a * b) / (SCALE as int))
}

/// Fixed-point quotient: `a * SCALE / b` with Euclidean division, clamped;
/// zero when the divisor is zero (the degenerate case is absorbed, not an
/// error).
pub open spec fn fdiv(a: int, b: int) -> int {
    if b == 0 {
        0
    } else {
        sat64((a * (SCALE as int)) / b)
    }
}

/// The integer square root, defined by counting up: the largest `r` with
/// `r * r <= n` (zero for negative `n`).
pub open spec fn isqrt_r(n: int) -> int
    decreases n,
{
    if n <= 0 {
        0
    } else {
        let r = isqrt_r(n - 1);
        if (r + 1) * (r + 1) <= n {
            r + 1
        } else {
            r
        }
    }
}

/// Fixed-point square root: `isqrt(a * SCALE)`, which is the square root of
/// the represented number scaled back to raw units, rounded down; zero for
/// a negative argument.
pub open spec fn fsqrt(a: int) -> int {
    if a <= 0 {
        0
    } else {
        isqrt_r(a * (SCALE as int))
    }
}

/// `isqrt_r(n)` is the rounded-down square root: it is nonnegative, its
/// square is at most `n`, and the next square is beyond `n`.
pub proof fn lemma_isqrt_bounds(n: int)
    requires
        n >= 0,
    ensures
        isqrt_r(n) >= 0,
        isqrt_r(n) * isqrt_r(n) <= n,
        n < (isqrt_r(n) + 1) * (isqrt_r(n) + 1),
    decreases n,
{
    if n == 0 {
    } else {
        lemma_isqrt_bounds(n - 1);
        let r = isqrt_r(n - 1);
        if (r + 1) * (r + 1) <= n {
            assert((r + 2) * (r + 2) > n) by (nonlinear_arith)
                requires
                    r >= 0,
                    n - 1 < (r + 1) * (r + 1),
                    (r + 1) * (r + 1) <= n,
            ;
        }
    }
}

/// Any `r` whose square brackets `n` is the integer square root of `n`.
pub proof fn lemma_isqrt_unique(n: int, r: int)
    requires
        n >= 0,
        r >= 0,
        r * r <= n,
        n < (r + 1) * (r + 1),
    ensures
        r == isqrt_r(n),
{
    lemma_isqrt_bounds(n);
    let s = isqrt_r(n);
    assert(r == s) by (nonlinear_arith)
        requires
            r >= 0,
            s >= 0,
            r * r <= n,
            n < (r + 1) * (r + 1),
            s * s <= n,
            n < (s + 1) * (s + 1),
    ;
}

/// A Euclidean quotient is no larger in magnitude than the dividend.
proof fn lemma_div_magnitude(p: int, b: int)
    requires
        b != 0,
    ensures
        -(if p >= 0 { p } else { -p }) - 1 <= p / b <= (if p >= 0 { p } else { -p }) + 1,
{
    vstd::arithmetic::div_mod::lemma_fundamental_div_mod(p, b);
    let q = p / b;
    let r = p % b;
    assert(0 <= r < (if b >= 0 { b } else { -b })) by (nonlinear_arith)
        requires
            b != 0,
            r == p % b,
    ;
    let m = if p >= 0 { p } else { -p };
    assert(-m - 1 <= q <= m + 1) by (nonlinear_arith)
        requires
            b != 0,
            p == b * q + r,
            0 <= r < (if b >= 0 { b } else { -b }),
            m == (if p >= 0 { p } else { -p }),
    ;
}

fn sat_from_i128(x: i128) -> (r: i64)
    ensures
        r as int == sat64(x as int),
{
    if x > i64::MAX as i128 {
        i64::MAX
    } else if x < i64::MIN as i128 {
        i64::MIN
    } else {
        x as i64
    }
}

/// Fixed-point addition.
pub fn add_fp(a: i64, b: i64) -> (r: i64)
    ensures
        r as int == fadd(a as int, b as int),
{
    sat_from_i128(a as i128 + b as i128)
}

/// Fixed-point subtraction.
pub fn sub_fp(a: i64, b: i64) -> (r: i64)
    ensures
        r as int == fsub(a as int, b as int),
{
    sat_from_i128(a as i128 - b as i128)
}

/// Fixed-point negation.
pub fn neg_fp(a: i64) -> (r: i64)
    ensures
        r as int == fneg(a as int),
{
    sat_from_i128(-(a as i128))
}

/// Fixed-point multiplication.
pub fn mul_fp(a: i64, b: i64) -> (r: i64)
    ensures
        r as int == fmul(a as int, b as int),
{
    proof {
        assert(-0x40000000000000000000000000000000 <= (a as int) * (b as int)
            <= 0x40000000000000000000000000000000) by (nonlinear_arith);
    }
    let p: i128 = (a as i128) * (b as i128);
    let q = p.checked_div_euclid(SCALE as i128);
    proof {
        lemma_div_magnitude(p as int, SCALE as int);
    }
    sat_from_i128(q.unwrap())
}

/// Fixed-point division; zero when the divisor is zero.
pub fn div_fp(a: i64, b: i64) -> (r: i64)
    ensures
        r as int == fdiv(a as int, b as int),
{
    if b == 0 {
        return 0;
    }
    proof {
        assert(-0x40000000000000000000000000000000 <= (a as int) * (SCALE as int)
            <= 0x40000000000000000000000000000000) by (nonlinear_arith);
    }
    let p: i128 = (a as i128) * (SCALE as i128);
    let q = p.checked_div_euclid(b as i128);
    proof {
        lemma_div_magnitude(p as int, b as int);
    }
    sat_from_i128(q.unwrap())
}

fn isqrt_i128(n: i128) -> (r: i128)
    requires
        0 <= n < 0x10000000000000000000000,
    ensures
        r == isqrt_r(n as int),
        0 <= r < 0x100000000000,
{
    let mut lo: i128 = 0;
    let mut hi: i128 = 0x100000000000;
    assert(n < hi * hi) by (nonlinear_arith)
        requires
            n < 0x10000000000000000000000,
            hi == 0x100000000000,
    ;
    while lo + 1 < hi
        invariant
            0 <= lo < hi <= 0x100000000000,
            lo * lo <= n,
            n < hi * hi,
        decreases hi - lo,
    {
        let mid = lo + (hi - lo) / 2;
        assert(lo < mid < hi);
        assert(mid * mid < 0x100000000000000000000000) by (nonlinear_arith)
            requires
                0 <= mid <= 0x100000000000,
        ;
        if mid * mid <= n {
            lo = mid;
        } else {
            hi = mid;
        }
    }
    proof {
        lemma_isqrt_unique(n as int, lo as int);
    }
    lo
}

/// Fixed-point square root, rounded down; zero for a negative argument.
pub fn sqrt_fp(a: i64) -> (r: i64)
    ensures
        r as int == fsqrt(a as int),
        0 <= r < 0x100000000000,
{
    if a <= 0 {
        return 0;
    }
    proof {
        assert(0 <= (a as int) * (SCALE as int) < 0x10000000000000000000000) by (nonlinear_arith)
            requires
                0 < a <= i64::MAX,
        ;
    }
    let n: i128 = (a as i128) * (SCALE as i128);
    assert(0 <= n < 0x10000000000000000000000) by (nonlinear_arith)
        requires
            0 < a <= i64::MAX,
            n == a * 0x100000,
    ;
    let r = isqrt_i128(n);
    r as i64
}

} // verus!
