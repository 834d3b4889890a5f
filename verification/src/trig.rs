//! Fixed-point sine, cosine and tangent by truncated Taylor series,
//! adequate on `[0, pi/2)`, where the camera's half field of view lives.

use vstd::prelude::*;
use crate::fixed::{SCALE, ONE_FP, fadd, fsub, fmul, fdiv};
use crate::fixed::{add_fp, sub_fp, mul_fp, div_fp};

verus! {

/// The number pi in raw fixed-point units (rounded to the nearest).
pub const PI_FP: i64 = 3294199;

/// Taylor sine through the ninth power:
/// `x - x^3/6 + x^5/120 - x^7/5040 + x^9/362880`.
pub open spec fn sin_spec(x: int) -> int {
    let x2 = fmul(x, x);
    let x3 = fmul(x2, x);
    let x5 = fmul(x3, x2);
    let x7 = fmul(x5, x2);
    let x9 = fmul(x7, x2);
    fadd(
        fsub(fadd(fsub(x, fdiv(x3, 6 * (SCALE as int))), fdiv(x5, 120 * (SCALE as int))), fdiv(
            x7,
            5040 * (SCALE as int),
        )),
        fdiv(x9, 362880 * (SCALE as int)),
    )
}

/// Taylor cosine through the tenth power:
/// `1 - x^2/2 + x^4/24 - x^6/720 + x^8/40320 - x^10/3628800`.
pub open spec fn cos_spec(x: int) -> int {
    let x2 = fmul(x, x);
    let x4 = fmul(x2, x2);
    let x6 = fmul(x4, x2);
    let x8 = fmul(x6, x2);
    let x10 = fmul(x8, x2);
    fsub(
        fadd(
            fsub(fadd(fsub(ONE_FP as int, fdiv(x2, 2 * (SCALE as int))), fdiv(
                x4,
                24 * (SCALE as int),
            )), fdiv(x6, 720 * (SCALE as int))),
            fdiv(x8, 40320 * (SCALE as int)),
        ),
        fdiv(x10, 3628800 * (SCALE as int)),
    )
}

/// Tangent: the quotient of the two series.
pub open spec fn tan_spec(x: int) -> int {
    fdiv(sin_spec(x), cos_spec(x))
}

pub fn sin_fp(x: i64) -> (res: i64)
    ensures
        res as int == sin_spec(x as int),
{
    let x2 = mul_fp(x, x);
    let x3 = mul_fp(x2, x);
    let x5 = mul_fp(x3, x2);
    let x7 = mul_fp(x5, x2);
    let x9 = mul_fp(x7, x2);
    add_fp(
        sub_fp(
            add_fp(sub_fp(x, div_fp(x3, 6 * SCALE)), div_fp(x5, 120 * SCALE)),
            div_fp(x7, 5040 * SCALE),
        ),
        div_fp(x9, 362880 * SCALE),
    )
}

pub fn cos_fp(x: i64) -> (res: i64)
    ensures
        res as int == cos_spec(x as int),
{
    let x2 = mul_fp(x, x);
    let x4 = mul_fp(x2, x2);
    let x6 = mul_fp(x4, x2);
    let x8 = mul_fp(x6, x2);
    let x10 = mul_fp(x8, x2);
    sub_fp(
        add_fp(
            sub_fp(
                add_fp(sub_fp(ONE_FP, div_fp(x2, 2 * SCALE)), div_fp(x4, 24 * SCALE)),
                div_fp(x6, 720 * SCALE),
            ),
            div_fp(x8, 40320 * SCALE),
        ),
        div_fp(x10, 3628800 * SCALE),
    )
}

pub fn tan_fp(x: i64) -> (res: i64)
    ensures
        res as int == tan_spec(x as int),
{
    div_fp(sin_fp(x), cos_fp(x))
}

} // verus!
