//! Saturating fixed-point arithmetic in millionths.
//!
//! Every scalar of the camera model is an `i64` holding millionths of its
//! unit: angles are millionths of a half-turn, zoom factors millionths of
//! the neutral factor one. Products and quotients round toward zero, as the
//! hardware divides, and saturate at the ends of the `i64` range.

use vstd::prelude::*;

verus! {

/// One million, the fixed-point unit: the value 1.0 as an `i64` scalar.
pub const FP_ONE: i64 = 1_000_000;

/// The absolute value of a mathematical integer.
pub open spec fn abs_int(x: int) -> int {
    if x >= 0 {
        x
    } else {
        -x
    }
}

/// Clamps a mathematical integer into the `i64` range.
pub open spec fn clamp_i64(x: int) -> int {
    if x > i64::MAX as int {
        i64::MAX as int
    } else if x < i64::MIN as int {
        i64::MIN as int
    } else {
        x
    }
}

/// Division rounding toward zero, as machine division does.
pub open spec fn div_trunc(n: int, d: int) -> int
    recommends
        d != 0,
{
    let q = abs_int(n) / abs_int(d);
    if (n >= 0) == (d >= 0) {
        q
    } else {
        -q
    }
}

/// Saturating addition of two `i64` values.
pub fn sat_add(a: i64, b: i64) -> (r: i64)
    ensures
        r as int == clamp_i64(a + b),
{
    let s: i128 = a as i128 + b as i128;
    if s > i64::MAX as i128 {
        i64::MAX
    } else if s < i64::MIN as i128 {
        i64::MIN
    } else {
        s as i64
    }
}

/// Clamps an `i128` into the `i64` range.
pub fn sat_narrow(x: i128) -> (r: i64)
    ensures
        r as int == clamp_i64(x as int),
{
    if x > i64::MAX as i128 {
        i64::MAX
    } else if x < i64::MIN as i128 {
        i64::MIN
    } else {
        x as i64
    }
}

/// Truncating `i128` division; total on every divisor-free-of-zero input
/// above `i128::MIN`.
pub fn div_trunc_i128(n: i128, d: i128) -> (r: i128)
    requires
        d != 0,
        n > i128::MIN,
    ensures
        r as int == div_trunc(n as int, d as int),
{
    proof {
        lemma_div_trunc_in_range(n as int, d as int);
    }
    match n.checked_div(d) {
        Some(q) => q,
        None => 0,
    }
}

/// The truncating quotient is never larger in magnitude than the dividend.
pub proof fn lemma_div_trunc_in_range(n: int, d: int)
    requires
        d != 0,
    ensures
        abs_int(div_trunc(n, d)) <= abs_int(n),
{
    let an = abs_int(n);
    let ad = abs_int(d);
    assert(ad >= 1);
    assert(an / ad <= an) by (nonlinear_arith)
        requires
            an >= 0,
            ad >= 1,
    ;
    assert(an / ad >= 0) by (nonlinear_arith)
        requires
            an >= 0,
            ad >= 1,
    ;
}

/// Fixed-point product: `a * b` in millionths, truncated and saturated.
pub fn mul_fp(a: i64, b: i64) -> (r: i64)
    ensures
        r as int == clamp_i64(div_trunc(a * b, FP_ONE as int)),
{
    proof {
        lemma_i64_product_fits(a as int, b as int);
    }
    let p: i128 = (a as i128) * (b as i128);
    let q = div_trunc_i128(p, 1_000_000);
    sat_narrow(q)
}

/// The product of two `i64` values lies strictly inside the `i128` range.
proof fn lemma_i64_product_fits(a: int, b: int)
    requires
        i64::MIN as int <= a <= i64::MAX as int,
        i64::MIN as int <= b <= i64::MAX as int,
    ensures
        (i128::MIN as int) < a * b,
        a * b < (i128::MAX as int),
{
    assert(-0x4000_0000_0000_0000_0000_0000_0000_0000 <= a * b
        <= 0x4000_0000_0000_0000_0000_0000_0000_0000) by (nonlinear_arith)
        requires
            -0x8000_0000_0000_0000 <= a <= 0x7FFF_FFFF_FFFF_FFFF,
            -0x8000_0000_0000_0000 <= b <= 0x7FFF_FFFF_FFFF_FFFF,
    ;
}

} // verus!
