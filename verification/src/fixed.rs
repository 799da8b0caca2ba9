//! Fixed-point scalar arithmetic at a millionth resolution.
//!
//! Every quantity in this crate — angles in radians, world distances, pixel
//! deltas, dimensionless coefficients — is an `i64` holding the quantity
//! scaled by [`ONE`].  A product of two such scalars is formed exactly in
//! unsigned 128-bit arithmetic on magnitudes and divided by [`ONE`] with
//! truncation toward zero, so multiplication is symmetric under negation:
//! `fmul(-a, b) == -fmul(a, b)` exactly.

use vstd::prelude::*;
use vstd::arithmetic::div_mod::lemma_div_is_ordered;
use vstd::arithmetic::div_mod::lemma_div_multiples_vanish;
use vstd::arithmetic::div_mod::lemma_div_pos_is_pos;
use vstd::arithmetic::mul::lemma_mul_upper_bound;

verus! {

/// One whole unit; fixed-point values carry six decimal places.
pub const ONE: i64 = 1_000_000;

/// Largest operand magnitude `fmul` accepts (`2^62`), so that the exact
/// product of two operands always fits in 128 bits.
pub const FMUL_ARG_MAX: i64 = 0x4000_0000_0000_0000;

/// Magnitude of a mathematical integer.
pub open spec fn abs_s(v: int) -> int {
    if v >= 0 {
        v
    } else {
        -v
    }
}

/// Division of `p` by `ONE` (written out), truncated toward zero.
pub open spec fn tdiv_one(p: int) -> int {
    if p >= 0 {
        p / 1_000_000
    } else {
        -((-p) / 1_000_000)
    }
}

/// The fixed-point product: the exact integer product, scaled back down by
/// `ONE` with truncation toward zero.
pub open spec fn fmul_s(a: int, b: int) -> int {
    tdiv_one(a * b)
}

/// `v` forced into the closed interval `[lo, hi]`.
pub open spec fn clamp_s(v: int, lo: int, hi: int) -> int {
    if v < lo {
        lo
    } else if v > hi {
        hi
    } else {
        v
    }
}

/// The magnitude of a product is the product of the magnitudes.
pub proof fn lemma_abs_mul(a: int, b: int)
    by (nonlinear_arith)
    ensures
        abs_s(a * b) == abs_s(a) * abs_s(b),
{
}

/// The sign of a product follows the signs of its factors.
pub proof fn lemma_mul_sign(a: int, b: int)
    by (nonlinear_arith)
    ensures
        a >= 0 && b >= 0 ==> a * b >= 0,
        a <= 0 && b <= 0 ==> a * b >= 0,
        a >= 0 && b <= 0 ==> a * b <= 0,
        a <= 0 && b >= 0 ==> a * b <= 0,
{
}

/// Truncating division by `ONE` shrinks magnitudes: `|p / ONE| == |p| / ONE`.
pub proof fn lemma_tdiv_one_abs(p: int)
    ensures
        abs_s(tdiv_one(p)) == abs_s(p) / 1_000_000,
{
    if p >= 0 {
        lemma_div_pos_is_pos(p, 1_000_000);
    } else {
        lemma_div_pos_is_pos(-p, 1_000_000);
    }
}

/// Truncation toward zero is symmetric under negation.
pub proof fn lemma_tdiv_one_neg(p: int)
    ensures
        tdiv_one(-p) == -tdiv_one(p),
{
}

/// Negating one factor negates the fixed-point product exactly.
pub proof fn lemma_fmul_s_neg_left(a: int, b: int)
    ensures
        fmul_s(-a, b) == -fmul_s(a, b),
{
    assert((-a) * b == -(a * b)) by (nonlinear_arith);
    lemma_tdiv_one_neg(a * b);
}

/// A zero factor gives a zero fixed-point product.
pub proof fn lemma_fmul_s_zero(a: int)
    ensures
        fmul_s(a, 0) == 0,
        fmul_s(0, a) == 0,
{
    lemma_div_multiples_vanish(0, 1_000_000);
}

/// `ONE` (written out) is the multiplicative unit, and `-ONE` negates.
pub proof fn lemma_fmul_s_unit(a: int)
    ensures
        fmul_s(a, 1_000_000) == a,
        fmul_s(a, -1_000_000) == -a,
{
    if a >= 0 {
        lemma_div_multiples_vanish(a, 1_000_000);
        lemma_div_multiples_vanish(-a, 1_000_000);
    } else {
        lemma_div_multiples_vanish(-a, 1_000_000);
        lemma_div_multiples_vanish(a, 1_000_000);
    }
}

/// Bounds on both factors bound the fixed-point product.
pub proof fn lemma_fmul_bound(a: int, b: int, aa: int, bb: int)
    requires
        abs_s(a) <= aa,
        abs_s(b) <= bb,
    ensures
        abs_s(fmul_s(a, b)) <= (aa * bb) / 1_000_000,
{
    lemma_abs_mul(a, b);
    lemma_mul_upper_bound(abs_s(a), aa, abs_s(b), bb);
    lemma_tdiv_one_abs(a * b);
    lemma_div_is_ordered(abs_s(a * b), aa * bb, 1_000_000);
}

/// Clamp `v` into `[lo, hi]`.
pub fn clamp(v: i64, lo: i64, hi: i64) -> (r: i64)
    requires
        lo <= hi,
    ensures
        r == clamp_s(v as int, lo as int, hi as int),
{
    if v < lo {
        lo
    } else if v > hi {
        hi
    } else {
        v
    }
}

/// Fixed-point multiply: `a * b / ONE`, truncated toward zero.
pub fn fmul(a: i64, b: i64) -> (r: i64)
    requires
        -FMUL_ARG_MAX <= a <= FMUL_ARG_MAX,
        -FMUL_ARG_MAX <= b <= FMUL_ARG_MAX,
        -(i64::MAX as int) <= fmul_s(a as int, b as int) <= i64::MAX as int,
    ensures
        r as int == fmul_s(a as int, b as int),
{
    let neg: bool = (a < 0) != (b < 0);
    let am: u64 = if a < 0 {
        (-a) as u64
    } else {
        a as u64
    };
    let bm: u64 = if b < 0 {
        (-b) as u64
    } else {
        b as u64
    };
    proof {
        assert(am as int == abs_s(a as int));
        assert(bm as int == abs_s(b as int));
        lemma_mul_upper_bound(am as int, FMUL_ARG_MAX as int, bm as int, FMUL_ARG_MAX as int);
    }
    let p: u128 = (am as u128) * (bm as u128);
    let q: u128 = p / 1_000_000u128;
    proof {
        lemma_abs_mul(a as int, b as int);
        assert(p as int == abs_s((a as int) * (b as int)));
        lemma_tdiv_one_abs((a as int) * (b as int));
        assert(q as int == abs_s(fmul_s(a as int, b as int)));
        lemma_mul_sign(a as int, b as int);
    }
    if neg {
        -(q as i64)
    } else {
        q as i64
    }
}

} // verus!
