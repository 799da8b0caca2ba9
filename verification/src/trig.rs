//! Fixed-point sine and cosine.
//!
//! Angles are fixed-point radians (see [`crate::fixed`]).  An angle is first
//! reduced into one period `[0, TAU_FX)`, then the sine on the half period
//! `[0, PI_FX]` is taken from Bhaskara I's rational approximation
//! `16 x (pi - x) / (5 pi^2 - 4 x (pi - x))`, and the second half period is
//! its mirror image.  The approximation is exact at `0`, `pi/2` and `pi` up
//! to the fixed-point resolution and stays within `[-ONE, ONE]`, which is
//! what the controller's contracts lean on; its shape against the real sine
//! is a numeric quality, not a proved one.

use vstd::prelude::*;
use vstd::arithmetic::div_mod::lemma_div_is_ordered;
use vstd::arithmetic::div_mod::lemma_div_multiples_vanish;
use vstd::arithmetic::div_mod::lemma_div_pos_is_pos;
use vstd::arithmetic::div_mod::lemma_fundamental_div_mod;
use vstd::arithmetic::div_mod::lemma_fundamental_div_mod_converse;
use vstd::arithmetic::div_mod::lemma_add_mod_noop_right;
use vstd::arithmetic::div_mod::lemma_mod_bound;
use vstd::arithmetic::div_mod::lemma_mod_self_0;
use vstd::arithmetic::mul::lemma_mul_inequality;
use vstd::arithmetic::mul::lemma_mul_upper_bound;
use crate::fixed::ONE;

verus! {

/// Half a period, fixed-point: pi scaled by `ONE`.
pub const PI_FX: i64 = 3_141_593;

/// One full period, fixed-point: exactly `2 * PI_FX`.
pub const TAU_FX: i64 = 6_283_186;

/// A quarter period, fixed-point: `PI_FX / 2`, truncated.
pub const HALF_PI_FX: i64 = 1_570_796;

/// `5 * PI_FX * PI_FX`, the constant part of Bhaskara's denominator.
pub const FIVE_PI_SQ: i64 = 49_348_032_888_245;

/// The representative of `a` in `[0, TAU_FX)`.
pub open spec fn reduce_s(a: int) -> int {
    a % (TAU_FX as int)
}

/// Bhaskara I's sine on the half period `0 <= x <= PI_FX`, scaled by `ONE`:
/// the numerator coefficient is `16 * ONE`.
pub open spec fn sin_half_s(x: int) -> int {
    let t = x * (PI_FX - x);
    (16_000_000 * t) / ((FIVE_PI_SQ as int) - 4 * t)
}

/// Fixed-point sine of any fixed-point angle.
pub open spec fn sin_s(a: int) -> int {
    let r = reduce_s(a);
    if r <= PI_FX {
        sin_half_s(r)
    } else {
        -sin_half_s(r - PI_FX)
    }
}

/// Fixed-point cosine: the sine a quarter period ahead.
pub open spec fn cos_s(a: int) -> int {
    sin_s(a + HALF_PI_FX)
}

/// The arithmetic–geometric-mean bound `4 x (p - x) <= p^2`.
proof fn lemma_amgm(x: int, p: int)
    by (nonlinear_arith)
    ensures
        4 * (x * (p - x)) <= p * p,
{
    assert((p - 2 * x) * (p - 2 * x) >= 0);
}

/// On the half period the approximation stays within `[0, ONE]`.
pub proof fn lemma_sin_half_s_bounds(x: int)
    requires
        0 <= x <= PI_FX,
    ensures
        0 <= sin_half_s(x) <= ONE,
{
    crate::fixed::lemma_mul_sign(x, (PI_FX as int) - x);
    lemma_amgm(x, 3_141_593);
    let t = x * ((PI_FX as int) - x);
    let num = 16_000_000 * t;
    let den = (FIVE_PI_SQ as int) - 4 * t;
    lemma_div_is_ordered(num, den * 1_000_000, den);
    lemma_div_multiples_vanish(1_000_000, den);
    lemma_div_pos_is_pos(num, den);
}

/// The sine stays within one unit of zero for every angle.
pub proof fn lemma_sin_s_bounds(a: int)
    ensures
        -ONE <= sin_s(a) <= ONE,
{
    lemma_mod_bound(a, TAU_FX as int);
    let r = reduce_s(a);
    if r <= PI_FX {
        lemma_sin_half_s_bounds(r);
    } else {
        lemma_sin_half_s_bounds(r - PI_FX);
    }
}

/// The cosine stays within one unit of zero for every angle.
pub proof fn lemma_cos_s_bounds(a: int)
    ensures
        -ONE <= cos_s(a) <= ONE,
{
    lemma_sin_s_bounds(a + HALF_PI_FX);
}

/// A full period is invisible: the sine and cosine of `a + TAU_FX` equal
/// those of `a` exactly, so a yaw left unnormalized wraps through the
/// trigonometry rather than through any explicit reduction of the state.
pub proof fn lemma_trig_periodic(a: int)
    ensures
        sin_s(a + TAU_FX) == sin_s(a),
        cos_s(a + TAU_FX) == cos_s(a),
{
    lemma_mod_self_0(TAU_FX as int);
    lemma_add_mod_noop_right(a, TAU_FX as int, TAU_FX as int);
    lemma_add_mod_noop_right(a + HALF_PI_FX, TAU_FX as int, TAU_FX as int);
}

/// Reduce an angle into `[0, TAU_FX)`.
pub fn reduce(a: i64) -> (r: i64)
    requires
        a > i64::MIN,
    ensures
        r as int == reduce_s(a as int),
        0 <= r < TAU_FX,
{
    if a >= 0 {
        ((a as u64) % (TAU_FX as u64)) as i64
    } else {
        let m: u64 = ((-a) as u64) % (TAU_FX as u64);
        proof {
            let t = TAU_FX as int;
            let n = -(a as int);
            lemma_fundamental_div_mod(n, t);
            let q = n / t;
            if m == 0 {
                assert(a as int == (-q) * t + 0) by (nonlinear_arith)
                    requires
                        a as int == -n,
                        n == q * t + 0,
                ;
                lemma_fundamental_div_mod_converse(a as int, t, -q, 0);
            } else {
                assert(a as int == (-q - 1) * t + (t - m)) by (nonlinear_arith)
                    requires
                        a as int == -n,
                        n == q * t + m as int,
                ;
                lemma_fundamental_div_mod_converse(a as int, t, -q - 1, t - m);
            }
        }
        if m == 0 {
            0
        } else {
            (TAU_FX as u64 - m) as i64
        }
    }
}

/// Sine on the half period, by Bhaskara I's approximation.
fn sin_half(x: i64) -> (r: i64)
    requires
        0 <= x <= PI_FX,
    ensures
        r as int == sin_half_s(x as int),
        0 <= r <= ONE,
{
    let xe: u128 = x as u128;
    let de: u128 = (PI_FX - x) as u128;
    proof {
        lemma_mul_upper_bound(xe as int, 3_200_000, de as int, 3_200_000);
    }
    let t: u128 = xe * de;
    proof {
        lemma_amgm(x as int, 3_141_593);
    }
    let num: u128 = 16_000_000 * t;
    let den: u128 = (FIVE_PI_SQ as u128) - 4 * t;
    let q: u128 = num / den;
    proof {
        let ti = (x as int) * (PI_FX - x as int);
        let di = (FIVE_PI_SQ as int) - 4 * ti;
        assert(t as int == ti);
        assert(num as int == 16_000_000 * ti);
        assert(den as int == di);
        assert(16_000_000 * ti <= di * 1_000_000);
        lemma_div_is_ordered(num as int, di * 1_000_000, di);
        lemma_div_multiples_vanish(1_000_000, di);
        lemma_div_pos_is_pos(num as int, di);
    }
    q as i64
}

/// Fixed-point sine.
pub fn sin_fx(a: i64) -> (r: i64)
    requires
        a > i64::MIN,
    ensures
        r as int == sin_s(a as int),
        -ONE <= r <= ONE,
{
    let red = reduce(a);
    if red <= PI_FX {
        sin_half(red)
    } else {
        -sin_half(red - PI_FX)
    }
}

/// Fixed-point cosine.
pub fn cos_fx(a: i64) -> (r: i64)
    requires
        a > i64::MIN,
        a <= i64::MAX - HALF_PI_FX,
    ensures
        r as int == cos_s(a as int),
        -ONE <= r <= ONE,
{
    sin_fx(a + HALF_PI_FX)
}

} // verus!
