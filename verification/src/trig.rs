//! Fixed-point sine and cosine.
//!
//! The angle is reduced modulo one full turn, folded into the first
//! quadrant by the usual symmetries, and the result is a truncated
//! Taylor polynomial evaluated in saturating fixed-point arithmetic.
//! At an angle of zero both functions are exact: `sin_fx(0) == 0` and
//! `cos_fx(0) == SCALE`.  Each executable function is proved equal to
//! its specification mirror.

use vstd::prelude::*;
use crate::fixed::SCALE;
use crate::fixed::mag;
use crate::fixed::tdiv;
use crate::fixed::fadd;
use crate::fixed::fsub;
use crate::fixed::fneg;
use crate::fixed::fmul;
use crate::fixed::fdivi;
use crate::fixed::fx_add;
use crate::fixed::fx_sub;
use crate::fixed::fx_neg;
use crate::fixed::fx_mul;
use crate::fixed::fx_divi;

verus! {

/// One half turn, pi, in fixed-point units.
pub const PI_FX: i64 = 3_141_592;

/// One full turn, two pi, in fixed-point units.
pub const TWO_PI_FX: i64 = 6_283_185;

/// One quarter turn, pi over two, in fixed-point units.
pub const HALF_PI_FX: i64 = 1_570_796;

/// The angle reduced modulo one full turn into `[-PI_FX, PI_FX]`,
/// by the remainder of division truncated toward zero.
pub open spec fn reduce(x: int) -> int {
    let m0 = x - (TWO_PI_FX as int) * tdiv(x, TWO_PI_FX as int);
    let m1 = if m0 > PI_FX {
        m0 - TWO_PI_FX
    } else {
        m0
    };
    if m1 < -(PI_FX as int) {
        m1 + TWO_PI_FX
    } else {
        m1
    }
}

/// Taylor polynomial for sine on a folded argument, in fixed point:
/// `y - y^3/6 + y^5/120 - y^7/5040 + y^9/362880`.
pub open spec fn sin_poly(y: int) -> int {
    let u = fmul(y, y);
    let p3 = fmul(u, y);
    let p5 = fmul(u, p3);
    let p7 = fmul(u, p5);
    let p9 = fmul(u, p7);
    fadd(fsub(fadd(fsub(y, fdivi(p3, 6)), fdivi(p5, 120)), fdivi(p7, 5040)), fdivi(p9, 362880))
}

/// Taylor polynomial for cosine on a folded argument, in fixed point:
/// `1 - y^2/2 + y^4/24 - y^6/720 + y^8/40320 - y^10/3628800`.
pub open spec fn cos_poly(y: int) -> int {
    let u = fmul(y, y);
    let p4 = fmul(u, u);
    let p6 = fmul(u, p4);
    let p8 = fmul(u, p6);
    let p10 = fmul(u, p8);
    fsub(
        fadd(fsub(fadd(fsub(SCALE as int, fdivi(u, 2)), fdivi(p4, 24)), fdivi(p6, 720)), fdivi(p8, 40320)),
        fdivi(p10, 3628800),
    )
}

/// Fixed-point sine of an angle in fixed-point radians.
pub open spec fn sin_fx(x: int) -> int {
    let m = reduce(x);
    let y = if m > HALF_PI_FX {
        (PI_FX as int) - m
    } else if m < -(HALF_PI_FX as int) {
        -(PI_FX as int) - m
    } else {
        m
    };
    sin_poly(y)
}

/// Fixed-point cosine of an angle in fixed-point radians.
pub open spec fn cos_fx(x: int) -> int {
    let m = reduce(x);
    let a = mag(m);
    if a > HALF_PI_FX {
        fneg(cos_poly((PI_FX as int) - a))
    } else {
        cos_poly(a)
    }
}

/// At an angle of zero the sine is exactly zero.
pub proof fn lemma_sin_zero()
    ensures
        sin_fx(0) == 0,
{
    assert(reduce(0) == 0);
    assert(fmul(0, 0) == 0);
    assert(sin_poly(0) == 0);
}

/// At an angle of zero the cosine is exactly one, that is, `SCALE`.
pub proof fn lemma_cos_zero()
    ensures
        cos_fx(0) == SCALE,
{
    assert(reduce(0) == 0);
    assert(fmul(0, 0) == 0);
    assert(cos_poly(0) == SCALE);
}

/// Reduce an angle modulo one full turn into `[-PI_FX, PI_FX]`.
fn reduce_angle(x: i64) -> (m: i64)
    ensures
        m as int == reduce(x as int),
        -(PI_FX as int) <= m as int <= PI_FX as int,
{
    let q: i128 = crate::fixed::tdiv128(x as i128, TWO_PI_FX as i128);
    proof {
        let ax = mag(x as int);
        vstd::arithmetic::div_mod::lemma_div_nonincreasing(ax, TWO_PI_FX as int);
        vstd::arithmetic::div_mod::lemma_div_pos_is_pos(ax, TWO_PI_FX as int);
        vstd::arithmetic::div_mod::lemma_fundamental_div_mod(ax, TWO_PI_FX as int);
        vstd::arithmetic::div_mod::lemma_mod_bound(ax, TWO_PI_FX as int);
    }
    let m0: i128 = x as i128 - (TWO_PI_FX as i128) * q;
    let m1: i128 = if m0 > PI_FX as i128 {
        m0 - TWO_PI_FX as i128
    } else {
        m0
    };
    let m2: i128 = if m1 < -(PI_FX as i128) {
        m1 + TWO_PI_FX as i128
    } else {
        m1
    };
    m2 as i64
}

/// Taylor polynomial for sine, executable form.
fn sin_poly_exec(y: i64) -> (r: i64)
    ensures
        r as int == sin_poly(y as int),
{
    let u = fx_mul(y, y);
    let p3 = fx_mul(u, y);
    let p5 = fx_mul(u, p3);
    let p7 = fx_mul(u, p5);
    let p9 = fx_mul(u, p7);
    fx_add(
        fx_sub(fx_add(fx_sub(y, fx_divi(p3, 6)), fx_divi(p5, 120)), fx_divi(p7, 5040)),
        fx_divi(p9, 362880),
    )
}

/// Taylor polynomial for cosine, executable form.
fn cos_poly_exec(y: i64) -> (r: i64)
    ensures
        r as int == cos_poly(y as int),
{
    let u = fx_mul(y, y);
    let p4 = fx_mul(u, u);
    let p6 = fx_mul(u, p4);
    let p8 = fx_mul(u, p6);
    let p10 = fx_mul(u, p8);
    fx_sub(
        fx_add(fx_sub(fx_add(fx_sub(SCALE, fx_divi(u, 2)), fx_divi(p4, 24)), fx_divi(p6, 720)), fx_divi(p8, 40320)),
        fx_divi(p10, 3628800),
    )
}

/// Fixed-point sine of an angle in fixed-point radians.
pub fn fx_sin(x: i64) -> (r: i64)
    ensures
        r as int == sin_fx(x as int),
{
    let m = reduce_angle(x);
    let y = if m > HALF_PI_FX {
        PI_FX - m
    } else if m < -HALF_PI_FX {
        -PI_FX - m
    } else {
        m
    };
    sin_poly_exec(y)
}

/// Fixed-point cosine of an angle in fixed-point radians.
pub fn fx_cos(x: i64) -> (r: i64)
    ensures
        r as int == cos_fx(x as int),
{
    let m = reduce_angle(x);
    let a = if m < 0 {
        -m
    } else {
        m
    };
    if a > HALF_PI_FX {
        fx_neg(cos_poly_exec(PI_FX - a))
    } else {
        cos_poly_exec(a)
    }
}

} // verus!
