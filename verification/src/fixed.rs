//! Saturating fixed-point arithmetic on `i64` scalars.
//!
//! A scalar `n` stands for the real number `n / SCALE`.  Products and
//! quotients are computed on 128-bit intermediates and truncated toward
//! zero; every result is clamped into the `i64` range, so no operation
//! here can panic or wrap.  Each executable operation is proved equal to
//! a specification mirror (`fadd`, `fmul`, ...) over mathematical
//! integers, and every contract in the crate is stated over those
//! mirrors.

use vstd::prelude::*;

verus! {

/// Number of fixed-point units per whole unit: six decimal places.
pub const SCALE: i64 = 1_000_000;

/// Magnitude of a mathematical integer.
pub open spec fn mag(x: int) -> int {
    if x < 0 {
        -x
    } else {
        x
    }
}

/// Clamp a mathematical integer into the `i64` range (saturation).
pub open spec fn sat(x: int) -> int {
    if x > i64::MAX {
        i64::MAX as int
    } else if x < i64::MIN {
        i64::MIN as int
    } else {
        x
    }
}

/// Division truncated toward zero, the rounding used by the executable
/// code: `tdiv(7, 2) == 3` and `tdiv(-7, 2) == -3`.
pub open spec fn tdiv(a: int, b: int) -> int
    recommends
        b != 0,
{
    let q = mag(a) / mag(b);
    if (a < 0) != (b < 0) {
        -q
    } else {
        q
    }
}

/// Saturating sum of two scalars.
pub open spec fn fadd(a: int, b: int) -> int {
    sat(a + b)
}

/// Saturating difference of two scalars.
pub open spec fn fsub(a: int, b: int) -> int {
    sat(a - b)
}

/// Saturating negation of a scalar.
pub open spec fn fneg(a: int) -> int {
    sat(-a)
}

/// Saturating product of a scalar with a plain integer factor.
pub open spec fn fmuli(a: int, k: int) -> int {
    sat(a * k)
}

/// Saturating fixed-point product: `(a * b) / SCALE`, truncated toward
/// zero.
pub open spec fn fmul(a: int, b: int) -> int {
    sat(tdiv(a * b, SCALE as int))
}

/// Saturating fixed-point quotient: `(a * SCALE) / b`, truncated toward
/// zero.  A zero divisor yields zero; the caller sees the blow-up of a
/// near-singular divisor as a saturated quotient instead of a fault.
pub open spec fn fdiv(a: int, b: int) -> int {
    if b == 0 {
        0
    } else {
        sat(tdiv(a * (SCALE as int), b))
    }
}

/// Saturating division of a scalar by a plain integer factor.
pub open spec fn fdivi(a: int, k: int) -> int {
    if k == 0 {
        0
    } else {
        sat(tdiv(a, k))
    }
}

/// A zero factor annihilates a saturating product.
pub proof fn lemma_fmul_zero(a: int)
    ensures
        fmul(a, 0) == 0,
        fmul(0, a) == 0,
{
    vstd::arithmetic::div_mod::lemma_div_of0(SCALE as int);
}

/// A zero dividend gives a zero quotient, whatever the divisor.
pub proof fn lemma_fdiv_zero(b: int)
    ensures
        fdiv(0, b) == 0,
{
    if b != 0 {
        vstd::arithmetic::div_mod::lemma_div_of0(mag(b));
    }
}

/// A zero dividend gives a zero quotient, whatever the factor.
pub proof fn lemma_fdivi_zero(k: int)
    ensures
        fdivi(0, k) == 0,
{
    if k != 0 {
        vstd::arithmetic::div_mod::lemma_div_of0(mag(k));
    }
}

/// SCALE is the fixed-point image of one, and one is the multiplicative
/// unit: `fmul(a, SCALE) == a` for every representable scalar.
pub proof fn lemma_fmul_scale(a: int)
    requires
        i64::MIN <= a <= i64::MAX,
    ensures
        fmul(a, SCALE as int) == a,
{
    vstd::arithmetic::div_mod::lemma_div_multiples_vanish(mag(a), SCALE as int);
    if a < 0 {
        assert(mag(a * (SCALE as int)) == (SCALE as int) * mag(a));
    } else {
        assert(mag(a * (SCALE as int)) == (SCALE as int) * mag(a));
    }
}

/// Magnitude of an `i128`, as an unsigned wide word.
fn mag128(a: i128) -> (m: u128)
    ensures
        m as int == mag(a as int),
{
    if a < 0 {
        (-(a + 1)) as u128 + 1
    } else {
        a as u128
    }
}

/// Truncated division on wide intermediates, computed on magnitudes so
/// that the rounding direction (toward zero) is explicit.
pub(crate) fn tdiv128(a: i128, b: i128) -> (q: i128)
    requires
        b != 0,
        a != i128::MIN,
        b != i128::MIN,
    ensures
        q as int == tdiv(a as int, b as int),
{
    let am: u128 = mag128(a);
    let bm: u128 = mag128(b);
    let qm: u128 = am / bm;
    proof {
        vstd::arithmetic::div_mod::lemma_div_nonincreasing(am as int, bm as int);
        vstd::arithmetic::div_mod::lemma_div_pos_is_pos(am as int, bm as int);
    }
    if (a < 0) != (b < 0) {
        -(qm as i128)
    } else {
        qm as i128
    }
}

/// Clamp a wide intermediate into the `i64` range.
fn sat128(x: i128) -> (r: i64)
    ensures
        r as int == sat(x as int),
{
    if x > i64::MAX as i128 {
        i64::MAX
    } else if x < i64::MIN as i128 {
        i64::MIN
    } else {
        x as i64
    }
}

/// Saturating sum of two scalars.
pub fn fx_add(a: i64, b: i64) -> (r: i64)
    ensures
        r as int == fadd(a as int, b as int),
{
    sat128(a as i128 + b as i128)
}

/// Saturating difference of two scalars.
pub fn fx_sub(a: i64, b: i64) -> (r: i64)
    ensures
        r as int == fsub(a as int, b as int),
{
    sat128(a as i128 - b as i128)
}

/// Saturating negation of a scalar.
pub fn fx_neg(a: i64) -> (r: i64)
    ensures
        r as int == fneg(a as int),
{
    sat128(-(a as i128))
}

/// Saturating product of a scalar with a plain integer factor.
pub fn fx_muli(a: i64, k: i64) -> (r: i64)
    ensures
        r as int == fmuli(a as int, k as int),
{
    let p: i128 = mul_wide(a, k);
    sat128(p)
}

/// Product of two scalars widened to 128 bits, which cannot overflow.
fn mul_wide(a: i64, k: i64) -> (p: i128)
    ensures
        p as int == a as int * k as int,
        i128::MIN < p as int,
{
    proof {
        mul_wide_bounds(a as int, k as int);
    }
    (a as i128) * (k as i128)
}

/// The product of two `i64` values fits in an `i128`.
proof fn mul_wide_bounds(a: int, k: int)
    requires
        i64::MIN <= a <= i64::MAX,
        i64::MIN <= k <= i64::MAX,
    ensures
        i128::MIN < a * k < i128::MAX,
{
    assert(i128::MIN < a * k < i128::MAX) by (nonlinear_arith)
        requires
            -0x8000_0000_0000_0000 <= a <= 0x7fff_ffff_ffff_ffff,
            -0x8000_0000_0000_0000 <= k <= 0x7fff_ffff_ffff_ffff,
    ;
}

/// Saturating fixed-point product.
pub fn fx_mul(a: i64, b: i64) -> (r: i64)
    ensures
        r as int == fmul(a as int, b as int),
{
    let p: i128 = mul_wide(a, b);
    sat128(tdiv128(p, SCALE as i128))
}

/// Saturating fixed-point quotient; a zero divisor yields zero.
pub fn fx_div(a: i64, b: i64) -> (r: i64)
    ensures
        r as int == fdiv(a as int, b as int),
{
    if b == 0 {
        0
    } else {
        let p: i128 = mul_wide(a, SCALE);
        sat128(tdiv128(p, b as i128))
    }
}

/// Saturating division of a scalar by a plain integer factor; a zero
/// factor yields zero.
pub fn fx_divi(a: i64, k: i64) -> (r: i64)
    ensures
        r as int == fdivi(a as int, k as int),
{
    if k == 0 {
        0
    } else {
        sat128(tdiv128(a as i128, k as i128))
    }
}

} // verus!
