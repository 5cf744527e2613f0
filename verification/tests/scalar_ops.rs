//! Tests of the saturating fixed-point scalar operations and of the
//! fixed-point trigonometry.

use double_pendulum::SCALE;
use double_pendulum::fixed::fx_add;
use double_pendulum::fixed::fx_sub;
use double_pendulum::fixed::fx_neg;
use double_pendulum::fixed::fx_muli;
use double_pendulum::fixed::fx_mul;
use double_pendulum::fixed::fx_div;
use double_pendulum::fixed::fx_divi;
use double_pendulum::trig::fx_sin;
use double_pendulum::trig::fx_cos;
use double_pendulum::trig::PI_FX;
use double_pendulum::trig::TWO_PI_FX;
use double_pendulum::trig::HALF_PI_FX;

#[test]
fn add_and_sub_plain_values() {
    assert_eq!(fx_add(1_500_000, 2_250_000), 3_750_000);
    assert_eq!(fx_sub(1_500_000, 2_250_000), -750_000);
    assert_eq!(fx_neg(123), -123);
}

#[test]
fn add_saturates_at_the_range_ends() {
    assert_eq!(fx_add(i64::MAX, 1), i64::MAX);
    assert_eq!(fx_add(i64::MIN, -1), i64::MIN);
    assert_eq!(fx_sub(i64::MIN, 1), i64::MIN);
    assert_eq!(fx_neg(i64::MIN), i64::MAX);
}

#[test]
fn mul_is_a_fixed_point_product() {
    // 1.5 * 2.0 == 3.0
    assert_eq!(fx_mul(1_500_000, 2_000_000), 3_000_000);
    // one is the unit
    assert_eq!(fx_mul(-42_000_000, SCALE), -42_000_000);
    // saturation instead of overflow
    assert_eq!(fx_mul(i64::MAX, 2_000_000), i64::MAX);
    assert_eq!(fx_mul(i64::MAX, -2_000_000), i64::MIN);
}

#[test]
fn mul_truncates_toward_zero() {
    // -21 units over SCALE truncates to 0, not to -1
    assert_eq!(fx_mul(-7, 3), 0);
    assert_eq!(fx_mul(7, -3), 0);
}

#[test]
fn muli_scales_by_a_plain_integer() {
    assert_eq!(fx_muli(123_456, 2), 246_912);
    assert_eq!(fx_muli(123_456, -1), -123_456);
    assert_eq!(fx_muli(i64::MAX, 2), i64::MAX);
}

#[test]
fn div_is_a_fixed_point_quotient() {
    // 1.0 / 3.0 == 0.333333, truncated
    assert_eq!(fx_div(1_000_000, 3_000_000), 333_333);
    assert_eq!(fx_div(-1_000_000, 3_000_000), -333_333);
    assert_eq!(fx_div(1_000_000, -3_000_000), -333_333);
}

#[test]
fn div_by_zero_yields_zero() {
    assert_eq!(fx_div(5_000_000, 0), 0);
    assert_eq!(fx_divi(5_000_000, 0), 0);
}

#[test]
fn divi_truncates_toward_zero() {
    assert_eq!(fx_divi(-7, 2), -3);
    assert_eq!(fx_divi(7, 2), 3);
    assert_eq!(fx_divi(7, -2), -3);
}

#[test]
fn sine_and_cosine_are_exact_at_zero() {
    assert_eq!(fx_sin(0), 0);
    assert_eq!(fx_cos(0), SCALE);
}

#[test]
fn sine_and_cosine_at_the_quarter_and_half_turn() {
    // within a few millionths of the true values
    assert!((fx_sin(HALF_PI_FX) - SCALE).abs() <= 5);
    assert_eq!(fx_cos(HALF_PI_FX), 0);
    assert!(fx_sin(PI_FX).abs() <= 5);
    assert!((fx_cos(PI_FX) + SCALE).abs() <= 5);
}

#[test]
fn sine_of_one_radian() {
    // sin 1.0 == 0.841471 to six places
    assert_eq!(fx_sin(1_000_000), 841_471);
}

#[test]
fn sine_is_odd() {
    assert_eq!(fx_sin(-1_000_000), -fx_sin(1_000_000));
    assert_eq!(fx_sin(-300_000), -fx_sin(300_000));
}

#[test]
fn sine_reduces_large_angles() {
    // sin 10.0 == -0.544021 to six places, three turns away
    assert_eq!(fx_sin(10_000_000), -544_021);
    // a full turn away from zero lands within reduction error of zero
    assert!(fx_sin(TWO_PI_FX).abs() <= 5);
}

#[test]
fn cosine_is_even() {
    assert_eq!(fx_cos(-700_000), fx_cos(700_000));
}
