//! The fixed-point scalar layer: exact values for the arithmetic, the square
//! root, the logarithm and the trigonometry.

use raytracer::fixed::{
    fx_abs, fx_add, fx_div, fx_from_int, fx_mul, fx_neg, fx_ratio, fx_sub, FX_HALF, FX_HUGE,
    FX_ONE,
};
use raytracer::fmath::{
    fx_acos, fx_atan2, fx_cos, fx_floor_int, fx_mod, fx_neg_log2, fx_sin, fx_sqrt, FX_HALF_PI,
    FX_PI,
};

#[test]
fn add_and_sub_are_exact_in_range() {
    assert_eq!(fx_add(fx_from_int(2), fx_from_int(3)), fx_from_int(5));
    assert_eq!(fx_sub(fx_from_int(2), fx_from_int(3)), fx_from_int(-1));
    assert_eq!(fx_neg(fx_from_int(7)), fx_from_int(-7));
}

#[test]
fn add_saturates_at_the_huge_bound() {
    assert_eq!(fx_add(FX_HUGE, FX_HUGE), FX_HUGE);
    assert_eq!(fx_sub(-FX_HUGE, FX_HUGE), -FX_HUGE);
}

#[test]
fn mul_truncates_toward_zero() {
    assert_eq!(fx_mul(fx_from_int(3), FX_HALF), fx_from_int(1) + FX_HALF);
    assert_eq!(fx_mul(fx_from_int(-3), FX_HALF), -(fx_from_int(1) + FX_HALF));
    // 1/3 truncates: 65536/3 = 21845 remainder 1.
    assert_eq!(fx_mul(fx_from_int(1), fx_ratio(1, 3)), 21845);
}

#[test]
fn div_by_zero_saturates_with_the_sign_of_the_numerator() {
    assert_eq!(fx_div(fx_from_int(5), 0), FX_HUGE);
    assert_eq!(fx_div(fx_from_int(-5), 0), -FX_HUGE);
    assert_eq!(fx_div(0, 0), FX_HUGE);
}

#[test]
fn div_is_exact_on_divisible_values() {
    assert_eq!(fx_div(fx_from_int(6), fx_from_int(3)), fx_from_int(2));
    assert_eq!(fx_div(fx_from_int(-6), fx_from_int(3)), fx_from_int(-2));
}

#[test]
fn abs_and_ratio() {
    assert_eq!(fx_abs(fx_from_int(-4)), fx_from_int(4));
    assert_eq!(fx_ratio(4, 5), 52428);
    assert_eq!(fx_ratio(-201, 2), -6586368);
}

#[test]
fn sqrt_is_the_exact_floor_root() {
    assert_eq!(fx_sqrt(FX_ONE), FX_ONE);
    assert_eq!(fx_sqrt(fx_from_int(4)), fx_from_int(2));
    assert_eq!(fx_sqrt(fx_from_int(9)), fx_from_int(3));
    // sqrt(1/2) = 46340.95... in units of 1/65536.
    assert_eq!(fx_sqrt(FX_HALF), 46340);
    assert_eq!(fx_sqrt(-5), 0);
}

#[test]
fn neg_log2_is_zero_at_one_and_positive_below() {
    assert_eq!(fx_neg_log2(FX_ONE), 0);
    let at_half = fx_neg_log2(FX_HALF);
    // -log2(1/2) = 1, up to the dyadic approximation.
    assert!((at_half - FX_ONE).abs() < 16, "{at_half}");
    assert!(fx_neg_log2(1) > 0);
}

#[test]
fn mod_and_floor_handle_negatives() {
    assert_eq!(fx_mod(-1, 256), 255);
    assert_eq!(fx_mod(513, 256), 1);
    assert_eq!(fx_floor_int(FX_ONE + 1), 1);
    assert_eq!(fx_floor_int(-1), -1);
    assert_eq!(fx_floor_int(-FX_ONE), -1);
    assert_eq!(fx_floor_int(-FX_ONE - 1), -2);
}

#[test]
fn sine_and_cosine_hit_the_axis_values() {
    assert_eq!(fx_sin(0), 0);
    let s = fx_sin(FX_HALF_PI);
    assert!((s - FX_ONE).abs() < 64, "{s}");
    let c = fx_cos(0);
    assert!((c - FX_ONE).abs() < 64, "{c}");
    let z = fx_sin(FX_PI);
    assert!(z.abs() < 64, "{z}");
}

#[test]
fn atan2_quadrants() {
    assert_eq!(fx_atan2(0, 0), 0);
    assert_eq!(fx_atan2(0, FX_ONE), 0);
    let up = fx_atan2(FX_ONE, 0);
    assert!((up - FX_HALF_PI).abs() < 512, "{up}");
    let back = fx_atan2(0, -FX_ONE);
    assert!((back - FX_PI).abs() < 512, "{back}");
}

#[test]
fn acos_endpoints() {
    let a0 = fx_acos(FX_ONE);
    assert!(a0.abs() < 512, "{a0}");
    let a1 = fx_acos(-FX_ONE);
    assert!((a1 - FX_PI).abs() < 512, "{a1}");
    let ah = fx_acos(0);
    assert!((ah - FX_HALF_PI).abs() < 512, "{ah}");
}
