//! The bit-pattern model of floating-point numbers against the numbers themselves.

use gizmo_hydro::Binary64;

fn b(value: f64) -> Binary64 {
    Binary64::from_bits(value.to_bits())
}

fn samples() -> Vec<f64> {
    vec![
        0.0,
        -0.0,
        1.0,
        -1.0,
        0.5,
        -0.9,
        1.0e-3,
        2.0,
        1.0e300,
        -1.0e300,
        f64::MIN_POSITIVE,
        f64::from_bits(1),
        -f64::from_bits(1),
        f64::MAX,
        f64::INFINITY,
        f64::NEG_INFINITY,
        f64::NAN,
        -f64::NAN,
    ]
}

#[test]
fn comparisons_agree_with_the_numbers() {
    for &x in &samples() {
        assert_eq!(b(x).is_nan(), x.is_nan());
        assert_eq!(b(x).is_finite(), x.is_finite());
        assert_eq!(b(x).is_negative(), x.is_sign_negative());
        assert_eq!(b(x).is_positive(), x.is_finite() && x > 0.0);
        assert_eq!(b(x).is_nonnegative(), x.is_finite() && x >= 0.0);
        for &y in &samples() {
            assert_eq!(b(x).less(b(y)), x < y);
            assert_eq!(b(x).at_most(b(y)), x <= y);
            assert_eq!(b(x).equals(b(y)), x == y);
            assert_eq!(b(x).totally_before(b(y)), x.total_cmp(&y).is_lt());
        }
    }
}

#[test]
fn extrema_and_signs_agree_with_the_numbers() {
    for &x in &samples() {
        assert_eq!(b(x).abs().to_bits(), x.abs().to_bits());
        assert_eq!(b(x).neg().to_bits(), (-x).to_bits());
        for &y in &samples() {
            let least = f64::from_bits(b(x).min(b(y)).to_bits());
            let greatest = f64::from_bits(b(x).max(b(y)).to_bits());
            if x.is_nan() && y.is_nan() {
                assert!(least.is_nan() && greatest.is_nan());
            } else {
                assert_eq!(least, x.min(y));
                assert_eq!(greatest, x.max(y));
            }
        }
    }
}

#[test]
fn truncation_agrees_with_the_cast() {
    let mut values = samples();
    for exponent in 0..70 {
        let power = 2.0_f64.powi(exponent);
        values.extend([power, power - 0.5, power + 0.75, 1.999 * power, power * 1.000_000_1]);
    }
    values.extend([1.152_921_504_606_847e18, 9.007_199_254_740_993e15, 1.844_674_407_370_955e19]);
    for value in values {
        assert_eq!(b(value).to_u64(), value as u64, "{value}");
    }
}
