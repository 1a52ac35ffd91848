use std::hint::black_box;
use t_spline::scalar::{Numeric, Scalar};

fn needs_numeric(value: impl Numeric) {
    black_box(value);
}

fn from_f64(x: f64) -> Scalar {
    Scalar::from_raw((x * 4294967296.0).round() as i64)
}

#[test]
fn it_supports_floats() {
    needs_numeric(from_f64(1f64));
    needs_numeric(from_f64(1f32 as f64));
}

#[test]
fn it_supports_fixed() {
    needs_numeric(Scalar::one());
}

#[test]
fn arithmetic_is_exact_on_binary_fractions() {
    let half = from_f64(0.5);
    let three = Scalar::from_int(3);
    assert_eq!(half.add(half), Scalar::one());
    assert_eq!(three.mul(half), from_f64(1.5));
    assert_eq!(Scalar::one().div(from_f64(4.0)), from_f64(0.25));
    assert_eq!(half.sub(three), from_f64(-2.5));
    assert_eq!(from_f64(-2.5).abs(), from_f64(2.5));
    assert_eq!(from_f64(2.5).neg(), from_f64(-2.5));
}

#[test]
fn arithmetic_saturates() {
    let big = Scalar::from_raw(i64::MAX);
    assert_eq!(big.add(Scalar::one()).raw, i64::MAX);
    assert_eq!(big.neg().sub(Scalar::from_int(2)).raw, i64::MIN);
    assert_eq!(big.mul(Scalar::from_int(2)).raw, i64::MAX);
    assert_eq!(Scalar::one().div(Scalar::zero()).raw, i64::MAX);
    assert_eq!(Scalar::one().neg().div(Scalar::zero()).raw, i64::MIN);
}

#[test]
fn quotients_truncate_toward_zero() {
    let third = Scalar::one().div(Scalar::from_int(3));
    assert_eq!(third.raw, 1431655765);
    assert_eq!(Scalar::one().neg().div(Scalar::from_int(3)).raw, -1431655765);
}

#[test]
fn numeric_min_max_delta() {
    let a = from_f64(0.25);
    let b = from_f64(-1.0);
    assert_eq!(Numeric::max(a, b), a);
    assert_eq!(Numeric::min(a, b), b);
    assert_eq!(<Scalar as Numeric>::delta().raw, 1);
}
