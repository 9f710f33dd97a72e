//! Tests for the fixed-point scalar and the alpha wrapper.

use palette::scalar::{FX_MAX_BITS, SCALE};
use palette::white_point::D65;
use palette::{Alpha, Fx, Xyz};

fn fx(v: f64) -> Fx {
    Fx::from_bits((v * SCALE as f64).round() as i64)
}

fn fv(x: Fx) -> f64 {
    x.bits() as f64 / SCALE as f64
}

#[test]
fn exact_arithmetic() {
    assert_eq!(fx(1.5).mul(fx(2.0)).bits(), fx(3.0).bits());
    assert_eq!(fx(1.0).add(fx(0.25)).bits(), fx(1.25).bits());
    assert_eq!(fx(1.0).sub(fx(0.25)).bits(), fx(0.75).bits());
    assert_eq!(fx(3.0).div(fx(2.0)).bits(), fx(1.5).bits());
    assert_eq!(fx(-1.5).mul(fx(2.0)).bits(), fx(-3.0).bits());
    assert_eq!(fx(0.5).neg().bits(), fx(-0.5).bits());
    assert!((fv(fx(1.0).div(fx(3.0))) - 1.0 / 3.0).abs() < 1e-7);
    assert!((fv(fx(0.3).mul(fx(0.7))) - 0.21).abs() < 1e-7);
}

#[test]
fn division_by_zero_saturates() {
    assert_eq!(fx(1.0).div(Fx::zero()).bits(), FX_MAX_BITS);
    assert_eq!(fx(-1.0).div(Fx::zero()).bits(), -FX_MAX_BITS);
    assert_eq!(Fx::zero().div(Fx::zero()).bits(), 0);
}

#[test]
fn saturation_at_bounds() {
    let big = Fx::from_bits(FX_MAX_BITS);
    assert_eq!(big.add(big).bits(), FX_MAX_BITS);
    assert_eq!(big.neg().sub(big).bits(), -FX_MAX_BITS);
    assert_eq!(big.mul(big).bits(), FX_MAX_BITS);
}

#[test]
fn mask_select_comparisons() {
    let a = fx(0.25);
    let b = fx(0.75);
    assert_eq!(a.lt_eq(b).select(a, b).bits(), a.bits());
    assert_eq!(b.lt_eq(a).select(a, b).bits(), b.bits());
    assert_eq!(a.lt_eq(a).select(Fx::one(), Fx::zero()).bits(), SCALE);
    assert_eq!(a.min(b).bits(), a.bits());
    assert_eq!(a.max(b).bits(), b.bits());
    assert_eq!(a.clamp(fx(0.5), fx(1.0)).bits(), fx(0.5).bits());
    assert_eq!(b.clamp(Fx::zero(), fx(0.5)).bits(), fx(0.5).bits());
    assert_eq!(a.recip().bits(), fx(4.0).bits());
}

#[test]
fn trigonometry_matches_reference() {
    let mut deg = -720.0f64;
    while deg <= 720.0 {
        let s = fv(fx(deg).sin_deg());
        let c = fv(fx(deg).cos_deg());
        let rad = deg.to_radians();
        assert!((s - rad.sin()).abs() < 1e-5, "sin at {}", deg);
        assert!((c - rad.cos()).abs() < 1e-5, "cos at {}", deg);
        deg += 7.3;
    }
}

#[test]
fn alpha_wrappers_carry_color_and_alpha() {
    let a: Alpha<Xyz<D65>, Fx> = Alpha::new(fx(0.1), fx(0.2), fx(0.3), fx(0.5));
    assert_eq!(a.color.x.bits(), fx(0.1).bits());
    assert_eq!(a.color.y.bits(), fx(0.2).bits());
    assert_eq!(a.color.z.bits(), fx(0.3).bits());
    assert_eq!(a.alpha.bits(), fx(0.5).bits());

    let b: Alpha<Xyz<D65>, Fx> = Alpha::with_wp(fx(0.4), fx(0.5), fx(0.6), fx(1.0));
    let (x, y, z, alpha) = b.into_components();
    let c: Alpha<Xyz<D65>, Fx> = Alpha::from_components((x, y, z, alpha));
    assert_eq!(c.color.x.bits(), fx(0.4).bits());
    assert_eq!(c.color.y.bits(), fx(0.5).bits());
    assert_eq!(c.color.z.bits(), fx(0.6).bits());
    assert_eq!(c.alpha.bits(), SCALE);
}

#[test]
fn default_xyz_is_black() {
    let d: Xyz<D65> = Default::default();
    assert_eq!(d.x.bits(), 0);
    assert_eq!(d.y.bits(), 0);
    assert_eq!(d.z.bits(), 0);
}
