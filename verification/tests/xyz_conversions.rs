//! Tests for the conversions into CIE XYZ and the XYZ operations.

use palette::encoding::Linear;
use palette::matrix::{matrix_inverse, multiply_xyz, rgb_to_xyz_matrix};
use palette::scalar::SCALE;
use palette::white_point::{Any, D65};
use palette::{Fx, Lab, Luma, Luv, Oklab, Oklch, Rgb, Srgb, Xyz, Yxy};

const X_N: f64 = 0.95047;
const Y_N: f64 = 1.0;
const Z_N: f64 = 1.08883;

fn fx(v: f64) -> Fx {
    Fx::from_bits((v * SCALE as f64).round() as i64)
}

fn fv(x: Fx) -> f64 {
    x.bits() as f64 / SCALE as f64
}

fn assert_xyz_near(a: Xyz<D65>, x: f64, y: f64, z: f64, eps: f64) {
    assert!((fv(a.x) - x).abs() < eps, "x: {} vs {}", fv(a.x), x);
    assert!((fv(a.y) - y).abs() < eps, "y: {} vs {}", fv(a.y), y);
    assert!((fv(a.z) - z).abs() < eps, "z: {} vs {}", fv(a.z), z);
}

#[test]
fn luma() {
    let a: Xyz<D65> = Xyz::from_luma(Luma::<Linear<Srgb>>::new(fx(0.5)));
    assert_xyz_near(a, 0.475235, 0.5, 0.544415, 0.0001);
}

#[test]
fn red() {
    let a: Xyz<D65> = Xyz::from_rgb(Rgb::<Linear<Srgb>>::new(fx(1.0), fx(0.0), fx(0.0)));
    assert_xyz_near(a, 0.41240, 0.21260, 0.01930, 0.0001);
}

#[test]
fn green() {
    let a: Xyz<D65> = Xyz::from_rgb(Rgb::<Linear<Srgb>>::new(fx(0.0), fx(1.0), fx(0.0)));
    assert_xyz_near(a, 0.35760, 0.71520, 0.11920, 0.0001);
}

#[test]
fn blue() {
    let a: Xyz<D65> = Xyz::from_rgb(Rgb::<Linear<Srgb>>::new(fx(0.0), fx(0.0), fx(1.0)));
    assert_xyz_near(a, 0.18050, 0.07220, 0.95030, 0.0001);
}

#[test]
fn white_point_bounded() {
    let a: Xyz<D65> = Xyz::from_rgb(Rgb::<Linear<Srgb>>::new(fx(1.0), fx(1.0), fx(1.0)));
    assert_xyz_near(a, X_N, Y_N, Z_N, 0.0001);
}

#[test]
fn ranges() {
    let inside: Xyz<D65> = Xyz::new(fx(0.5), fx(0.5), fx(0.5));
    assert!(inside.is_within_bounds());
    let c = inside.clamp();
    assert_eq!(c.x.bits(), inside.x.bits());
    assert_eq!(c.y.bits(), inside.y.bits());
    assert_eq!(c.z.bits(), inside.z.bits());

    let low: Xyz<D65> = Xyz::new(fx(-0.2), fx(-0.1), fx(-0.3));
    assert!(!low.is_within_bounds());
    let c = low.clamp();
    assert_xyz_near(c, 0.0, 0.0, 0.0, 1e-9);
    assert!(c.is_within_bounds());

    let high: Xyz<D65> = Xyz::new(fx(2.0), fx(2.0), fx(2.0));
    assert!(!high.is_within_bounds());
    let c = high.clamp();
    assert_xyz_near(c, X_N, Y_N, Z_N, 0.0001);
    assert!(c.is_within_bounds());
}

#[test]
fn check_min_max_components() {
    assert_eq!(Xyz::<D65>::min_x().bits(), 0);
    assert_eq!(Xyz::<D65>::min_y().bits(), 0);
    assert_eq!(Xyz::<D65>::min_z().bits(), 0);
    assert!((fv(Xyz::<D65>::max_x()) - X_N).abs() < 1e-6);
    assert!((fv(Xyz::<D65>::max_y()) - Y_N).abs() < 1e-6);
    assert!((fv(Xyz::<D65>::max_z()) - Z_N).abs() < 1e-6);
}

#[test]
fn degenerate_yxy() {
    let a: Xyz<D65> = Xyz::from_yxy(Yxy::new(fx(0.3), fx(0.0), fx(0.5)));
    assert_eq!(a.x.bits(), 0);
    assert_eq!(a.y.bits(), fx(0.5).bits());
    assert_eq!(a.z.bits(), 0);
}

#[test]
fn yxy_matches_reference() {
    let a: Xyz<D65> = Xyz::from_yxy(Yxy::new(fx(0.3127), fx(0.3290), fx(1.0)));
    let x = 1.0 * 0.3127 / 0.3290;
    let z = 1.0 * (1.0 - 0.3127 - 0.3290) / 0.3290;
    assert_xyz_near(a, x, 1.0, z, 1e-5);
}

#[test]
fn matrix_invertibility() {
    let forward = rgb_to_xyz_matrix::<Srgb>();
    let inverse = matrix_inverse(&forward);
    let triples: [(f64, f64, f64); 4] = [
        (0.3, 0.5, 0.7),
        (1.0, 0.2, 0.05),
        (0.9, 0.01, 0.7),
        (0.0, 1.0, 1.0),
    ];
    for &(x, y, z) in triples.iter() {
        let v: Xyz<Any> = Xyz::with_wp(fx(x), fx(y), fx(z));
        let w: Xyz<Any> = multiply_xyz(&inverse, &multiply_xyz::<Any, Any>(&forward, &v));
        assert!((fv(w.x) - x).abs() < 1e-6, "x at {:?}", (x, y, z));
        assert!((fv(w.y) - y).abs() < 1e-6, "y at {:?}", (x, y, z));
        assert!((fv(w.z) - z).abs() < 1e-6, "z at {:?}", (x, y, z));
    }
}

#[test]
fn lab_matches_reference() {
    let cases: [(f64, f64, f64); 3] = [(50.0, 20.0, -30.0), (100.0, 0.0, 0.0), (4.0, 3.0, 2.0)];
    for &(l, a, b) in cases.iter() {
        let got: Xyz<D65> = Xyz::from_lab(Lab::new(fx(l), fx(a), fx(b)));
        let fy = (l + 16.0) / 116.0;
        let fxx = fy + a / 500.0;
        let fz = fy - b / 200.0;
        let conv = |c: f64| {
            if c > 6.0 / 29.0 {
                c * c * c
            } else {
                (c - 4.0 / 29.0) * (108.0 / 841.0)
            }
        };
        assert!((fv(got.x) - conv(fxx) * X_N).abs() < 1e-4);
        assert!((fv(got.y) - conv(fy) * Y_N).abs() < 1e-4);
        assert!((fv(got.z) - conv(fz) * Z_N).abs() < 1e-4);
    }
}

#[test]
fn luv_matches_reference() {
    let (l, u, v) = (60.0, 30.0, -20.0);
    let got: Xyz<D65> = Xyz::from_luv(Luv::new(fx(l), fx(u), fx(v)));
    let denom = X_N + 15.0 * Y_N + 3.0 * Z_N;
    let u_ref = 4.0 * X_N / denom;
    let v_ref = 9.0 * Y_N / denom;
    let y = ((l + 16.0) / 116.0).powi(3) * Y_N;
    let up = u / (13.0 * l) + u_ref;
    let vp = v / (13.0 * l) + v_ref;
    let x = y * 2.25 * up / vp;
    let z = y * (3.0 - 0.75 * up - 5.0 * vp) / vp;
    assert!((fv(got.x) - x).abs() < 1e-4);
    assert!((fv(got.y) - y).abs() < 1e-4);
    assert!((fv(got.z) - z).abs() < 1e-4);
}

#[test]
fn luv_near_black_is_black() {
    let got: Xyz<D65> = Xyz::from_luv(Luv::new(fx(0.000001), fx(30.0), fx(-20.0)));
    assert_eq!(got.x.bits(), 0);
    assert_eq!(got.y.bits(), 0);
    assert_eq!(got.z.bits(), 0);
}

#[test]
fn oklab_white_maps_near_white_point() {
    let got: Xyz<D65> = Xyz::from_oklab(Oklab::new(fx(1.0), fx(0.0), fx(0.0)));
    assert_xyz_near(got, X_N, Y_N, Z_N, 0.01);
}

#[test]
fn oklch_matches_oklab() {
    let cases: [(f64, f64, f64); 4] =
        [(0.7, 0.12, 30.0), (0.4, 0.05, 200.0), (0.9, 0.2, -45.0), (0.5, 0.1, 359.0)];
    for &(l, chroma, hue) in cases.iter() {
        let via_oklch: Xyz<D65> = Xyz::from_oklch(Oklch::new(fx(l), fx(chroma), fx(hue)));
        let rad = hue.to_radians();
        let direct: Xyz<D65> = Xyz::from_oklab(Oklab::new(
            fx(l),
            fx(chroma * rad.cos()),
            fx(chroma * rad.sin()),
        ));
        assert!((fv(via_oklch.x) - fv(direct.x)).abs() < 1e-5, "x at hue {}", hue);
        assert!((fv(via_oklch.y) - fv(direct.y)).abs() < 1e-5, "y at hue {}", hue);
        assert!((fv(via_oklch.z) - fv(direct.z)).abs() < 1e-5, "z at hue {}", hue);
    }
}

#[test]
fn mix_interpolates() {
    let a: Xyz<D65> = Xyz::new(fx(0.2), fx(0.4), fx(0.6));
    let b: Xyz<D65> = Xyz::new(fx(0.6), fx(0.0), fx(1.0));
    let m = a.mix(&b, fx(0.5));
    assert_xyz_near(m, 0.4, 0.2, 0.8, 1e-6);
    let clamped = a.mix(&b, fx(2.0));
    assert_xyz_near(clamped, 0.6, 0.0, 1.0, 1e-6);
}

#[test]
fn lighten_moves_luminance() {
    let a: Xyz<D65> = Xyz::new(fx(0.3), fx(0.4), fx(0.5));
    let lighter = a.lighten(fx(0.5));
    assert!((fv(lighter.y) - (0.4 + 0.5 * (Y_N - 0.4))).abs() < 1e-6);
    assert_eq!(lighter.x.bits(), a.x.bits());
    let darker = a.lighten(fx(-0.5));
    assert!((fv(darker.y) - 0.2).abs() < 1e-6);
    let fixed = a.lighten_fixed(fx(0.25));
    assert!((fv(fixed.y) - 0.65).abs() < 1e-6);
}

#[test]
fn contrast_ratio_extremes() {
    let white: Xyz<D65> = Xyz::new(fx(X_N), fx(1.0), fx(Z_N));
    let black: Xyz<D65> = Xyz::new(fx(0.0), fx(0.0), fx(0.0));
    let r = white.get_contrast_ratio(&black);
    assert!((fv(r) - 21.0).abs() < 1e-4);
    let same = white.get_contrast_ratio(&white);
    assert!((fv(same) - 1.0).abs() < 1e-6);
}

#[test]
fn oklab_contrast_matches_xyz_contrast() {
    let a = Oklab::new(fx(0.8), fx(0.02), fx(-0.01));
    let b = Oklab::new(fx(0.3), fx(-0.05), fx(0.04));
    let via_oklab = a.get_contrast_ratio(b);
    let xyz_a: Xyz<D65> = Xyz::from_oklab(a);
    let xyz_b: Xyz<D65> = Xyz::from_oklab(b);
    let via_xyz = xyz_a.get_contrast_ratio(&xyz_b);
    assert_eq!(via_oklab.bits(), via_xyz.bits());
}

#[test]
fn oklab_clamp_limits_lightness() {
    let c = Oklab::new(fx(1.5), fx(0.3), fx(-0.4)).clamp();
    assert_eq!(c.l.bits(), SCALE);
    assert_eq!(c.a.bits(), fx(0.3).bits());
    assert_eq!(c.b.bits(), fx(-0.4).bits());
    let mut d = Oklab::new(fx(-0.5), fx(0.0), fx(0.0));
    d.clamp_assign();
    assert_eq!(d.l.bits(), 0);
    assert!(Oklab::new(fx(0.5), fx(9.0), fx(-9.0)).is_within_bounds());
    assert!(!Oklab::new(fx(1.5), fx(0.0), fx(0.0)).is_within_bounds());
}

#[test]
fn components_round_trip() {
    let a: Xyz<D65> = Xyz::new(fx(0.1), fx(0.2), fx(0.3));
    let (x, y, z) = a.into_components();
    let back: Xyz<D65> = Xyz::from_components((x, y, z));
    assert_eq!(back.x.bits(), a.x.bits());
    assert_eq!(back.y.bits(), a.y.bits());
    assert_eq!(back.z.bits(), a.z.bits());
}

#[test]
fn encoded_rgb_decodes_before_matrix() {
    let encoded: Xyz<D65> = Xyz::from_rgb(Rgb::<Srgb>::new(fx(0.5), fx(0.5), fx(0.5)));
    let lin = ((0.5 + 0.055) / 1.055f64).powf(2.4);
    let direct: Xyz<D65> = Xyz::from_rgb(Rgb::<Linear<Srgb>>::new(fx(lin), fx(lin), fx(lin)));
    assert!((fv(encoded.x) - fv(direct.x)).abs() < 1e-5);
    assert!((fv(encoded.y) - fv(direct.y)).abs() < 1e-5);
    assert!((fv(encoded.z) - fv(direct.z)).abs() < 1e-5);
}
