//! Tests for the sRGB transfer function and its 8-bit fast paths.

use palette::encoding::narrow_f64_bits;
use palette::encoding::TransferFn;
use palette::scalar::SCALE;
use palette::{Fx, Srgb};

fn fx(v: f64) -> Fx {
    Fx::from_bits((v * SCALE as f64).round() as i64)
}

fn fv(x: Fx) -> f64 {
    x.bits() as f64 / SCALE as f64
}

fn reference_decode(x: f64) -> f64 {
    if x <= 0.04045 {
        x / 12.92
    } else {
        ((x + 0.055) / 1.055).powf(2.4)
    }
}

fn reference_encode(x: f64) -> f64 {
    if x <= 0.0031308 {
        12.92 * x
    } else {
        1.055 * x.powf(1.0 / 2.4) - 0.055
    }
}

#[test]
fn u8_to_f32_to_u8() {
    for expected in 0u8..=255u8 {
        let linear: f32 = f32::from_bits(Srgb::into_linear_f32(expected));
        let result: u8 = Srgb::from_linear_f32(linear.to_bits());
        assert_eq!(result, expected);
    }
}

#[test]
fn u8_to_f64_to_u8() {
    for expected in 0u8..=255u8 {
        let linear: f64 = f64::from_bits(Srgb::into_linear_f64(expected));
        let result: u8 = Srgb::from_linear_f64(linear.to_bits());
        assert_eq!(result, expected);
    }
}

#[test]
fn fast_paths_agree_with_generic_decode() {
    for v in 0u8..=255u8 {
        let reference = reference_decode(v as f64 / 255.0);
        let fast32 = f32::from_bits(Srgb::into_linear_f32(v)) as f64;
        let fast64 = f64::from_bits(Srgb::into_linear_f64(v));
        let generic = fv(Srgb::into_linear(fx(v as f64 / 255.0)));
        assert!((fast32 - reference).abs() < 1e-6, "f32 path at {}", v);
        assert!((fast64 - reference).abs() < 1e-9, "f64 path at {}", v);
        assert!((generic - reference).abs() < 1e-6, "generic at {}", v);
    }
}

#[test]
fn decode_threshold_continuity() {
    let at = fv(Srgb::into_linear(fx(0.04045)));
    let above = fv(Srgb::into_linear(fx(0.04045 + 1e-6)));
    assert!((at - above).abs() < 1e-4);
    assert!((at - reference_decode(0.04045)).abs() < 1e-6);
}

#[test]
fn generic_encode_matches_reference() {
    for i in 0..=40 {
        let x = i as f64 / 20.0;
        let got = fv(Srgb::from_linear(fx(x)));
        assert!((got - reference_encode(x)).abs() < 1e-6, "encode at {}", x);
    }
}

#[test]
fn generic_round_trip_within_precision() {
    for i in 0..=20 {
        let x = i as f64 / 20.0;
        let back = fv(Srgb::into_linear(Srgb::from_linear(fx(x))));
        assert!((back - x).abs() < 1e-5, "round trip at {}", x);
    }
}

#[test]
fn fast_encode_clamps_out_of_range() {
    assert_eq!(Srgb::from_linear_f32(0.0f32.to_bits()), 0);
    assert_eq!(Srgb::from_linear_f32((-1.0f32).to_bits()), 0);
    assert_eq!(Srgb::from_linear_f32(1.0f32.to_bits()), 255);
    assert_eq!(Srgb::from_linear_f32(2.0f32.to_bits()), 255);
}

#[test]
fn f64_table_endpoints() {
    assert_eq!(f64::from_bits(Srgb::into_linear_f64(0)), 0.0);
    assert_eq!(f64::from_bits(Srgb::into_linear_f64(255)), 1.0);
}

#[test]
fn narrowing_matches_float_cast() {
    let samples: [f64; 14] = [
        0.0,
        -0.0,
        1.0,
        -1.0,
        0.1,
        1234.56789,
        -0.000303527,
        f64::INFINITY,
        f64::NEG_INFINITY,
        1e40,
        -1e40,
        1e-40,
        8.9e-308,
        5e-324,
    ];
    for &x in samples.iter() {
        let expected = (x as f32).to_bits();
        let got = narrow_f64_bits(x.to_bits());
        assert_eq!(got, expected, "narrowing {}", x);
    }
    for i in 0..4000u64 {
        let bits = 0x3F00000000000000u64 + i * 0x100000000387;
        let x = f64::from_bits(bits);
        assert_eq!(narrow_f64_bits(bits), (x as f32).to_bits(), "narrowing bits {:#x}", bits);
    }
}
