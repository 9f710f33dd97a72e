//! A color conversion core: device-encoded sRGB, linear RGB, CIE XYZ,
//! Lab, Luv, Yxy, Oklab and Luma, with verified conversion formulas.
//!
//! Color components are carried by [`scalar::Fx`], a fixed-point scalar
//! with 25 fractional bits. Every conversion states its result exactly,
//! as integer arithmetic over the scalar's raw units. The 8-bit sRGB
//! fast paths call into `fast_srgb8` behind trusted wrappers; the
//! float64 decode fast path uses a precomputed table of IEEE 754 bit
//! patterns so that no floating-point arithmetic runs in the library.

pub mod alpha;
pub mod encoding;
pub mod lab;
pub mod luma;
pub mod luv;
pub mod matrix;
pub mod oklab;
pub mod oklch;
pub mod rgb;
pub mod scalar;
pub mod white_point;
pub mod xyz;
pub mod yxy;

pub use alpha::Alpha;
pub use alpha::Xyza;
pub use encoding::Srgb;
pub use lab::Lab;
pub use rgb::Rgb;
pub use luma::Luma;
pub use luv::Luv;
pub use oklab::Oklab;
pub use oklch::Oklch;
pub use scalar::Fx;
pub use scalar::FxMask;
pub use xyz::Xyz;
pub use yxy::Yxy;
