//! The Oklab color space.

use vstd::prelude::*;
use crate::matrix::Mat3;
use crate::oklch::Oklch;
use crate::scalar::{clamp_v, cos_deg_v, fx_mul_v, sin_deg_v, Fx, SCALE};
use crate::white_point::D65;
use crate::xyz::{contrast_ratio, contrast_ratio_v, xyz_from_oklab_v, Xyz};

verus! {

/// Raw-unit entries of the matrix taking Oklab to the non-linear
/// LMS-like intermediate (the inverse of Oklab's second transform).
pub const OKM2I_00: i64 = 33554432;
pub const OKM2I_01: i64 = 13298889;
pub const OKM2I_02: i64 = 7241172;
pub const OKM2I_10: i64 = 33554432;
pub const OKM2I_11: i64 = -3542051;
pub const OKM2I_12: i64 = -2142590;
pub const OKM2I_20: i64 = 33554432;
pub const OKM2I_21: i64 = -3002591;
pub const OKM2I_22: i64 = -43335064;

/// Raw-unit entries of the matrix taking the linear LMS-like
/// intermediate to XYZ (the inverse of Oklab's first transform).
pub const OKM1I_00: i64 = 41171753;
pub const OKM1I_01: i64 = -18716662;
pub const OKM1I_02: i64 = 9437390;
pub const OKM1I_10: i64 = -1361645;
pub const OKM1I_11: i64 = 37321147;
pub const OKM1I_12: i64 = -2405070;
pub const OKM1I_20: i64 = -2562931;
pub const OKM1I_21: i64 = -14142588;
pub const OKM1I_22: i64 = 53222806;

/// The Oklab color space: perceptual lightness `l` and the green-red
/// and blue-yellow axes `a` and `b`, under the D65 white point.
#[derive(Clone, Copy, Debug)]
pub struct Oklab {
    /// The perceptual lightness.
    pub l: Fx,
    /// The green-red opponent axis.
    pub a: Fx,
    /// The blue-yellow opponent axis.
    pub b: Fx,
}

impl Oklab {
    /// An Oklab color.
    pub fn new(l: Fx, a: Fx, b: Fx) -> (r: Oklab)
        ensures
            r.l == l,
            r.a == a,
            r.b == b,
    {
        Oklab { l, a, b }
    }

    /// The lightness minimum.
    pub fn min_l() -> (r: Fx)
        ensures
            r@ == 0,
    {
        Fx::zero()
    }

    /// The lightness maximum.
    pub fn max_l() -> (r: Fx)
        ensures
            r@ == SCALE,
    {
        Fx::one()
    }

    /// Whether the lightness lies within its limits. The `a` and `b`
    /// axes are unlimited.
    pub fn is_within_bounds(&self) -> (r: bool)
        ensures
            r == (0 <= self.l@ <= SCALE),
    {
        let lo = Oklab::min_l();
        let hi = Oklab::max_l();
        lo.bits() <= self.l.bits() && self.l.bits() <= hi.bits()
    }

    /// Clamp the lightness into its limits; `a` and `b` are unlimited
    /// and kept as they are.
    pub fn clamp(self) -> (r: Oklab)
        ensures
            r.l@ == clamp_v(self.l@, 0, SCALE as int),
            r.a == self.a,
            r.b == self.b,
    {
        let l = self.l.clamp(Oklab::min_l(), Oklab::max_l());
        Oklab::new(l, self.a, self.b)
    }

    /// Clamp the lightness in place.
    pub fn clamp_assign(&mut self)
        ensures
            final(self).l@ == clamp_v(old(self).l@, 0, SCALE as int),
            final(self).a == old(self).a,
            final(self).b == old(self).b,
    {
        self.l = self.l.clamp(Oklab::min_l(), Oklab::max_l());
    }

    /// Convert from Oklch: polar to Cartesian on the chroma and hue
    /// pair. The chroma is never normalized.
    pub fn from_oklch(color: Oklch) -> (r: Oklab)
        ensures
            r.l == color.l,
            r.a@ == fx_mul_v(color.chroma@, cos_deg_v(color.hue@)),
            r.b@ == fx_mul_v(color.chroma@, sin_deg_v(color.hue@)),
    {
        Oklab {
            l: color.l,
            a: color.chroma.mul(color.hue.cos_deg()),
            b: color.chroma.mul(color.hue.sin_deg()),
        }
    }

    /// The WCAG contrast ratio between this color's luminance and
    /// another's, each taken from its XYZ conversion.
    pub fn get_contrast_ratio(self, other: Oklab) -> (r: Fx)
        ensures
            r@ == contrast_ratio_v(
                xyz_from_oklab_v(self.l@, self.a@, self.b@).1,
                xyz_from_oklab_v(other.l@, other.a@, other.b@).1,
            ),
    {
        let xyz1: Xyz<D65> = Xyz::from_oklab(self);
        let xyz2: Xyz<D65> = Xyz::from_oklab(other);
        contrast_ratio(xyz1.y, xyz2.y)
    }
}

/// The matrix taking the linear LMS-like intermediate to XYZ.
pub fn m1_inv() -> (r: Mat3)
    ensures
        r.m00@ == OKM1I_00 && r.m01@ == OKM1I_01 && r.m02@ == OKM1I_02,
        r.m10@ == OKM1I_10 && r.m11@ == OKM1I_11 && r.m12@ == OKM1I_12,
        r.m20@ == OKM1I_20 && r.m21@ == OKM1I_21 && r.m22@ == OKM1I_22,
{
    Mat3 {
        m00: Fx::from_bits(OKM1I_00),
        m01: Fx::from_bits(OKM1I_01),
        m02: Fx::from_bits(OKM1I_02),
        m10: Fx::from_bits(OKM1I_10),
        m11: Fx::from_bits(OKM1I_11),
        m12: Fx::from_bits(OKM1I_12),
        m20: Fx::from_bits(OKM1I_20),
        m21: Fx::from_bits(OKM1I_21),
        m22: Fx::from_bits(OKM1I_22),
    }
}

/// The matrix taking Oklab to the non-linear LMS-like intermediate.
pub fn m2_inv() -> (r: Mat3)
    ensures
        r.m00@ == OKM2I_00 && r.m01@ == OKM2I_01 && r.m02@ == OKM2I_02,
        r.m10@ == OKM2I_10 && r.m11@ == OKM2I_11 && r.m12@ == OKM2I_12,
        r.m20@ == OKM2I_20 && r.m21@ == OKM2I_21 && r.m22@ == OKM2I_22,
{
    Mat3 {
        m00: Fx::from_bits(OKM2I_00),
        m01: Fx::from_bits(OKM2I_01),
        m02: Fx::from_bits(OKM2I_02),
        m10: Fx::from_bits(OKM2I_10),
        m11: Fx::from_bits(OKM2I_11),
        m12: Fx::from_bits(OKM2I_12),
        m20: Fx::from_bits(OKM2I_20),
        m21: Fx::from_bits(OKM2I_21),
        m22: Fx::from_bits(OKM2I_22),
    }
}

} // verus!
