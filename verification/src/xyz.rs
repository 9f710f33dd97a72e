//! The CIE 1931 XYZ color space and the conversions into it.
//!
//! XYZ links perceived colors to their wavelengths. Conversions and
//! operations on this space depend on the white point tag; every
//! conversion keeps its input's tag, so mixing white points without an
//! explicit adaptation step is rejected at the type level.

use vstd::prelude::*;
use core::marker::PhantomData;
use crate::lab::Lab;
use crate::luma::{Luma, LumaStandard};
use crate::luv::Luv;
use crate::encoding::TransferFn;
use crate::matrix::{
    dot3_v, multiply_rgb_to_xyz, multiply_xyz, rgb_to_xyz_matrix, rgb_to_xyz_matrix_rows_v,
};
use crate::rgb::{Primaries, Rgb, RgbSpace, RgbStandard};
use crate::oklab;
use crate::oklab::Oklab;
use crate::oklch::Oklch;
use crate::scalar::{clamp_v, cos_deg_v, fx_add_v, fx_div_v, fx_mul_v, fx_sub_v, sin_deg_v, Fx, SCALE};
use crate::white_point::{WhitePoint, D65};
use crate::yxy::Yxy;

verus! {

/// 16, in raw units.
pub const C_16: i64 = 536870912;
/// The reciprocal of 116, in raw units.
pub const RECIP_116: i64 = 289262;
/// The reciprocal of 500, in raw units.
pub const RECIP_500: i64 = 67109;
/// The reciprocal of 200, in raw units.
pub const RECIP_200: i64 = 167772;
/// The CIE epsilon `6/29`, the breakpoint of the piecewise Lab
/// inverse, in raw units.
pub const LAB_EPS: i64 = 6942296;
/// `108/841`, the slope of the linear segment of the Lab inverse, in
/// raw units.
pub const LAB_KAPPA: i64 = 4309011;
/// `4/29`, the offset of the linear segment of the Lab inverse, in
/// raw units.
pub const LAB_DELTA: i64 = 4628198;
/// `(29/3)^3`, the CIE kappa of the Luv inverse, in raw units.
pub const LUV_KAPPA: i64 = 30309594150;
/// The lightness below which Luv maps to black outright (`1e-5`), in
/// raw units.
pub const LUV_L_MIN: i64 = 336;
/// 8, in raw units: the lightness breakpoint of the Luv inverse.
pub const C_8: i64 = 268435456;
/// 15, in raw units.
pub const C_15: i64 = 503316480;
/// 3, in raw units.
pub const C_3: i64 = 100663296;
/// 4, in raw units.
pub const C_4: i64 = 134217728;
/// 9, in raw units.
pub const C_9: i64 = 301989888;
/// 13, in raw units.
pub const C_13: i64 = 436207616;
/// 2.25, in raw units.
pub const C_2_25: i64 = 75497472;
/// 0.75, in raw units.
pub const C_0_75: i64 = 25165824;
/// 5, in raw units.
pub const C_5: i64 = 167772160;
/// 0.05, in raw units: the flare term of the contrast ratio.
pub const C_0_05: i64 = 1677722;

/// The CIE 1931 XYZ color space, tagged with a white point.
#[derive(Debug)]
pub struct Xyz<Wp> {
    /// X is the scale of what can be seen as a response curve for the
    /// cone cells in the human eye. Its range depends on the white
    /// point: 0.0 to 0.95047 for the default D65.
    pub x: Fx,
    /// Y is the luminance of the color, where 0.0 is black and 1.0 is
    /// white.
    pub y: Fx,
    /// Z is the scale of what can be seen as the blue stimulation.
    /// Its range depends on the white point: 0.0 to 1.08883 for D65.
    pub z: Fx,
    /// The white point associated with the color's illuminant and
    /// observer. D65 for the 2 degree observer is used by default.
    pub white_point: PhantomData<Wp>,
}

/// Yxy to XYZ: `x = luma*x/y`, `z = luma*(1 - x - y)/y`, except that a
/// zero `y` denominator leaves X and Z at zero and only the luminance
/// carries through.
pub open spec fn xyz_from_yxy_v(x: int, y: int, luma: int) -> (int, int, int) {
    if y == 0 {
        (0, luma, 0)
    } else {
        (
            fx_div_v(fx_mul_v(luma, x), y),
            luma,
            fx_div_v(fx_mul_v(luma, fx_sub_v(fx_sub_v(SCALE as int, x), y)), y),
        )
    }
}

/// The piecewise inverse of Lab's `f`: the cube above the CIE epsilon
/// `6/29`, the linear segment `(c - 4/29) * 108/841` below it.
pub open spec fn lab_inv_f_v(c: int) -> int {
    if c > LAB_EPS as int {
        fx_mul_v(fx_mul_v(c, c), c)
    } else {
        fx_mul_v(fx_sub_v(c, LAB_DELTA as int), LAB_KAPPA as int)
    }
}

/// Lab to XYZ: the standard piecewise inverse on `fy = (l+16)/116`,
/// `fx = fy + a/500`, `fz = fy - b/200`, scaled by the white point's
/// reference tristimulus values.
pub open spec fn xyz_from_lab_v(l: int, a: int, b: int, wx: int, wy: int, wz: int) -> (int, int, int) {
    let fy = fx_mul_v(fx_add_v(l, C_16 as int), RECIP_116 as int);
    let fxx = fx_add_v(fy, fx_mul_v(a, RECIP_500 as int));
    let fz = fx_sub_v(fy, fx_mul_v(b, RECIP_200 as int));
    (
        fx_mul_v(lab_inv_f_v(fxx), wx),
        fx_mul_v(lab_inv_f_v(fy), wy),
        fx_mul_v(lab_inv_f_v(fz), wz),
    )
}

/// Luv to XYZ: black for `l` below `1e-5`; otherwise the CIE piecewise
/// cube/linear inverse with breakpoint `l > 8`, and the `u'`, `v'`
/// reconstruction against the white point's reference values.
pub open spec fn xyz_from_luv_v(l: int, u: int, v: int, wx: int, wy: int, wz: int) -> (int, int, int) {
    let denom = fx_add_v(fx_add_v(wx, fx_mul_v(C_15 as int, wy)), fx_mul_v(C_3 as int, wz));
    let rdr = fx_div_v(SCALE as int, denom);
    let u_ref = fx_mul_v(fx_mul_v(C_4 as int, wx), rdr);
    let v_ref = fx_mul_v(fx_mul_v(C_9 as int, wy), rdr);
    if l < LUV_L_MIN as int {
        (0, 0, 0)
    } else {
        let fy = fx_mul_v(fx_add_v(l, C_16 as int), RECIP_116 as int);
        let y0 = if l > C_8 as int {
            fx_mul_v(fx_mul_v(fy, fy), fy)
        } else {
            fx_mul_v(l, fx_div_v(SCALE as int, LUV_KAPPA as int))
        };
        let y = fx_mul_v(y0, wy);
        let up = fx_add_v(fx_div_v(u, fx_mul_v(C_13 as int, l)), u_ref);
        let vp = fx_add_v(fx_div_v(v, fx_mul_v(C_13 as int, l)), v_ref);
        let x = fx_div_v(fx_mul_v(fx_mul_v(y, C_2_25 as int), up), vp);
        let z = fx_div_v(
            fx_mul_v(
                y,
                fx_sub_v(fx_sub_v(C_3 as int, fx_mul_v(C_0_75 as int, up)), fx_mul_v(C_5 as int, vp)),
            ),
            vp,
        );
        (x, y, z)
    }
}

/// Oklab to XYZ: the inverse second matrix, a cube nonlinearity, and
/// the inverse first matrix.
pub open spec fn xyz_from_oklab_v(l: int, a: int, b: int) -> (int, int, int) {
    let lp = dot3_v(oklab::OKM2I_00 as int, oklab::OKM2I_01 as int, oklab::OKM2I_02 as int, l, a, b);
    let mp = dot3_v(oklab::OKM2I_10 as int, oklab::OKM2I_11 as int, oklab::OKM2I_12 as int, l, a, b);
    let sp = dot3_v(oklab::OKM2I_20 as int, oklab::OKM2I_21 as int, oklab::OKM2I_22 as int, l, a, b);
    let lc = fx_mul_v(fx_mul_v(lp, lp), lp);
    let mc = fx_mul_v(fx_mul_v(mp, mp), mp);
    let sc = fx_mul_v(fx_mul_v(sp, sp), sp);
    (
        dot3_v(oklab::OKM1I_00 as int, oklab::OKM1I_01 as int, oklab::OKM1I_02 as int, lc, mc, sc),
        dot3_v(oklab::OKM1I_10 as int, oklab::OKM1I_11 as int, oklab::OKM1I_12 as int, lc, mc, sc),
        dot3_v(oklab::OKM1I_20 as int, oklab::OKM1I_21 as int, oklab::OKM1I_22 as int, lc, mc, sc),
    )
}

/// The WCAG contrast ratio of two luminances: the larger plus 0.05
/// over the smaller plus 0.05.
pub open spec fn contrast_ratio_v(luma1: int, luma2: int) -> int {
    if luma1 > luma2 {
        fx_div_v(fx_add_v(luma1, C_0_05 as int), fx_add_v(luma2, C_0_05 as int))
    } else {
        fx_div_v(fx_add_v(luma2, C_0_05 as int), fx_add_v(luma1, C_0_05 as int))
    }
}

/// One component of a mix: `a + factor * (b - a)`.
pub open spec fn mix_component_v(a: int, b: int, factor: int) -> int {
    fx_add_v(a, fx_mul_v(factor, fx_sub_v(b, a)))
}

/// The luminance after lightening by a relative `factor`: a positive
/// factor closes that share of the distance to the maximum, a
/// negative one takes that share of the luminance away.
pub open spec fn lighten_v(y: int, factor: int, max_y: int) -> int {
    let difference = if factor >= 0 { fx_sub_v(max_y, y) } else { y };
    let delta = fx_mul_v(if difference >= 0 { difference } else { 0 }, factor);
    let lit = fx_add_v(y, delta);
    if lit >= 0 { lit } else { 0 }
}

/// The luminance after lightening by a fixed `amount` of the maximum.
pub open spec fn lighten_fixed_v(y: int, amount: int, max_y: int) -> int {
    let lit = fx_add_v(y, fx_mul_v(max_y, amount));
    if lit >= 0 { lit } else { 0 }
}

impl Xyz<D65> {
    /// CIE XYZ with white point D65.
    pub fn new(x: Fx, y: Fx, z: Fx) -> (r: Xyz<D65>)
        ensures
            r.x == x,
            r.y == y,
            r.z == z,
    {
        Xyz { x, y, z, white_point: PhantomData }
    }
}

impl<Wp> Xyz<Wp> {
    /// CIE XYZ.
    pub fn with_wp(x: Fx, y: Fx, z: Fx) -> (r: Xyz<Wp>)
        ensures
            r.x == x,
            r.y == y,
            r.z == z,
    {
        Xyz { x, y, z, white_point: PhantomData }
    }

    /// Convert to an `(X, Y, Z)` tuple.
    pub fn into_components(self) -> (r: (Fx, Fx, Fx))
        ensures
            r == (self.x, self.y, self.z),
    {
        (self.x, self.y, self.z)
    }

    /// Convert from an `(X, Y, Z)` tuple.
    pub fn from_components(components: (Fx, Fx, Fx)) -> (r: Xyz<Wp>)
        ensures
            r.x == components.0,
            r.y == components.1,
            r.z == components.2,
    {
        Xyz::with_wp(components.0, components.1, components.2)
    }

    /// Multiply two tristimulus triples component by component.
    pub fn mul_components(self, other: Xyz<Wp>) -> (r: Xyz<Wp>)
        ensures
            r.x@ == fx_mul_v(self.x@, other.x@),
            r.y@ == fx_mul_v(self.y@, other.y@),
            r.z@ == fx_mul_v(self.z@, other.z@),
    {
        Xyz::with_wp(self.x.mul(other.x), self.y.mul(other.y), self.z.mul(other.z))
    }

    /// Combine two colors component by component with `f`. Each
    /// result component is some value `f` may return for the pair of
    /// input components.
    pub fn component_wise<F: Fn(Fx, Fx) -> Fx>(&self, other: &Xyz<Wp>, f: F) -> (r: Xyz<Wp>)
        requires
            call_requires(f, (self.x, other.x)),
            call_requires(f, (self.y, other.y)),
            call_requires(f, (self.z, other.z)),
        ensures
            call_ensures(f, (self.x, other.x), r.x),
            call_ensures(f, (self.y, other.y), r.y),
            call_ensures(f, (self.z, other.z), r.z),
    {
        Xyz::with_wp(f(self.x, other.x), f(self.y, other.y), f(self.z, other.z))
    }

    /// Map each component of this color through `f`. Each result
    /// component is some value `f` may return for the input
    /// component.
    pub fn component_wise_self<F: Fn(Fx) -> Fx>(&self, f: F) -> (r: Xyz<Wp>)
        requires
            call_requires(f, (self.x,)),
            call_requires(f, (self.y,)),
            call_requires(f, (self.z,)),
        ensures
            call_ensures(f, (self.x,), r.x),
            call_ensures(f, (self.y,), r.y),
            call_ensures(f, (self.z,), r.z),
    {
        Xyz::with_wp(f(self.x), f(self.y), f(self.z))
    }

    /// Convert from Yxy. A zero `y` chromaticity leaves X and Z at
    /// zero: only the luminance carries through, instead of a
    /// division by zero.
    pub fn from_yxy(color: Yxy<Wp>) -> (r: Xyz<Wp>)
        ensures
            (r.x@, r.y@, r.z@) == xyz_from_yxy_v(color.x@, color.y@, color.luma@),
    {
        let mut xyz = Xyz::with_wp(Fx::zero(), color.luma, Fx::zero());
        if color.y.bits() != 0 {
            xyz.x = color.luma.mul(color.x).div(color.y);
            xyz.z = color.luma.mul(Fx::one().sub(color.x).sub(color.y)).div(color.y);
        }
        xyz
    }

}

impl Xyz<D65> {
    /// Convert from Oklch: first to Oklab (polar to Cartesian on the
    /// chroma and hue pair), then through the two fixed matrices and
    /// the cube nonlinearity.
    pub fn from_oklch(color: Oklch) -> (r: Xyz<D65>)
        ensures
            (r.x@, r.y@, r.z@) == xyz_from_oklab_v(
                color.l@,
                fx_mul_v(color.chroma@, cos_deg_v(color.hue@)),
                fx_mul_v(color.chroma@, sin_deg_v(color.hue@)),
            ),
    {
        let oklab = Oklab::from_oklch(color);
        Xyz::from_oklab(oklab)
    }

    /// Convert from Oklab, which is defined under the D65 white point.
    pub fn from_oklab(color: Oklab) -> (r: Xyz<D65>)
        ensures
            (r.x@, r.y@, r.z@) == xyz_from_oklab_v(color.l@, color.a@, color.b@),
    {
        let m1_inv = oklab::m1_inv();
        let m2_inv = oklab::m2_inv();
        let lms: Xyz<D65> = multiply_xyz(&m2_inv, &Xyz::new(color.l, color.a, color.b));
        let cubed: Xyz<D65> = Xyz::new(
            lms.x.mul(lms.x).mul(lms.x),
            lms.y.mul(lms.y).mul(lms.y),
            lms.z.mul(lms.z).mul(lms.z),
        );
        multiply_xyz(&m1_inv, &cubed)
    }
}

impl<Wp: WhitePoint> Xyz<Wp> {
    /// Return the `x` value minimum.
    pub fn min_x() -> (r: Fx)
        ensures
            r@ == 0,
    {
        Fx::zero()
    }

    /// Return the `x` value maximum.
    pub fn max_x() -> (r: Fx)
        ensures
            r@ == Wp::ref_x(),
    {
        let xyz_ref: Xyz<Wp> = Wp::get_xyz();
        xyz_ref.x
    }

    /// Return the `y` value minimum.
    pub fn min_y() -> (r: Fx)
        ensures
            r@ == 0,
    {
        Fx::zero()
    }

    /// Return the `y` value maximum.
    pub fn max_y() -> (r: Fx)
        ensures
            r@ == Wp::ref_y(),
    {
        let xyz_ref: Xyz<Wp> = Wp::get_xyz();
        xyz_ref.y
    }

    /// Return the `z` value minimum.
    pub fn min_z() -> (r: Fx)
        ensures
            r@ == 0,
    {
        Fx::zero()
    }

    /// Return the `z` value maximum.
    pub fn max_z() -> (r: Fx)
        ensures
            r@ == Wp::ref_z(),
    {
        let xyz_ref: Xyz<Wp> = Wp::get_xyz();
        xyz_ref.z
    }

    /// Convert from Lab.
    pub fn from_lab(color: Lab<Wp>) -> (r: Xyz<Wp>)
        ensures
            (r.x@, r.y@, r.z@) == xyz_from_lab_v(
                color.l@, color.a@, color.b@,
                Wp::ref_x(), Wp::ref_y(), Wp::ref_z(),
            ),
    {
        let y = color.l.add(Fx::from_bits(C_16)).mul(Fx::from_bits(RECIP_116));
        let x = y.add(color.a.mul(Fx::from_bits(RECIP_500)));
        let z = y.sub(color.b.mul(Fx::from_bits(RECIP_200)));
        let converted = Xyz::with_wp(lab_inv_f(x), lab_inv_f(y), lab_inv_f(z));
        converted.mul_components(Wp::get_xyz())
    }

    /// Convert from Luv.
    pub fn from_luv(color: Luv<Wp>) -> (r: Xyz<Wp>)
        ensures
            (r.x@, r.y@, r.z@) == xyz_from_luv_v(
                color.l@, color.u@, color.v@,
                Wp::ref_x(), Wp::ref_y(), Wp::ref_z(),
            ),
    {
        let kappa = Fx::from_bits(LUV_KAPPA);
        let w: Xyz<Wp> = Wp::get_xyz();
        let ref_denom_recip = w.x.add(Fx::from_bits(C_15).mul(w.y)).add(Fx::from_bits(C_3).mul(w.z)).recip();
        let u_ref = Fx::from_bits(C_4).mul(w.x).mul(ref_denom_recip);
        let v_ref = Fx::from_bits(C_9).mul(w.y).mul(ref_denom_recip);
        if color.l.bits() < LUV_L_MIN {
            return Xyz::with_wp(Fx::zero(), Fx::zero(), Fx::zero());
        }
        let y0 = if color.l.bits() > C_8 {
            let fy = color.l.add(Fx::from_bits(C_16)).mul(Fx::from_bits(RECIP_116));
            fy.mul(fy).mul(fy)
        } else {
            color.l.mul(kappa.recip())
        };
        let y = y0.mul(w.y);
        let u_prime = color.u.div(Fx::from_bits(C_13).mul(color.l)).add(u_ref);
        let v_prime = color.v.div(Fx::from_bits(C_13).mul(color.l)).add(v_ref);
        let x = y.mul(Fx::from_bits(C_2_25)).mul(u_prime).div(v_prime);
        let z = y.mul(
            Fx::from_bits(C_3).sub(Fx::from_bits(C_0_75).mul(u_prime)).sub(
                Fx::from_bits(C_5).mul(v_prime),
            ),
        ).div(v_prime);
        Xyz::with_wp(x, y, z)
    }

    /// Convert from a luminance: the white point's reference
    /// tristimulus values scaled by the luminance.
    pub fn from_luma<S: LumaStandard<WhitePoint = Wp>>(color: Luma<S>) -> (r: Xyz<Wp>)
        ensures
            r.x@ == fx_mul_v(Wp::ref_x(), color.luma@),
            r.y@ == fx_mul_v(Wp::ref_y(), color.luma@),
            r.z@ == fx_mul_v(Wp::ref_z(), color.luma@),
    {
        let w: Xyz<Wp> = Wp::get_xyz();
        Xyz::with_wp(w.x.mul(color.luma), w.y.mul(color.luma), w.z.mul(color.luma))
    }

    /// Whether all components lie within their natural limits: from
    /// zero up to the white point's reference values.
    pub fn is_within_bounds(&self) -> (r: bool)
        ensures
            r == (0 <= self.x@ <= Wp::ref_x() && 0 <= self.y@ <= Wp::ref_y() && 0 <= self.z@
                <= Wp::ref_z()),
    {
        self.x.bits() >= Self::min_x().bits() && self.x.bits() <= Self::max_x().bits()
            && self.y.bits() >= Self::min_y().bits() && self.y.bits() <= Self::max_y().bits()
            && self.z.bits() >= Self::min_z().bits() && self.z.bits() <= Self::max_z().bits()
    }

    /// Clamp each component into its natural limits.
    pub fn clamp(&self) -> (r: Xyz<Wp>)
        ensures
            r.x@ == clamp_v(self.x@, 0, Wp::ref_x()),
            r.y@ == clamp_v(self.y@, 0, Wp::ref_y()),
            r.z@ == clamp_v(self.z@, 0, Wp::ref_z()),
    {
        let mut c = *self;
        c.clamp_self();
        c
    }

    /// Clamp each component into its natural limits, in place.
    pub fn clamp_self(&mut self)
        ensures
            final(self).x@ == clamp_v(old(self).x@, 0, Wp::ref_x()),
            final(self).y@ == clamp_v(old(self).y@, 0, Wp::ref_y()),
            final(self).z@ == clamp_v(old(self).z@, 0, Wp::ref_z()),
    {
        self.x = self.x.clamp(Self::min_x(), Self::max_x());
        self.y = self.y.clamp(Self::min_y(), Self::max_y());
        self.z = self.z.clamp(Self::min_z(), Self::max_z());
    }

    /// Mix towards `other`: each component moves the clamped share
    /// `factor` of the way.
    pub fn mix(&self, other: &Xyz<Wp>, factor: Fx) -> (r: Xyz<Wp>)
        ensures
            r.x@ == mix_component_v(self.x@, other.x@, clamp_v(factor@, 0, SCALE as int)),
            r.y@ == mix_component_v(self.y@, other.y@, clamp_v(factor@, 0, SCALE as int)),
            r.z@ == mix_component_v(self.z@, other.z@, clamp_v(factor@, 0, SCALE as int)),
    {
        let factor = factor.clamp(Fx::zero(), Fx::one());
        Xyz::with_wp(
            self.x.add(factor.mul(other.x.sub(self.x))),
            self.y.add(factor.mul(other.y.sub(self.y))),
            self.z.add(factor.mul(other.z.sub(self.z))),
        )
    }

    /// Lighten by a relative factor of the remaining headroom (or of
    /// the luminance itself, for a negative factor). X and Z are kept.
    pub fn lighten(&self, factor: Fx) -> (r: Xyz<Wp>)
        ensures
            r.x == self.x,
            r.y@ == lighten_v(self.y@, factor@, Wp::ref_y()),
            r.z == self.z,
    {
        let difference = if factor.bits() >= 0 {
            Self::max_y().sub(self.y)
        } else {
            self.y
        };
        let delta = difference.max(Fx::zero()).mul(factor);
        Xyz::with_wp(self.x, self.y.add(delta).max(Self::min_y()), self.z)
    }

    /// Lighten by a fixed amount of the maximum luminance. X and Z
    /// are kept.
    pub fn lighten_fixed(&self, amount: Fx) -> (r: Xyz<Wp>)
        ensures
            r.x == self.x,
            r.y@ == lighten_fixed_v(self.y@, amount@, Wp::ref_y()),
            r.z == self.z,
    {
        Xyz::with_wp(self.x, self.y.add(Self::max_y().mul(amount)).max(Self::min_y()), self.z)
    }

    /// The WCAG contrast ratio between this color's luminance and
    /// another's.
    pub fn get_contrast_ratio(&self, other: &Xyz<Wp>) -> (r: Fx)
        ensures
            r@ == contrast_ratio_v(self.y@, other.y@),
    {
        contrast_ratio(self.y, other.y)
    }

    /// Convert from RGB: decode each channel through the standard's
    /// transfer function, then apply the space's RGB-to-XYZ matrix.
    pub fn from_rgb<S>(color: Rgb<S>) -> (r: Xyz<Wp>) where
        S: RgbStandard,
        S::Space: RgbSpace<WhitePoint = Wp>,

        requires
            <S::TransferFn as TransferFn>::into_linear_dom(color.red@),
            <S::TransferFn as TransferFn>::into_linear_dom(color.green@),
            <S::TransferFn as TransferFn>::into_linear_dom(color.blue@),
        ensures
            ({
                let rows = rgb_to_xyz_matrix_rows_v(
                    <<S::Space as RgbSpace>::Primaries as Primaries>::red_v(),
                    <<S::Space as RgbSpace>::Primaries as Primaries>::green_v(),
                    <<S::Space as RgbSpace>::Primaries as Primaries>::blue_v(),
                    Wp::ref_x(),
                    Wp::ref_y(),
                    Wp::ref_z(),
                );
                let lr = <S::TransferFn as TransferFn>::into_linear_v(color.red@);
                let lg = <S::TransferFn as TransferFn>::into_linear_v(color.green@);
                let lb = <S::TransferFn as TransferFn>::into_linear_v(color.blue@);
                r.x@ == dot3_v(rows.0.0, rows.0.1, rows.0.2, lr, lg, lb) && r.y@ == dot3_v(
                    rows.1.0,
                    rows.1.1,
                    rows.1.2,
                    lr,
                    lg,
                    lb,
                ) && r.z@ == dot3_v(rows.2.0, rows.2.1, rows.2.2, lr, lg, lb)
            }),
    {
        let transform_matrix = rgb_to_xyz_matrix::<S::Space>();
        multiply_rgb_to_xyz(&transform_matrix, &color.into_linear())
    }
}

impl<Wp> Default for Xyz<Wp> {
    /// Black: all components zero.
    fn default() -> (r: Xyz<Wp>)
        ensures
            r.x@ == 0,
            r.y@ == 0,
            r.z@ == 0,
    {
        Xyz::with_wp(Fx::zero(), Fx::zero(), Fx::zero())
    }
}

/// The piecewise inverse of Lab's `f` function.
fn lab_inv_f(c: Fx) -> (r: Fx)
    ensures
        r@ == lab_inv_f_v(c@),
{
    if c.bits() > LAB_EPS {
        c.mul(c).mul(c)
    } else {
        c.sub(Fx::from_bits(LAB_DELTA)).mul(Fx::from_bits(LAB_KAPPA))
    }
}

/// The WCAG contrast ratio of two luminances.
pub fn contrast_ratio(luma1: Fx, luma2: Fx) -> (r: Fx)
    ensures
        r@ == contrast_ratio_v(luma1@, luma2@),
{
    let flare = Fx::from_bits(C_0_05);
    if luma1.bits() > luma2.bits() {
        luma1.add(flare).div(luma2.add(flare))
    } else {
        luma2.add(flare).div(luma1.add(flare))
    }
}

impl<Wp> Copy for Xyz<Wp> {

}

impl<Wp> Clone for Xyz<Wp> {
    /// An identical copy of the color.
    fn clone(&self) -> (r: Xyz<Wp>)
        ensures
            r == *self,
    {
        *self
    }
}

} // verus!
