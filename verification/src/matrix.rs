//! Fixed 3x3 linear transforms between tristimulus spaces.

use vstd::prelude::*;
use crate::rgb::{Primaries, Rgb, RgbSpace};
use crate::scalar::{
    fx_add_v, fx_div_v, fx_mul_v, fx_sub_v, lemma_mul_bound, lemma_rdiv_err,
    lemma_rdiv_scale_range, rdiv, Fx, HALF_SCALE, SCALE,
};
use crate::white_point::{Any, WhitePoint};
use crate::xyz::{xyz_from_yxy_v, Xyz};

verus! {

/// A 3x3 transform matrix of scalars, in row-major order.
#[derive(Clone, Copy, Debug)]
pub struct Mat3 {
    pub m00: Fx,
    pub m01: Fx,
    pub m02: Fx,
    pub m10: Fx,
    pub m11: Fx,
    pub m12: Fx,
    pub m20: Fx,
    pub m21: Fx,
    pub m22: Fx,
}

/// A row of a matrix applied to a tristimulus triple:
/// `a*x + b*y + c*z` in saturating fixed-point arithmetic.
pub open spec fn dot3_v(a: int, b: int, c: int, x: int, y: int, z: int) -> int {
    fx_add_v(fx_add_v(fx_mul_v(a, x), fx_mul_v(b, y)), fx_mul_v(c, z))
}

impl Mat3 {
    /// The determinant, computed by expansion along the first row in
    /// saturating fixed-point arithmetic.
    pub open spec fn det_v(self) -> int {
        fx_add_v(
            fx_sub_v(
                fx_mul_v(self.m00@, fx_sub_v(fx_mul_v(self.m11@, self.m22@), fx_mul_v(self.m12@, self.m21@))),
                fx_mul_v(self.m01@, fx_sub_v(fx_mul_v(self.m10@, self.m22@), fx_mul_v(self.m12@, self.m20@))),
            ),
            fx_mul_v(self.m02@, fx_sub_v(fx_mul_v(self.m10@, self.m21@), fx_mul_v(self.m11@, self.m20@))),
        )
    }
}

/// Multiply a matrix into a tristimulus triple. The triple's white
/// point tag may change: the matrix itself fixes the source and
/// destination interpretation.
pub fn multiply_xyz<Swp, Dwp>(c: &Mat3, f: &Xyz<Swp>) -> (r: Xyz<Dwp>)
    ensures
        r.x@ == dot3_v(c.m00@, c.m01@, c.m02@, f.x@, f.y@, f.z@),
        r.y@ == dot3_v(c.m10@, c.m11@, c.m12@, f.x@, f.y@, f.z@),
        r.z@ == dot3_v(c.m20@, c.m21@, c.m22@, f.x@, f.y@, f.z@),
{
    Xyz::with_wp(
        c.m00.mul(f.x).add(c.m01.mul(f.y)).add(c.m02.mul(f.z)),
        c.m10.mul(f.x).add(c.m11.mul(f.y)).add(c.m12.mul(f.z)),
        c.m20.mul(f.x).add(c.m21.mul(f.y)).add(c.m22.mul(f.z)),
    )
}

/// The algebraic inverse of a matrix: the adjugate divided by the
/// determinant, each entry in saturating fixed-point arithmetic. For
/// a singular matrix the divisions saturate instead of failing.
pub fn matrix_inverse(m: &Mat3) -> (r: Mat3)
    ensures
        r.m00@ == fx_div_v(fx_sub_v(fx_mul_v(m.m11@, m.m22@), fx_mul_v(m.m12@, m.m21@)), m.det_v()),
        r.m01@ == fx_div_v(fx_sub_v(fx_mul_v(m.m02@, m.m21@), fx_mul_v(m.m01@, m.m22@)), m.det_v()),
        r.m02@ == fx_div_v(fx_sub_v(fx_mul_v(m.m01@, m.m12@), fx_mul_v(m.m02@, m.m11@)), m.det_v()),
        r.m10@ == fx_div_v(fx_sub_v(fx_mul_v(m.m12@, m.m20@), fx_mul_v(m.m10@, m.m22@)), m.det_v()),
        r.m11@ == fx_div_v(fx_sub_v(fx_mul_v(m.m00@, m.m22@), fx_mul_v(m.m02@, m.m20@)), m.det_v()),
        r.m12@ == fx_div_v(fx_sub_v(fx_mul_v(m.m02@, m.m10@), fx_mul_v(m.m00@, m.m12@)), m.det_v()),
        r.m20@ == fx_div_v(fx_sub_v(fx_mul_v(m.m10@, m.m21@), fx_mul_v(m.m11@, m.m20@)), m.det_v()),
        r.m21@ == fx_div_v(fx_sub_v(fx_mul_v(m.m01@, m.m20@), fx_mul_v(m.m00@, m.m21@)), m.det_v()),
        r.m22@ == fx_div_v(fx_sub_v(fx_mul_v(m.m00@, m.m11@), fx_mul_v(m.m01@, m.m10@)), m.det_v()),
{
    let det = m.m00.mul(m.m11.mul(m.m22).sub(m.m12.mul(m.m21)))
        .sub(m.m01.mul(m.m10.mul(m.m22).sub(m.m12.mul(m.m20))))
        .add(m.m02.mul(m.m10.mul(m.m21).sub(m.m11.mul(m.m20))));
    Mat3 {
        m00: m.m11.mul(m.m22).sub(m.m12.mul(m.m21)).div(det),
        m01: m.m02.mul(m.m21).sub(m.m01.mul(m.m22)).div(det),
        m02: m.m01.mul(m.m12).sub(m.m02.mul(m.m11)).div(det),
        m10: m.m12.mul(m.m20).sub(m.m10.mul(m.m22)).div(det),
        m11: m.m00.mul(m.m22).sub(m.m02.mul(m.m20)).div(det),
        m12: m.m02.mul(m.m10).sub(m.m00.mul(m.m12)).div(det),
        m20: m.m10.mul(m.m21).sub(m.m11.mul(m.m20)).div(det),
        m21: m.m01.mul(m.m20).sub(m.m00.mul(m.m21)).div(det),
        m22: m.m00.mul(m.m11).sub(m.m01.mul(m.m10)).div(det),
    }
}

/// The rounding error of a matrix row applied to a triple: for
/// moderate entries and components, the rescaled result stays within
/// three halves of a unit of the exact dot product.
pub proof fn lemma_dot3_err(a: int, b: int, c: int, x: int, y: int, z: int)
    requires
        -134217728 <= a <= 134217728,
        -134217728 <= b <= 134217728,
        -134217728 <= c <= 134217728,
        -268435456 <= x <= 268435456,
        -268435456 <= y <= 268435456,
        -268435456 <= z <= 268435456,
    ensures
        a * x + b * y + c * z - 3 * (HALF_SCALE as int) <= (SCALE as int) * dot3_v(
            a,
            b,
            c,
            x,
            y,
            z,
        ) <= a * x + b * y + c * z + 3 * (HALF_SCALE as int),
{
    let s = SCALE as int;
    lemma_mul_bound(a, x, 268435456);
    lemma_mul_bound(b, y, 268435456);
    lemma_mul_bound(c, z, 268435456);
    lemma_rdiv_scale_range(a * x, -2147483648, 2147483648);
    lemma_rdiv_scale_range(b * y, -2147483648, 2147483648);
    lemma_rdiv_scale_range(c * z, -2147483648, 2147483648);
    lemma_rdiv_err(a * x);
    lemma_rdiv_err(b * y);
    lemma_rdiv_err(c * z);
    assert(fx_mul_v(a, x) == rdiv(a * x, s));
    assert(fx_mul_v(b, y) == rdiv(b * y, s));
    assert(fx_mul_v(c, z) == rdiv(c * z, s));
}

/// The rows of the RGB-to-XYZ matrix derived from three primaries
/// (as Yxy chromaticities) and a white point: each primary becomes an
/// XYZ basis vector, the inverse of the basis matrix applied to the
/// white point gives per-channel scale factors mapping RGB (1,1,1) to
/// the white point, and the basis columns are scaled by them.
pub open spec fn rgb_to_xyz_matrix_rows_v(
    rp: (int, int, int),
    gp: (int, int, int),
    bp: (int, int, int),
    wx: int,
    wy: int,
    wz: int,
) -> ((int, int, int), (int, int, int), (int, int, int)) {
    let r = xyz_from_yxy_v(rp.0, rp.1, rp.2);
    let g = xyz_from_yxy_v(gp.0, gp.1, gp.2);
    let b = xyz_from_yxy_v(bp.0, bp.1, bp.2);
    let m00 = r.0;
    let m01 = g.0;
    let m02 = b.0;
    let m10 = r.1;
    let m11 = g.1;
    let m12 = b.1;
    let m20 = r.2;
    let m21 = g.2;
    let m22 = b.2;
    let det = fx_add_v(
        fx_sub_v(
            fx_mul_v(m00, fx_sub_v(fx_mul_v(m11, m22), fx_mul_v(m12, m21))),
            fx_mul_v(m01, fx_sub_v(fx_mul_v(m10, m22), fx_mul_v(m12, m20))),
        ),
        fx_mul_v(m02, fx_sub_v(fx_mul_v(m10, m21), fx_mul_v(m11, m20))),
    );
    let i00 = fx_div_v(fx_sub_v(fx_mul_v(m11, m22), fx_mul_v(m12, m21)), det);
    let i01 = fx_div_v(fx_sub_v(fx_mul_v(m02, m21), fx_mul_v(m01, m22)), det);
    let i02 = fx_div_v(fx_sub_v(fx_mul_v(m01, m12), fx_mul_v(m02, m11)), det);
    let i10 = fx_div_v(fx_sub_v(fx_mul_v(m12, m20), fx_mul_v(m10, m22)), det);
    let i11 = fx_div_v(fx_sub_v(fx_mul_v(m00, m22), fx_mul_v(m02, m20)), det);
    let i12 = fx_div_v(fx_sub_v(fx_mul_v(m02, m10), fx_mul_v(m00, m12)), det);
    let i20 = fx_div_v(fx_sub_v(fx_mul_v(m10, m21), fx_mul_v(m11, m20)), det);
    let i21 = fx_div_v(fx_sub_v(fx_mul_v(m01, m20), fx_mul_v(m00, m21)), det);
    let i22 = fx_div_v(fx_sub_v(fx_mul_v(m00, m11), fx_mul_v(m01, m10)), det);
    let sx = dot3_v(i00, i01, i02, wx, wy, wz);
    let sy = dot3_v(i10, i11, i12, wx, wy, wz);
    let sz = dot3_v(i20, i21, i22, wx, wy, wz);
    (
        (fx_mul_v(m00, sx), fx_mul_v(m01, sy), fx_mul_v(m02, sz)),
        (fx_mul_v(m10, sx), fx_mul_v(m11, sy), fx_mul_v(m12, sz)),
        (fx_mul_v(m20, sx), fx_mul_v(m21, sy), fx_mul_v(m22, sz)),
    )
}

/// Derive the RGB-to-XYZ matrix of a color space from its primaries
/// and white point.
pub fn rgb_to_xyz_matrix<S: RgbSpace>() -> (r: Mat3)
    ensures
        ({
            let rows = rgb_to_xyz_matrix_rows_v(
                <S::Primaries as Primaries>::red_v(),
                <S::Primaries as Primaries>::green_v(),
                <S::Primaries as Primaries>::blue_v(),
                <S::WhitePoint as WhitePoint>::ref_x(),
                <S::WhitePoint as WhitePoint>::ref_y(),
                <S::WhitePoint as WhitePoint>::ref_z(),
            );
            (r.m00@, r.m01@, r.m02@) == rows.0 && (r.m10@, r.m11@, r.m12@) == rows.1 && (
            r.m20@,
            r.m21@,
            r.m22@,
            ) == rows.2
        }),
{
    let rp: Xyz<Any> = Xyz::from_yxy(<S::Primaries as Primaries>::red());
    let gp: Xyz<Any> = Xyz::from_yxy(<S::Primaries as Primaries>::green());
    let bp: Xyz<Any> = Xyz::from_yxy(<S::Primaries as Primaries>::blue());
    let transform = Mat3 {
        m00: rp.x,
        m01: gp.x,
        m02: bp.x,
        m10: rp.y,
        m11: gp.y,
        m12: bp.y,
        m20: rp.z,
        m21: gp.z,
        m22: bp.z,
    };
    let w: Xyz<S::WhitePoint> = <S::WhitePoint as WhitePoint>::get_xyz();
    let w_any: Xyz<Any> = Xyz::with_wp(w.x, w.y, w.z);
    let s: Xyz<Any> = multiply_xyz(&matrix_inverse(&transform), &w_any);
    Mat3 {
        m00: transform.m00.mul(s.x),
        m01: transform.m01.mul(s.y),
        m02: transform.m02.mul(s.z),
        m10: transform.m10.mul(s.x),
        m11: transform.m11.mul(s.y),
        m12: transform.m12.mul(s.z),
        m20: transform.m20.mul(s.x),
        m21: transform.m21.mul(s.y),
        m22: transform.m22.mul(s.z),
    }
}

/// Multiply an RGB-to-XYZ matrix into a linear RGB triple.
pub fn multiply_rgb_to_xyz<S, Wp>(c: &Mat3, f: &Rgb<S>) -> (r: Xyz<Wp>)
    ensures
        r.x@ == dot3_v(c.m00@, c.m01@, c.m02@, f.red@, f.green@, f.blue@),
        r.y@ == dot3_v(c.m10@, c.m11@, c.m12@, f.red@, f.green@, f.blue@),
        r.z@ == dot3_v(c.m20@, c.m21@, c.m22@, f.red@, f.green@, f.blue@),
{
    Xyz::with_wp(
        c.m00.mul(f.red).add(c.m01.mul(f.green)).add(c.m02.mul(f.blue)),
        c.m10.mul(f.red).add(c.m11.mul(f.green)).add(c.m12.mul(f.blue)),
        c.m20.mul(f.red).add(c.m21.mul(f.green)).add(c.m22.mul(f.blue)),
    )
}

} // verus!
