//! The sRGB standard.
//!
//! `Srgb` is at once a color space (primaries and white point), an
//! RGB standard, and a transfer function. The generic transfer
//! function uses the exact sRGB formula over the fixed-point scalar;
//! the specialized 8-bit fast paths use `fast_srgb8`'s lookup table
//! and encoder for singles, and a precomputed table of double bits
//! for the 8-bit to float64 decode.

use vstd::prelude::*;
use crate::encoding::lookup_tables::{srgb8_to_f64_bits, srgb8_to_f64_bits_v};
use crate::encoding::{narrow_f64_bits, narrow_f64_bits_v, Linear, TransferFn};
use crate::luma::LumaStandard;
use crate::matrix::{dot3_v, lemma_dot3_err, rgb_to_xyz_matrix_rows_v, Mat3};
use crate::rgb::{Primaries, RgbSpace, RgbStandard};
use crate::scalar::{
    abs_i, fx_add_v, fx_div_v, fx_mul_v, fx_sub_v, lemma_fx_div_eval, lemma_fx_div_eval_neg,
    is_iroot5, lemma_fx_mul_eval, lemma_fx_mul_eval_neg, lemma_fx_mul_range, lemma_iroot5_is,
    pow_2_4, pow_2_4_v, pow_5_12, pow_5_12_v, Fx, FX_MAX_BITS, SCALE,
};
use crate::white_point::{Any, D65, D65_X, D65_Y, D65_Z};
use crate::yxy::Yxy;

verus! {

/// The decode threshold 0.04045, in raw units.
pub const DEC_THRESH: i64 = 1357277;
/// The reciprocal of 12.92, in raw units.
pub const RECIP_12_92: i64 = 2597092;
/// The reciprocal of 1.055, in raw units.
pub const INV_1_055: i64 = 31805149;
/// `0.055/1.055`, in raw units.
pub const C_55_OVER_1055: i64 = 1749283;
/// The encode threshold 0.0031308, in raw units.
pub const ENC_THRESH: i64 = 105052;
/// 12.92, in raw units.
pub const C_12_92: i64 = 433523261;
/// 1.055, in raw units.
pub const C_1_055: i64 = 35399926;
/// 0.055, in raw units.
pub const C_0_055: i64 = 1845494;

/// The sRGB standard, color space, and transfer function.
#[derive(Clone, Copy, Debug, PartialEq, Eq)]
pub struct Srgb;

/// The sRGB decode: `x / 12.92` up to the threshold 0.04045, and
/// `((x + 0.055) / 1.055) ^ 2.4` above it.
pub open spec fn srgb_into_linear_v(x: int) -> int {
    if x <= DEC_THRESH as int {
        fx_mul_v(RECIP_12_92 as int, x)
    } else {
        pow_2_4_v(fx_add_v(fx_mul_v(x, INV_1_055 as int), C_55_OVER_1055 as int))
    }
}

/// The sRGB encode: `12.92 * x` up to the threshold 0.0031308, and
/// `1.055 * x ^ (1/2.4) - 0.055` above it.
pub open spec fn srgb_from_linear_v(x: int) -> int {
    if x <= ENC_THRESH as int {
        fx_mul_v(C_12_92 as int, x)
    } else {
        fx_sub_v(fx_mul_v(pow_5_12_v(x), C_1_055 as int), C_0_055 as int)
    }
}

/// What `fast_srgb8::srgb8_to_f32` returns for an 8-bit sRGB value:
/// the bits of the linear single from its 256-entry table.
pub uninterp spec fn srgb8_linear_f32_bits(encoded: u8) -> u32;

/// What `fast_srgb8::f32_to_srgb8` returns for the single with the
/// given bits: the 8-bit sRGB value whose decode is nearest.
pub uninterp spec fn srgb8_from_f32_bits(linear_bits: u32) -> u8;

/// Relies on `fast_srgb8::srgb8_to_f32`: a lookup in a fixed
/// 256-entry table of linear singles, a pure function of `encoded`.
#[verifier::external_body]
fn srgb8_to_f32_table(encoded: u8) -> (r: u32)
    ensures
        r == srgb8_linear_f32_bits(encoded),
{
    fast_srgb8::srgb8_to_f32(encoded).to_bits()
}

/// Relies on `fast_srgb8::f32_to_srgb8`: the 8-bit sRGB value nearest
/// to a linear single, a pure function of the single's bits. Its
/// documentation promises that it is the inverse of `srgb8_to_f32`:
/// every 8-bit value round-trips through the pair. The argument is
/// handed over as its bits, through `bytemuck::cast`.
#[verifier::external_body]
fn f32_to_srgb8_nearest(linear_bits: u32) -> (r: u8)
    ensures
        r == srgb8_from_f32_bits(linear_bits),
        forall|encoded: u8| linear_bits == srgb8_linear_f32_bits(encoded) ==> r == encoded,
{
    fast_srgb8::f32_to_srgb8(bytemuck::cast(linear_bits))
}

impl Srgb {
    /// Fast-path decode of an 8-bit sRGB value to a linear single,
    /// returned as its IEEE 754 bits, through `fast_srgb8`'s table.
    pub fn into_linear_f32(encoded: u8) -> (r: u32)
        ensures
            r == srgb8_linear_f32_bits(encoded),
    {
        srgb8_to_f32_table(encoded)
    }

    /// Fast-path encode of a linear single, given as its IEEE 754
    /// bits, to the 8-bit sRGB value whose decode is nearest.
    pub fn from_linear_f32(linear_bits: u32) -> (r: u8)
        ensures
            r == srgb8_from_f32_bits(linear_bits),
            forall|encoded: u8| linear_bits == srgb8_linear_f32_bits(encoded) ==> r == encoded,
    {
        f32_to_srgb8_nearest(linear_bits)
    }

    /// Fast-path decode of an 8-bit sRGB value to a linear double,
    /// returned as its IEEE 754 bits, through a precomputed table.
    pub fn into_linear_f64(encoded: u8) -> (r: u64)
        ensures
            r == srgb8_to_f64_bits_v(encoded),
    {
        srgb8_to_f64_bits(encoded)
    }

    /// Fast-path encode of a linear double, given as its IEEE 754
    /// bits: the double is narrowed to a single and the single fast
    /// path encodes it. 8-bit device values carry far less precision
    /// than either float width, so the narrowing loses nothing
    /// observable.
    pub fn from_linear_f64(linear_bits: u64) -> (r: u8)
        ensures
            r == srgb8_from_f32_bits(narrow_f64_bits_v(linear_bits)),
    {
        f32_to_srgb8_nearest(narrow_f64_bits(linear_bits))
    }
}

/// Round-trip exactness of the 8-bit fast path: decoding any 8-bit
/// sRGB value to a linear single and encoding the result returns the
/// value itself.
pub fn srgb8_round_trip_f32(encoded: u8) -> (r: u8)
    ensures
        r == encoded,
{
    Srgb::from_linear_f32(Srgb::into_linear_f32(encoded))
}

impl TransferFn for Srgb {
    /// Device values of at most 2 are accepted: well beyond the
    /// encodable range, and as far as the power formula's fixed-point
    /// evaluation reaches.
    open spec fn into_linear_dom(x: int) -> bool {
        x <= 2 * SCALE as int
    }

    open spec fn into_linear_v(x: int) -> int {
        srgb_into_linear_v(x)
    }

    /// Linear values of at most 2 are accepted: well beyond the
    /// encodable range, and as far as the power formula's fixed-point
    /// evaluation reaches.
    open spec fn from_linear_dom(x: int) -> bool {
        x <= 2 * SCALE as int
    }

    open spec fn from_linear_v(x: int) -> int {
        srgb_from_linear_v(x)
    }

    fn into_linear(x: Fx) -> (r: Fx) {
        proof {
            use_type_invariant(x);
        }
        let mask = x.lt_eq(Fx::from_bits(DEC_THRESH));
        let below = Fx::from_bits(RECIP_12_92).mul(x);
        let base = x.mul(Fx::from_bits(INV_1_055)).add(Fx::from_bits(C_55_OVER_1055));
        proof {
            assert(-(FX_MAX_BITS as int) * (SCALE as int) <= x@ * (INV_1_055 as int)
                && x@ * (INV_1_055 as int) <= (2 * INV_1_055 as int) * (SCALE as int))
                by (nonlinear_arith)
                requires
                    -(FX_MAX_BITS as int) <= x@ <= 2 * SCALE as int,
            ;
            lemma_fx_mul_range(x@, INV_1_055 as int, -(FX_MAX_BITS as int), 2 * INV_1_055 as int);
        }
        let clamped = base.max(Fx::zero());
        let above = pow_2_4(clamped);
        proof {
            if x@ > DEC_THRESH as int {
                assert(0 * (SCALE as int) <= x@ * (INV_1_055 as int)) by (nonlinear_arith)
                    requires
                        0 <= x@,
                ;
                lemma_fx_mul_range(x@, INV_1_055 as int, 0, 2 * INV_1_055 as int);
                assert(base@ == fx_add_v(fx_mul_v(x@, INV_1_055 as int), C_55_OVER_1055 as int));
                assert(base@ >= 0);
                assert(clamped@ == base@);
            }
        }
        mask.select(below, above)
    }

    fn from_linear(x: Fx) -> (r: Fx) {
        let mask = x.lt_eq(Fx::from_bits(ENC_THRESH));
        let below = Fx::from_bits(C_12_92).mul(x);
        let clamped = x.max(Fx::zero());
        let above = pow_5_12(clamped).mul(Fx::from_bits(C_1_055)).sub(Fx::from_bits(C_0_055));
        mask.select(below, above)
    }
}

/// Threshold continuity of the sRGB decode: the linear and power
/// segments meet at the threshold, and the decoded values one raw
/// unit apart across it differ by a single raw unit (about `3e-8`).
pub proof fn lemma_srgb_threshold_continuity()
    ensures
        abs_i(
            srgb_into_linear_v(DEC_THRESH as int) - srgb_into_linear_v(DEC_THRESH as int + 1),
        ) <= 1,
{
    lemma_fx_mul_eval(2597092, 1357277, 3524973238484, 105052, 29825236);
    lemma_fx_mul_eval(1357278, 31805149, 43168429024422, 1286519, 31499430);
    lemma_fx_mul_eval(3035802, 3035802, 9216093783204, 274661, 16712868);
    assert(12833919int * 12833919int == 164709476898561int
        && 164709476898561int * 164709476898561int == 27129211780197599735483870721int
        && 27129211780197599735483870721int * 12833919int
        == 348174106520901798999621422639785599int
        && 12833920int * 12833920int == 164709502566400int
        && 164709502566400int * 164709502566400int == 27129220235670928186408960000int
        && 27129220235670928186408960000int * 12833920int
        == 348174242166981838670117679923200000int) by (nonlinear_arith);
    assert(33554432int * 33554432int == 1125899906842624int
        && 1125899906842624int * 1125899906842624int == 1267650600228229401496703205376int
        && 274661int * 1267650600228229401496703205376int
        == 348174181509285715644485999091777536int) by (nonlinear_arith);
    assert(is_iroot5(12833919, 348174181509285715644485999091777536));
    lemma_iroot5_is(12833919, 348174181509285715644485999091777536);
    lemma_fx_mul_eval(274661, 12833919, 3524977026459, 105053, 58779);
}

/// The RGB-to-XYZ matrix derived from the sRGB primaries and the D65
/// white point, entry by entry, in raw units.
pub proof fn lemma_srgb_matrix_values()
    ensures
        rgb_to_xyz_matrix_rows_v(
            <Srgb as Primaries>::red_v(),
            <Srgb as Primaries>::green_v(),
            <Srgb as Primaries>::blue_v(),
            D65_X as int,
            D65_Y as int,
            D65_Z as int,
        ) == ((13839741int, 11998265int, 6054479int), (7136116int, 23996530int, 2421792int), (
            648739int,
            3999421int,
            31886915int,
        )),
{
    lemma_fx_mul_eval(7135551, 21474836, 153234787494636, 4566753, 1272556);
    lemma_fx_div_eval(4566753, 11072963, 13838645, 4480642);
    lemma_fx_mul_eval(7135551, 1006633, 7182881109783, 214067, 1292055);
    lemma_fx_div_eval(214067, 11072963, 648688, 3908881);
    lemma_fx_mul_eval(23996720, 10066330, 241558902437600, 7199016, 26375904);
    lemma_fx_div_eval(7199016, 20132659, 11998360, 12466001);
    lemma_fx_mul_eval(23996720, 3355443, 80519626146960, 2399672, 11977872);
    lemma_fx_div_eval(2399672, 20132659, 3999453, 17577106);
    lemma_fx_mul_eval(2422160, 5033165, 12191130936400, 363324, 17261648);
    lemma_fx_div_eval(363324, 2013266, 6055400, 522201);
    lemma_fx_mul_eval(2422160, 26508001, 64206619702160, 1913506, 29520784);
    lemma_fx_div_eval(1913506, 2013266, 31891765, 1810735);
    lemma_fx_mul_eval(23996720, 31891765, 765297755010800, 22807650, 30783216);
    lemma_fx_mul_eval(2422160, 3999453, 9687315078480, 288704, 33119568);
    lemma_fx_mul_eval(13838645, 22518946, 311631699468170, 9287348, 29319050);
    lemma_fx_mul_eval(7135551, 31891765, 227565315637515, 6781975, 13451531);
    lemma_fx_mul_eval(2422160, 648688, 1571226126080, 46826, 23070464);
    lemma_fx_mul_eval(11998360, 6735149, 80810742355640, 2408348, 9934520);
    lemma_fx_mul_eval(7135551, 3999453, 28538300853603, 850508, 4779363);
    lemma_fx_mul_eval(23996720, 648688, 15566384303360, 463914, 30313728);
    lemma_fx_mul_eval(6055400, 386594, 2340981307600, 69767, 6027472);
    lemma_fx_div_eval(22518946, 6948767, 108740219, 383082);
    lemma_fx_mul_eval(6055400, 3999453, 24218287696200, 721761, 24078664);
    lemma_fx_mul_eval(11998360, 31891765, 382648877505400, 11403825, 23780216);
    lemma_fx_div_eval_neg(-10682064, 6948767, 51581898, 2962265);
    lemma_fx_mul_eval(11998360, 2422160, 29061947657600, 866114, 1117568);
    lemma_fx_mul_eval(6055400, 23996720, 145309738288000, 4330568, 5587840);
    lemma_fx_div_eval_neg(-3464454, 6948767, 16729268, 4221955);
    lemma_fx_div_eval_neg(-6735149, 6948767, 32522906, 6647849);
    lemma_fx_mul_eval(13838645, 31891765, 441338814258425, 13152922, 4185337);
    lemma_fx_mul_eval(6055400, 648688, 3928065315200, 117065, 32510336);
    lemma_fx_div_eval(13035857, 6948767, 62947970, 4089617);
    lemma_fx_mul_eval(6055400, 7135551, 43208615525400, 1287717, 19790872);
    lemma_fx_mul_eval(13838645, 2422160, 33519412373200, 998956, 27977424);
    lemma_fx_div_eval(288761, 6948767, 1394379, 32442);
    lemma_fx_div_eval(386594, 6948767, 1866798, 1220925);
    lemma_fx_mul_eval(11998360, 648688, 7783192151680, 231957, 23545472);
    lemma_fx_mul_eval(13838645, 3999453, 55347010261185, 1649469, 31641793);
    lemma_fx_div_eval_neg(-1417512, 6948767, 6844928, 3683791);
    lemma_fx_mul_eval(13838645, 23996720, 332082089244400, 9896817, 32978672);
    lemma_fx_mul_eval(11998360, 7135551, 85614909696360, 2551523, 21473640);
    lemma_fx_div_eval(7345294, 6948767, 35469194, 6733593);
    lemma_fx_mul_eval(108740219, 31892481, 3467995368393339, 103354316, 17042043);
    lemma_fx_mul_eval_neg(-51581898, 33554432, -1730801288871936, 51581898, 16777216);
    lemma_fx_mul_eval_neg(-16729268, 36535072, -611205010887296, 18215329, 9376384);
    lemma_fx_mul_eval_neg(-32522906, 31892481, -1037236161669786, 30912046, 32959130);
    lemma_fx_mul_eval(62947970, 33554432, 2112183378903040, 62947970, 16777216);
    lemma_fx_mul_eval(1394379, 36535072, 50943737160288, 1518242, 5988960);
    lemma_fx_mul_eval(1866798, 31892481, 59536819745838, 1774335, 33420334);
    lemma_fx_mul_eval_neg(-6844928, 33554432, -229677671120896, 6844928, 16777216);
    lemma_fx_mul_eval(35469194, 36535072, 1295869556571968, 38619922, 26754880);
    lemma_fx_mul_eval(13838645, 33557089, 464384641904405, 13839741, 10399509);
    lemma_fx_mul_eval(11998360, 33554166, 402594963167760, 11998265, 12884496);
    lemma_fx_mul_eval(6055400, 33549329, 203154606826600, 6054479, 19702888);
    lemma_fx_mul_eval(7135551, 33557089, 239448319971039, 7136116, 17682143);
    lemma_fx_mul_eval(23996720, 33554166, 805189926335520, 23996530, 8991776);
    lemma_fx_mul_eval(2422160, 33549329, 81261842730640, 2421792, 4525712);
    lemma_fx_mul_eval(648688, 33557089, 21768080949232, 648739, 29065200);
    lemma_fx_mul_eval(3999453, 33554166, 134198309871198, 3999421, 26664542);
    lemma_fx_mul_eval(31891765, 33549329, 1069947316375685, 31886915, 12095621);
}

/// The algebraic inverse of the derived sRGB matrix, as
/// `matrix_inverse` states it, entry by entry, in raw units.
pub proof fn lemma_srgb_inverse_values(m: Mat3, n: Mat3)
    requires
        m.m00@ == 13839741,
        m.m01@ == 11998265,
        m.m02@ == 6054479,
        m.m10@ == 7136116,
        m.m11@ == 23996530,
        m.m12@ == 2421792,
        m.m20@ == 648739,
        m.m21@ == 3999421,
        m.m22@ == 31886915,
        n.m00@ == fx_div_v(fx_sub_v(fx_mul_v(m.m11@, m.m22@), fx_mul_v(m.m12@, m.m21@)), m.det_v()),
        n.m01@ == fx_div_v(fx_sub_v(fx_mul_v(m.m02@, m.m21@), fx_mul_v(m.m01@, m.m22@)), m.det_v()),
        n.m02@ == fx_div_v(fx_sub_v(fx_mul_v(m.m01@, m.m12@), fx_mul_v(m.m02@, m.m11@)), m.det_v()),
        n.m10@ == fx_div_v(fx_sub_v(fx_mul_v(m.m12@, m.m20@), fx_mul_v(m.m10@, m.m22@)), m.det_v()),
        n.m11@ == fx_div_v(fx_sub_v(fx_mul_v(m.m00@, m.m22@), fx_mul_v(m.m02@, m.m20@)), m.det_v()),
        n.m12@ == fx_div_v(fx_sub_v(fx_mul_v(m.m02@, m.m10@), fx_mul_v(m.m00@, m.m12@)), m.det_v()),
        n.m20@ == fx_div_v(fx_sub_v(fx_mul_v(m.m10@, m.m21@), fx_mul_v(m.m11@, m.m20@)), m.det_v()),
        n.m21@ == fx_div_v(fx_sub_v(fx_mul_v(m.m01@, m.m20@), fx_mul_v(m.m00@, m.m21@)), m.det_v()),
        n.m22@ == fx_div_v(fx_sub_v(fx_mul_v(m.m00@, m.m11@), fx_mul_v(m.m01@, m.m10@)), m.det_v()),
    ensures
        n.m00@ == 108731599,
        n.m01@ == -51577810,
        n.m02@ == -16727943,
        n.m10@ == -32523156,
        n.m11@ == 62948460,
        n.m12@ == 1394385,
        n.m20@ == 1867079,
        n.m21@ == -6845968,
        n.m22@ == 35474589,
{
    lemma_fx_mul_eval(23996530, 31886915, 765175312404950, 22804001, 28299734);
    lemma_fx_mul_eval(2421792, 3999421, 9685765782432, 288658, 27327392);
    lemma_fx_mul_eval(13839741, 22515343, 311606515646163, 9286598, 11321043);
    lemma_fx_mul_eval(7136116, 31886915, 227548724322140, 6781480, 31579996);
    lemma_fx_mul_eval(2421792, 648739, 1571110920288, 46823, 8527968);
    lemma_fx_mul_eval(11998265, 6734657, 80804199370105, 2408153, 10063225);
    lemma_fx_mul_eval(7136116, 3999421, 28540332188836, 850568, 22848676);
    lemma_fx_mul_eval(23996530, 648739, 15567484875670, 463947, 23589782);
    lemma_fx_mul_eval(6054479, 386621, 2340788725459, 69761, 14771923);
    lemma_fx_div_eval(22515343, 6948206, 108731599, 562885);
    lemma_fx_mul_eval(6054479, 3999421, 24214410456659, 721646, 5598803);
    lemma_fx_mul_eval(11998265, 31886915, 382587656202475, 11402001, 5761259);
    lemma_fx_div_eval_neg(-10680355, 6948206, 51577810, 148603);
    lemma_fx_mul_eval(11998265, 2421792, 29057302190880, 865975, 19716896);
    lemma_fx_mul_eval(6054479, 23996530, 145286486957870, 4329875, 7479086);
    lemma_fx_div_eval_neg(-3463900, 6948206, 16727943, 6558645);
    lemma_fx_div_eval_neg(-6734657, 6948206, 32523156, 6165791);
    lemma_fx_mul_eval(13839741, 31886915, 441306644889015, 13151963, 13516215);
    lemma_fx_mul_eval(6054479, 648739, 3927776651981, 117057, 12282573);
    lemma_fx_div_eval(13034906, 6948206, 62948460, 3014735);
    lemma_fx_mul_eval(6054479, 7136116, 43205464463564, 1287623, 22845644);
    lemma_fx_mul_eval(13839741, 2421792, 33516974035872, 998884, 5559200);
    lemma_fx_div_eval(288739, 6948206, 1394385, 2392041);
    lemma_fx_div_eval(386621, 6948206, 1867079, 2018101);
    lemma_fx_mul_eval(11998265, 648739, 7783742437835, 231974, 3406283);
    lemma_fx_mul_eval(13839741, 3999421, 55350950789961, 1649587, 12747593);
    lemma_fx_div_eval_neg(-1417613, 6948206, 6845968, 6551511);
    lemma_fx_mul_eval(13839741, 23996530, 332105760098730, 9897523, 14404010);
    lemma_fx_mul_eval(11998265, 7136116, 85621010838740, 2551705, 15709396);
    lemma_fx_div_eval(7345818, 6948206, 35474589, 1902145);
}

/// White point boundedness: the matrix derived from the sRGB
/// primaries and the D65 white point takes pure white linear RGB
/// (1, 1, 1) to the D65 reference tristimulus values, to within 8 raw
/// units (about `2.4e-7`) per component.
pub proof fn lemma_srgb_white_point_bounded()
    ensures
        ({
            let rows = rgb_to_xyz_matrix_rows_v(
                <Srgb as Primaries>::red_v(),
                <Srgb as Primaries>::green_v(),
                <Srgb as Primaries>::blue_v(),
                D65_X as int,
                D65_Y as int,
                D65_Z as int,
            );
            let one = SCALE as int;
            abs_i(dot3_v(rows.0.0, rows.0.1, rows.0.2, one, one, one) - D65_X) <= 8 && abs_i(
                dot3_v(rows.1.0, rows.1.1, rows.1.2, one, one, one) - D65_Y,
            ) <= 8 && abs_i(dot3_v(rows.2.0, rows.2.1, rows.2.2, one, one, one) - D65_Z) <= 8
        }),
{
    lemma_srgb_matrix_values();
    lemma_fx_mul_eval(13839741, 33554432, 464384648282112, 13839741, 16777216);
    lemma_fx_mul_eval(11998265, 33554432, 402594967060480, 11998265, 16777216);
    lemma_fx_mul_eval(6054479, 33554432, 203154603900928, 6054479, 16777216);
    lemma_fx_mul_eval(7136116, 33554432, 239448319066112, 7136116, 16777216);
    lemma_fx_mul_eval(23996530, 33554432, 805189934120960, 23996530, 16777216);
    lemma_fx_mul_eval(2421792, 33554432, 81261854982144, 2421792, 16777216);
    lemma_fx_mul_eval(648739, 33554432, 21768068661248, 648739, 16777216);
    lemma_fx_mul_eval(3999421, 33554432, 134198299983872, 3999421, 16777216);
    lemma_fx_mul_eval(31886915, 33554432, 1069947321057280, 31886915, 16777216);
}

/// Matrix invertibility: applying the derived sRGB forward matrix and
/// then its algebraic inverse to any tristimulus triple of magnitude
/// at most 2 reproduces each component to within 32 raw units (about
/// `1e-6`). `m` is the derived matrix and `n` its inverse, stated as
/// `rgb_to_xyz_matrix` and `matrix_inverse` state them.
pub proof fn lemma_srgb_matrix_invertible(m: Mat3, n: Mat3, vx: int, vy: int, vz: int)
    requires
        ({
            let rows = rgb_to_xyz_matrix_rows_v(
                <Srgb as Primaries>::red_v(),
                <Srgb as Primaries>::green_v(),
                <Srgb as Primaries>::blue_v(),
                D65_X as int,
                D65_Y as int,
                D65_Z as int,
            );
            (m.m00@, m.m01@, m.m02@) == rows.0 && (m.m10@, m.m11@, m.m12@) == rows.1 && (
            m.m20@,
            m.m21@,
            m.m22@,
            ) == rows.2
        }),
        n.m00@ == fx_div_v(fx_sub_v(fx_mul_v(m.m11@, m.m22@), fx_mul_v(m.m12@, m.m21@)), m.det_v()),
        n.m01@ == fx_div_v(fx_sub_v(fx_mul_v(m.m02@, m.m21@), fx_mul_v(m.m01@, m.m22@)), m.det_v()),
        n.m02@ == fx_div_v(fx_sub_v(fx_mul_v(m.m01@, m.m12@), fx_mul_v(m.m02@, m.m11@)), m.det_v()),
        n.m10@ == fx_div_v(fx_sub_v(fx_mul_v(m.m12@, m.m20@), fx_mul_v(m.m10@, m.m22@)), m.det_v()),
        n.m11@ == fx_div_v(fx_sub_v(fx_mul_v(m.m00@, m.m22@), fx_mul_v(m.m02@, m.m20@)), m.det_v()),
        n.m12@ == fx_div_v(fx_sub_v(fx_mul_v(m.m02@, m.m10@), fx_mul_v(m.m00@, m.m12@)), m.det_v()),
        n.m20@ == fx_div_v(fx_sub_v(fx_mul_v(m.m10@, m.m21@), fx_mul_v(m.m11@, m.m20@)), m.det_v()),
        n.m21@ == fx_div_v(fx_sub_v(fx_mul_v(m.m01@, m.m20@), fx_mul_v(m.m00@, m.m21@)), m.det_v()),
        n.m22@ == fx_div_v(fx_sub_v(fx_mul_v(m.m00@, m.m11@), fx_mul_v(m.m01@, m.m10@)), m.det_v()),
        -2 * SCALE <= vx <= 2 * SCALE,
        -2 * SCALE <= vy <= 2 * SCALE,
        -2 * SCALE <= vz <= 2 * SCALE,
    ensures
        ({
            let tx = dot3_v(m.m00@, m.m01@, m.m02@, vx, vy, vz);
            let ty = dot3_v(m.m10@, m.m11@, m.m12@, vx, vy, vz);
            let tz = dot3_v(m.m20@, m.m21@, m.m22@, vx, vy, vz);
            abs_i(dot3_v(n.m00@, n.m01@, n.m02@, tx, ty, tz) - vx) <= 32 && abs_i(
                dot3_v(n.m10@, n.m11@, n.m12@, tx, ty, tz) - vy,
            ) <= 32 && abs_i(dot3_v(n.m20@, n.m21@, n.m22@, tx, ty, tz) - vz) <= 32
        }),
{
    lemma_srgb_matrix_values();
    lemma_srgb_inverse_values(m, n);
    let s = SCALE as int;
    let tx = dot3_v(m.m00@, m.m01@, m.m02@, vx, vy, vz);
    let ty = dot3_v(m.m10@, m.m11@, m.m12@, vx, vy, vz);
    let tz = dot3_v(m.m20@, m.m21@, m.m22@, vx, vy, vz);
    lemma_dot3_err(m.m00@, m.m01@, m.m02@, vx, vy, vz);
    lemma_dot3_err(m.m10@, m.m11@, m.m12@, vx, vy, vz);
    lemma_dot3_err(m.m20@, m.m21@, m.m22@, vx, vy, vz);
    lemma_dot3_err(n.m00@, n.m01@, n.m02@, tx, ty, tz);
    lemma_dot3_err(n.m10@, n.m11@, n.m12@, tx, ty, tz);
    lemma_dot3_err(n.m20@, n.m21@, n.m22@, tx, ty, tz);
}

impl Primaries for Srgb {
    open spec fn red_v() -> (int, int, int) {
        (21474836, 11072963, 7135551)
    }

    open spec fn green_v() -> (int, int, int) {
        (10066330, 20132659, 23996720)
    }

    open spec fn blue_v() -> (int, int, int) {
        (5033165, 2013266, 2422160)
    }

    /// The red primary: chromaticity (0.6400, 0.3300), luminance
    /// 0.212656.
    fn red() -> (r: Yxy<Any>) {
        Yxy::with_wp(Fx::from_bits(21474836), Fx::from_bits(11072963), Fx::from_bits(7135551))
    }

    /// The green primary: chromaticity (0.3000, 0.6000), luminance
    /// 0.715158.
    fn green() -> (r: Yxy<Any>) {
        Yxy::with_wp(Fx::from_bits(10066330), Fx::from_bits(20132659), Fx::from_bits(23996720))
    }

    /// The blue primary: chromaticity (0.1500, 0.0600), luminance
    /// 0.072186.
    fn blue() -> (r: Yxy<Any>) {
        Yxy::with_wp(Fx::from_bits(5033165), Fx::from_bits(2013266), Fx::from_bits(2422160))
    }
}

impl RgbSpace for Srgb {
    type Primaries = Srgb;

    type WhitePoint = D65;
}

impl RgbStandard for Srgb {
    type Space = Srgb;

    type TransferFn = Srgb;
}

impl LumaStandard for Srgb {
    type WhitePoint = D65;
}

impl<S: LumaStandard> LumaStandard for Linear<S> {
    type WhitePoint = S::WhitePoint;
}

} // verus!
