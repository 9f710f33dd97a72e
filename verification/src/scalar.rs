//! The fixed-point scalar that carries color components.
//!
//! `Fx` is a signed fixed-point number with [`FRAC_BITS`] fractional
//! bits, stored in an `i64` bounded by [`FX_MAX_BITS`] units. Every
//! arithmetic operation states its result exactly over the raw units:
//! multiplication and division round to the nearest unit (ties away
//! from zero) and saturate at the representable bound, so all
//! operations are total. Comparisons produce a mask, and `select` on a
//! mask takes both candidate values eagerly, so conversion formulas can
//! be written branchlessly.

use vstd::prelude::*;
use vstd::arithmetic::div_mod::lemma_div_is_ordered;
use vstd::arithmetic::div_mod::lemma_fundamental_div_mod;
use vstd::arithmetic::div_mod::lemma_fundamental_div_mod_converse_div;
use vstd::arithmetic::div_mod::lemma_fundamental_div_mod_converse_mod;
use vstd::arithmetic::div_mod::lemma_div_multiples_vanish;
use vstd::arithmetic::div_mod::lemma_div_pos_is_pos;
use vstd::arithmetic::div_mod::lemma_multiply_divide_lt;

verus! {

/// Number of fractional bits of the scalar.
pub const FRAC_BITS: u32 = 25;
/// One, in raw units: the fixed-point scale, `2^25`.
pub const SCALE: i64 = 33554432;
/// Half of [`SCALE`], the rounding offset.
pub const HALF_SCALE: i64 = 16777216;
/// Largest magnitude, in raw units, that a scalar may hold (`2^44`).
pub const FX_MAX_BITS: i64 = 17592186044416;

/// Magnitude of an integer.
pub open spec fn abs_i(x: int) -> int {
    if x < 0 { -x } else { x }
}

/// Saturation at the scalar's representable bound.
pub open spec fn sat_v(v: int) -> int {
    if v > FX_MAX_BITS as int {
        FX_MAX_BITS as int
    } else if v < -(FX_MAX_BITS as int) {
        -(FX_MAX_BITS as int)
    } else {
        v
    }
}

/// `p / q` rounded to the nearest integer, ties away from zero.
/// `q` must be positive; the division on magnitudes is Euclidean.
pub open spec fn rdiv(p: int, q: int) -> int {
    if p >= 0 {
        (p + q / 2) / q
    } else {
        -(((-p) + q / 2) / q)
    }
}

/// A value clamped into the closed range from `lo` to `hi`.
pub open spec fn clamp_v(v: int, lo: int, hi: int) -> int {
    if v < lo {
        lo
    } else if v > hi {
        hi
    } else {
        v
    }
}

/// Saturating addition of two scalars, in raw units.
pub open spec fn fx_add_v(a: int, b: int) -> int {
    sat_v(a + b)
}

/// Saturating subtraction of two scalars, in raw units.
pub open spec fn fx_sub_v(a: int, b: int) -> int {
    sat_v(a - b)
}

/// Saturating fixed-point product: `a * b / SCALE`, rounded to nearest.
pub open spec fn fx_mul_v(a: int, b: int) -> int {
    sat_v(rdiv(a * b, SCALE as int))
}

/// Saturating fixed-point quotient: `a * SCALE / b`, rounded to
/// nearest. Division by zero saturates at the bound carrying the sign
/// of the numerator (zero for a zero numerator).
pub open spec fn fx_div_v(a: int, b: int) -> int {
    if b == 0 {
        if a > 0 {
            FX_MAX_BITS as int
        } else if a < 0 {
            -(FX_MAX_BITS as int)
        } else {
            0
        }
    } else {
        let q = (abs_i(a) * (SCALE as int) + abs_i(b) / 2) / abs_i(b);
        let s = if q > FX_MAX_BITS as int { FX_MAX_BITS as int } else { q };
        if (a < 0) != (b < 0) { -s } else { s }
    }
}

/// The square, written as the executable code computes it.
pub open spec fn pow2_i(r: int) -> int {
    r * r
}

/// The cube, written as the executable code computes it.
pub open spec fn pow3_i(r: int) -> int {
    (r * r) * r
}

/// The fifth power, written as the executable code computes it.
pub open spec fn pow5_i(r: int) -> int {
    ((r * r) * (r * r)) * r
}

/// `r` is the integer square root of `n` rounded down.
pub open spec fn is_isqrt(r: int, n: int) -> bool {
    0 <= r && pow2_i(r) <= n < pow2_i(r + 1)
}

/// `r` is the integer cube root of `n` rounded down.
pub open spec fn is_iroot3(r: int, n: int) -> bool {
    0 <= r && pow3_i(r) <= n < pow3_i(r + 1)
}

/// `r` is the integer fifth root of `n` rounded down.
pub open spec fn is_iroot5(r: int, n: int) -> bool {
    0 <= r && pow5_i(r) <= n < pow5_i(r + 1)
}

/// The integer square root of `n`, rounded down.
pub open spec fn isqrt_v(n: int) -> int {
    choose|r: int| is_isqrt(r, n)
}

/// The integer cube root of `n`, rounded down.
pub open spec fn iroot3_v(n: int) -> int {
    choose|r: int| is_iroot3(r, n)
}

/// The integer fifth root of `n`, rounded down.
pub open spec fn iroot5_v(n: int) -> int {
    choose|r: int| is_iroot5(r, n)
}

/// `SCALE` squared, as a mathematical integer.
pub open spec fn scale2_v() -> int {
    (SCALE as int) * (SCALE as int)
}

/// `SCALE` to the fourth power, as a mathematical integer.
pub open spec fn scale4_v() -> int {
    ((SCALE as int) * (SCALE as int)) * ((SCALE as int) * (SCALE as int))
}

proof fn lemma_sq_le(a: int, b: int) by (nonlinear_arith)
    requires
        0 <= a <= b,
    ensures
        a * a <= b * b,
{
}

proof fn lemma_pow3_le(a: int, b: int) by (nonlinear_arith)
    requires
        0 <= a <= b,
    ensures
        (a * a) * a <= (b * b) * b,
{
}

proof fn lemma_pow5_le(a: int, b: int) by (nonlinear_arith)
    requires
        0 <= a <= b,
    ensures
        ((a * a) * (a * a)) * a <= ((b * b) * (b * b)) * b,
{
}

proof fn lemma_isqrt_is(r: int, n: int)
    requires
        is_isqrt(r, n),
    ensures
        isqrt_v(n) == r,
{
    assert(is_isqrt(isqrt_v(n), n)) by {
        assert(is_isqrt(r, n));
    };
    let w = isqrt_v(n);
    if w < r {
        lemma_sq_le(w + 1, r);
        assert(false);
    }
    if r < w {
        lemma_sq_le(r + 1, w);
        assert(false);
    }
}

proof fn lemma_iroot3_is(r: int, n: int)
    requires
        is_iroot3(r, n),
    ensures
        iroot3_v(n) == r,
{
    assert(is_iroot3(iroot3_v(n), n)) by {
        assert(is_iroot3(r, n));
    };
    let w = iroot3_v(n);
    if w < r {
        lemma_pow3_le(w + 1, r);
        assert(false);
    }
    if r < w {
        lemma_pow3_le(r + 1, w);
        assert(false);
    }
}

/// The fifth root is the unique integer whose fifth power brackets
/// `n`.
pub proof fn lemma_iroot5_is(r: int, n: int)
    requires
        is_iroot5(r, n),
    ensures
        iroot5_v(n) == r,
{
    assert(is_iroot5(iroot5_v(n), n)) by {
        assert(is_iroot5(r, n));
    };
    let w = iroot5_v(n);
    if w < r {
        lemma_pow5_le(w + 1, r);
        assert(false);
    }
    if r < w {
        lemma_pow5_le(r + 1, w);
        assert(false);
    }
}

/// Bounds on the nearest-rounding division by `SCALE`: if `p` lies
/// between `lo` and `hi` whole scalars, so does the rounded quotient.
pub proof fn lemma_rdiv_scale_range(p: int, lo: int, hi: int)
    requires
        lo * (SCALE as int) <= p,
        p <= hi * (SCALE as int),
    ensures
        lo <= rdiv(p, SCALE as int) <= hi,
{
    let s = SCALE as int;
    if p >= 0 {
        let q = (p + s / 2) / s;
        assert(p + s / 2 < s * (hi + 1)) by (nonlinear_arith)
            requires
                p <= hi * s,
                s == 33554432int,
        ;
        lemma_multiply_divide_lt(p + s / 2, s, hi + 1);
        if lo > 0 {
            assert(s * lo <= p + s / 2) by (nonlinear_arith)
                requires
                    lo * s <= p,
                    s == 33554432int,
            ;
            lemma_div_is_ordered(s * lo, p + s / 2, s);
            lemma_div_multiples_vanish(lo, s);
        } else {
            lemma_div_pos_is_pos(p + s / 2, s);
        }
        assert(rdiv(p, s) == q);
    } else {
        let m = -p;
        let q = (m + s / 2) / s;
        assert(lo < 0) by (nonlinear_arith)
            requires
                lo * s <= p,
                p < 0,
                s == 33554432int,
        ;
        assert(m + s / 2 < s * ((-lo) + 1)) by (nonlinear_arith)
            requires
                lo * s <= p,
                m == -p,
                s == 33554432int,
        ;
        lemma_multiply_divide_lt(m + s / 2, s, (-lo) + 1);
        if hi < 0 {
            assert(s * (-hi) <= m + s / 2) by (nonlinear_arith)
                requires
                    p <= hi * s,
                    m == -p,
                    s == 33554432int,
            ;
            lemma_div_is_ordered(s * (-hi), m + s / 2, s);
            lemma_div_multiples_vanish(-hi, s);
        } else {
            lemma_div_pos_is_pos(m + s / 2, s);
        }
        assert(rdiv(p, s) == -q);
    }
}

/// Evaluation of a saturating fixed-point product, given the witness
/// quotient and remainder of its rounding division: for a nonnegative
/// raw product `p == a * b` with `p + SCALE/2 == SCALE * q + rem`,
/// the product is `q`.
pub proof fn lemma_fx_mul_eval(a: int, b: int, p: int, q: int, rem: int)
    requires
        p == a * b,
        p >= 0,
        p + HALF_SCALE as int == (SCALE as int) * q + rem,
        0 <= rem < SCALE as int,
        q <= FX_MAX_BITS as int,
    ensures
        fx_mul_v(a, b) == q,
{
    lemma_fundamental_div_mod_converse_div(p + HALF_SCALE as int, SCALE as int, q, rem);
}

/// Evaluation of a saturating fixed-point product with a negative raw
/// product, by the witness quotient and remainder on its magnitude.
pub proof fn lemma_fx_mul_eval_neg(a: int, b: int, p: int, q: int, rem: int)
    requires
        p == a * b,
        p < 0,
        (-p) + HALF_SCALE as int == (SCALE as int) * q + rem,
        0 <= rem < SCALE as int,
        q <= FX_MAX_BITS as int,
    ensures
        fx_mul_v(a, b) == -q,
{
    lemma_fundamental_div_mod_converse_div((-p) + HALF_SCALE as int, SCALE as int, q, rem);
}

/// Evaluation of a saturating fixed-point quotient of nonnegative
/// numerator and positive divisor, by the witness quotient and
/// remainder.
pub proof fn lemma_fx_div_eval(a: int, b: int, q: int, rem: int)
    requires
        a >= 0,
        b > 0,
        a * (SCALE as int) + b / 2 == q * b + rem,
        0 <= rem < b,
        q <= FX_MAX_BITS as int,
    ensures
        fx_div_v(a, b) == q,
{
    lemma_fundamental_div_mod_converse_div(a * (SCALE as int) + b / 2, b, q, rem);
}

/// Evaluation of a saturating fixed-point quotient of negative
/// numerator and positive divisor, by the witness quotient and
/// remainder on the numerator's magnitude.
pub proof fn lemma_fx_div_eval_neg(a: int, b: int, q: int, rem: int)
    requires
        a < 0,
        b > 0,
        (-a) * (SCALE as int) + b / 2 == q * b + rem,
        0 <= rem < b,
        q <= FX_MAX_BITS as int,
    ensures
        fx_div_v(a, b) == -q,
{
    lemma_fundamental_div_mod_converse_div((-a) * (SCALE as int) + b / 2, b, q, rem);
}

/// The rounding error of the division by `SCALE`: the rounded
/// quotient, rescaled, stays within half a unit of the dividend.
pub proof fn lemma_rdiv_err(p: int)
    ensures
        -(HALF_SCALE as int) <= (SCALE as int) * rdiv(p, SCALE as int) - p <= HALF_SCALE as int,
{
    let s = SCALE as int;
    if p >= 0 {
        lemma_fundamental_div_mod(p + s / 2, s);
    } else {
        lemma_fundamental_div_mod((-p) + s / 2, s);
    }
}

/// Bounds on a saturating fixed-point product from bounds on the raw
/// integer product.
pub proof fn lemma_fx_mul_range(a: int, b: int, lo: int, hi: int)
    requires
        lo * (SCALE as int) <= a * b,
        a * b <= hi * (SCALE as int),
        -(FX_MAX_BITS as int) <= lo,
        hi <= FX_MAX_BITS as int,
    ensures
        lo <= fx_mul_v(a, b) <= hi,
{
    lemma_rdiv_scale_range(a * b, lo, hi);
}

/// Bound on a product from bounds on its factors.
pub proof fn lemma_mul_bound(a: int, b: int, m: int) by (nonlinear_arith)
    requires
        0 <= m,
        -m <= a <= m,
        -m <= b <= m,
    ensures
        -(m * m) <= a * b <= m * m,
{
}

proof fn lemma_sq_bound(m: int, c: int) by (nonlinear_arith)
    requires
        0 <= m < c,
    ensures
        m * m < c * c,
{
}

proof fn lemma_pow3_bound(m: int, c: int) by (nonlinear_arith)
    requires
        0 <= m < c,
    ensures
        m * m < c * c,
        (m * m) * m < (c * c) * c,
{
}

proof fn lemma_pow5_bound(m: int, c: int) by (nonlinear_arith)
    requires
        0 <= m < c,
    ensures
        m * m < c * c,
        (m * m) * (m * m) < (c * c) * (c * c),
        ((m * m) * (m * m)) * m < ((c * c) * (c * c)) * c,
{
}

/// A full turn, 360 degrees, in raw units.
pub const FULL_TURN_DEG: i64 = 12079595520;
/// `pi/180`, the degree-to-radian factor, in raw units.
pub const DEG_TO_RAD: i64 = 585635;
/// `pi/2`, in raw units.
pub const HALF_PI: i64 = 52707179;
/// `pi`, in raw units.
pub const PI_FX: i64 = 105414357;
/// `3*pi/2`, in raw units.
pub const THREE_HALF_PI: i64 = 158121536;
/// The reciprocals `1/6`, `1/20`, `1/42`, `1/72`, `1/110`, `1/156` of
/// the sine series, in raw units.
pub const SIN_R6: i64 = 5592405;
pub const SIN_R20: i64 = 1677722;
pub const SIN_R42: i64 = 798915;
pub const SIN_R72: i64 = 466034;
pub const SIN_R110: i64 = 305040;
pub const SIN_R156: i64 = 215093;
/// The reciprocals `1/2`, `1/12`, `1/30`, `1/56`, `1/90`, `1/132` of
/// the cosine series, in raw units.
pub const COS_R2: i64 = 16777216;
pub const COS_R12: i64 = 2796203;
pub const COS_R30: i64 = 1118481;
pub const COS_R56: i64 = 599186;
pub const COS_R90: i64 = 372827;
pub const COS_R132: i64 = 254200;

/// The truncated Taylor series of the sine on `[0, pi/2]`, evaluated
/// by Horner's rule in the scalar's arithmetic (terms through the
/// thirteenth power).
pub open spec fn sin_series_v(t: int) -> int {
    let t2 = fx_mul_v(t, t);
    let a5 = fx_sub_v(SCALE as int, fx_mul_v(t2, SIN_R156 as int));
    let a4 = fx_sub_v(SCALE as int, fx_mul_v(fx_mul_v(t2, SIN_R110 as int), a5));
    let a3 = fx_sub_v(SCALE as int, fx_mul_v(fx_mul_v(t2, SIN_R72 as int), a4));
    let a2 = fx_sub_v(SCALE as int, fx_mul_v(fx_mul_v(t2, SIN_R42 as int), a3));
    let a1 = fx_sub_v(SCALE as int, fx_mul_v(fx_mul_v(t2, SIN_R20 as int), a2));
    fx_mul_v(t, fx_sub_v(SCALE as int, fx_mul_v(fx_mul_v(t2, SIN_R6 as int), a1)))
}

/// The truncated Taylor series of the cosine on `[0, pi/2]`,
/// evaluated by Horner's rule in the scalar's arithmetic (terms
/// through the twelfth power).
pub open spec fn cos_series_v(t: int) -> int {
    let t2 = fx_mul_v(t, t);
    let b5 = fx_sub_v(SCALE as int, fx_mul_v(t2, COS_R132 as int));
    let b4 = fx_sub_v(SCALE as int, fx_mul_v(fx_mul_v(t2, COS_R90 as int), b5));
    let b3 = fx_sub_v(SCALE as int, fx_mul_v(fx_mul_v(t2, COS_R56 as int), b4));
    let b2 = fx_sub_v(SCALE as int, fx_mul_v(fx_mul_v(t2, COS_R30 as int), b3));
    fx_sub_v(
        SCALE as int,
        fx_mul_v(
            fx_mul_v(t2, COS_R2 as int),
            fx_sub_v(SCALE as int, fx_mul_v(fx_mul_v(t2, COS_R12 as int), b2)),
        ),
    )
}

/// The sine of an angle reduced to `[0, 2*pi)`: the quadrant picks a
/// series and a sign.
pub open spec fn sin_rad_v(x: int) -> int {
    if x < HALF_PI as int {
        sin_series_v(x)
    } else if x < PI_FX as int {
        cos_series_v(fx_sub_v(x, HALF_PI as int))
    } else if x < THREE_HALF_PI as int {
        -sin_series_v(fx_sub_v(x, PI_FX as int))
    } else {
        -cos_series_v(fx_sub_v(x, THREE_HALF_PI as int))
    }
}

/// The cosine of an angle reduced to `[0, 2*pi)`: the quadrant picks
/// a series and a sign.
pub open spec fn cos_rad_v(x: int) -> int {
    if x < HALF_PI as int {
        cos_series_v(x)
    } else if x < PI_FX as int {
        -sin_series_v(fx_sub_v(x, HALF_PI as int))
    } else if x < THREE_HALF_PI as int {
        -cos_series_v(fx_sub_v(x, PI_FX as int))
    } else {
        sin_series_v(fx_sub_v(x, THREE_HALF_PI as int))
    }
}

/// An angle in degrees wrapped into `[0, 360)`, then taken to
/// radians.
pub open spec fn wrap_deg_to_rad_v(h: int) -> int {
    fx_mul_v(h % (FULL_TURN_DEG as int), DEG_TO_RAD as int)
}

/// The sine of an angle in degrees.
pub open spec fn sin_deg_v(h: int) -> int {
    sin_rad_v(wrap_deg_to_rad_v(h))
}

/// The cosine of an angle in degrees.
pub open spec fn cos_deg_v(h: int) -> int {
    cos_rad_v(wrap_deg_to_rad_v(h))
}

/// A fixed-point scalar: `bits` raw units of `2^-25` each.
#[derive(Clone, Copy, Debug)]
pub struct Fx {
    bits: i64,
}

impl View for Fx {
    type V = int;

    closed spec fn view(&self) -> int {
        self.bits as int
    }
}

impl Fx {
    /// The scalar's magnitude never exceeds the representable bound.
    #[verifier::type_invariant]
    pub open spec fn wf(self) -> bool {
        -(FX_MAX_BITS as int) <= self@ <= FX_MAX_BITS as int
    }

    /// Build a scalar from raw units.
    pub fn from_bits(bits: i64) -> (r: Fx)
        requires
            -FX_MAX_BITS <= bits <= FX_MAX_BITS,
        ensures
            r@ == bits,
    {
        Fx { bits }
    }

    /// The raw units of the scalar.
    pub fn bits(self) -> (r: i64)
        ensures
            r == self@,
    {
        self.bits
    }

    /// Zero.
    pub fn zero() -> (r: Fx)
        ensures
            r@ == 0,
    {
        Fx { bits: 0 }
    }

    /// One.
    pub fn one() -> (r: Fx)
        ensures
            r@ == SCALE,
    {
        Fx { bits: SCALE }
    }

    /// Saturating addition.
    pub fn add(self, o: Fx) -> (r: Fx)
        ensures
            r@ == fx_add_v(self@, o@),
    {
        proof {
            use_type_invariant(self);
            use_type_invariant(o);
        }
        let s: i64 = self.bits + o.bits;
        if s > FX_MAX_BITS {
            Fx { bits: FX_MAX_BITS }
        } else if s < -FX_MAX_BITS {
            Fx { bits: -FX_MAX_BITS }
        } else {
            Fx { bits: s }
        }
    }

    /// Saturating subtraction.
    pub fn sub(self, o: Fx) -> (r: Fx)
        ensures
            r@ == fx_sub_v(self@, o@),
    {
        proof {
            use_type_invariant(self);
            use_type_invariant(o);
        }
        let s: i64 = self.bits - o.bits;
        if s > FX_MAX_BITS {
            Fx { bits: FX_MAX_BITS }
        } else if s < -FX_MAX_BITS {
            Fx { bits: -FX_MAX_BITS }
        } else {
            Fx { bits: s }
        }
    }

    /// Negation.
    pub fn neg(self) -> (r: Fx)
        ensures
            r@ == -self@,
    {
        proof {
            use_type_invariant(self);
        }
        Fx { bits: -self.bits }
    }

    /// Saturating fixed-point multiplication, rounded to nearest.
    pub fn mul(self, o: Fx) -> (r: Fx)
        ensures
            r@ == fx_mul_v(self@, o@),
    {
        proof {
            use_type_invariant(self);
            use_type_invariant(o);
            lemma_mul_bound(self@, o@, FX_MAX_BITS as int);
        }
        let p: i128 = (self.bits as i128) * (o.bits as i128);
        Fx { bits: scale_down_round(p) }
    }

    /// Saturating fixed-point division, rounded to nearest. A zero
    /// divisor saturates at the bound with the numerator's sign.
    pub fn div(self, o: Fx) -> (r: Fx)
        ensures
            r@ == fx_div_v(self@, o@),
    {
        proof {
            use_type_invariant(self);
            use_type_invariant(o);
        }
        if o.bits == 0 {
            if self.bits > 0 {
                Fx { bits: FX_MAX_BITS }
            } else if self.bits < 0 {
                Fx { bits: -FX_MAX_BITS }
            } else {
                Fx { bits: 0 }
            }
        } else {
            let neg: bool = (self.bits < 0) != (o.bits < 0);
            let aa: u128 = abs64(self.bits) as u128;
            proof {
                assert(aa * (SCALE as u128) <= 590295810358705651712int)
                    by (nonlinear_arith)
                    requires aa <= 17592186044416u128;
            }
            let ma: u128 = aa * (SCALE as u128);
            let mb: u128 = abs64(o.bits) as u128;
            let q: u128 = (ma + mb / 2) / mb;
            let qs: i64 = if q > FX_MAX_BITS as u128 {
                FX_MAX_BITS
            } else {
                q as i64
            };
            if neg {
                Fx { bits: -qs }
            } else {
                Fx { bits: qs }
            }
        }
    }

    /// The smaller of two scalars.
    pub fn min(self, o: Fx) -> (r: Fx)
        ensures
            r@ == if self@ <= o@ { self@ } else { o@ },
    {
        proof {
            use_type_invariant(self);
            use_type_invariant(o);
        }
        if self.bits <= o.bits {
            self
        } else {
            o
        }
    }

    /// The larger of two scalars.
    pub fn max(self, o: Fx) -> (r: Fx)
        ensures
            r@ == if self@ >= o@ { self@ } else { o@ },
    {
        proof {
            use_type_invariant(self);
            use_type_invariant(o);
        }
        if self.bits >= o.bits {
            self
        } else {
            o
        }
    }

    /// The reciprocal: one divided by this scalar.
    pub fn recip(self) -> (r: Fx)
        ensures
            r@ == fx_div_v(SCALE as int, self@),
    {
        Fx::one().div(self)
    }

    /// Clamp into the closed range from `lo` to `hi`.
    pub fn clamp(self, lo: Fx, hi: Fx) -> (r: Fx)
        ensures
            r@ == clamp_v(self@, lo@, hi@),
    {
        proof {
            use_type_invariant(self);
            use_type_invariant(lo);
            use_type_invariant(hi);
        }
        if self.bits < lo.bits {
            lo
        } else if self.bits > hi.bits {
            hi
        } else {
            self
        }
    }

    /// The sine of this scalar taken as an angle in degrees.
    pub fn sin_deg(self) -> (r: Fx)
        ensures
            r@ == sin_deg_v(self@),
    {
        let x = self.wrap_deg_to_rad();
        if x.bits() < HALF_PI {
            sin_series(x)
        } else if x.bits() < PI_FX {
            cos_series(x.sub(Fx::from_bits(HALF_PI)))
        } else if x.bits() < THREE_HALF_PI {
            sin_series(x.sub(Fx::from_bits(PI_FX))).neg()
        } else {
            cos_series(x.sub(Fx::from_bits(THREE_HALF_PI))).neg()
        }
    }

    /// The cosine of this scalar taken as an angle in degrees.
    pub fn cos_deg(self) -> (r: Fx)
        ensures
            r@ == cos_deg_v(self@),
    {
        let x = self.wrap_deg_to_rad();
        if x.bits() < HALF_PI {
            cos_series(x)
        } else if x.bits() < PI_FX {
            sin_series(x.sub(Fx::from_bits(HALF_PI))).neg()
        } else if x.bits() < THREE_HALF_PI {
            cos_series(x.sub(Fx::from_bits(PI_FX))).neg()
        } else {
            sin_series(x.sub(Fx::from_bits(THREE_HALF_PI)))
        }
    }

    /// Wrap an angle in degrees into `[0, 360)` and take it to
    /// radians.
    fn wrap_deg_to_rad(self) -> (r: Fx)
        ensures
            r@ == wrap_deg_to_rad_v(self@),
    {
        proof {
            use_type_invariant(self);
        }
        let wrapped: i64 = if self.bits >= 0 {
            let m: u64 = (self.bits as u64) % (FULL_TURN_DEG as u64);
            m as i64
        } else {
            let mag: u64 = (-self.bits) as u64;
            let m: u64 = mag % (FULL_TURN_DEG as u64);
            proof {
                let d = FULL_TURN_DEG as int;
                let q = mag as int / d;
                lemma_fundamental_div_mod(mag as int, d);
                if m == 0 {
                    lemma_fundamental_div_mod_converse_mod(self@, d, -q, 0);
                } else {
                    lemma_fundamental_div_mod_converse_mod(self@, d, -q - 1, d - m);
                }
            }
            if m == 0 {
                0
            } else {
                FULL_TURN_DEG - (m as i64)
            }
        };
        Fx::from_bits(wrapped).mul(Fx::from_bits(DEG_TO_RAD))
    }

    /// Comparison producing a mask, for branchless selection.
    pub fn lt_eq(self, o: Fx) -> (r: FxMask)
        ensures
            r@ == (self@ <= o@),
    {
        FxMask { cond: self.bits <= o.bits }
    }
}

/// A boolean-like mask produced by scalar comparisons.
#[derive(Clone, Copy, Debug)]
pub struct FxMask {
    cond: bool,
}

impl View for FxMask {
    type V = bool;

    closed spec fn view(&self) -> bool {
        self.cond
    }
}

impl FxMask {
    /// Select between two eagerly evaluated scalars.
    pub fn select(self, if_true: Fx, if_false: Fx) -> (r: Fx)
        ensures
            r == if self@ { if_true } else { if_false },
    {
        if self.cond {
            if_true
        } else {
            if_false
        }
    }
}

/// The sine series on `[0, pi/2]`, by Horner's rule.
fn sin_series(t: Fx) -> (r: Fx)
    ensures
        r@ == sin_series_v(t@),
{
    let one = Fx::one();
    let t2 = t.mul(t);
    let a5 = one.sub(t2.mul(Fx::from_bits(SIN_R156)));
    let a4 = one.sub(t2.mul(Fx::from_bits(SIN_R110)).mul(a5));
    let a3 = one.sub(t2.mul(Fx::from_bits(SIN_R72)).mul(a4));
    let a2 = one.sub(t2.mul(Fx::from_bits(SIN_R42)).mul(a3));
    let a1 = one.sub(t2.mul(Fx::from_bits(SIN_R20)).mul(a2));
    t.mul(one.sub(t2.mul(Fx::from_bits(SIN_R6)).mul(a1)))
}

/// The cosine series on `[0, pi/2]`, by Horner's rule.
fn cos_series(t: Fx) -> (r: Fx)
    ensures
        r@ == cos_series_v(t@),
{
    let one = Fx::one();
    let t2 = t.mul(t);
    let b5 = one.sub(t2.mul(Fx::from_bits(COS_R132)));
    let b4 = one.sub(t2.mul(Fx::from_bits(COS_R90)).mul(b5));
    let b3 = one.sub(t2.mul(Fx::from_bits(COS_R56)).mul(b4));
    let b2 = one.sub(t2.mul(Fx::from_bits(COS_R30)).mul(b3));
    one.sub(t2.mul(Fx::from_bits(COS_R2)).mul(one.sub(t2.mul(Fx::from_bits(COS_R12)).mul(b2))))
}

/// Magnitude of a bounded `i64`.
fn abs64(x: i64) -> (r: i64)
    requires
        -FX_MAX_BITS <= x <= FX_MAX_BITS,
    ensures
        r == abs_i(x as int),
{
    if x < 0 {
        -x
    } else {
        x
    }
}

/// Divide by `SCALE`, rounding to nearest (ties away from zero), and
/// saturate at the scalar bound.
fn scale_down_round(p: i128) -> (r: i64)
    requires
        -(FX_MAX_BITS as int) * (FX_MAX_BITS as int) <= p
            <= (FX_MAX_BITS as int) * (FX_MAX_BITS as int),
    ensures
        r == sat_v(rdiv(p as int, SCALE as int)),
{
    if p >= 0 {
        let q: u128 = ((p as u128) + (HALF_SCALE as u128)) / (SCALE as u128);
        if q > FX_MAX_BITS as u128 {
            FX_MAX_BITS
        } else {
            q as i64
        }
    } else {
        let m: u128 = (-p) as u128;
        let q: u128 = (m + (HALF_SCALE as u128)) / (SCALE as u128);
        if q > FX_MAX_BITS as u128 {
            -FX_MAX_BITS
        } else {
            -(q as i64)
        }
    }
}

/// Integer square root by binary search.
fn isqrt_exec(n: u128) -> (r: u64)
    requires
        (n as int) < pow2_i(18_000_000_000_000_000_000),
    ensures
        is_isqrt(r as int, n as int),
        r < 18_000_000_000_000_000_000,
{
    let mut lo: u64 = 0;
    let mut hi: u64 = 18_000_000_000_000_000_000;
    while lo + 1 < hi
        invariant
            lo < hi <= 18_000_000_000_000_000_000,
            pow2_i(lo as int) <= n as int,
            (n as int) < pow2_i(hi as int),
        decreases hi - lo,
    {
        let mid: u64 = lo + (hi - lo) / 2;
        let m: u128 = mid as u128;
        proof {
            lemma_sq_bound(m as int, 18_000_000_000_000_000_000);
        }
        let m2: u128 = m * m;
        if m2 <= n {
            lo = mid;
        } else {
            hi = mid;
        }
    }
    lo
}

/// Integer cube root by binary search.
fn iroot3_exec(n: u128) -> (r: u64)
    requires
        (n as int) < pow3_i(200_000_000),
    ensures
        is_iroot3(r as int, n as int),
        r < 200_000_000,
{
    let mut lo: u64 = 0;
    let mut hi: u64 = 200_000_000;
    while lo + 1 < hi
        invariant
            lo < hi <= 200_000_000,
            pow3_i(lo as int) <= n as int,
            (n as int) < pow3_i(hi as int),
        decreases hi - lo,
    {
        let mid: u64 = lo + (hi - lo) / 2;
        let m: u128 = mid as u128;
        proof {
            lemma_pow3_bound(m as int, 200_000_000);
        }
        let m2: u128 = m * m;
        let m3: u128 = m2 * m;
        if m3 <= n {
            lo = mid;
        } else {
            hi = mid;
        }
    }
    lo
}

/// Integer fifth root by binary search.
fn iroot5_exec(n: u128) -> (r: u64)
    requires
        (n as int) < pow5_i(48_000_000),
    ensures
        is_iroot5(r as int, n as int),
        r < 48_000_000,
{
    let mut lo: u64 = 0;
    let mut hi: u64 = 48_000_000;
    while lo + 1 < hi
        invariant
            lo < hi <= 48_000_000,
            pow5_i(lo as int) <= n as int,
            (n as int) < pow5_i(hi as int),
        decreases hi - lo,
    {
        let mid: u64 = lo + (hi - lo) / 2;
        let m: u128 = mid as u128;
        proof {
            lemma_pow5_bound(m as int, 48_000_000);
        }
        let m2: u128 = m * m;
        let m4: u128 = m2 * m2;
        let m5: u128 = m4 * m;
        if m5 <= n {
            lo = mid;
        } else {
            hi = mid;
        }
    }
    lo
}

/// `x` raised to the power `2.4 = 12/5`, for `x` in `[0, 2]`:
/// the square of `x` times the fifth root of that square.
pub open spec fn pow_2_4_v(x: int) -> int {
    let t = fx_mul_v(x, x);
    fx_mul_v(t, iroot5_v(t * scale4_v()))
}

/// `x` raised to the power `5/12`, for `x` in `[0, 2]`: the twelfth
/// root of `x` (a cube root and two square roots, each rescaled to
/// the scalar's units), raised to the fifth power. Taking the root
/// first keeps the intermediates large, so no precision is lost on
/// small inputs.
pub open spec fn pow_5_12_v(x: int) -> int {
    let c = iroot3_v(x * scale2_v());
    let s1 = isqrt_v(c * (SCALE as int));
    let s2 = isqrt_v(s1 * (SCALE as int));
    let p2 = fx_mul_v(s2, s2);
    let p4 = fx_mul_v(p2, p2);
    fx_mul_v(p4, s2)
}

/// Raise a scalar in `[0, 2]` to the power `2.4`.
pub fn pow_2_4(x: Fx) -> (r: Fx)
    requires
        0 <= x@ <= 2 * SCALE,
    ensures
        r@ == pow_2_4_v(x@),
{
    let t = x.mul(x);
    proof {
        assert(0 * (SCALE as int) <= x@ * x@ && x@ * x@ <= (4 * SCALE as int) * (SCALE as int))
            by (nonlinear_arith)
            requires 0 <= x@ <= 2 * SCALE as int;
        lemma_fx_mul_range(x@, x@, 0, 4 * SCALE as int);
        assert(0 <= t@ <= 4 * SCALE as int);
    }
    let n: u128 = (t.bits() as u128) * 1267650600228229401496703205376u128;
    proof {
        assert(n as int == t@ * scale4_v());
        assert((n as int) < pow5_i(48_000_000));
    }
    let r5: u64 = iroot5_exec(n);
    proof {
        lemma_iroot5_is(r5 as int, n as int);
    }
    t.mul(Fx::from_bits(r5 as i64))
}

/// Raise a scalar in `[0, 2]` to the power `5/12`.
pub fn pow_5_12(x: Fx) -> (r: Fx)
    requires
        0 <= x@ <= 2 * SCALE,
    ensures
        r@ == pow_5_12_v(x@),
{
    let n3: u128 = (x.bits() as u128) * 1125899906842624u128;
    proof {
        assert(n3 as int == x@ * scale2_v());
        assert((n3 as int) < pow3_i(200_000_000));
    }
    let c: u64 = iroot3_exec(n3);
    proof {
        lemma_iroot3_is(c as int, n3 as int);
    }
    let n2: u128 = (c as u128) * (SCALE as u128);
    proof {
        assert((n2 as int) < pow2_i(18_000_000_000_000_000_000));
    }
    let s1: u64 = isqrt_exec(n2);
    proof {
        lemma_isqrt_is(s1 as int, n2 as int);
        assert(s1 as int * s1 as int <= n2 as int);
        assert(s1 < 100_000_000) by (nonlinear_arith)
            requires
                s1 as int * s1 as int <= n2 as int,
                n2 as int <= 200_000_000int * 33554432int;
    }
    let n1: u128 = (s1 as u128) * (SCALE as u128);
    proof {
        assert((n1 as int) < pow2_i(18_000_000_000_000_000_000));
    }
    let s2: u64 = isqrt_exec(n1);
    proof {
        lemma_isqrt_is(s2 as int, n1 as int);
        assert(s2 as int * s2 as int <= n1 as int);
        assert(s2 < 60_000_000) by (nonlinear_arith)
            requires
                s2 as int * s2 as int <= n1 as int,
                n1 as int <= 100_000_000int * 33554432int;
    }
    let s2f = Fx::from_bits(s2 as i64);
    let p2 = s2f.mul(s2f);
    let p4 = p2.mul(p2);
    p4.mul(s2f)
}

} // verus!
