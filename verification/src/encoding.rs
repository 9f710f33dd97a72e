//! Transfer functions: the non-linear mappings between device-encoded
//! and linear-light component values, and the tags that name them.

pub mod lookup_tables;
pub mod srgb;

pub use srgb::Srgb;

use vstd::prelude::*;
use core::marker::PhantomData;
use crate::scalar::Fx;

verus! {

/// A pure, stateless mapping between device-encoded and linear-light
/// values, associated with a standard tag. Decoding then encoding a
/// value reproduces it within the scalar's precision.
pub trait TransferFn {
    /// The device values the decode accepts.
    spec fn into_linear_dom(x: int) -> bool;

    /// The linear value of a device value, in raw units.
    spec fn into_linear_v(x: int) -> int;

    /// The linear values the encode accepts.
    spec fn from_linear_dom(x: int) -> bool;

    /// The device value of a linear value, in raw units.
    spec fn from_linear_v(x: int) -> int;

    /// Decode a device value to linear light.
    fn into_linear(x: Fx) -> (r: Fx)
        requires
            Self::into_linear_dom(x@),
        ensures
            r@ == Self::into_linear_v(x@),
    ;

    /// Encode a linear value into the device encoding.
    fn from_linear(x: Fx) -> (r: Fx)
        requires
            Self::from_linear_dom(x@),
        ensures
            r@ == Self::from_linear_v(x@),
    ;
}

/// A linear encoding of a color space `S`: the transfer function is
/// the identity.
#[derive(Debug)]
pub struct Linear<S> {
    /// The underlying standard.
    pub standard: PhantomData<S>,
}

impl<S> TransferFn for Linear<S> {
    open spec fn into_linear_dom(x: int) -> bool {
        true
    }

    open spec fn into_linear_v(x: int) -> int {
        x
    }

    open spec fn from_linear_dom(x: int) -> bool {
        true
    }

    open spec fn from_linear_v(x: int) -> int {
        x
    }

    fn into_linear(x: Fx) -> (r: Fx) {
        x
    }

    fn from_linear(x: Fx) -> (r: Fx) {
        x
    }
}

/// A 53-bit significand shifted right by `sh`, rounded to nearest
/// with ties to even.
pub open spec fn round_shift_v(sig: u64, sh: u64) -> u64 {
    let r = sig >> sh;
    let rem = sig & (((1u64 << sh) - 1) as u64);
    let half = 1u64 << ((sh - 1) as u64);
    if rem > half || (rem == half && r & 1 == 1) {
        (r + 1) as u64
    } else {
        r
    }
}

/// The IEEE 754 single nearest to the double with the given bits
/// (ties to even), as bits. The sign is kept; too large a magnitude
/// gives an infinity; a NaN gives the quiet NaN carrying the
/// payload's top bits; small magnitudes round into the subnormal
/// range or to zero.
pub open spec fn narrow_f64_bits_v(b: u64) -> u32 {
    let s = (((b >> 63) as u32) << 31) as u32;
    let e = (b >> 52) & 0x7FF;
    let m = b & 0xFFFFFFFFFFFFF;
    if e == 0x7FF {
        if m == 0 {
            s | 0x7F800000u32
        } else {
            s | 0x7FC00000u32 | (((m >> 29) as u32) & 0x3FFFFF)
        }
    } else if e == 0 {
        s
    } else if e >= 1151 {
        s | 0x7F800000u32
    } else if e >= 897 {
        let sig = m | 0x10000000000000;
        let r = round_shift_v(sig, 29);
        let k = (e - 896) as u32;
        if r == 0x1000000 {
            if k + 1 >= 255 {
                s | 0x7F800000u32
            } else {
                s | (((k + 1) as u32) << 23) as u32
            }
        } else {
            s | ((k << 23) as u32) | (r as u32 & 0x7FFFFF)
        }
    } else {
        let sh = (926 - e) as u64;
        if sh > 63 {
            s
        } else {
            let sig = m | 0x10000000000000;
            s | (round_shift_v(sig, sh) as u32)
        }
    }
}

/// A 53-bit significand shifted right by `sh`, rounded to nearest
/// with ties to even.
fn round_shift(sig: u64, sh: u64) -> (r: u64)
    requires
        1 <= sh <= 63,
        sig < 0x20000000000000,
    ensures
        r == round_shift_v(sig, sh),
        r <= (sig >> sh) + 1,
{
    proof {
        assert((1u64 << sh) >= 1 && sig >> sh <= sig) by (bit_vector)
            requires 1 <= sh <= 63;
    }
    let q: u64 = sig >> sh;
    let rem: u64 = sig & ((1u64 << sh) - 1);
    let half: u64 = 1u64 << (sh - 1);
    if rem > half || (rem == half && q & 1 == 1) {
        q + 1
    } else {
        q
    }
}

/// Narrow a double, given as its IEEE 754 bits, to the nearest single
/// (ties to even), returned as its bits.
pub fn narrow_f64_bits(b: u64) -> (r: u32)
    ensures
        r == narrow_f64_bits_v(b),
{
    let s: u32 = ((b >> 63) as u32) << 31;
    let e: u64 = (b >> 52) & 0x7FF;
    let m: u64 = b & 0xFFFFFFFFFFFFF;
    proof {
        assert(((b >> 63) as u32) << 31 == ((((b >> 63) as u32) << 31) as u32)) by (bit_vector);
        assert((b >> 52) & 0x7FF <= 0x7FF && b & 0xFFFFFFFFFFFFF <= 0xFFFFFFFFFFFFF)
            by (bit_vector);
    }
    if e == 0x7FF {
        if m == 0 {
            s | 0x7F800000u32
        } else {
            s | 0x7FC00000u32 | (((m >> 29) as u32) & 0x3FFFFF)
        }
    } else if e == 0 {
        s
    } else if e >= 1151 {
        s | 0x7F800000u32
    } else if e >= 897 {
        let sig: u64 = m | 0x10000000000000;
        proof {
            assert(sig < 0x20000000000000 && sig >> 29 < 0x1000000) by (bit_vector)
                requires
                    sig == (b & 0xFFFFFFFFFFFFF) | 0x10000000000000,
            ;
        }
        let r: u64 = round_shift(sig, 29);
        let k: u32 = (e - 896) as u32;
        if r == 0x1000000 {
            if k + 1 >= 255 {
                s | 0x7F800000u32
            } else {
                s | ((k + 1) << 23)
            }
        } else {
            s | (k << 23) | (r as u32 & 0x7FFFFF)
        }
    } else {
        let sh: u64 = 926 - e;
        if sh > 63 {
            s
        } else {
            let sig: u64 = m | 0x10000000000000;
            proof {
                assert(sig < 0x20000000000000 && sig >> sh < 0x800000) by (bit_vector)
                    requires
                        sig == (b & 0xFFFFFFFFFFFFF) | 0x10000000000000,
                        30 <= sh <= 63,
                ;
            }
            let r: u64 = round_shift(sig, sh);
            s | (r as u32)
        }
    }
}

} // verus!
