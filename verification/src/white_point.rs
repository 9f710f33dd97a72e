//! Reference illuminants.
//!
//! A white point is a zero-sized tag; its reference tristimulus values
//! are a pure function of the tag, so device-independent spaces that
//! share a tag are normalized consistently. Mixing two white points in
//! one conversion chain is rejected by the type system: every
//! conversion keeps the tag of its input.

use vstd::prelude::*;
use crate::scalar::Fx;
use crate::xyz::Xyz;

verus! {

/// Reference X of the D65 standard illuminant (0.95047), in raw units.
pub const D65_X: i64 = 31892481;
/// Reference Y of the D65 standard illuminant (1.0), in raw units.
pub const D65_Y: i64 = 33554432;
/// Reference Z of the D65 standard illuminant (1.08883), in raw units.
pub const D65_Z: i64 = 36535072;

/// A reference illuminant and observer tag, carrying its reference
/// tristimulus values.
pub trait WhitePoint: Sized {
    /// Reference X, in scalar raw units.
    spec fn ref_x() -> int;

    /// Reference Y, in scalar raw units.
    spec fn ref_y() -> int;

    /// Reference Z, in scalar raw units.
    spec fn ref_z() -> int;

    /// The reference tristimulus values of this white point.
    fn get_xyz() -> (r: Xyz<Self>)
        ensures
            r.x@ == Self::ref_x(),
            r.y@ == Self::ref_y(),
            r.z@ == Self::ref_z(),
    ;
}

/// The D65 standard illuminant with the 2 degree observer.
#[derive(Clone, Copy, Debug)]
pub struct D65;

impl WhitePoint for D65 {
    open spec fn ref_x() -> int {
        D65_X as int
    }

    open spec fn ref_y() -> int {
        D65_Y as int
    }

    open spec fn ref_z() -> int {
        D65_Z as int
    }

    fn get_xyz() -> (r: Xyz<D65>) {
        Xyz::with_wp(Fx::from_bits(D65_X), Fx::from_bits(D65_Y), Fx::from_bits(D65_Z))
    }
}

/// A placeholder tag for values not tied to any particular white
/// point, such as primaries' chromaticity coordinates.
#[derive(Clone, Copy, Debug)]
pub struct Any;

} // verus!
