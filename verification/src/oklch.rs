//! The Oklch color space: Oklab in polar form.

use vstd::prelude::*;
use crate::scalar::Fx;

verus! {

/// Oklch: the polar form of Oklab, with perceptual lightness `l`,
/// chroma, and a hue angle in degrees, under the D65 white point.
#[derive(Clone, Copy, Debug)]
pub struct Oklch {
    /// The perceptual lightness.
    pub l: Fx,
    /// The chroma: the distance from the gray axis.
    pub chroma: Fx,
    /// The hue angle, in degrees.
    pub hue: Fx,
}

impl Oklch {
    /// An Oklch color.
    pub fn new(l: Fx, chroma: Fx, hue: Fx) -> (r: Oklch)
        ensures
            r.l == l,
            r.chroma == chroma,
            r.hue == hue,
    {
        Oklch { l, chroma, hue }
    }
}

} // verus!
