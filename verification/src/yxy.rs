//! The CIE 1931 Yxy (xyY) color space: two chromaticity coordinates
//! and a luminance.

use vstd::prelude::*;
use core::marker::PhantomData;
use crate::scalar::Fx;
use crate::white_point::D65;

verus! {

/// CIE Yxy: chromaticity coordinates `x`, `y` and luminance `luma`,
/// tagged with a white point.
#[derive(Debug)]
pub struct Yxy<Wp> {
    /// The x chromaticity coordinate.
    pub x: Fx,
    /// The y chromaticity coordinate.
    pub y: Fx,
    /// The luminance.
    pub luma: Fx,
    /// The white point associated with the color's illuminant.
    pub white_point: PhantomData<Wp>,
}

impl Yxy<D65> {
    /// CIE Yxy with white point D65.
    pub fn new(x: Fx, y: Fx, luma: Fx) -> (r: Yxy<D65>)
        ensures
            r.x == x,
            r.y == y,
            r.luma == luma,
    {
        Yxy { x, y, luma, white_point: PhantomData }
    }
}

impl<Wp> Yxy<Wp> {
    /// CIE Yxy.
    pub fn with_wp(x: Fx, y: Fx, luma: Fx) -> (r: Yxy<Wp>)
        ensures
            r.x == x,
            r.y == y,
            r.luma == luma,
    {
        Yxy { x, y, luma, white_point: PhantomData }
    }

    /// Convert to an `(x, y, luma)` tuple.
    pub fn into_components(self) -> (r: (Fx, Fx, Fx))
        ensures
            r == (self.x, self.y, self.luma),
    {
        (self.x, self.y, self.luma)
    }

    /// Convert from an `(x, y, luma)` tuple.
    pub fn from_components(components: (Fx, Fx, Fx)) -> (r: Yxy<Wp>)
        ensures
            r.x == components.0,
            r.y == components.1,
            r.luma == components.2,
    {
        Yxy { x: components.0, y: components.1, luma: components.2, white_point: PhantomData }
    }
}

impl<Wp> Copy for Yxy<Wp> {

}

impl<Wp> Clone for Yxy<Wp> {
    /// An identical copy of the color.
    fn clone(&self) -> (r: Yxy<Wp>)
        ensures
            r == *self,
    {
        *self
    }
}

} // verus!
