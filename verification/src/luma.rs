//! Luminance-only colors.

use vstd::prelude::*;
use core::marker::PhantomData;
use crate::white_point::WhitePoint;
use crate::scalar::Fx;

verus! {

/// A standard that luminance values can follow: it fixes the white
/// point the luminance is relative to.
pub trait LumaStandard {
    /// The white point of the standard.
    type WhitePoint: WhitePoint;
}

/// A luminance value, tagged with its standard.
#[derive(Debug)]
pub struct Luma<S> {
    /// The luminance, where 0.0 is black and 1.0 is white.
    pub luma: Fx,
    /// The standard the luminance follows.
    pub standard: PhantomData<S>,
}

impl<S> Luma<S> {
    /// A luminance value.
    pub fn new(luma: Fx) -> (r: Luma<S>)
        ensures
            r.luma == luma,
    {
        Luma { luma, standard: PhantomData }
    }
}

impl<S> Copy for Luma<S> {

}

impl<S> Clone for Luma<S> {
    /// An identical copy of the color.
    fn clone(&self) -> (r: Luma<S>)
        ensures
            r == *self,
    {
        *self
    }
}

} // verus!
