//! Device-dependent RGB: spaces, standards and values.

use vstd::prelude::*;
use core::marker::PhantomData;
use crate::encoding::{Linear, TransferFn};
use crate::scalar::Fx;
use crate::white_point::{Any, WhitePoint};
use crate::yxy::Yxy;

verus! {

/// The three chromaticity coordinates defining an RGB space's red,
/// green and blue reference colors, as Yxy values.
pub trait Primaries {
    /// The red primary's (x, y, luma), in raw units.
    spec fn red_v() -> (int, int, int);

    /// The green primary's (x, y, luma), in raw units.
    spec fn green_v() -> (int, int, int);

    /// The blue primary's (x, y, luma), in raw units.
    spec fn blue_v() -> (int, int, int);

    /// The red primary.
    fn red() -> (r: Yxy<Any>)
        ensures
            (r.x@, r.y@, r.luma@) == Self::red_v(),
    ;

    /// The green primary.
    fn green() -> (r: Yxy<Any>)
        ensures
            (r.x@, r.y@, r.luma@) == Self::green_v(),
    ;

    /// The blue primary.
    fn blue() -> (r: Yxy<Any>)
        ensures
            (r.x@, r.y@, r.luma@) == Self::blue_v(),
    ;
}

/// An RGB color space: primaries and a white point.
pub trait RgbSpace {
    /// The primaries of the color space.
    type Primaries: Primaries;

    /// The white point of the color space.
    type WhitePoint: WhitePoint;
}

/// An RGB standard: a color space together with a transfer function.
pub trait RgbStandard {
    /// The color space of the standard.
    type Space: RgbSpace;

    /// The transfer function of the standard.
    type TransferFn: TransferFn;
}

impl<S: RgbStandard> RgbStandard for Linear<S> {
    type Space = S::Space;

    type TransferFn = Linear<S>;
}

/// A device-dependent RGB value, tagged with its standard.
#[derive(Debug)]
pub struct Rgb<S> {
    /// The red channel.
    pub red: Fx,
    /// The green channel.
    pub green: Fx,
    /// The blue channel.
    pub blue: Fx,
    /// The standard the channels follow.
    pub standard: PhantomData<S>,
}

impl<S> Rgb<S> {
    /// An RGB value.
    pub fn new(red: Fx, green: Fx, blue: Fx) -> (r: Rgb<S>)
        ensures
            r.red == red,
            r.green == green,
            r.blue == blue,
    {
        Rgb { red, green, blue, standard: PhantomData }
    }

    /// Convert to a `(red, green, blue)` tuple.
    pub fn into_components(self) -> (r: (Fx, Fx, Fx))
        ensures
            r == (self.red, self.green, self.blue),
    {
        (self.red, self.green, self.blue)
    }
}

impl<S: RgbStandard> Rgb<S> {
    /// Decode each channel through the standard's transfer function,
    /// giving a linear-light value in the same space.
    pub fn into_linear(self) -> (r: Rgb<Linear<S::Space>>)
        requires
            S::TransferFn::into_linear_dom(self.red@),
            S::TransferFn::into_linear_dom(self.green@),
            S::TransferFn::into_linear_dom(self.blue@),
        ensures
            r.red@ == S::TransferFn::into_linear_v(self.red@),
            r.green@ == S::TransferFn::into_linear_v(self.green@),
            r.blue@ == S::TransferFn::into_linear_v(self.blue@),
    {
        Rgb::new(
            S::TransferFn::into_linear(self.red),
            S::TransferFn::into_linear(self.green),
            S::TransferFn::into_linear(self.blue),
        )
    }
}

impl<S> Copy for Rgb<S> {

}

impl<S> Clone for Rgb<S> {
    /// An identical copy of the color.
    fn clone(&self) -> (r: Rgb<S>)
        ensures
            r == *self,
    {
        *self
    }
}

} // verus!
