//! The CIE L*u*v* color space.

use vstd::prelude::*;
use core::marker::PhantomData;
use crate::scalar::Fx;
use crate::white_point::D65;

verus! {

/// CIE L*u*v*: lightness `l` (0 to 100) and the chromaticity axes
/// `u` and `v`, tagged with a white point.
#[derive(Debug)]
pub struct Luv<Wp> {
    /// The lightness.
    pub l: Fx,
    /// The u chromaticity axis.
    pub u: Fx,
    /// The v chromaticity axis.
    pub v: Fx,
    /// The white point associated with the color's illuminant.
    pub white_point: PhantomData<Wp>,
}

impl Luv<D65> {
    /// CIE L*u*v* with white point D65.
    pub fn new(l: Fx, u: Fx, v: Fx) -> (r: Luv<D65>)
        ensures
            r.l == l,
            r.u == u,
            r.v == v,
    {
        Luv { l, u, v, white_point: PhantomData }
    }
}

impl<Wp> Luv<Wp> {
    /// CIE L*u*v*.
    pub fn with_wp(l: Fx, u: Fx, v: Fx) -> (r: Luv<Wp>)
        ensures
            r.l == l,
            r.u == u,
            r.v == v,
    {
        Luv { l, u, v, white_point: PhantomData }
    }
}

impl<Wp> Copy for Luv<Wp> {

}

impl<Wp> Clone for Luv<Wp> {
    /// An identical copy of the color.
    fn clone(&self) -> (r: Luv<Wp>)
        ensures
            r == *self,
    {
        *self
    }
}

} // verus!
