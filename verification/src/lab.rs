//! The CIE L*a*b* color space.

use vstd::prelude::*;
use core::marker::PhantomData;
use crate::scalar::Fx;
use crate::white_point::D65;

verus! {

/// CIE L*a*b*: lightness `l` (0 to 100) and the green-red and
/// blue-yellow opponent axes `a` and `b`, tagged with a white point.
#[derive(Debug)]
pub struct Lab<Wp> {
    /// The lightness.
    pub l: Fx,
    /// The green-red opponent axis.
    pub a: Fx,
    /// The blue-yellow opponent axis.
    pub b: Fx,
    /// The white point associated with the color's illuminant.
    pub white_point: PhantomData<Wp>,
}

impl Lab<D65> {
    /// CIE L*a*b* with white point D65.
    pub fn new(l: Fx, a: Fx, b: Fx) -> (r: Lab<D65>)
        ensures
            r.l == l,
            r.a == a,
            r.b == b,
    {
        Lab { l, a, b, white_point: PhantomData }
    }
}

impl<Wp> Lab<Wp> {
    /// CIE L*a*b*.
    pub fn with_wp(l: Fx, a: Fx, b: Fx) -> (r: Lab<Wp>)
        ensures
            r.l == l,
            r.a == a,
            r.b == b,
    {
        Lab { l, a, b, white_point: PhantomData }
    }
}

impl<Wp> Copy for Lab<Wp> {

}

impl<Wp> Clone for Lab<Wp> {
    /// An identical copy of the color.
    fn clone(&self) -> (r: Lab<Wp>)
        ensures
            r == *self,
    {
        *self
    }
}

} // verus!
