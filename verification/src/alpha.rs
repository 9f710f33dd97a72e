//! Colors with transparency.

use vstd::prelude::*;
use crate::scalar::Fx;
use crate::white_point::D65;
use crate::xyz::Xyz;

verus! {

/// A color together with an alpha (transparency) component.
#[derive(Debug)]
pub struct Alpha<C, A> {
    /// The color.
    pub color: C,
    /// The alpha component: 0.0 is fully transparent, 1.0 is fully
    /// opaque.
    pub alpha: A,
}

/// CIE XYZ with an alpha component.
pub type Xyza<Wp = D65> = Alpha<Xyz<Wp>, Fx>;

impl<A> Alpha<Xyz<D65>, A> {
    /// CIE XYZ and transparency with white point D65.
    pub fn new(x: Fx, y: Fx, luma: Fx, alpha: A) -> (r: Self)
        ensures
            r.color.x == x,
            r.color.y == y,
            r.color.z == luma,
            r.alpha == alpha,
    {
        Alpha { color: Xyz::new(x, y, luma), alpha }
    }
}

impl<Wp, A> Alpha<Xyz<Wp>, A> {
    /// CIE XYZ and transparency.
    pub fn with_wp(x: Fx, y: Fx, z: Fx, alpha: A) -> (r: Self)
        ensures
            r.color.x == x,
            r.color.y == y,
            r.color.z == z,
            r.alpha == alpha,
    {
        Alpha { color: Xyz::with_wp(x, y, z), alpha }
    }

    /// Convert to an `(X, Y, Z, alpha)` tuple.
    pub fn into_components(self) -> (r: (Fx, Fx, Fx, A))
        ensures
            r.0 == self.color.x,
            r.1 == self.color.y,
            r.2 == self.color.z,
            r.3 == self.alpha,
    {
        (self.color.x, self.color.y, self.color.z, self.alpha)
    }

    /// Convert from an `(X, Y, Z, alpha)` tuple.
    pub fn from_components(components: (Fx, Fx, Fx, A)) -> (r: Self)
        ensures
            r.color.x == components.0,
            r.color.y == components.1,
            r.color.z == components.2,
            r.alpha == components.3,
    {
        Alpha {
            color: Xyz::with_wp(components.0, components.1, components.2),
            alpha: components.3,
        }
    }
}

} // verus!
