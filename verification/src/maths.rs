//! Points and displacements in the plane.

use vstd::prelude::*;
use crate::scalar::Scalar;

verus! {

/// A pair of numbers: a point of the plane, or a displacement in it.
#[derive(Clone, Copy, Debug, PartialEq, Eq, Structural)]
pub struct Vec2(pub Scalar, pub Scalar);

impl Vec2 {
    /// Both components are finite numbers.
    pub open spec fn finite(self) -> bool {
        self.0.finite() && self.1.finite()
    }

    /// Neither component is NaN.
    pub open spec fn ordered(self) -> bool {
        !self.0.nan() && !self.1.nan()
    }

    /// `self` is at most `other` in both components.
    pub open spec fn at_most(self, other: Vec2) -> bool {
        self.0.at_most(other.0) && self.1.at_most(other.1)
    }

    /// The point lies in the rectangle with corners `lo` and `hi`, edges included.
    pub open spec fn within(self, lo: Vec2, hi: Vec2) -> bool {
        lo.at_most(self) && self.at_most(hi)
    }

    /// The point of the rectangle `[lo, hi]` nearest to `self`, component by component.
    pub open spec fn clamped(self, lo: Vec2, hi: Vec2) -> Vec2 {
        Vec2(self.0.clamped(lo.0, hi.0), self.1.clamped(lo.1, hi.1))
    }

    pub fn new(x: Scalar, y: Scalar) -> (v: Vec2)
        ensures
            v == Vec2(x, y),
    {
        Vec2(x, y)
    }

    /// The origin, and the displacement that moves nothing.
    pub fn zero() -> (v: Vec2)
        ensures
            v == Vec2(Scalar { bits: 0 }, Scalar { bits: 0 }),
    {
        Vec2(Scalar { bits: 0 }, Scalar { bits: 0 })
    }

    pub fn is_finite(&self) -> (b: bool)
        ensures
            b == self.finite(),
    {
        self.0.is_finite() && self.1.is_finite()
    }

    /// Clamps each component to the interval that `min` and `max` give for it.
    pub fn clamp(&self, min: Vec2, max: Vec2) -> (r: Vec2)
        requires
            min.at_most(max),
        ensures
            r == self.clamped(min, max),
            self.ordered() ==> r.within(min, max),
    {
        Vec2(self.0.clamp(min.0, max.0), self.1.clamp(min.1, max.1))
    }
}

} // verus!
