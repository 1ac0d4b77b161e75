//! Points of the plane.

use vstd::prelude::*;
use vstd::std_specs::cmp::PartialEqSpecImpl;
use crate::scalar::Scalar;

verus! {

/// A point. Its coordinates may be any numbers, NaN and infinities included.
#[derive(Clone, Copy, Debug)]
pub struct Point {
    pub x: Scalar,
    pub y: Scalar,
}

impl Point {
    /// Both coordinates are equal as numbers.
    pub open spec fn same(self, other: Point) -> bool {
        self.x.same(other.x) && self.y.same(other.y)
    }

    /// Both coordinates are finite.
    pub open spec fn spec_is_finite(self) -> bool {
        self.x.spec_is_finite() && self.y.spec_is_finite()
    }

    /// Creates a point.
    pub fn from_xy(x: Scalar, y: Scalar) -> (r: Point)
        ensures
            r == (Point { x, y }),
    {
        Point { x, y }
    }

    /// The origin.
    pub fn zero() -> (r: Point)
        ensures
            r == (Point { x: Scalar { bits: 0 }, y: Scalar { bits: 0 } }),
    {
        Point { x: Scalar::zero(), y: Scalar::zero() }
    }

    /// Numeric equality of both coordinates.
    pub fn is_same(self, other: Point) -> (r: bool)
        ensures
            r == self.same(other),
    {
        self.x.is_same(other.x) && self.y.is_same(other.y)
    }

    /// Both coordinates are finite.
    #[verifier::when_used_as_spec(spec_is_finite)]
    pub fn is_finite(self) -> (r: bool)
        ensures
            r == self.spec_is_finite(),
    {
        self.x.is_finite() && self.y.is_finite()
    }
}

impl PartialEq for Point {
    /// `==` compares the coordinates as numbers.
    fn eq(&self, other: &Point) -> (r: bool) {
        self.is_same(*other)
    }
}

impl PartialEqSpecImpl for Point {
    open spec fn obeys_eq_spec() -> bool {
        true
    }

    open spec fn eq_spec(&self, other: &Point) -> bool {
        self.same(*other)
    }
}

} // verus!
