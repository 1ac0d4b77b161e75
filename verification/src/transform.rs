//! Affine transforms as data, and the steps by which one is built.

use vstd::prelude::*;
use crate::point::Point;
use crate::scalar::{Scalar, ONE_BITS};

verus! {

/// An affine matrix of six coefficients. Nothing is promised of them: a
/// transform may be singular or hold numbers that are not finite.
#[derive(Clone, Copy, Debug, PartialEq)]
pub struct Transform {
    pub sx: Scalar,
    pub kx: Scalar,
    pub ky: Scalar,
    pub sy: Scalar,
    pub tx: Scalar,
    pub ty: Scalar,
}

impl Transform {
    /// Scale differs from one on some axis.
    pub open spec fn spec_has_scale(self) -> bool {
        !self.sx.same(Scalar { bits: ONE_BITS }) || !self.sy.same(Scalar { bits: ONE_BITS })
    }

    /// Some skew coefficient is not zero.
    pub open spec fn spec_has_skew(self) -> bool {
        !self.kx.same(Scalar { bits: 0 }) || !self.ky.same(Scalar { bits: 0 })
    }

    /// Some translation coefficient is not zero.
    pub open spec fn spec_has_translate(self) -> bool {
        !self.tx.same(Scalar { bits: 0 }) || !self.ty.same(Scalar { bits: 0 })
    }

    /// Equal, coefficient by coefficient, to the identity.
    pub open spec fn spec_is_identity(self) -> bool {
        !self.spec_has_scale() && !self.spec_has_skew() && !self.spec_has_translate()
    }

    /// A translation that moves something, and nothing else.
    pub open spec fn spec_is_translate(self) -> bool {
        !self.spec_has_scale() && !self.spec_has_skew() && self.spec_has_translate()
    }

    /// All six coefficients are finite.
    pub open spec fn spec_is_finite(self) -> bool {
        &&& self.sx.spec_is_finite()
        &&& self.kx.spec_is_finite()
        &&& self.ky.spec_is_finite()
        &&& self.sy.spec_is_finite()
        &&& self.tx.spec_is_finite()
        &&& self.ty.spec_is_finite()
    }

    /// Creates a transform from its coefficients, in row order.
    pub fn from_row(sx: Scalar, ky: Scalar, kx: Scalar, sy: Scalar, tx: Scalar, ty: Scalar) -> (r:
        Transform)
        ensures
            r == (Transform { sx, kx, ky, sy, tx, ty }),
    {
        Transform { sx, kx, ky, sy, tx, ty }
    }

    /// The identity.
    pub fn identity() -> (r: Transform)
        ensures
            r.spec_is_identity(),
            r.sx.bits == ONE_BITS && r.sy.bits == ONE_BITS,
            r.kx.bits == 0 && r.ky.bits == 0 && r.tx.bits == 0 && r.ty.bits == 0,
    {
        Transform::from_row(
            Scalar::one(),
            Scalar::zero(),
            Scalar::zero(),
            Scalar::one(),
            Scalar::zero(),
            Scalar::zero(),
        )
    }

    /// The translation by `(tx, ty)`.
    pub fn from_translate(tx: Scalar, ty: Scalar) -> (r: Transform)
        ensures
            r.tx == tx && r.ty == ty,
            r.sx.bits == ONE_BITS && r.sy.bits == ONE_BITS,
            r.kx.bits == 0 && r.ky.bits == 0,
    {
        Transform::from_row(Scalar::one(), Scalar::zero(), Scalar::zero(), Scalar::one(), tx, ty)
    }

    /// Scale differs from one on some axis.
    #[verifier::when_used_as_spec(spec_has_scale)]
    pub fn has_scale(self) -> (r: bool)
        ensures
            r == self.spec_has_scale(),
    {
        !self.sx.is_same(Scalar::one()) || !self.sy.is_same(Scalar::one())
    }

    /// Some skew coefficient is not zero.
    #[verifier::when_used_as_spec(spec_has_skew)]
    pub fn has_skew(self) -> (r: bool)
        ensures
            r == self.spec_has_skew(),
    {
        !self.kx.is_same(Scalar::zero()) || !self.ky.is_same(Scalar::zero())
    }

    /// Some translation coefficient is not zero.
    #[verifier::when_used_as_spec(spec_has_translate)]
    pub fn has_translate(self) -> (r: bool)
        ensures
            r == self.spec_has_translate(),
    {
        !self.tx.is_same(Scalar::zero()) || !self.ty.is_same(Scalar::zero())
    }

    /// Equal, coefficient by coefficient, to the identity.
    #[verifier::when_used_as_spec(spec_is_identity)]
    pub fn is_identity(self) -> (r: bool)
        ensures
            r == self.spec_is_identity(),
    {
        !self.has_scale() && !self.has_skew() && !self.has_translate()
    }

    /// A translation that moves something, and nothing else.
    #[verifier::when_used_as_spec(spec_is_translate)]
    pub fn is_translate(self) -> (r: bool)
        ensures
            r == self.spec_is_translate(),
    {
        !self.has_scale() && !self.has_skew() && self.has_translate()
    }

    /// All six coefficients are finite.
    #[verifier::when_used_as_spec(spec_is_finite)]
    pub fn is_finite(self) -> (r: bool)
        ensures
            r == self.spec_is_finite(),
    {
        self.sx.is_finite() && self.kx.is_finite() && self.ky.is_finite() && self.sy.is_finite()
            && self.tx.is_finite() && self.ty.is_finite()
    }
}

/// One step in building a matrix. A list of steps is read from the
/// identity on, each step concatenated after what the earlier ones built.
///
/// The steps name the arithmetic; whoever evaluates them does it in single
/// precision.
#[derive(Clone, Copy, Debug, PartialEq)]
pub enum MatrixStep {
    /// Translate by `(tx, ty)`.
    Translate { tx: Scalar, ty: Scalar },
    /// Scale by `(sx, sy)`.
    Scale { sx: Scalar, sy: Scalar },
    /// Scale both axes by `1 / divisor`.
    ScaleByReciprocal { divisor: Scalar },
    /// Map the segment from `origin` to `unit` onto the segment from
    /// `(0, 0)` to `(1, 0)`. This is the one step that can fail: it has no
    /// solution when the two points coincide.
    SegmentToUnitX { origin: Point, unit: Point },
    /// Scale by `(r1 / (r1^2 - 1), 1 / sqrt(|r1^2 - 1|))`.
    FocalScale { r1: Scalar },
    /// Scale both axes by `|1 - focal_x|`.
    FocalGapScale { focal_x: Scalar },
}

} // verus!
