//! Radial gradients: two-point conical gradients that start from a point.

use vstd::prelude::*;
use crate::point::Point;
use crate::scalar::{lemma_neg_keeps_magnitude, Scalar, ZERO_BITS};
use crate::shaders::conical_gradient::{ConicalGradient, ConicalMetrics, RadialMetrics};
use crate::shaders::gradient::{degenerate_threshold, GradientStop};
use crate::shaders::{view_of, Shader, ShaderView, SpreadMode};
use crate::transform::Transform;

verus! {

/// A radial gradient shader.
///
/// There is no value of this type in a [`Shader`]: a radial gradient is the
/// conical gradient whose start radius is zero.
#[derive(Clone, Copy, Debug, PartialEq, Eq, Structural)]
pub struct RadialGradient;

impl RadialGradient {
    /// What `new` returns: what the conical gradient from the point
    /// `start` to the circle of `radius` about `end` comes to.
    pub open spec fn spec_new(
        start: Point,
        end: Point,
        radius: Scalar,
        stops: Seq<GradientStop>,
        mode: SpreadMode,
        transform: Transform,
        measured: RadialMetrics,
    ) -> Option<ShaderView> {
        ConicalGradient::spec_new(
            start,
            Scalar { bits: ZERO_BITS },
            end,
            radius,
            stops,
            mode,
            transform,
            ConicalMetrics::spec_from_point(radius, measured),
        )
    }

    /// Creates a radial gradient shader.
    pub fn new(
        start: Point,
        end: Point,
        radius: Scalar,
        stops: Vec<GradientStop>,
        mode: SpreadMode,
        transform: Transform,
        measured: RadialMetrics,
    ) -> (r: Option<Shader<'static>>)
        ensures
            view_of(r) == Self::spec_new(start, end, radius, stops@, mode, transform, measured),
    {
        ConicalGradient::new(
            start,
            Scalar::zero(),
            end,
            radius,
            stops,
            mode,
            transform,
            ConicalMetrics::from_point(radius, measured),
        )
    }

    /// A radial gradient is the conical gradient with a start radius of
    /// zero, for all arguments: whatever was measured of the two circles,
    /// as long as it is what a start radius of zero measures as, the
    /// conical gradient and the radial gradient are one. What is NaN may
    /// be any NaN.
    pub proof fn lemma_is_conical_from_point(
        start: Point,
        end: Point,
        radius: Scalar,
        stops: Seq<GradientStop>,
        mode: SpreadMode,
        transform: Transform,
        measured: ConicalMetrics,
    )
        requires
            measured.alike(ConicalMetrics::spec_from_point(radius, measured.spec_radial())),
        ensures
            ConicalGradient::spec_new(
                start,
                Scalar { bits: ZERO_BITS },
                end,
                radius,
                stops,
                mode,
                transform,
                measured,
            ) == Self::spec_new(start, end, radius, stops, mode, transform, measured.spec_radial()),
    {
    }

    /// About one center, with a radius above the degenerate threshold
    /// and two stops or more, the radial gradient is the one that
    /// `new_radial` makes: the translation of the center to the origin,
    /// scaled by the reciprocal of the radius.
    pub proof fn lemma_concentric_is_new_radial(
        center: Point,
        radius: Scalar,
        stops: Seq<GradientStop>,
        mode: SpreadMode,
        transform: Transform,
        measured: RadialMetrics,
    )
        requires
            measured.distance.spec_is_zero(),
            radius.spec_gt(degenerate_threshold()),
            stops.len() >= 2,
        ensures
            Self::spec_new(center, center, radius, stops, mode, transform, measured)
                == ConicalGradient::spec_new_radial(
                center,
                center,
                radius,
                stops,
                mode,
                transform,
                measured,
            ),
    {
        lemma_neg_keeps_magnitude(radius);
    }

    /// A negative radius makes no shader, whatever else is given.
    pub proof fn lemma_negative_radius_fails(
        start: Point,
        end: Point,
        radius: Scalar,
        stops: Seq<GradientStop>,
        mode: SpreadMode,
        transform: Transform,
        measured: RadialMetrics,
    )
        requires
            radius.spec_lt(Scalar { bits: ZERO_BITS }),
        ensures
            Self::spec_new(start, end, radius, stops, mode, transform, measured) is None,
    {
    }

    /// A radius of zero about centers within `2^-15` of each other makes
    /// no shader, unless a single stop makes a solid color.
    pub proof fn lemma_zero_radius_fails(
        start: Point,
        end: Point,
        radius: Scalar,
        stops: Seq<GradientStop>,
        mode: SpreadMode,
        transform: Transform,
        measured: RadialMetrics,
    )
        requires
            radius.spec_is_zero(),
            measured.distance.spec_is_nearly_zero_within_tolerance(degenerate_threshold()),
            stops.len() != 1,
        ensures
            Self::spec_new(start, end, radius, stops, mode, transform, measured) is None,
    {
        lemma_neg_keeps_magnitude(radius);
    }

    /// A single stop makes a solid color of that stop wherever the
    /// centers lie, as long as the radius is a number of `[0, inf]` and the
    /// transform has an inverse.
    pub proof fn lemma_single_stop_is_solid(
        start: Point,
        end: Point,
        radius: Scalar,
        stops: Seq<GradientStop>,
        mode: SpreadMode,
        transform: Transform,
        measured: RadialMetrics,
    )
        requires
            stops.len() == 1,
            radius.spec_ge(Scalar { bits: ZERO_BITS }),
            measured.invertible,
        ensures
            Self::spec_new(start, end, radius, stops, mode, transform, measured) == Some(
                ShaderView::SolidColor(stops[0].color),
            ),
    {
    }
}

} // verus!
