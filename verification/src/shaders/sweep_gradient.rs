//! Sweep gradients: colors by the angle about a center.

use vstd::prelude::*;
use crate::color::ColorSpace;
use crate::pipeline::{RasterPipelineBuilder, Stage, TwoPointConicalGradientCtx};
use crate::point::Point;
use crate::scalar::{lemma_neg_keeps_magnitude, Scalar, FULL_TURN_BITS, ONE_BITS, ZERO_BITS};
use crate::shaders::conical_gradient::to_origin;
use crate::shaders::gradient::{
    degenerate_threshold,
    gradient_stages,
    hard_edge,
    hard_edge_stops,
    Gradient,
    GradientStop,
    GradientView,
    DEGENERATE_THRESHOLD_BITS,
};
use crate::shaders::{view_of, Shader, ShaderView, SpreadMode};
use crate::transform::{MatrixStep, Transform};

verus! {

/// What the caller measured of a sweep gradient.
#[derive(Clone, Copy, Debug, PartialEq)]
pub struct SweepMetrics {
    /// Whether the user's transform has an inverse.
    pub invertible: bool,
    /// The start angle minus the end angle.
    pub angle_delta: Scalar,
    /// The start angle divided by 360.
    pub t0: Scalar,
    /// The end angle divided by 360.
    pub t1: Scalar,
}

/// A sweep gradient shader. `t0` and `t1` are the start and the end of the
/// angle range in turns.
#[derive(Clone, Debug, PartialEq)]
pub struct SweepGradient {
    pub base: Gradient,
    pub t0: Scalar,
    pub t1: Scalar,
}

/// A [`SweepGradient`] as a value of specifications.
pub struct SweepGradientView {
    pub base: GradientView,
    pub t0: Scalar,
    pub t1: Scalar,
}

impl View for SweepGradient {
    type V = SweepGradientView;

    open spec fn view(&self) -> SweepGradientView {
        SweepGradientView { base: self.base@, t0: self.t0, t1: self.t1 }
    }
}

/// A sweep gradient shader from its parts.
pub open spec fn sweep_shader(
    center: Point,
    stops: Seq<GradientStop>,
    mode: SpreadMode,
    transform: Transform,
    t0: Scalar,
    t1: Scalar,
) -> ShaderView {
    ShaderView::SweepGradient(
        SweepGradientView {
            base: Gradient::spec_new(stops, mode, transform, seq![to_origin(center)]),
            t0,
            t1,
        },
    )
}

/// The ways in which the construction of a sweep gradient ends.
pub enum SweepCase {
    /// No shader: an angle is not finite, the range runs backwards, there
    /// are no stops, the transform has no inverse, or the range is empty
    /// and nothing sensible fills it.
    Rejected,
    /// One stop: a solid color.
    Solid,
    /// An empty range under `Pad`: the hard-edge table over the range from
    /// zero to the end angle.
    HardEdge,
    /// A gradient over the range as given.
    Sweep,
}

impl SweepGradient {
    /// How the construction of a sweep gradient ends.
    pub open spec fn classify(
        start_angle: Scalar,
        end_angle: Scalar,
        stop_count: nat,
        mode: SpreadMode,
        measured: SweepMetrics,
    ) -> SweepCase {
        if !start_angle.spec_is_finite() || !end_angle.spec_is_finite() || start_angle.spec_gt(
            end_angle,
        ) || stop_count == 0 {
            SweepCase::Rejected
        } else if stop_count == 1 {
            SweepCase::Solid
        } else if !measured.invertible {
            SweepCase::Rejected
        } else if !measured.angle_delta.spec_is_nearly_zero_within_tolerance(
            degenerate_threshold(),
        ) {
            SweepCase::Sweep
        } else if mode == SpreadMode::Pad && end_angle.spec_gt(degenerate_threshold()) {
            SweepCase::HardEdge
        } else {
            SweepCase::Rejected
        }
    }

    /// The spread mode that the gradient ends up with: a range of a full
    /// turn or more cannot wrap, so it pads.
    pub open spec fn effective_mode(start_angle: Scalar, end_angle: Scalar, mode: SpreadMode) -> SpreadMode {
        if start_angle.spec_le(Scalar { bits: ZERO_BITS }) && end_angle.spec_ge(
            Scalar { bits: FULL_TURN_BITS },
        ) {
            SpreadMode::Pad
        } else {
            mode
        }
    }

    /// What `new` returns, case by case.
    pub open spec fn spec_new(
        center: Point,
        start_angle: Scalar,
        end_angle: Scalar,
        stops: Seq<GradientStop>,
        mode: SpreadMode,
        transform: Transform,
        measured: SweepMetrics,
    ) -> Option<ShaderView> {
        match Self::classify(start_angle, end_angle, stops.len(), mode, measured) {
            SweepCase::Rejected => None,
            SweepCase::Solid => Some(ShaderView::SolidColor(stops[0].color)),
            SweepCase::HardEdge => Some(
                sweep_shader(
                    center,
                    hard_edge(stops),
                    SpreadMode::Pad,
                    transform,
                    Scalar { bits: ZERO_BITS },
                    measured.t1,
                ),
            ),
            SweepCase::Sweep => Some(
                sweep_shader(
                    center,
                    stops,
                    Self::effective_mode(start_angle, end_angle, mode),
                    transform,
                    measured.t0,
                    measured.t1,
                ),
            ),
        }
    }

    /// The measurements of the range from zero to `end_angle`, given those
    /// of a range that ends at the same angle. Zero divided by 360 is
    /// zero, and zero minus the end angle is its negation, both exactly.
    pub open spec fn spec_from_zero(end_angle: Scalar, measured: SweepMetrics) -> SweepMetrics {
        SweepMetrics {
            invertible: measured.invertible,
            angle_delta: end_angle.spec_neg(),
            t0: Scalar { bits: ZERO_BITS },
            t1: measured.t1,
        }
    }

    /// Creates a sweep gradient shader over the angles from `start_angle`
    /// to `end_angle`, in degrees.
    ///
    /// Returns a solid color for a single stop, and `None` where no
    /// gradient can be made; [`SweepGradient::spec_new`] says which is
    /// which.
    pub fn new(
        center: Point,
        start_angle: Scalar,
        end_angle: Scalar,
        stops: Vec<GradientStop>,
        mode: SpreadMode,
        transform: Transform,
        measured: SweepMetrics,
    ) -> (r: Option<Shader<'static>>)
        ensures
            view_of(r) == Self::spec_new(
                center,
                start_angle,
                end_angle,
                stops@,
                mode,
                transform,
                measured,
            ),
        decreases
            (if measured.angle_delta.spec_is_nearly_zero_within_tolerance(degenerate_threshold()) {
                1nat
            } else {
                0nat
            }),
    {
        let threshold = Scalar::from_bits(DEGENERATE_THRESHOLD_BITS);
        if !start_angle.is_finite() || !end_angle.is_finite() || start_angle.gt(end_angle) {
            return None;
        }
        if stops.len() == 0 {
            return None;
        }
        if stops.len() == 1 {
            return Some(Shader::SolidColor(stops[0].color));
        }
        if !measured.invertible {
            return None;
        }
        if measured.angle_delta.is_nearly_zero_within_tolerance(threshold) {
            if mode == SpreadMode::Pad && end_angle.gt(threshold) {
                let new_stops = hard_edge_stops(&stops);
                let from_zero = SweepMetrics {
                    invertible: measured.invertible,
                    angle_delta: end_angle.neg(),
                    t0: Scalar::zero(),
                    t1: measured.t1,
                };
                proof {
                    lemma_neg_keeps_magnitude(end_angle);
                }
                return SweepGradient::new(
                    center,
                    Scalar::zero(),
                    end_angle,
                    new_stops,
                    mode,
                    transform,
                    from_zero,
                );
            }
            return None;
        }
        let mut mode = mode;
        if start_angle.le(Scalar::zero()) && end_angle.ge(Scalar::from_bits(FULL_TURN_BITS)) {
            mode = SpreadMode::Pad;
        }
        let mut steps: Vec<MatrixStep> = Vec::new();
        steps.push(MatrixStep::Translate { tx: center.x.neg(), ty: center.y.neg() });
        assert(steps@ =~= seq![to_origin(center)]);
        Some(
            Shader::SweepGradient(
                SweepGradient {
                    base: Gradient::new(stops, mode, transform, steps),
                    t0: measured.t0,
                    t1: measured.t1,
                },
            ),
        )
    }

    /// A single stop makes a solid color of that stop, whatever the
    /// center and the transform, as long as the angles are finite and do
    /// not run backwards.
    pub proof fn lemma_single_stop_is_solid(
        center: Point,
        start_angle: Scalar,
        end_angle: Scalar,
        stops: Seq<GradientStop>,
        mode: SpreadMode,
        transform: Transform,
        measured: SweepMetrics,
    )
        requires
            stops.len() == 1,
            start_angle.spec_is_finite(),
            end_angle.spec_is_finite(),
            start_angle.spec_le(end_angle),
        ensures
            Self::spec_new(center, start_angle, end_angle, stops, mode, transform, measured)
                == Some(ShaderView::SolidColor(stops[0].color)),
    {
    }

    /// An empty range: the start angle equals the end angle, so that
    /// their measured difference is zero.
    ///
    /// Under any mode but `Pad` there is no shader. Under `Pad`, with an
    /// end angle above `2^-15`, the shader sweeps from zero to the end
    /// angle over the hard-edge table: the first color at 0 and at 1, then
    /// the last color at 1.
    pub proof fn lemma_empty_range(
        center: Point,
        start_angle: Scalar,
        end_angle: Scalar,
        stops: Seq<GradientStop>,
        mode: SpreadMode,
        transform: Transform,
        measured: SweepMetrics,
    )
        requires
            start_angle.same(end_angle),
            start_angle.spec_is_finite(),
            measured.angle_delta.spec_is_zero(),
            measured.invertible,
            stops.len() >= 2,
        ensures
            mode != SpreadMode::Pad ==> Self::spec_new(
                center,
                start_angle,
                end_angle,
                stops,
                mode,
                transform,
                measured,
            ) is None,
            mode == SpreadMode::Pad && end_angle.spec_gt(degenerate_threshold()) ==> Self::spec_new(
                center,
                start_angle,
                end_angle,
                stops,
                mode,
                transform,
                measured,
            ) == Some(
                sweep_shader(
                    center,
                    hard_edge(stops),
                    SpreadMode::Pad,
                    transform,
                    Scalar { bits: ZERO_BITS },
                    measured.t1,
                ),
            ),
    {
    }

    /// A range of a full turn or more pads, whatever mode was asked for.
    pub proof fn lemma_full_turn_pads(
        center: Point,
        start_angle: Scalar,
        end_angle: Scalar,
        stops: Seq<GradientStop>,
        mode: SpreadMode,
        transform: Transform,
        measured: SweepMetrics,
    )
        requires
            start_angle.spec_le(Scalar { bits: ZERO_BITS }),
            end_angle.spec_ge(Scalar { bits: FULL_TURN_BITS }),
        ensures
            Self::spec_new(center, start_angle, end_angle, stops, mode, transform, measured)
                matches Some(ShaderView::SweepGradient(g)) ==> g.base.spread_mode
                == SpreadMode::Pad,
    {
    }

    /// The range of a sweep gradient is finite and not empty wherever
    /// its measured ends are: the gradient keeps the turns that were
    /// measured, or runs from zero to the measured end where the range was
    /// empty. The scale `1 / (t1 - t0)` then divides by no zero.
    ///
    /// Two angles so close that their quotients by 360 round to one number
    /// measure as an empty range of turns; the gradient then holds what was
    /// measured, and this says nothing of it.
    pub proof fn lemma_range_is_in_order(
        center: Point,
        start_angle: Scalar,
        end_angle: Scalar,
        stops: Seq<GradientStop>,
        mode: SpreadMode,
        transform: Transform,
        measured: SweepMetrics,
    )
        requires
            measured.t0.spec_is_finite(),
            measured.t1.spec_is_finite(),
            measured.t0.spec_lt(measured.t1),
            end_angle.spec_gt(Scalar { bits: ZERO_BITS }) ==> measured.t1.spec_gt(
                Scalar { bits: ZERO_BITS },
            ),
        ensures
            Self::spec_new(center, start_angle, end_angle, stops, mode, transform, measured)
                matches Some(ShaderView::SweepGradient(g)) ==> {
                &&& g.t0.spec_is_finite()
                &&& g.t1.spec_is_finite()
                &&& g.t0.spec_lt(g.t1)
            },
    {
    }

    /// What holds of every shader that `new` returns.
    ///
    /// A solid color comes of a single stop and is that stop's color. A
    /// gradient has two stops or more, a transform with an inverse, and
    /// finite angles that do not run backwards. Nothing else is returned.
    pub proof fn lemma_new_is_well_formed(
        center: Point,
        start_angle: Scalar,
        end_angle: Scalar,
        stops: Seq<GradientStop>,
        mode: SpreadMode,
        transform: Transform,
        measured: SweepMetrics,
    )
        ensures
            match Self::spec_new(center, start_angle, end_angle, stops, mode, transform, measured) {
                None => true,
                Some(ShaderView::SolidColor(color)) => stops.len() == 1 && color == stops[0].color,
                Some(ShaderView::SweepGradient(g)) => {
                    &&& measured.invertible
                    &&& start_angle.spec_is_finite() && end_angle.spec_is_finite()
                    &&& start_angle.spec_le(end_angle)
                    &&& g.base.stops.len() >= 2
                    &&& g.base.stops == stops || g.base.stops == hard_edge(stops)
                    &&& g.base.transform == transform
                    &&& g.base.points_to_unit == seq![to_origin(center)]
                    &&& g.t1 == measured.t1
                },
                Some(_) => false,
            },
    {
    }

    /// The coordinate stages of a sweep gradient: the angle in turns, then
    /// the rescale by scale and bias. Only the rescale that changes
    /// nothing, a scale of one with a bias of zero, is left out.
    pub open spec fn pre_stages(measured: TwoPointConicalGradientCtx) -> Seq<Stage> {
        if !measured.p0.same(Scalar { bits: ONE_BITS }) || !measured.p1.same(
            Scalar { bits: ZERO_BITS },
        ) {
            seq![Stage::XYToUnitAngle, Stage::ApplyConcentricScaleBias]
        } else {
            seq![Stage::XYToUnitAngle]
        }
    }

    /// Every range is rescaled but the one that is a full turn from zero:
    /// the rescale is left out exactly where the scale is one and the bias
    /// is zero, and so it is there for a scale other than one even where
    /// the range starts at zero.
    pub proof fn lemma_rescale_is_left_out_for_the_identity_only(
        measured: TwoPointConicalGradientCtx,
    )
        ensures
            Self::pre_stages(measured) == seq![Stage::XYToUnitAngle] <==> measured.p0.same(
                Scalar { bits: ONE_BITS },
            ) && measured.p1.same(Scalar { bits: ZERO_BITS }),
            Self::pre_stages(measured) == seq![
                Stage::XYToUnitAngle,
                Stage::ApplyConcentricScaleBias,
            ] <==> !(measured.p0.same(Scalar { bits: ONE_BITS }) && measured.p1.same(
                Scalar { bits: ZERO_BITS },
            )),
    {
        assert(seq![Stage::XYToUnitAngle].len() == 1);
        assert(seq![Stage::XYToUnitAngle, Stage::ApplyConcentricScaleBias].len() == 2);
    }

    /// Stores scale and bias in the pipeline's context and pushes the
    /// gradient's stages.
    ///
    /// `mapping` is the matrix from device space to the gradient's unit
    /// space, or `None` where the user's transform has no inverse: then no
    /// stage is pushed and the result is `false`. `measured` holds the
    /// scale `1 / (t1 - t0)` as `p0` and the bias `-scale * t0` as `p1`.
    pub fn push_stages(
        &self,
        cs: ColorSpace,
        p: &mut RasterPipelineBuilder,
        mapping: Option<Transform>,
        measured: TwoPointConicalGradientCtx,
    ) -> (pushed: bool)
        ensures
            pushed == mapping.is_some(),
            final(p).required_mipmap_levels == old(p).required_mipmap_levels,
            final(p).stages@ == old(p).stages@ + (match mapping {
                Some(ts) => gradient_stages(
                    ts,
                    Self::pre_stages(measured),
                    self.base.spread_mode,
                    cs,
                    Seq::<Stage>::empty(),
                ),
                None => Seq::<Stage>::empty(),
            }),
            final(p).ctx == (crate::pipeline::Context {
                two_point_conical_gradient: measured,
                transform: match mapping {
                    Some(ts) if RasterPipelineBuilder::takes_transform(ts) => ts,
                    _ => old(p).ctx.transform,
                },
                ..old(p).ctx
            }),
    {
        p.ctx.two_point_conical_gradient = measured;
        let mut pre: Vec<Stage> = Vec::new();
        pre.push(Stage::XYToUnitAngle);
        if !measured.p0.is_same(Scalar::one()) || !measured.p1.is_same(Scalar::zero()) {
            pre.push(Stage::ApplyConcentricScaleBias);
        }
        assert(pre@ =~= Self::pre_stages(measured));
        let post: Vec<Stage> = Vec::new();
        let pushed = self.base.push_stages(p, cs, &pre, &post, mapping);
        assert(p.stages@ =~= old(p).stages@ + (match mapping {
            Some(ts) => gradient_stages(
                ts,
                Self::pre_stages(measured),
                self.base.spread_mode,
                cs,
                Seq::<Stage>::empty(),
            ),
            None => Seq::<Stage>::empty(),
        }));
        pushed
    }

    /// Whether every color of the gradient is opaque.
    pub fn is_opaque(&self) -> (r: bool)
        ensures
            r == self.base.colors_are_opaque,
    {
        self.base.colors_are_opaque
    }
}

} // verus!
