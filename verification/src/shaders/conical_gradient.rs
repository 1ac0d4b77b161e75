//! Two-point conical gradients: which closed form a pair of circles falls
//! under, and the steps that bring it into that form's unit space.
//!
//! Everything that needs rounding arithmetic is measured by the caller and
//! handed in; what is decided of those measurements is decided here.

use vstd::prelude::*;
use crate::color::ColorSpace;
use crate::pipeline::{RasterPipelineBuilder, Stage, TwoPointConicalGradientCtx};
use crate::point::Point;
use crate::scalar::{
    Scalar,
    HALF_BITS,
    MINUS_ONE_BITS,
    MINUS_ZERO_BITS,
    NAN_BITS,
    ONE_BITS,
    ZERO_BITS,
};
use crate::shaders::gradient::{
    all_opaque,
    degenerate_threshold,
    gradient_stages,
    hard_edge,
    hard_edge_stops,
    Gradient,
    GradientStop,
    GradientView,
    DEGENERATE_THRESHOLD_BITS,
};
use crate::shaders::{view_of, Shader, ShaderView, SpreadMode};
use crate::transform::{MatrixStep, Transform};

verus! {

/// What the caller measured for the focal transform of two normalized
/// radii `r0` and `r1`.
#[derive(Clone, Copy, Debug, PartialEq)]
pub struct FocalMetrics {
    /// `r0 / (r0 - r1)`: where along the axis the radius reaches zero.
    pub focal_x: Scalar,
    /// `r1 / |1 - focal_x|`.
    pub scaled_r1: Scalar,
    /// Whether the segment from `(focal_x, 0)` to `(1, 0)` can be mapped
    /// onto the unit segment of the x axis.
    pub solvable: bool,
}

/// The focal form of a two-point conical gradient: the focal point sits
/// at the origin and the end circle's center at `(1, 0)`.
///
/// A well-formed value holds finite numbers only.
#[derive(Clone, Copy, Debug, PartialEq)]
pub struct FocalData {
    /// The end radius once the focal point is at the origin.
    pub r1: Scalar,
    /// Where the focal point lay before it was moved there.
    pub focal_x: Scalar,
    /// Whether the two circles changed places to keep the focal point
    /// away from 1.
    pub is_swapped: bool,
}

impl FocalData {
    /// Both numbers are finite.
    pub open spec fn wf(self) -> bool {
        self.r1.spec_is_finite() && self.focal_x.spec_is_finite()
    }

    /// The focal point lies on the end circle: `|1 - r1| <= 2^-12`.
    pub open spec fn spec_is_focal_on_circle(self) -> bool {
        self.r1.spec_is_nearly_one()
    }

    /// The focal point lies strictly inside the end circle.
    pub open spec fn spec_is_well_behaved(self) -> bool {
        !self.spec_is_focal_on_circle() && self.r1.spec_gt(Scalar { bits: ONE_BITS })
    }

    /// The focal point was at the origin to begin with:
    /// `|focal_x| <= 2^-12`.
    pub open spec fn spec_is_natively_focal(self) -> bool {
        self.focal_x.spec_is_nearly_zero()
    }

    /// The focal point lies beyond the end center: `1 - focal_x < 0`.
    pub open spec fn spec_is_beyond_end(self) -> bool {
        self.focal_x.spec_gt(Scalar { bits: ONE_BITS })
    }

    /// The steps that the focal transform appends, for data already
    /// settled.
    pub open spec fn steps(self) -> Seq<MatrixStep> {
        (if self.is_swapped {
            seq![
                MatrixStep::Translate {
                    tx: Scalar { bits: MINUS_ONE_BITS },
                    ty: Scalar { bits: ZERO_BITS },
                },
                MatrixStep::Scale {
                    sx: Scalar { bits: MINUS_ONE_BITS },
                    sy: Scalar { bits: ONE_BITS },
                },
            ]
        } else {
            Seq::<MatrixStep>::empty()
        }) + seq![
            MatrixStep::SegmentToUnitX {
                origin: Point { x: self.focal_x, y: Scalar { bits: ZERO_BITS } },
                unit: Point { x: Scalar { bits: ONE_BITS }, y: Scalar { bits: ZERO_BITS } },
            },
            self.speedup_step(),
            MatrixStep::FocalGapScale { focal_x: self.focal_x },
        ]
    }

    /// The scale that saves the per-pixel formula some arithmetic: one
    /// half when the focal point is on the end circle, else the scale
    /// that depends on `r1`.
    pub open spec fn speedup_step(self) -> MatrixStep {
        if self.spec_is_focal_on_circle() {
            MatrixStep::Scale { sx: Scalar { bits: HALF_BITS }, sy: Scalar { bits: HALF_BITS } }
        } else {
            MatrixStep::FocalScale { r1: self.r1 }
        }
    }

    /// The data that `set` settles on, or `None` where it fails.
    ///
    /// A focal point within `2^-12` of 1 is unstable, so there the
    /// circles change places: the focal point becomes 0 and the start
    /// radius takes the end radius's part. Otherwise the measured values
    /// stand, provided the focal segment could be solved for. Either way
    /// the result must be finite.
    pub open spec fn settle(r0: Scalar, r1: Scalar, measured: FocalMetrics) -> Option<FocalData> {
        let data = if measured.focal_x.spec_is_nearly_one() {
            FocalData { r1: r0, focal_x: Scalar { bits: ZERO_BITS }, is_swapped: true }
        } else {
            FocalData { r1: measured.scaled_r1, focal_x: measured.focal_x, is_swapped: false }
        };
        if (data.is_swapped || measured.solvable) && data.wf() {
            Some(data)
        } else {
            None
        }
    }

    /// Derives the focal form of the normalized radii `r0` and `r1` and
    /// appends the steps of the focal transform to `steps`.
    ///
    /// Fails, with `None`, exactly where [`FocalData::settle`] does.
    pub fn set(r0: Scalar, r1: Scalar, measured: FocalMetrics, steps: Vec<MatrixStep>) -> (r:
        Option<(FocalData, Vec<MatrixStep>)>)
        ensures
            r is Some == Self::settle(r0, r1, measured) is Some,
            r matches Some((data, all)) ==> {
                &&& Some(data) == Self::settle(r0, r1, measured)
                &&& all@ == steps@ + data.steps()
            },
    {
        let mut steps = steps;
        let ghost before = steps@;
        let mut data = FocalData { r1: measured.scaled_r1, focal_x: measured.focal_x, is_swapped: false };
        if measured.focal_x.is_nearly_one() {
            steps.push(MatrixStep::Translate { tx: Scalar::minus_one(), ty: Scalar::zero() });
            steps.push(MatrixStep::Scale { sx: Scalar::minus_one(), sy: Scalar::one() });
            data = FocalData { r1: r0, focal_x: Scalar::zero(), is_swapped: true };
        } else if !measured.solvable {
            return None;
        }
        if !data.r1.is_finite() || !data.focal_x.is_finite() {
            return None;
        }
        steps.push(
            map_to_unit_x(
                Point::from_xy(data.focal_x, Scalar::zero()),
                Point::from_xy(Scalar::one(), Scalar::zero()),
            ),
        );
        if data.is_focal_on_circle() {
            steps.push(MatrixStep::Scale { sx: Scalar::half(), sy: Scalar::half() });
        } else {
            steps.push(MatrixStep::FocalScale { r1: data.r1 });
        }
        steps.push(MatrixStep::FocalGapScale { focal_x: data.focal_x });
        assert(steps@ =~= before + data.steps());
        Some((data, steps))
    }

    /// The predicates of the focal form are what recomputing them from
    /// the stored numbers gives: well behaved means off the circle with
    /// `r1 > 1`, and natively focal means `|focal_x| <= 2^-12`, which is
    /// `|focal_x| < 2^-12` for every focal point but the two at that very
    /// distance.
    pub proof fn lemma_predicates_recompute(self)
        ensures
            self.spec_is_well_behaved() == (!self.spec_is_focal_on_circle() && self.r1.spec_gt(
                Scalar { bits: ONE_BITS },
            )),
            self.spec_is_natively_focal() == self.focal_x.spec_abs().spec_le(
                Scalar { bits: crate::scalar::NEARLY_ZERO_BITS },
            ),
            self.focal_x.magnitude() != crate::scalar::NEARLY_ZERO_BITS as int ==> (
            self.spec_is_natively_focal() == self.focal_x.spec_abs().spec_lt(
                Scalar { bits: crate::scalar::NEARLY_ZERO_BITS },
            )),
    {
    }

    /// What `set` settles on is finite, is swapped only where the
    /// measured focal point was within `2^-12` of 1, and then has its focal
    /// point at zero. Either way the focal point it keeps is not within
    /// `2^-12` of 1, so that nothing divides by a distance near zero.
    pub proof fn lemma_settled_is_well_formed(r0: Scalar, r1: Scalar, measured: FocalMetrics)
        ensures
            Self::settle(r0, r1, measured) matches Some(data) ==> {
                &&& data.wf()
                &&& !data.focal_x.spec_is_nearly_one()
                &&& data.is_swapped == measured.focal_x.spec_is_nearly_one()
                &&& data.is_swapped ==> data.focal_x.bits == ZERO_BITS && data.r1 == r0
                &&& !data.is_swapped ==> data.focal_x == measured.focal_x && data.r1
                    == measured.scaled_r1 && measured.solvable
            },
    {
    }

    /// The focal point lies on the end circle: `|1 - r1| <= 2^-12`.
    #[verifier::when_used_as_spec(spec_is_focal_on_circle)]
    pub fn is_focal_on_circle(self) -> (r: bool)
        ensures
            r == self.spec_is_focal_on_circle(),
    {
        self.r1.is_nearly_one()
    }

    /// The focal point lies strictly inside the end circle.
    #[verifier::when_used_as_spec(spec_is_well_behaved)]
    pub fn is_well_behaved(self) -> (r: bool)
        ensures
            r == self.spec_is_well_behaved(),
            r == (!self.spec_is_focal_on_circle() && self.r1.spec_gt(Scalar { bits: ONE_BITS })),
    {
        !self.is_focal_on_circle() && self.r1.gt(Scalar::one())
    }

    /// The focal point was at the origin to begin with:
    /// `|focal_x| <= 2^-12`.
    #[verifier::when_used_as_spec(spec_is_natively_focal)]
    pub fn is_natively_focal(self) -> (r: bool)
        ensures
            r == self.spec_is_natively_focal(),
            r == self.focal_x.spec_abs().spec_le(Scalar { bits: crate::scalar::NEARLY_ZERO_BITS }),
    {
        self.focal_x.is_nearly_zero()
    }

    /// The focal point lies beyond the end center: `1 - focal_x < 0`.
    #[verifier::when_used_as_spec(spec_is_beyond_end)]
    pub fn is_beyond_end(self) -> (r: bool)
        ensures
            r == self.spec_is_beyond_end(),
    {
        self.focal_x.gt(Scalar::one())
    }
}

/// The closed form that a two-point conical gradient falls under.
#[derive(Clone, Copy, Debug, PartialEq)]
pub enum GradientType {
    /// Both circles share a center.
    Radial,
    /// Both circles have the same radius.
    Strip,
    /// Anything else, in focal form.
    Focal(FocalData),
}

/// What the caller measured of a radial gradient.
#[derive(Clone, Copy, Debug, PartialEq)]
pub struct RadialMetrics {
    /// Whether the user's transform has an inverse.
    pub invertible: bool,
    /// The distance between the two centers.
    pub distance: Scalar,
    /// Whether the segment between the centers can be mapped onto the
    /// unit segment of the x axis.
    pub unit_x_solvable: bool,
    /// The radius divided by the distance between the centers.
    pub radius_ratio: Scalar,
}

/// What the caller measured of a two-point conical gradient.
#[derive(Clone, Copy, Debug, PartialEq)]
pub struct ConicalMetrics {
    /// Whether the user's transform has an inverse.
    pub invertible: bool,
    /// The distance between the two centers.
    pub distance: Scalar,
    /// The start radius minus the end radius.
    pub radius_delta: Scalar,
    /// Whether the segment between the centers can be mapped onto the
    /// unit segment of the x axis.
    pub unit_x_solvable: bool,
    /// The start radius divided by the distance.
    pub start_ratio: Scalar,
    /// The end radius divided by the distance.
    pub end_ratio: Scalar,
    /// The focal measurements of the two ratios.
    pub focal: FocalMetrics,
}

impl ConicalMetrics {
    /// The part of the measurements that a radial gradient over the end
    /// radius reads.
    pub open spec fn spec_radial(self) -> RadialMetrics {
        RadialMetrics {
            invertible: self.invertible,
            distance: self.distance,
            unit_x_solvable: self.unit_x_solvable,
            radius_ratio: self.end_ratio,
        }
    }

    /// The part of the measurements that a radial gradient over the end
    /// radius reads.
    #[verifier::when_used_as_spec(spec_radial)]
    pub fn radial(self) -> (r: RadialMetrics)
        ensures
            r == self.spec_radial(),
    {
        RadialMetrics {
            invertible: self.invertible,
            distance: self.distance,
            unit_x_solvable: self.unit_x_solvable,
            radius_ratio: self.end_ratio,
        }
    }

    /// The quotient of a zero by a number, which takes no rounding: NaN
    /// where the zero is NaN itself and where the number is zero or NaN,
    /// and else a zero, negative where the signs of the two differ.
    pub open spec fn zero_over(zero: Scalar, divisor: Scalar) -> Scalar {
        if zero.spec_is_nan() || divisor.spec_is_nan() || divisor.spec_is_zero() {
            Scalar { bits: NAN_BITS }
        } else if zero.spec_is_sign_negative() != divisor.spec_is_sign_negative() {
            Scalar { bits: MINUS_ZERO_BITS }
        } else {
            Scalar { bits: ZERO_BITS }
        }
    }

    /// The measurements of a gradient that starts from a point, given
    /// what was measured of it as a radial gradient. None of them takes
    /// rounding.
    ///
    /// With a start radius of zero the difference of the radii is the
    /// radius negated, or zero for a radius of zero, and the start ratio
    /// is zero over the distance. The focal point is the start ratio over
    /// the end ratio negated; where that is a zero, the focal point can be
    /// solved for and its move leaves the end ratio as it is, and where it
    /// is NaN, neither holds.
    pub open spec fn spec_from_point(radius: Scalar, measured: RadialMetrics) -> ConicalMetrics {
        let start_ratio = Self::zero_over(Scalar { bits: ZERO_BITS }, measured.distance);
        let focal_x = Self::zero_over(start_ratio, measured.radius_ratio.spec_neg());
        ConicalMetrics {
            invertible: measured.invertible,
            distance: measured.distance,
            radius_delta: if radius.spec_is_zero() {
                Scalar { bits: ZERO_BITS }
            } else {
                radius.spec_neg()
            },
            unit_x_solvable: measured.unit_x_solvable,
            start_ratio,
            end_ratio: measured.radius_ratio,
            focal: FocalMetrics {
                focal_x,
                scaled_r1: if focal_x.spec_is_nan() {
                    focal_x
                } else {
                    measured.radius_ratio
                },
                solvable: !focal_x.spec_is_nan(),
            },
        }
    }

    /// The same measurements, but for the bits of what is NaN.
    pub open spec fn alike(self, other: ConicalMetrics) -> bool {
        &&& self.invertible == other.invertible
        &&& self.distance.alike(other.distance)
        &&& self.radius_delta.alike(other.radius_delta)
        &&& self.unit_x_solvable == other.unit_x_solvable
        &&& self.start_ratio.alike(other.start_ratio)
        &&& self.end_ratio.alike(other.end_ratio)
        &&& self.focal.focal_x.alike(other.focal.focal_x)
        &&& self.focal.scaled_r1.alike(other.focal.scaled_r1)
        &&& self.focal.solvable == other.focal.solvable
    }

    /// Whether two measurements are the same but for the bits of what is
    /// NaN.
    pub fn is_alike(self, other: ConicalMetrics) -> (r: bool)
        ensures
            r == self.alike(other),
    {
        self.invertible == other.invertible && self.distance.is_alike(other.distance)
            && self.radius_delta.is_alike(other.radius_delta) && self.unit_x_solvable
            == other.unit_x_solvable && self.start_ratio.is_alike(other.start_ratio)
            && self.end_ratio.is_alike(other.end_ratio) && self.focal.focal_x.is_alike(
            other.focal.focal_x,
        ) && self.focal.scaled_r1.is_alike(other.focal.scaled_r1) && self.focal.solvable
            == other.focal.solvable
    }

    /// Computes [`ConicalMetrics::zero_over`].
    fn quotient_of_zero(zero: Scalar, divisor: Scalar) -> (r: Scalar)
        ensures
            r == Self::zero_over(zero, divisor),
    {
        if zero.is_nan() || divisor.is_nan() || divisor.is_zero() {
            Scalar::from_bits(NAN_BITS)
        } else if zero.is_sign_negative() != divisor.is_sign_negative() {
            Scalar::from_bits(MINUS_ZERO_BITS)
        } else {
            Scalar::zero()
        }
    }

    /// Completes the measurements of a radial gradient to those of the
    /// conical gradient from a point that it is.
    pub fn from_point(radius: Scalar, measured: RadialMetrics) -> (r: ConicalMetrics)
        ensures
            r == Self::spec_from_point(radius, measured),
    {
        let start_ratio = Self::quotient_of_zero(Scalar::zero(), measured.distance);
        let focal_x = Self::quotient_of_zero(start_ratio, measured.radius_ratio.neg());
        ConicalMetrics {
            invertible: measured.invertible,
            distance: measured.distance,
            radius_delta: if radius.is_zero() {
                Scalar::zero()
            } else {
                radius.neg()
            },
            unit_x_solvable: measured.unit_x_solvable,
            start_ratio,
            end_ratio: measured.radius_ratio,
            focal: FocalMetrics {
                focal_x,
                scaled_r1: if focal_x.is_nan() {
                    focal_x
                } else {
                    measured.radius_ratio
                },
                solvable: !focal_x.is_nan(),
            },
        }
    }
}

/// A two-point conical gradient shader.
#[derive(Clone, Debug, PartialEq)]
pub struct ConicalGradient {
    pub base: Gradient,
    pub center1: Point,
    pub center2: Point,
    pub radius1: Scalar,
    pub radius2: Scalar,
    pub gradient_type: GradientType,
}

/// A [`ConicalGradient`] as a value of specifications.
pub struct ConicalGradientView {
    pub base: GradientView,
    pub center1: Point,
    pub center2: Point,
    pub radius1: Scalar,
    pub radius2: Scalar,
    pub gradient_type: GradientType,
}

impl View for ConicalGradient {
    type V = ConicalGradientView;

    open spec fn view(&self) -> ConicalGradientView {
        ConicalGradientView {
            base: self.base@,
            center1: self.center1,
            center2: self.center2,
            radius1: self.radius1,
            radius2: self.radius2,
            gradient_type: self.gradient_type,
        }
    }
}

/// The ways in which the construction of a conical gradient goes on
/// once its arguments have been looked at.
pub enum ConicalCase {
    /// No shader: a radius is not a number of `[0, inf]`, the transform has
    /// no inverse, there are no stops, or the region between two equal
    /// circles has no area and nothing sensible fills it.
    Rejected,
    /// One stop: a solid color.
    Solid,
    /// Equal circles under `Pad`: a radial gradient over the hard-edge
    /// table.
    HardEdge,
    /// Concentric circles of which the first is a point: a radial gradient.
    Radial,
    /// Everything else.
    General,
}

/// Translation that moves `center` to the origin.
pub open spec fn to_origin(center: Point) -> MatrixStep {
    MatrixStep::Translate { tx: center.x.spec_neg(), ty: center.y.spec_neg() }
}

/// Step that maps the segment between two centers onto the unit segment.
pub open spec fn to_unit_x(c0: Point, c1: Point) -> MatrixStep {
    MatrixStep::SegmentToUnitX { origin: c0, unit: c1 }
}

/// Names the step that maps the segment from `origin` to `x_is_one` onto
/// the unit segment of the x axis.
pub fn map_to_unit_x(origin: Point, x_is_one: Point) -> (r: MatrixStep)
    ensures
        r == to_unit_x(origin, x_is_one),
{
    MatrixStep::SegmentToUnitX { origin, unit: x_is_one }
}

/// A conical gradient shader from its parts.
pub open spec fn conical_shader(
    stops: Seq<GradientStop>,
    mode: SpreadMode,
    transform: Transform,
    steps: Seq<MatrixStep>,
    c0: Point,
    r0: Scalar,
    c1: Point,
    r1: Scalar,
    gradient_type: GradientType,
) -> ShaderView {
    ShaderView::ConicalGradient(
        ConicalGradientView {
            base: Gradient::spec_new(stops, mode, transform, steps),
            center1: c0,
            center2: c1,
            radius1: r0,
            radius2: r1,
            gradient_type,
        },
    )
}

/// What `create` returns.
///
/// Centers within `2^-12` of each other make a radial gradient about the
/// end center, scaled by the larger radius, unless that radius or the
/// difference of the radii is itself within `2^-12` of zero. Other centers
/// need the segment between them solved for; then radii within `2^-12`
/// of each other make a strip, and all others the focal form.
pub open spec fn spec_create(
    c0: Point,
    r0: Scalar,
    c1: Point,
    r1: Scalar,
    stops: Seq<GradientStop>,
    mode: SpreadMode,
    transform: Transform,
    measured: ConicalMetrics,
) -> Option<ShaderView> {
    if measured.distance.spec_is_nearly_zero() {
        if r0.spec_max(r1).spec_is_nearly_zero() || measured.radius_delta.spec_is_nearly_zero() {
            None
        } else {
            Some(
                conical_shader(
                    stops,
                    mode,
                    transform,
                    seq![to_origin(c1), MatrixStep::ScaleByReciprocal { divisor: r0.spec_max(r1) }],
                    c0,
                    r0,
                    c1,
                    r1,
                    GradientType::Radial,
                ),
            )
        }
    } else if !measured.unit_x_solvable {
        None
    } else if measured.radius_delta.spec_is_nearly_zero() {
        Some(
            conical_shader(
                stops,
                mode,
                transform,
                seq![to_unit_x(c0, c1)],
                c0,
                r0,
                c1,
                r1,
                GradientType::Strip,
            ),
        )
    } else {
        match FocalData::settle(measured.start_ratio, measured.end_ratio, measured.focal) {
            None => None,
            Some(data) => Some(
                conical_shader(
                    stops,
                    mode,
                    transform,
                    seq![to_unit_x(c0, c1)] + data.steps(),
                    c0,
                    r0,
                    c1,
                    r1,
                    GradientType::Focal(data),
                ),
            ),
        }
    }
}

/// Builds the gradient of two circles that the degenerate cases have
/// been taken out of.
pub fn create(
    c0: Point,
    r0: Scalar,
    c1: Point,
    r1: Scalar,
    stops: Vec<GradientStop>,
    mode: SpreadMode,
    transform: Transform,
    measured: ConicalMetrics,
) -> (r: Option<Shader<'static>>)
    requires
        stops@.len() > 1,
    ensures
        view_of(r) == spec_create(c0, r0, c1, r1, stops@, mode, transform, measured),
{
    let mut gradient_type = GradientType::Radial;
    let mut steps: Vec<MatrixStep> = Vec::new();
    if measured.distance.is_nearly_zero() {
        if r0.max(r1).is_nearly_zero() || measured.radius_delta.is_nearly_zero() {
            return None;
        }
        steps.push(MatrixStep::Translate { tx: c1.x.neg(), ty: c1.y.neg() });
        steps.push(MatrixStep::ScaleByReciprocal { divisor: r0.max(r1) });
        assert(steps@ =~= seq![
            to_origin(c1),
            MatrixStep::ScaleByReciprocal { divisor: r0.spec_max(r1) },
        ]);
    } else {
        if !measured.unit_x_solvable {
            return None;
        }
        steps.push(map_to_unit_x(c0, c1));
        assert(steps@ =~= seq![to_unit_x(c0, c1)]);
        if measured.radius_delta.is_nearly_zero() {
            gradient_type = GradientType::Strip;
        } else {
            match FocalData::set(measured.start_ratio, measured.end_ratio, measured.focal, steps) {
                None => {
                    return None;
                },
                Some((data, all)) => {
                    gradient_type = GradientType::Focal(data);
                    steps = all;
                },
            }
        }
    }
    Some(
        Shader::ConicalGradient(
            ConicalGradient {
                base: Gradient::new(stops, mode, transform, steps),
                center1: c0,
                center2: c1,
                radius1: r0,
                radius2: r1,
                gradient_type,
            },
        ),
    )
}

impl ConicalGradient {
    /// What `new_radial` returns.
    ///
    /// No shader unless the radius is positive, the transform has an
    /// inverse and there is a stop. One stop makes a solid color. A
    /// distance that is not finite fails. Centers within `2^-15` of each
    /// other make a radial gradient about `start`. Others make the focal
    /// form with the focal point at `start`, where the segment between the
    /// centers can be solved for and the radius ratio is finite.
    pub open spec fn spec_new_radial(
        start: Point,
        end: Point,
        radius: Scalar,
        stops: Seq<GradientStop>,
        mode: SpreadMode,
        transform: Transform,
        measured: RadialMetrics,
    ) -> Option<ShaderView> {
        let data = FocalData {
            r1: measured.radius_ratio,
            focal_x: Scalar { bits: ZERO_BITS },
            is_swapped: false,
        };
        if !radius.spec_gt(Scalar { bits: ZERO_BITS }) || !measured.invertible || stops.len() == 0 {
            None
        } else if stops.len() == 1 {
            Some(ShaderView::SolidColor(stops[0].color))
        } else if !measured.distance.spec_is_finite() {
            None
        } else if measured.distance.spec_is_nearly_zero_within_tolerance(degenerate_threshold()) {
            Some(
                conical_shader(
                    stops,
                    mode,
                    transform,
                    seq![to_origin(start), MatrixStep::ScaleByReciprocal { divisor: radius }],
                    start,
                    Scalar { bits: ZERO_BITS },
                    end,
                    radius,
                    GradientType::Radial,
                ),
            )
        } else if !measured.unit_x_solvable || !data.wf() {
            None
        } else {
            Some(
                conical_shader(
                    stops,
                    mode,
                    transform,
                    seq![to_unit_x(start, end), data.speedup_step()],
                    start,
                    Scalar { bits: ZERO_BITS },
                    end,
                    radius,
                    GradientType::Focal(data),
                ),
            )
        }
    }

    /// Which way the construction of a conical gradient goes.
    pub open spec fn classify(
        start_radius: Scalar,
        end_radius: Scalar,
        stop_count: nat,
        mode: SpreadMode,
        measured: ConicalMetrics,
    ) -> ConicalCase {
        let zero = Scalar { bits: ZERO_BITS };
        if !start_radius.spec_ge(zero) || !end_radius.spec_ge(zero) || !measured.invertible
            || stop_count == 0 {
            ConicalCase::Rejected
        } else if stop_count == 1 {
            ConicalCase::Solid
        } else if !measured.distance.spec_is_nearly_zero_within_tolerance(degenerate_threshold()) {
            ConicalCase::General
        } else if measured.radius_delta.spec_is_nearly_zero_within_tolerance(
            degenerate_threshold(),
        ) {
            if mode == SpreadMode::Pad && end_radius.spec_gt(degenerate_threshold()) {
                ConicalCase::HardEdge
            } else {
                ConicalCase::Rejected
            }
        } else if start_radius.spec_is_nearly_zero_within_tolerance(degenerate_threshold()) {
            ConicalCase::Radial
        } else {
            ConicalCase::General
        }
    }

    /// What `new` returns, case by case.
    pub open spec fn spec_new(
        start_point: Point,
        start_radius: Scalar,
        end_point: Point,
        end_radius: Scalar,
        stops: Seq<GradientStop>,
        mode: SpreadMode,
        transform: Transform,
        measured: ConicalMetrics,
    ) -> Option<ShaderView> {
        match Self::classify(start_radius, end_radius, stops.len(), mode, measured) {
            ConicalCase::Rejected => None,
            ConicalCase::Solid => Some(ShaderView::SolidColor(stops[0].color)),
            ConicalCase::HardEdge => Self::spec_new_radial(
                start_point,
                end_point,
                end_radius,
                hard_edge(stops),
                mode,
                transform,
                measured.spec_radial(),
            ),
            ConicalCase::Radial => Self::spec_new_radial(
                start_point,
                end_point,
                end_radius,
                stops,
                mode,
                transform,
                measured.spec_radial(),
            ),
            ConicalCase::General => spec_create(
                start_point,
                start_radius,
                end_point,
                end_radius,
                stops,
                mode,
                transform,
                measured,
            ),
        }
    }

    /// A single stop makes a solid color of that stop, wherever the
    /// circles lie, as long as the radii are numbers of `[0, inf]` and the
    /// transform has an inverse.
    pub proof fn lemma_single_stop_is_solid(
        start_point: Point,
        start_radius: Scalar,
        end_point: Point,
        end_radius: Scalar,
        stops: Seq<GradientStop>,
        mode: SpreadMode,
        transform: Transform,
        measured: ConicalMetrics,
    )
        requires
            stops.len() == 1,
            start_radius.spec_ge(Scalar { bits: ZERO_BITS }),
            end_radius.spec_ge(Scalar { bits: ZERO_BITS }),
            measured.invertible,
        ensures
            Self::spec_new(
                start_point,
                start_radius,
                end_point,
                end_radius,
                stops,
                mode,
                transform,
                measured,
            ) == Some(ShaderView::SolidColor(stops[0].color)),
    {
    }

    /// For `new_radial`, a single stop makes a solid color of that stop
    /// wherever the centers lie, as long as the radius is positive and the
    /// transform has an inverse.
    pub proof fn lemma_single_stop_is_solid_radial(
        start: Point,
        end: Point,
        radius: Scalar,
        stops: Seq<GradientStop>,
        mode: SpreadMode,
        transform: Transform,
        measured: RadialMetrics,
    )
        requires
            stops.len() == 1,
            radius.spec_gt(Scalar { bits: ZERO_BITS }),
            measured.invertible,
        ensures
            Self::spec_new_radial(start, end, radius, stops, mode, transform, measured) == Some(
                ShaderView::SolidColor(stops[0].color),
            ),
    {
    }

    /// `new_radial` makes no shader of a radius that is not positive.
    pub proof fn lemma_radius_must_be_positive(
        start: Point,
        end: Point,
        radius: Scalar,
        stops: Seq<GradientStop>,
        mode: SpreadMode,
        transform: Transform,
        measured: RadialMetrics,
    )
        requires
            !radius.spec_gt(Scalar { bits: ZERO_BITS }),
        ensures
            Self::spec_new_radial(start, end, radius, stops, mode, transform, measured) is None,
    {
    }

    /// Two equal circles: centers within `2^-15` of each other and radii
    /// that are equal, so that their measured difference is zero.
    ///
    /// Under `Pad`, with a radius above `2^-15`, the shader is the radial
    /// gradient over the hard-edge table: the first color at 0 and at 1,
    /// then the last color at 1. Under any other mode there is no shader.
    pub proof fn lemma_equal_circles(
        start_point: Point,
        start_radius: Scalar,
        end_point: Point,
        end_radius: Scalar,
        stops: Seq<GradientStop>,
        mode: SpreadMode,
        transform: Transform,
        measured: ConicalMetrics,
    )
        requires
            measured.distance.spec_is_nearly_zero_within_tolerance(degenerate_threshold()),
            start_radius.same(end_radius),
            measured.radius_delta.spec_is_zero(),
            end_radius.spec_gt(degenerate_threshold()),
            measured.invertible,
            stops.len() >= 2,
        ensures
            mode == SpreadMode::Pad ==> Self::spec_new(
                start_point,
                start_radius,
                end_point,
                end_radius,
                stops,
                mode,
                transform,
                measured,
            ) == Some(
                conical_shader(
                    hard_edge(stops),
                    SpreadMode::Pad,
                    transform,
                    seq![
                        to_origin(start_point),
                        MatrixStep::ScaleByReciprocal { divisor: end_radius },
                    ],
                    start_point,
                    Scalar { bits: ZERO_BITS },
                    end_point,
                    end_radius,
                    GradientType::Radial,
                ),
            ),
            mode != SpreadMode::Pad ==> Self::spec_new(
                start_point,
                start_radius,
                end_point,
                end_radius,
                stops,
                mode,
                transform,
                measured,
            ) is None,
            hard_edge(stops).len() == 3,
            hard_edge(stops)[0].color == stops.first().color && hard_edge(stops)[0].position.bits
                == ZERO_BITS,
            hard_edge(stops)[1].color == stops.first().color && hard_edge(stops)[1].position.bits
                == ONE_BITS,
            hard_edge(stops)[2].color == stops.last().color && hard_edge(stops)[2].position.bits
                == ONE_BITS,
    {
    }

    /// Between two centers, `new_radial` is the general construction
    /// for a start radius of zero: the same focal form, with the focal
    /// point at the start, and the same matrix, the general construction
    /// only naming two steps more that change nothing.
    ///
    /// The measurements are required to be what a start radius of zero
    /// measures as: a focal point at zero that can be solved for, and an
    /// end radius that the move of the focal point leaves as it is.
    pub proof fn lemma_new_radial_is_create_from_point(
        start: Point,
        end: Point,
        radius: Scalar,
        stops: Seq<GradientStop>,
        mode: SpreadMode,
        transform: Transform,
        measured: ConicalMetrics,
    )
        requires
            radius.spec_gt(Scalar { bits: ZERO_BITS }),
            measured.invertible,
            stops.len() >= 2,
            measured.distance.spec_is_finite(),
            !measured.distance.spec_is_nearly_zero(),
            !measured.radius_delta.spec_is_nearly_zero(),
            measured.focal.focal_x.spec_is_zero(),
            measured.focal.scaled_r1 == measured.end_ratio,
            measured.focal.solvable,
        ensures
            Self::spec_new_radial(
                start,
                end,
                radius,
                stops,
                mode,
                transform,
                measured.spec_radial(),
            ) is Some == spec_create(
                start,
                Scalar { bits: ZERO_BITS },
                end,
                radius,
                stops,
                mode,
                transform,
                measured,
            ) is Some,
            match (
                Self::spec_new_radial(
                    start,
                    end,
                    radius,
                    stops,
                    mode,
                    transform,
                    measured.spec_radial(),
                ),
                spec_create(
                    start,
                    Scalar { bits: ZERO_BITS },
                    end,
                    radius,
                    stops,
                    mode,
                    transform,
                    measured,
                ),
            ) {
                (
                    Some(ShaderView::ConicalGradient(radial)),
                    Some(ShaderView::ConicalGradient(general)),
                ) => {
                    &&& radial.base.stops == general.base.stops
                    &&& radial.base.spread_mode == general.base.spread_mode
                    &&& radial.base.transform == general.base.transform
                    &&& radial.base.colors_are_opaque == general.base.colors_are_opaque
                    &&& radial.center1 == general.center1 && radial.center2 == general.center2
                    &&& radial.radius1 == general.radius1 && radial.radius2 == general.radius2
                    &&& radial.gradient_type matches GradientType::Focal(a)
                    &&& general.gradient_type matches GradientType::Focal(b)
                    &&& a.r1 == b.r1 && a.focal_x.same(b.focal_x) && !a.is_swapped && !b.is_swapped
                    &&& general.base.points_to_unit == seq![
                        radial.base.points_to_unit[0],
                        to_unit_x(
                            Point { x: b.focal_x, y: Scalar { bits: ZERO_BITS } },
                            Point { x: Scalar { bits: ONE_BITS }, y: Scalar { bits: ZERO_BITS } },
                        ),
                        radial.base.points_to_unit[1],
                        MatrixStep::FocalGapScale { focal_x: b.focal_x },
                    ]
                },
                (None, None) => true,
                _ => false,
            },
    {
        let data = FocalData {
            r1: measured.end_ratio,
            focal_x: measured.focal.focal_x,
            is_swapped: false,
        };
        assert((seq![to_unit_x(start, end)] + data.steps()) =~= seq![
            to_unit_x(start, end),
            to_unit_x(
                Point { x: data.focal_x, y: Scalar { bits: ZERO_BITS } },
                Point { x: Scalar { bits: ONE_BITS }, y: Scalar { bits: ZERO_BITS } },
            ),
            data.speedup_step(),
            MatrixStep::FocalGapScale { focal_x: data.focal_x },
        ]);
    }

    /// What holds of every shader that `new` returns.
    ///
    /// A solid color comes of a single stop and is that stop's color. A
    /// gradient has two stops or more, radii that are numbers of
    /// `[0, inf]`, and a transform with an inverse. A radial gradient
    /// scales by the reciprocal of a positive number. A strip and a focal
    /// form lie between centers whose segment could be solved for; a strip
    /// has radii whose difference is within `2^-12` of zero; a focal form
    /// holds finite numbers, and its focal point is not within `2^-12` of
    /// 1. Nothing else is returned.
    pub proof fn lemma_new_is_well_formed(
        start_point: Point,
        start_radius: Scalar,
        end_point: Point,
        end_radius: Scalar,
        stops: Seq<GradientStop>,
        mode: SpreadMode,
        transform: Transform,
        measured: ConicalMetrics,
    )
        ensures
            match Self::spec_new(
                start_point,
                start_radius,
                end_point,
                end_radius,
                stops,
                mode,
                transform,
                measured,
            ) {
                None => true,
                Some(ShaderView::SolidColor(color)) => stops.len() == 1 && color == stops[0].color,
                Some(ShaderView::ConicalGradient(g)) => {
                    &&& measured.invertible
                    &&& g.base.stops.len() >= 2
                    &&& g.base.stops == stops || g.base.stops == hard_edge(stops)
                    &&& g.base.transform == transform
                    &&& g.base.colors_are_opaque == all_opaque(g.base.stops)
                    &&& g.radius1.spec_ge(Scalar { bits: ZERO_BITS })
                    &&& g.radius2.spec_ge(Scalar { bits: ZERO_BITS })
                    &&& g.radius2 == end_radius
                    &&& g.center1 == start_point && g.center2 == end_point
                    &&& g.gradient_type is Radial ==> {
                        &&& g.base.points_to_unit.len() == 2
                        &&& g.base.points_to_unit[1] matches MatrixStep::ScaleByReciprocal {
                            divisor,
                        }
                        &&& divisor.spec_gt(Scalar { bits: ZERO_BITS })
                    }
                    &&& !(g.gradient_type is Radial) ==> {
                        &&& measured.unit_x_solvable
                        &&& g.base.points_to_unit.len() >= 1
                        &&& g.base.points_to_unit[0] == to_unit_x(start_point, end_point)
                    }
                    &&& g.gradient_type is Strip ==> measured.radius_delta.spec_is_nearly_zero()
                    &&& g.gradient_type matches GradientType::Focal(data) ==> data.wf()
                        && !data.focal_x.spec_is_nearly_one()
                },
                Some(_) => false,
            },
    {
    }

    /// The two coefficients that the stages of this gradient read.
    ///
    /// `measured` holds what takes arithmetic: for a radial gradient the
    /// scale `max(r0, r1) / (r1 - r0)` and the bias `-r0 / (r1 - r0)`, for
    /// a strip the square of the start radius over the distance of the
    /// centers, for the focal form the reciprocal of `r1`. A radial
    /// gradient from a point needs none of it, and the focal form keeps its
    /// own focal point.
    pub open spec fn coefficients(
        gradient_type: GradientType,
        radius1: Scalar,
        measured: TwoPointConicalGradientCtx,
    ) -> TwoPointConicalGradientCtx {
        match gradient_type {
            GradientType::Radial => if radius1.spec_is_zero() {
                TwoPointConicalGradientCtx {
                    p0: Scalar { bits: ONE_BITS },
                    p1: Scalar { bits: ZERO_BITS },
                }
            } else {
                measured
            },
            GradientType::Strip => TwoPointConicalGradientCtx {
                p0: measured.p0,
                p1: Scalar { bits: ZERO_BITS },
            },
            GradientType::Focal(data) => TwoPointConicalGradientCtx {
                p0: measured.p0,
                p1: data.focal_x,
            },
        }
    }

    /// The one stage that turns the coordinates of the focal form into
    /// the gradient parameter.
    pub open spec fn focal_formula(data: FocalData) -> Stage {
        if data.spec_is_focal_on_circle() {
            Stage::XYTo2PtConicalFocalOnCircle
        } else if data.spec_is_well_behaved() {
            Stage::XYTo2PtConicalWellBehaved
        } else if data.is_swapped || data.spec_is_beyond_end() {
            Stage::XYTo2PtConicalSmaller
        } else {
            Stage::XYTo2PtConicalGreater
        }
    }

    /// One stage where a condition holds, none where it does not.
    pub open spec fn stage_if(condition: bool, stage: Stage) -> Seq<Stage> {
        if condition {
            seq![stage]
        } else {
            Seq::<Stage>::empty()
        }
    }

    /// The coordinate stages of the gradient, in the order in which they
    /// run.
    ///
    /// Radial: the radius, rescaled unless the gradient starts from a
    /// point. Strip: the strip formula, then the mask of what it leaves
    /// undefined. Focal: the x coordinate negated where the focal point
    /// lies beyond the end center, then exactly one formula, then the mask
    /// of degenerate results unless well behaved, the compensation unless
    /// natively focal, and the unswap where the circles changed places.
    pub open spec fn pre_stages(gradient_type: GradientType, radius1: Scalar) -> Seq<Stage> {
        match gradient_type {
            GradientType::Radial => seq![Stage::XYToRadius] + Self::stage_if(
                !radius1.spec_is_zero(),
                Stage::ApplyConcentricScaleBias,
            ),
            GradientType::Strip => seq![Stage::XYTo2PtConicalStrip, Stage::Mask2PtConicalNan],
            GradientType::Focal(data) => Self::stage_if(data.spec_is_beyond_end(), Stage::NegateX)
                + seq![Self::focal_formula(data)] + Self::stage_if(
                !data.spec_is_well_behaved(),
                Stage::Mask2PtConicalDegenerates,
            ) + Self::stage_if(
                !data.spec_is_natively_focal(),
                Stage::Alter2PtConicalCompensateFocal,
            ) + Self::stage_if(data.is_swapped, Stage::Alter2PtConicalUnswap),
        }
    }

    /// The masking stages that follow the stop lookup: the vector mask
    /// wherever the coordinate stages left one.
    pub open spec fn post_stages(gradient_type: GradientType) -> Seq<Stage> {
        match gradient_type {
            GradientType::Radial => Seq::<Stage>::empty(),
            GradientType::Strip => seq![Stage::ApplyVectorMask],
            GradientType::Focal(data) => Self::stage_if(
                !data.spec_is_well_behaved(),
                Stage::ApplyVectorMask,
            ),
        }
    }

    /// Computes [`ConicalGradient::pre_stages`].
    pub fn coordinate_stages(gradient_type: GradientType, radius1: Scalar) -> (r: Vec<Stage>)
        ensures
            r@ == Self::pre_stages(gradient_type, radius1),
    {
        let mut r: Vec<Stage> = Vec::new();
        match gradient_type {
            GradientType::Radial => {
                r.push(Stage::XYToRadius);
                if !radius1.is_zero() {
                    r.push(Stage::ApplyConcentricScaleBias);
                }
            },
            GradientType::Strip => {
                r.push(Stage::XYTo2PtConicalStrip);
                r.push(Stage::Mask2PtConicalNan);
            },
            GradientType::Focal(data) => {
                if data.is_beyond_end() {
                    r.push(Stage::NegateX);
                }
                if data.is_focal_on_circle() {
                    r.push(Stage::XYTo2PtConicalFocalOnCircle);
                } else if data.is_well_behaved() {
                    r.push(Stage::XYTo2PtConicalWellBehaved);
                } else if data.is_swapped || data.is_beyond_end() {
                    r.push(Stage::XYTo2PtConicalSmaller);
                } else {
                    r.push(Stage::XYTo2PtConicalGreater);
                }
                if !data.is_well_behaved() {
                    r.push(Stage::Mask2PtConicalDegenerates);
                }
                if !data.is_natively_focal() {
                    r.push(Stage::Alter2PtConicalCompensateFocal);
                }
                if data.is_swapped {
                    r.push(Stage::Alter2PtConicalUnswap);
                }
            },
        }
        assert(r@ =~= Self::pre_stages(gradient_type, radius1));
        r
    }

    /// Computes [`ConicalGradient::post_stages`].
    pub fn masking_stages(gradient_type: GradientType) -> (r: Vec<Stage>)
        ensures
            r@ == Self::post_stages(gradient_type),
    {
        let mut r: Vec<Stage> = Vec::new();
        match gradient_type {
            GradientType::Radial => {},
            GradientType::Strip => {
                r.push(Stage::ApplyVectorMask);
            },
            GradientType::Focal(data) => {
                if !data.is_well_behaved() {
                    r.push(Stage::ApplyVectorMask);
                }
            },
        }
        assert(r@ =~= Self::post_stages(gradient_type));
        r
    }

    /// Stores the gradient's coefficients in the pipeline's context and
    /// pushes its stages.
    ///
    /// `mapping` is the matrix from device space to the gradient's unit
    /// space, or `None` where the user's transform has no inverse: then no
    /// stage is pushed and the result is `false`. `measured` is read as
    /// [`ConicalGradient::coefficients`] says.
    pub fn push_stages(
        &self,
        cs: ColorSpace,
        p: &mut RasterPipelineBuilder,
        mapping: Option<Transform>,
        measured: TwoPointConicalGradientCtx,
    ) -> (pushed: bool)
        ensures
            pushed == mapping.is_some(),
            final(p).required_mipmap_levels == old(p).required_mipmap_levels,
            final(p).stages@ == old(p).stages@ + (match mapping {
                Some(ts) => gradient_stages(
                    ts,
                    Self::pre_stages(self.gradient_type, self.radius1),
                    self.base.spread_mode,
                    cs,
                    Self::post_stages(self.gradient_type),
                ),
                None => Seq::<Stage>::empty(),
            }),
            final(p).ctx == (crate::pipeline::Context {
                two_point_conical_gradient: Self::coefficients(
                    self.gradient_type,
                    self.radius1,
                    measured,
                ),
                transform: match mapping {
                    Some(ts) if RasterPipelineBuilder::takes_transform(ts) => ts,
                    _ => old(p).ctx.transform,
                },
                ..old(p).ctx
            }),
    {
        let coefficients = match self.gradient_type {
            GradientType::Radial => {
                if self.radius1.is_zero() {
                    TwoPointConicalGradientCtx { p0: Scalar::one(), p1: Scalar::zero() }
                } else {
                    measured
                }
            },
            GradientType::Strip => TwoPointConicalGradientCtx {
                p0: measured.p0,
                p1: Scalar::zero(),
            },
            GradientType::Focal(data) => TwoPointConicalGradientCtx {
                p0: measured.p0,
                p1: data.focal_x,
            },
        };
        p.ctx.two_point_conical_gradient = coefficients;
        let pre = Self::coordinate_stages(self.gradient_type, self.radius1);
        let post = Self::masking_stages(self.gradient_type);
        let pushed = self.base.push_stages(p, cs, &pre, &post, mapping);
        assert(p.stages@ =~= old(p).stages@ + (match mapping {
            Some(ts) => gradient_stages(
                ts,
                Self::pre_stages(self.gradient_type, self.radius1),
                self.base.spread_mode,
                cs,
                Self::post_stages(self.gradient_type),
            ),
            None => Seq::<Stage>::empty(),
        }));
        pushed
    }

    /// Creates a two-point conical gradient shader.
    ///
    /// Returns a solid color for a single stop, and `None` where no
    /// gradient can be made; [`ConicalGradient::spec_new`] says which is
    /// which.
    pub fn new(
        start_point: Point,
        start_radius: Scalar,
        end_point: Point,
        end_radius: Scalar,
        stops: Vec<GradientStop>,
        mode: SpreadMode,
        transform: Transform,
        measured: ConicalMetrics,
    ) -> (r: Option<Shader<'static>>)
        ensures
            view_of(r) == Self::spec_new(
                start_point,
                start_radius,
                end_point,
                end_radius,
                stops@,
                mode,
                transform,
                measured,
            ),
    {
        let threshold = Scalar::from_bits(DEGENERATE_THRESHOLD_BITS);
        if !start_radius.ge(Scalar::zero()) || !end_radius.ge(Scalar::zero()) {
            return None;
        }
        if !measured.invertible {
            return None;
        }
        if stops.len() == 0 {
            return None;
        }
        if stops.len() == 1 {
            return Some(Shader::SolidColor(stops[0].color));
        }
        if measured.distance.is_nearly_zero_within_tolerance(threshold) {
            if measured.radius_delta.is_nearly_zero_within_tolerance(threshold) {
                if mode == SpreadMode::Pad && end_radius.gt(threshold) {
                    let new_stops = hard_edge_stops(&stops);
                    return ConicalGradient::new_radial(
                        start_point,
                        end_point,
                        end_radius,
                        new_stops,
                        mode,
                        transform,
                        measured.radial(),
                    );
                }
                return None;
            }
            if start_radius.is_nearly_zero_within_tolerance(threshold) {
                return ConicalGradient::new_radial(
                    start_point,
                    end_point,
                    end_radius,
                    stops,
                    mode,
                    transform,
                    measured.radial(),
                );
            }
        }
        create(start_point, start_radius, end_point, end_radius, stops, mode, transform, measured)
    }

    /// Creates a radial gradient shader: a conical gradient that starts
    /// from the point `start` and ends on the circle of `radius` about
    /// `end`.
    ///
    /// Returns a solid color for a single stop, and `None` where
    /// [`ConicalGradient::spec_new_radial`] does.
    pub fn new_radial(
        start: Point,
        end: Point,
        radius: Scalar,
        stops: Vec<GradientStop>,
        mode: SpreadMode,
        transform: Transform,
        measured: RadialMetrics,
    ) -> (r: Option<Shader<'static>>)
        ensures
            view_of(r) == Self::spec_new_radial(
                start,
                end,
                radius,
                stops@,
                mode,
                transform,
                measured,
            ),
    {
        if !radius.gt(Scalar::zero()) || !measured.invertible || stops.len() == 0 {
            return None;
        }
        if stops.len() == 1 {
            return Some(Shader::SolidColor(stops[0].color));
        }
        if !measured.distance.is_finite() {
            return None;
        }
        let mut steps: Vec<MatrixStep> = Vec::new();
        let gradient_type;
        if measured.distance.is_nearly_zero_within_tolerance(
            Scalar::from_bits(DEGENERATE_THRESHOLD_BITS),
        ) {
            steps.push(MatrixStep::Translate { tx: start.x.neg(), ty: start.y.neg() });
            steps.push(MatrixStep::ScaleByReciprocal { divisor: radius });
            assert(steps@ =~= seq![
                to_origin(start),
                MatrixStep::ScaleByReciprocal { divisor: radius },
            ]);
            gradient_type = GradientType::Radial;
        } else {
            let data = FocalData {
                r1: measured.radius_ratio,
                focal_x: Scalar::zero(),
                is_swapped: false,
            };
            if !measured.unit_x_solvable || !data.r1.is_finite() {
                return None;
            }
            steps.push(map_to_unit_x(start, end));
            if data.is_focal_on_circle() {
                steps.push(MatrixStep::Scale { sx: Scalar::half(), sy: Scalar::half() });
            } else {
                steps.push(MatrixStep::FocalScale { r1: data.r1 });
            }
            assert(steps@ =~= seq![to_unit_x(start, end), data.speedup_step()]);
            gradient_type = GradientType::Focal(data);
        }
        Some(
            Shader::ConicalGradient(
                ConicalGradient {
                    base: Gradient::new(stops, mode, transform, steps),
                    center1: start,
                    center2: end,
                    radius1: Scalar::zero(),
                    radius2: radius,
                    gradient_type,
                },
            ),
        )
    }
}

} // verus!
