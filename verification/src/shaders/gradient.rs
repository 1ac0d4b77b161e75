//! What all gradients share: the color stops, the spread mode, the user's
//! transform and the steps that build the gradient's own unit space.

use vstd::prelude::*;
use crate::color::{Color, ColorSpace};
use crate::pipeline::{RasterPipelineBuilder, Stage};
use crate::scalar::{Scalar, ONE_BITS, ZERO_BITS};
use crate::shaders::SpreadMode;
use crate::transform::{MatrixStep, Transform};

verus! {

/// Bits of `2^-15`: lengths, radii and angles closer than this are taken
/// to coincide.
pub const DEGENERATE_THRESHOLD_BITS: u32 = 0x3800_0000;

/// The tolerance below which a gradient's geometry is degenerate.
pub open spec fn degenerate_threshold() -> Scalar {
    Scalar { bits: DEGENERATE_THRESHOLD_BITS }
}

/// A color at a position of `[0, 1]` along a gradient.
#[derive(Clone, Copy, Debug, PartialEq)]
pub struct GradientStop {
    pub position: Scalar,
    pub color: Color,
}

impl GradientStop {
    /// Creates a stop. The position is clamped to `[0, 1]`; one that is
    /// not finite becomes zero.
    pub fn new(position: Scalar, color: Color) -> (s: GradientStop)
        ensures
            s.position == position.spec_clamp01(),
            s.color == color,
    {
        GradientStop { position: position.clamp01(), color }
    }
}

/// Every stop's color has an alpha of one.
pub open spec fn all_opaque(stops: Seq<GradientStop>) -> bool {
    forall|i: int| 0 <= i < stops.len() ==> (#[trigger] stops[i]).color.spec_is_opaque()
}

/// Positions never decrease from one stop to the next. The stop lookup
/// of a pipeline relies on this; nothing here reorders stops.
pub open spec fn positions_ascend(stops: Seq<GradientStop>) -> bool {
    forall|i: int, j: int|
        0 <= i <= j < stops.len() ==> (#[trigger] stops[i]).position.spec_le(
            (#[trigger] stops[j]).position,
        )
}

/// Checks that positions never decrease from one stop to the next.
pub fn check_positions_ascend(stops: &Vec<GradientStop>) -> (r: bool)
    ensures
        r == positions_ascend(stops@),
{
    let mut i: usize = 0;
    while i < stops.len()
        invariant
            i <= stops.len(),
            positions_ascend(stops@.subrange(0, i as int)),
        decreases stops.len() - i,
    {
        let here = stops[i].position;
        let follows = !here.is_nan() && (i == 0 || stops[i - 1].position.le(here));
        if !follows {
            proof {
                if here.spec_is_nan() {
                    assert(!stops@[i as int].position.spec_le(stops@[i as int].position));
                } else {
                    assert(!stops@[i - 1].position.spec_le(stops@[i as int].position));
                }
            }
            return false;
        }
        proof {
            let before = stops@.subrange(0, i as int);
            let after = stops@.subrange(0, i as int + 1);
            assert forall|a: int, b: int| 0 <= a <= b < after.len() implies (#[trigger] after[a])
                .position.spec_le((#[trigger] after[b]).position) by {
                if b < i {
                    assert(before[a] == after[a] && before[b] == after[b]);
                } else if a < i {
                    assert(before[a] == after[a] && before[i - 1] == after[i - 1]);
                    assert(before[a].position.spec_le(before[i - 1].position));
                }
            }
        }
        i += 1;
    }
    assert(stops@.subrange(0, i as int) =~= stops@);
    true
}

/// The table that stands for a gradient whose interpolation region has
/// no area: the first color over all of `[0, 1]`, then a hard edge to the
/// last color at 1.
pub open spec fn hard_edge(stops: Seq<GradientStop>) -> Seq<GradientStop>
    recommends
        stops.len() > 0,
{
    seq![
        GradientStop { position: Scalar { bits: ZERO_BITS }, color: stops.first().color },
        GradientStop { position: Scalar { bits: ONE_BITS }, color: stops.first().color },
        GradientStop { position: Scalar { bits: ONE_BITS }, color: stops.last().color },
    ]
}

/// Builds the [`hard_edge`] table of a list of stops.
pub fn hard_edge_stops(stops: &Vec<GradientStop>) -> (r: Vec<GradientStop>)
    requires
        stops@.len() > 0,
    ensures
        r@ == hard_edge(stops@),
{
    let front = stops[0].color;
    let back = stops[stops.len() - 1].color;
    let mut r: Vec<GradientStop> = Vec::new();
    r.push(GradientStop { position: Scalar::zero(), color: front });
    r.push(GradientStop { position: Scalar::one(), color: front });
    r.push(GradientStop { position: Scalar::one(), color: back });
    assert(r@ =~= hard_edge(stops@));
    r
}

/// The gradient parameter under `Pad`: raised to zero and lowered to one.
/// NaN becomes zero.
pub open spec fn padded(t: Scalar) -> Scalar {
    t.spec_max(Scalar { bits: ZERO_BITS }).spec_min(Scalar { bits: ONE_BITS })
}

/// Computes [`padded`].
pub fn pad(t: Scalar) -> (r: Scalar)
    ensures
        r == padded(t),
        !r.spec_is_nan(),
        0 <= r.rank() <= ONE_BITS as int,
{
    t.max(Scalar::zero()).min(Scalar::one())
}

/// `count` is the number of stops at or before `t`: with ascending
/// positions these are the first `count` stops, and no others.
pub open spec fn stops_passed(stops: Seq<GradientStop>, t: Scalar, count: int) -> bool {
    &&& 0 <= count <= stops.len()
    &&& forall|i: int| 0 <= i < count ==> (#[trigger] stops[i]).position.spec_le(t)
    &&& forall|i: int| count <= i < stops.len() ==> !(#[trigger] stops[i]).position.spec_le(t)
}

/// The color at `t` where it takes no interpolation: the first color
/// before all stops, the last color from the last stop on, and between two
/// stops of one color that color. `count` is the number of stops at or
/// before `t`.
pub open spec fn flat_color(stops: Seq<GradientStop>, count: int) -> Option<Color>
    recommends
        stops.len() > 0,
        0 <= count <= stops.len(),
{
    if count == 0 {
        Some(stops.first().color)
    } else if count == stops.len() {
        Some(stops.last().color)
    } else if stops[count - 1].color == stops[count].color {
        Some(stops[count].color)
    } else {
        None
    }
}

/// Finds the number of stops at or before `t` by bisection.
pub fn find_stop(stops: &Vec<GradientStop>, t: Scalar) -> (count: usize)
    requires
        positions_ascend(stops@),
    ensures
        stops_passed(stops@, t, count as int),
{
    let mut low: usize = 0;
    let mut high: usize = stops.len();
    while low < high
        invariant
            low <= high <= stops@.len(),
            positions_ascend(stops@),
            forall|i: int| 0 <= i < low ==> (#[trigger] stops@[i]).position.spec_le(t),
            forall|i: int| high <= i < stops@.len() ==> !(#[trigger] stops@[i]).position.spec_le(t),
        decreases high - low,
    {
        let mid = low + (high - low) / 2;
        if stops[mid].position.le(t) {
            assert forall|i: int| 0 <= i < mid + 1 implies (#[trigger] stops@[i]).position.spec_le(
                t,
            ) by {
                assert(stops@[i].position.spec_le(stops@[mid as int].position));
            }
            low = mid + 1;
        } else {
            assert forall|i: int| mid <= i < stops@.len() implies !(#[trigger] stops@[i])
                .position.spec_le(t) by {
                assert(stops@[mid as int].position.spec_le(stops@[i].position));
            }
            high = mid;
        }
    }
    low
}

/// Looks up the color at `t` where it takes no interpolation; `None`
/// where `t` lies between two stops of different colors.
pub fn color_without_interpolation(stops: &Vec<GradientStop>, t: Scalar) -> (r: Option<Color>)
    requires
        stops@.len() > 0,
        positions_ascend(stops@),
    ensures
        exists|count: int| stops_passed(stops@, t, count) && r == flat_color(stops@, count),
{
    let count = find_stop(stops, t);
    let r = if count == 0 {
        Some(stops[0].color)
    } else if count == stops.len() {
        Some(stops[stops.len() - 1].color)
    } else if stops[count - 1].color.is_identical(stops[count].color) {
        Some(stops[count].color)
    } else {
        None
    };
    assert(stops_passed(stops@, t, count as int) && r == flat_color(stops@, count as int));
    r
}

/// The stops at or before a parameter are counted by one number only.
pub proof fn lemma_stops_passed_is_unique(
    stops: Seq<GradientStop>,
    t: Scalar,
    first: int,
    second: int,
)
    requires
        stops_passed(stops, t, first),
        stops_passed(stops, t, second),
    ensures
        first == second,
{
    if first < second {
        assert(stops[first].position.spec_le(t));
    } else if second < first {
        assert(stops[second].position.spec_le(t));
    }
}

/// The hard-edge table ascends, and under `Pad` it is the first color
/// for every parameter below one and the last color from one on: nothing
/// is interpolated anywhere.
pub proof fn lemma_hard_edge_is_flat(stops: Seq<GradientStop>, t: Scalar, count: int)
    requires
        stops.len() > 0,
        stops_passed(hard_edge(stops), padded(t), count),
    ensures
        positions_ascend(hard_edge(stops)),
        padded(t).spec_lt(Scalar { bits: ONE_BITS }) ==> flat_color(hard_edge(stops), count)
            == Some(stops.first().color),
        !padded(t).spec_lt(Scalar { bits: ONE_BITS }) ==> flat_color(hard_edge(stops), count)
            == Some(stops.last().color),
        t.spec_lt(Scalar { bits: ONE_BITS }) || t.spec_is_nan() <==> padded(t).spec_lt(
            Scalar { bits: ONE_BITS },
        ),
{
    let table = hard_edge(stops);
    assert(table[0].position.bits == ZERO_BITS);
    assert(table[1].position.bits == ONE_BITS);
    assert(table[2].position.bits == ONE_BITS);
    assert(table.first() == table[0] && table.last() == table[2]);
    if padded(t).spec_lt(Scalar { bits: ONE_BITS }) {
        if count == 0 {
            assert(!table[0].position.spec_le(padded(t)));
        } else if count >= 2 {
            assert(table[1].position.spec_le(padded(t)));
        }
    } else {
        if count < 3 {
            assert(!table[2].position.spec_le(padded(t)));
        }
    }
}

/// The stage that folds the gradient parameter back into `[0, 1]`.
pub open spec fn spread_stage(mode: SpreadMode) -> Stage {
    match mode {
        SpreadMode::Pad => Stage::PadX1,
        SpreadMode::Reflect => Stage::ReflectX1,
        SpreadMode::Repeat => Stage::RepeatX1,
    }
}

/// The stages of any gradient, in order: the transform when it is one the
/// pipeline records, the variant's coordinate stages, the spread-mode
/// wrap, the stop lookup, the gamma expansion where the color space has
/// one, and the variant's masking stages.
pub open spec fn gradient_stages(
    mapping: Transform,
    pre: Seq<Stage>,
    mode: SpreadMode,
    cs: ColorSpace,
    post: Seq<Stage>,
) -> Seq<Stage> {
    (if RasterPipelineBuilder::takes_transform(mapping) {
        seq![Stage::Transform]
    } else {
        Seq::<Stage>::empty()
    }) + pre + seq![spread_stage(mode), Stage::Gradient] + (match cs.spec_expand_stage() {
        Some(stage) => seq![stage],
        None => Seq::<Stage>::empty(),
    }) + post
}

/// The part that every gradient has.
#[derive(Clone, Debug, PartialEq)]
pub struct Gradient {
    pub stops: Vec<GradientStop>,
    pub spread_mode: SpreadMode,
    pub transform: Transform,
    pub points_to_unit: Vec<MatrixStep>,
    pub colors_are_opaque: bool,
}

/// A [`Gradient`] as a value of specifications.
pub struct GradientView {
    pub stops: Seq<GradientStop>,
    pub spread_mode: SpreadMode,
    pub transform: Transform,
    pub points_to_unit: Seq<MatrixStep>,
    pub colors_are_opaque: bool,
}

impl View for Gradient {
    type V = GradientView;

    open spec fn view(&self) -> GradientView {
        GradientView {
            stops: self.stops@,
            spread_mode: self.spread_mode,
            transform: self.transform,
            points_to_unit: self.points_to_unit@,
            colors_are_opaque: self.colors_are_opaque,
        }
    }
}

impl Gradient {
    /// The gradient that `new` builds from its arguments.
    pub open spec fn spec_new(
        stops: Seq<GradientStop>,
        spread_mode: SpreadMode,
        transform: Transform,
        points_to_unit: Seq<MatrixStep>,
    ) -> GradientView {
        GradientView {
            stops,
            spread_mode,
            transform,
            points_to_unit,
            colors_are_opaque: all_opaque(stops),
        }
    }

    /// Creates the shared part of a gradient and works out whether all
    /// of its colors are opaque.
    pub fn new(
        stops: Vec<GradientStop>,
        spread_mode: SpreadMode,
        transform: Transform,
        points_to_unit: Vec<MatrixStep>,
    ) -> (g: Gradient)
        requires
            stops@.len() > 1,
        ensures
            g@ == Self::spec_new(stops@, spread_mode, transform, points_to_unit@),
    {
        let mut opaque = true;
        let mut i: usize = 0;
        while i < stops.len()
            invariant
                i <= stops.len(),
                opaque == all_opaque(stops@.subrange(0, i as int)),
            decreases stops.len() - i,
        {
            let ghost before = stops@.subrange(0, i as int);
            let ghost after = stops@.subrange(0, i as int + 1);
            let this = stops[i].color.is_opaque();
            proof {
                assert(after[i as int] == stops@[i as int]);
                assert forall|k: int| 0 <= k < before.len() implies before[k] == after[k] by {}
                if opaque && this {
                    assert forall|k: int| 0 <= k < after.len() implies (#[trigger] after[k])
                        .color.spec_is_opaque() by {
                        if k < i {
                            assert(before[k] == after[k]);
                        }
                    }
                } else if !this {
                    assert(!after[i as int].color.spec_is_opaque());
                } else {
                    let k = choose|k: int|
                        0 <= k < before.len() && !(#[trigger] before[k]).color.spec_is_opaque();
                    assert(before[k] == after[k]);
                }
            }
            opaque = opaque && this;
            i += 1;
        }
        assert(stops@.subrange(0, i as int) =~= stops@);
        Gradient { stops, spread_mode, transform, points_to_unit, colors_are_opaque: opaque }
    }

    /// Pushes the gradient's stages around those of its variant.
    ///
    /// `mapping` is the matrix from device space to the gradient's unit
    /// space: the inverse of the user's transform followed by
    /// `points_to_unit`. It is `None` when that inverse does not exist;
    /// then nothing is pushed and the result is `false`.
    pub fn push_stages(
        &self,
        p: &mut RasterPipelineBuilder,
        cs: ColorSpace,
        pre: &Vec<Stage>,
        post: &Vec<Stage>,
        mapping: Option<Transform>,
    ) -> (pushed: bool)
        ensures
            pushed == mapping.is_some(),
            final(p).required_mipmap_levels == old(p).required_mipmap_levels,
            mapping.is_none() ==> *final(p) == *old(p),
            mapping matches Some(ts) ==> {
                &&& final(p).stages@ == old(p).stages@ + gradient_stages(
                    ts,
                    pre@,
                    self.spread_mode,
                    cs,
                    post@,
                )
                &&& final(p).ctx == (if RasterPipelineBuilder::takes_transform(ts) {
                    crate::pipeline::Context { transform: ts, ..old(p).ctx }
                } else {
                    old(p).ctx
                })
            },
    {
        let ts = match mapping {
            Some(ts) => ts,
            None => {
                return false;
            },
        };
        p.push_transform(ts);
        p.push_all(pre);
        match self.spread_mode {
            SpreadMode::Pad => p.push(Stage::PadX1),
            SpreadMode::Reflect => p.push(Stage::ReflectX1),
            SpreadMode::Repeat => p.push(Stage::RepeatX1),
        }
        p.push(Stage::Gradient);
        match cs.expand_stage() {
            Some(stage) => p.push(stage),
            None => {},
        }
        p.push_all(post);
        assert(p.stages@ =~= old(p).stages@ + gradient_stages(
            ts,
            pre@,
            self.spread_mode,
            cs,
            post@,
        ));
        true
    }
}

} // verus!
