//! The list of stages that a raster pipeline runs, and what the stages
//! read from their shared context.

use vstd::prelude::*;
use crate::scalar::Scalar;
use crate::shaders::SpreadMode;
use crate::transform::Transform;

verus! {

/// A stage of the raster pipeline. To this library a stage is a token: what
/// it computes per pixel is the pipeline's business.
#[derive(Clone, Copy, Debug, PartialEq, Eq, Structural)]
pub enum Stage {
    SeedShader,
    Transform,
    Reflect,
    Repeat,
    Gather,
    Bilinear,
    Bicubic,
    Clamp0,
    ClampA,
    Scale1Float,
    PadX1,
    ReflectX1,
    RepeatX1,
    Gradient,
    XYToUnitAngle,
    XYToRadius,
    XYTo2PtConicalFocalOnCircle,
    XYTo2PtConicalWellBehaved,
    XYTo2PtConicalSmaller,
    XYTo2PtConicalGreater,
    XYTo2PtConicalStrip,
    Mask2PtConicalNan,
    Mask2PtConicalDegenerates,
    ApplyVectorMask,
    Alter2PtConicalCompensateFocal,
    Alter2PtConicalUnswap,
    NegateX,
    ApplyConcentricScaleBias,
    GammaExpand2,
    GammaExpand22,
    GammaExpandSrgb,
}

/// The two coefficients that the conical and sweep stages read.
#[derive(Clone, Copy, Debug, PartialEq)]
pub struct TwoPointConicalGradientCtx {
    pub p0: Scalar,
    pub p1: Scalar,
}

/// The extent of a tile along one axis, with its reciprocal.
#[derive(Clone, Copy, Debug, PartialEq)]
pub struct TileCtx {
    pub scale: Scalar,
    pub inv_scale: Scalar,
}

/// What the filtering samplers read.
#[derive(Clone, Copy, Debug, PartialEq)]
pub struct SamplerCtx {
    pub spread_mode: SpreadMode,
    pub inv_width: Scalar,
    pub inv_height: Scalar,
}

/// The context that the stages of one pipeline share.
#[derive(Clone, Copy, Debug, PartialEq)]
pub struct Context {
    pub current_coverage: Scalar,
    pub sampler: SamplerCtx,
    pub two_point_conical_gradient: TwoPointConicalGradientCtx,
    pub limit_x: TileCtx,
    pub limit_y: TileCtx,
    pub transform: Transform,
}

/// Collects the stages of a pipeline in the order in which they will run,
/// together with the context they read.
#[derive(Clone, Debug, PartialEq)]
pub struct RasterPipelineBuilder {
    pub stages: Vec<Stage>,
    pub ctx: Context,
    pub required_mipmap_levels: usize,
}

impl Context {
    /// The context before any stage has written to it: zeros, the identity,
    /// and a sampler that pads.
    pub open spec fn blank() -> Context {
        let zero = Scalar { bits: 0 };
        let one = Scalar { bits: crate::scalar::ONE_BITS };
        Context {
            current_coverage: zero,
            sampler: SamplerCtx { spread_mode: SpreadMode::Pad, inv_width: zero, inv_height: zero },
            two_point_conical_gradient: TwoPointConicalGradientCtx { p0: zero, p1: zero },
            limit_x: TileCtx { scale: zero, inv_scale: zero },
            limit_y: TileCtx { scale: zero, inv_scale: zero },
            transform: Transform { sx: one, kx: zero, ky: zero, sy: one, tx: zero, ty: zero },
        }
    }
}

impl RasterPipelineBuilder {
    /// An empty pipeline over a blank context.
    pub fn new() -> (p: RasterPipelineBuilder)
        ensures
            p.stages@ == Seq::<Stage>::empty(),
            p.ctx == Context::blank(),
            p.required_mipmap_levels == 0,
    {
        let zero = Scalar::zero();
        RasterPipelineBuilder {
            stages: Vec::new(),
            ctx: Context {
                current_coverage: zero,
                sampler: SamplerCtx {
                    spread_mode: SpreadMode::Pad,
                    inv_width: zero,
                    inv_height: zero,
                },
                two_point_conical_gradient: TwoPointConicalGradientCtx { p0: zero, p1: zero },
                limit_x: TileCtx { scale: zero, inv_scale: zero },
                limit_y: TileCtx { scale: zero, inv_scale: zero },
                transform: Transform::identity(),
            },
            required_mipmap_levels: 0,
        }
    }

    /// Appends a stage.
    pub fn push(&mut self, stage: Stage)
        ensures
            final(self).stages@ == old(self).stages@.push(stage),
            final(self).ctx == old(self).ctx,
            final(self).required_mipmap_levels == old(self).required_mipmap_levels,
    {
        self.stages.push(stage);
    }

    /// Appends stages in their order.
    pub fn push_all(&mut self, stages: &Vec<Stage>)
        ensures
            final(self).stages@ == old(self).stages@ + stages@,
            final(self).ctx == old(self).ctx,
            final(self).required_mipmap_levels == old(self).required_mipmap_levels,
    {
        let mut i: usize = 0;
        while i < stages.len()
            invariant
                i <= stages.len(),
                self.stages@ == old(self).stages@ + stages@.subrange(0, i as int),
                self.ctx == old(self).ctx,
                self.required_mipmap_levels == old(self).required_mipmap_levels,
            decreases stages.len() - i,
        {
            self.stages.push(stages[i]);
            i += 1;
            assert(self.stages@ =~= old(self).stages@ + stages@.subrange(0, i as int));
        }
        assert(stages@.subrange(0, i as int) =~= stages@);
    }

    /// Whether `push_transform` records the transform: it does for every
    /// finite transform but the identity.
    pub open spec fn takes_transform(ts: Transform) -> bool {
        ts.spec_is_finite() && !ts.spec_is_identity()
    }

    /// Appends the transform stage and stores the matrix it applies. An
    /// identity changes nothing and is skipped, and so is a transform that
    /// is not finite.
    pub fn push_transform(&mut self, ts: Transform)
        ensures
            Self::takes_transform(ts) ==> {
                &&& final(self).stages@ == old(self).stages@.push(Stage::Transform)
                &&& final(self).ctx == (Context { transform: ts, ..old(self).ctx })
            },
            !Self::takes_transform(ts) ==> {
                &&& final(self).stages@ == old(self).stages@
                &&& final(self).ctx == old(self).ctx
            },
            final(self).required_mipmap_levels == old(self).required_mipmap_levels,
    {
        if ts.is_finite() && !ts.is_identity() {
            self.stages.push(Stage::Transform);
            self.ctx.transform = ts;
        }
    }

    /// Records how many mipmap levels the pipeline will sample from.
    pub fn set_required_mipmap_levels(&mut self, levels: usize)
        ensures
            final(self).stages@ == old(self).stages@,
            final(self).ctx == old(self).ctx,
            final(self).required_mipmap_levels == levels,
    {
        self.required_mipmap_levels = levels;
    }
}

} // verus!
