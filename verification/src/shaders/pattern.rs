//! Pattern shaders: an image as a fill.

use vstd::prelude::*;
use crate::blend_mode::BlendMode;
use crate::color::ColorSpace;
use crate::mipmap::{compute_required_levels, required_levels};
use crate::pipeline::{Context, RasterPipelineBuilder, SamplerCtx, Stage, TileCtx};
use crate::pixmap::{PixmapRef, PixmapView};
use crate::scalar::{Scalar, HALF_BITS, ONE_BITS};
use crate::shaders::{Shader, ShaderView, SpreadMode};
use crate::transform::Transform;

verus! {

/// Controls how much filtering to be done when transforming images.
#[derive(Clone, Copy, Debug, PartialEq, Eq, Structural)]
pub enum FilterQuality {
    /// Nearest-neighbor. Low quality, but fastest.
    Nearest,
    /// Bilinear.
    Bilinear,
    /// Bicubic. High quality, but slow.
    Bicubic,
}

/// Controls how a pixmap should be blended.
#[derive(Clone, Copy, Debug, PartialEq)]
pub struct PixmapPaint {
    /// Pixmap opacity, a number of `[0, 1]`.
    pub opacity: Scalar,
    /// Pixmap blending mode.
    pub blend_mode: BlendMode,
    /// Specifies how much filtering to be done when transforming images.
    pub quality: FilterQuality,
}

impl Default for PixmapPaint {
    /// Opaque, source over destination, nearest neighbor.
    fn default() -> (r: PixmapPaint)
        ensures
            r.opacity.bits == ONE_BITS,
            r.blend_mode == BlendMode::SourceOver,
            r.quality == FilterQuality::Nearest,
    {
        PixmapPaint {
            opacity: Scalar::one(),
            blend_mode: BlendMode::SourceOver,
            quality: FilterQuality::Nearest,
        }
    }
}

/// What the caller measured of a pattern for one pipeline.
#[derive(Clone, Copy, Debug, PartialEq)]
pub struct PatternMetrics {
    /// The number of mipmap levels to sample from, where the pattern is
    /// scaled down far enough to want any: what
    /// [`Pattern::required_mipmap_levels`] returned.
    pub mipmap_levels: Option<usize>,
    /// The inverse of the pattern's transform, scaled beforehand by the
    /// ratio of the base image to the mipmap level where one is used.
    /// `None` where that transform has no inverse.
    pub inverse: Option<Transform>,
    /// The width of the image that is sampled from.
    pub width: Scalar,
    /// The height of the image that is sampled from.
    pub height: Scalar,
    /// One divided by `width`.
    pub inv_width: Scalar,
    /// One divided by `height`.
    pub inv_height: Scalar,
}

/// A pattern shader.
#[derive(Clone, Debug, PartialEq)]
pub struct Pattern<'a> {
    pub pixmap: PixmapRef<'a>,
    pub quality: FilterQuality,
    pub spread_mode: SpreadMode,
    pub opacity: Scalar,
    pub transform: Transform,
}

/// A [`Pattern`] as a value of specifications.
pub struct PatternView {
    pub pixmap: PixmapView,
    pub quality: FilterQuality,
    pub spread_mode: SpreadMode,
    pub opacity: Scalar,
    pub transform: Transform,
}

impl<'a> View for Pattern<'a> {
    type V = PatternView;

    open spec fn view(&self) -> PatternView {
        PatternView {
            pixmap: self.pixmap@,
            quality: self.quality,
            spread_mode: self.spread_mode,
            opacity: self.opacity,
            transform: self.transform,
        }
    }
}

impl<'a> Pattern<'a> {
    /// Creates a new pattern shader.
    ///
    /// `opacity` will be clamped to the 0..=1 range; one that is not
    /// finite becomes zero.
    pub fn new(
        pixmap: PixmapRef<'a>,
        spread_mode: SpreadMode,
        quality: FilterQuality,
        opacity: Scalar,
        transform: Transform,
    ) -> (r: Shader<'a>)
        ensures
            r@ == ShaderView::Pattern(
                PatternView {
                    pixmap: pixmap@,
                    quality,
                    spread_mode,
                    opacity: opacity.spec_clamp01(),
                    transform,
                },
            ),
    {
        Shader::Pattern(
            Pattern { pixmap, spread_mode, quality, opacity: opacity.clamp01(), transform },
        )
    }

    /// Whether a pattern under a transform of this scale samples from
    /// mipmaps: it does when it is filtered and both scales are below one
    /// half.
    pub open spec fn minifies(quality: FilterQuality, scale_x: Scalar, scale_y: Scalar) -> bool {
        &&& scale_x.spec_lt(Scalar { bits: HALF_BITS })
        &&& scale_y.spec_lt(Scalar { bits: HALF_BITS })
        &&& quality != FilterQuality::Nearest
    }

    /// The number of mipmap levels that the pattern samples from under a
    /// transform whose scale along the axes is `scale_x` and `scale_y`, or
    /// `None` where it samples from the image itself.
    ///
    /// `scaled` is read as [`compute_required_levels`] reads it.
    pub fn required_mipmap_levels(
        &self,
        scale_x: Scalar,
        scale_y: Scalar,
        scaled: &Vec<(Scalar, Scalar)>,
    ) -> (r: Option<usize>)
        ensures
            r is Some == Self::minifies(self.quality, scale_x, scale_y),
            r matches Some(levels) ==> levels == required_levels(
                self.pixmap@.width,
                self.pixmap@.height,
                scaled@,
                0,
            ),
    {
        if scale_x.lt(Scalar::half()) && scale_y.lt(Scalar::half()) && !matches!(
            self.quality,
            FilterQuality::Nearest
        ) {
            Some(compute_required_levels(self.pixmap, scaled))
        } else {
            None
        }
    }

    /// The quality that is sampled with: a transform that at most
    /// translates leaves nothing to filter.
    pub open spec fn effective_quality(quality: FilterQuality, ts: Transform) -> FilterQuality {
        if ts.spec_is_identity() || ts.spec_is_translate() {
            FilterQuality::Nearest
        } else {
            quality
        }
    }

    /// The stages that sample the image.
    pub open spec fn sampling_stages(quality: FilterQuality, spread_mode: SpreadMode) -> Seq<Stage> {
        match quality {
            FilterQuality::Nearest => match spread_mode {
                SpreadMode::Pad => seq![Stage::Gather],
                SpreadMode::Repeat => seq![Stage::Repeat, Stage::Gather],
                SpreadMode::Reflect => seq![Stage::Reflect, Stage::Gather],
            },
            FilterQuality::Bilinear => seq![Stage::Bilinear],
            FilterQuality::Bicubic => seq![Stage::Bicubic, Stage::Clamp0, Stage::ClampA],
        }
    }

    /// Computes [`Pattern::sampling_stages`].
    pub fn sampling(quality: FilterQuality, spread_mode: SpreadMode) -> (r: Vec<Stage>)
        ensures
            r@ == Self::sampling_stages(quality, spread_mode),
    {
        let mut r: Vec<Stage> = Vec::new();
        match quality {
            FilterQuality::Nearest => {
                match spread_mode {
                    SpreadMode::Pad => {},
                    SpreadMode::Repeat => r.push(Stage::Repeat),
                    SpreadMode::Reflect => r.push(Stage::Reflect),
                }
                r.push(Stage::Gather);
            },
            FilterQuality::Bilinear => {
                r.push(Stage::Bilinear);
            },
            FilterQuality::Bicubic => {
                r.push(Stage::Bicubic);
                r.push(Stage::Clamp0);
                r.push(Stage::ClampA);
            },
        }
        assert(r@ =~= Self::sampling_stages(quality, spread_mode));
        r
    }

    /// The stages up to the sampling, in order: the seed, the transform
    /// when it is one the pipeline records, and the sampling.
    pub open spec fn head_stages(self, ts: Transform) -> Seq<Stage> {
        seq![Stage::SeedShader] + (if RasterPipelineBuilder::takes_transform(ts) {
            seq![Stage::Transform]
        } else {
            Seq::<Stage>::empty()
        }) + Self::sampling_stages(Self::effective_quality(self.quality, ts), self.spread_mode)
    }

    /// The stages after the sampling: the opacity unless it is one, and
    /// the gamma expansion where the color space has one.
    pub open spec fn tail_stages(self, cs: ColorSpace) -> Seq<Stage> {
        (if !self.opacity.same(Scalar { bits: ONE_BITS }) {
            seq![Stage::Scale1Float]
        } else {
            Seq::<Stage>::empty()
        }) + (match cs.spec_expand_stage() {
            Some(stage) => seq![stage],
            None => Seq::<Stage>::empty(),
        })
    }

    /// All stages of the pattern, in order.
    pub open spec fn stages(self, cs: ColorSpace, ts: Transform) -> Seq<Stage> {
        self.head_stages(ts) + self.tail_stages(cs)
    }

    /// What the sampling stages read, written over `before`: the transform
    /// where the pipeline records it, the tile limits for the nearest
    /// neighbor and the sampler otherwise.
    pub open spec fn sampling_context(self, before: Context, ts: Transform, measured: PatternMetrics)
        -> Context {
        let nearest = Self::effective_quality(self.quality, ts) == FilterQuality::Nearest;
        Context {
            transform: if RasterPipelineBuilder::takes_transform(ts) {
                ts
            } else {
                before.transform
            },
            limit_x: if nearest {
                TileCtx { scale: measured.width, inv_scale: measured.inv_width }
            } else {
                before.limit_x
            },
            limit_y: if nearest {
                TileCtx { scale: measured.height, inv_scale: measured.inv_height }
            } else {
                before.limit_y
            },
            sampler: if nearest {
                before.sampler
            } else {
                SamplerCtx {
                    spread_mode: self.spread_mode,
                    inv_width: measured.inv_width,
                    inv_height: measured.inv_height,
                }
            },
            ..before
        }
    }

    /// The context that the stages of the pattern read, written over
    /// `before`: what the sampling reads, and the opacity unless it is one.
    pub open spec fn context(self, before: Context, ts: Transform, measured: PatternMetrics)
        -> Context {
        let sampling = self.sampling_context(before, ts, measured);
        Context {
            current_coverage: if !self.opacity.same(Scalar { bits: ONE_BITS }) {
                self.opacity
            } else {
                before.current_coverage
            },
            ..sampling
        }
    }

    /// Pushes the stages up to the sampling and writes what they read.
    fn push_head(&self, p: &mut RasterPipelineBuilder, ts: Transform, measured: PatternMetrics)
        ensures
            final(p).required_mipmap_levels == old(p).required_mipmap_levels,
            final(p).stages@ == old(p).stages@ + self.head_stages(ts),
            final(p).ctx == self.sampling_context(old(p).ctx, ts, measured),
    {
        let nearest = ts.is_identity() || ts.is_translate() || matches!(
            self.quality,
            FilterQuality::Nearest
        );
        let quality = if nearest {
            FilterQuality::Nearest
        } else {
            self.quality
        };
        let sampling = Self::sampling(quality, self.spread_mode);
        p.push(Stage::SeedShader);
        p.push_transform(ts);
        if nearest {
            p.ctx.limit_x = TileCtx { scale: measured.width, inv_scale: measured.inv_width };
            p.ctx.limit_y = TileCtx { scale: measured.height, inv_scale: measured.inv_height };
        } else {
            p.ctx.sampler = SamplerCtx {
                spread_mode: self.spread_mode,
                inv_width: measured.inv_width,
                inv_height: measured.inv_height,
            };
        }
        p.push_all(&sampling);
        assert(p.stages@ =~= old(p).stages@ + self.head_stages(ts));
    }

    /// Pushes the stages after the sampling and writes the opacity.
    fn push_tail(&self, cs: ColorSpace, p: &mut RasterPipelineBuilder)
        ensures
            final(p).required_mipmap_levels == old(p).required_mipmap_levels,
            final(p).stages@ == old(p).stages@ + self.tail_stages(cs),
            final(p).ctx == (Context {
                current_coverage: if !self.opacity.same(Scalar { bits: ONE_BITS }) {
                    self.opacity
                } else {
                    old(p).ctx.current_coverage
                },
                ..old(p).ctx
            }),
    {
        if !self.opacity.is_same(Scalar::one()) {
            p.ctx.current_coverage = self.opacity;
            p.push(Stage::Scale1Float);
        }
        match cs.expand_stage() {
            Some(stage) => p.push(stage),
            None => {},
        }
        assert(p.stages@ =~= old(p).stages@ + self.tail_stages(cs));
    }

    /// Records the mipmap levels where the pattern samples from any,
    /// and pushes the pattern's stages.
    ///
    /// Where the transform has no inverse no stage is pushed and the
    /// result is `false`.
    pub fn push_stages(
        &self,
        cs: ColorSpace,
        p: &mut RasterPipelineBuilder,
        measured: PatternMetrics,
    ) -> (pushed: bool)
        ensures
            pushed == measured.inverse.is_some(),
            final(p).required_mipmap_levels == (match measured.mipmap_levels {
                Some(levels) => levels,
                None => old(p).required_mipmap_levels,
            }),
            measured.inverse is None ==> final(p).stages@ == old(p).stages@ && final(p).ctx == old(
                p,
            ).ctx,
            measured.inverse matches Some(ts) ==> {
                &&& final(p).stages@ == old(p).stages@ + self.stages(cs, ts)
                &&& final(p).ctx == self.context(old(p).ctx, ts, measured)
            },
    {
        match measured.mipmap_levels {
            Some(levels) => p.set_required_mipmap_levels(levels),
            None => {},
        }
        let ts = match measured.inverse {
            Some(ts) => ts,
            None => {
                return false;
            },
        };
        self.push_head(p, ts, measured);
        self.push_tail(cs, p);
        assert(p.stages@ =~= old(p).stages@ + self.stages(cs, ts));
        true
    }
}

} // verus!
