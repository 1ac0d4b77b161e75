use raster_core::blend_mode::BlendMode;
use raster_core::color::{ColorSpace, PremultipliedColorU8};
use raster_core::pipeline::{RasterPipelineBuilder, SamplerCtx, Stage, TileCtx};
use raster_core::pixmap::{Pixmap, PixmapRef};
use raster_core::scalar::Scalar;
use raster_core::shaders::pattern::{FilterQuality, Pattern, PatternMetrics, PixmapPaint};
use raster_core::shaders::{Shader, SpreadMode};
use raster_core::transform::Transform;

fn f(x: f32) -> Scalar {
    Scalar::from_bits(x.to_bits())
}

fn image(width: u32, height: u32) -> Pixmap {
    Pixmap::new(width, height).unwrap()
}

fn pattern<'a>(
    pixmap: PixmapRef<'a>,
    mode: SpreadMode,
    quality: FilterQuality,
    opacity: f32,
) -> Pattern<'a> {
    match Pattern::new(pixmap, mode, quality, f(opacity), Transform::identity()) {
        Shader::Pattern(p) => p,
        other => panic!("not a pattern: {other:?}"),
    }
}

fn metrics(inverse: Option<Transform>) -> PatternMetrics {
    PatternMetrics {
        mipmap_levels: None,
        inverse,
        width: f(8.0),
        height: f(4.0),
        inv_width: f(0.125),
        inv_height: f(0.25),
    }
}

fn scaling() -> Transform {
    Transform::from_row(f(2.0), f(0.0), f(0.0), f(2.0), f(0.0), f(0.0))
}

#[test]
fn opacity_is_clamped() {
    let img = image(8, 4);
    assert_eq!(pattern(img.as_ref(), SpreadMode::Pad, FilterQuality::Nearest, 1.5).opacity, f(1.0));
    assert_eq!(pattern(img.as_ref(), SpreadMode::Pad, FilterQuality::Nearest, -1.0).opacity, f(0.0));
    assert_eq!(pattern(img.as_ref(), SpreadMode::Pad, FilterQuality::Nearest, 0.5).opacity, f(0.5));
    assert_eq!(
        pattern(img.as_ref(), SpreadMode::Pad, FilterQuality::Nearest, f32::NAN).opacity,
        f(0.0)
    );
    let p = pattern(img.as_ref(), SpreadMode::Reflect, FilterQuality::Bicubic, 0.5);
    assert_eq!(p.quality, FilterQuality::Bicubic);
    assert_eq!(p.spread_mode, SpreadMode::Reflect);
    assert_eq!(p.transform, Transform::identity());
    assert_eq!(p.pixmap.width(), 8);
    assert_eq!(p.pixmap.height(), 4);
}

#[test]
fn default_paint_is_opaque_source_over_nearest() {
    let paint = PixmapPaint::default();
    assert_eq!(paint.opacity, f(1.0));
    assert_eq!(paint.blend_mode, BlendMode::SourceOver);
    assert_eq!(paint.quality, FilterQuality::Nearest);
    assert_eq!(BlendMode::default(), BlendMode::SourceOver);
}

#[test]
fn nearest_gathers_within_the_tile() {
    let img = image(8, 4);
    for (mode, wrap) in [
        (SpreadMode::Pad, vec![]),
        (SpreadMode::Repeat, vec![Stage::Repeat]),
        (SpreadMode::Reflect, vec![Stage::Reflect]),
    ] {
        let p = pattern(img.as_ref(), mode, FilterQuality::Nearest, 1.0);
        let mut b = RasterPipelineBuilder::new();
        assert!(p.push_stages(ColorSpace::Linear, &mut b, metrics(Some(scaling()))));
        let mut want = vec![Stage::SeedShader, Stage::Transform];
        want.extend(wrap);
        want.push(Stage::Gather);
        assert_eq!(b.stages, want);
        assert_eq!(b.ctx.limit_x, TileCtx { scale: f(8.0), inv_scale: f(0.125) });
        assert_eq!(b.ctx.limit_y, TileCtx { scale: f(4.0), inv_scale: f(0.25) });
        assert_eq!(b.ctx.transform, scaling());
        assert_eq!(b.required_mipmap_levels, 0);
    }
}

#[test]
fn filters_use_the_sampler() {
    let img = image(8, 4);
    let p = pattern(img.as_ref(), SpreadMode::Repeat, FilterQuality::Bilinear, 1.0);
    let mut b = RasterPipelineBuilder::new();
    assert!(p.push_stages(ColorSpace::Linear, &mut b, metrics(Some(scaling()))));
    assert_eq!(b.stages, vec![Stage::SeedShader, Stage::Transform, Stage::Bilinear]);
    assert_eq!(
        b.ctx.sampler,
        SamplerCtx { spread_mode: SpreadMode::Repeat, inv_width: f(0.125), inv_height: f(0.25) }
    );
    let p = pattern(img.as_ref(), SpreadMode::Reflect, FilterQuality::Bicubic, 0.5);
    let mut b = RasterPipelineBuilder::new();
    assert!(p.push_stages(ColorSpace::FullSRGBGamma, &mut b, metrics(Some(scaling()))));
    assert_eq!(
        b.stages,
        vec![
            Stage::SeedShader,
            Stage::Transform,
            Stage::Bicubic,
            Stage::Clamp0,
            Stage::ClampA,
            Stage::Scale1Float,
            Stage::GammaExpandSrgb,
        ]
    );
    assert_eq!(b.ctx.current_coverage, f(0.5));
}

#[test]
fn translation_leaves_nothing_to_filter() {
    let img = image(8, 4);
    for ts in [Transform::identity(), Transform::from_translate(f(1.5), f(0.0))] {
        for quality in [FilterQuality::Bilinear, FilterQuality::Bicubic] {
            let p = pattern(img.as_ref(), SpreadMode::Pad, quality, 1.0);
            let mut b = RasterPipelineBuilder::new();
            assert!(p.push_stages(ColorSpace::Linear, &mut b, metrics(Some(ts))));
            assert_eq!(*b.stages.last().unwrap(), Stage::Gather);
            assert_eq!(b.stages[0], Stage::SeedShader);
            assert_eq!(b.stages.len(), if ts.is_identity() { 2 } else { 3 });
        }
    }
}

#[test]
fn no_inverse_no_stages() {
    let img = image(8, 4);
    let p = pattern(img.as_ref(), SpreadMode::Pad, FilterQuality::Bilinear, 0.5);
    let mut b = RasterPipelineBuilder::new();
    let measured = PatternMetrics { mipmap_levels: Some(2), ..metrics(None) };
    assert!(!p.push_stages(ColorSpace::Linear, &mut b, measured));
    assert!(b.stages.is_empty());
    assert_eq!(b.required_mipmap_levels, 2);
}

#[test]
fn minified_patterns_ask_for_mipmaps() {
    let img = image(64, 16);
    let scaled = vec![
        (f(0.1), f(0.1)),
        (f(0.2), f(0.2)),
        (f(0.4), f(0.4)),
        (f(0.8), f(0.8)),
        (f(0.1), f(0.1)),
    ];
    let p = pattern(img.as_ref(), SpreadMode::Pad, FilterQuality::Bilinear, 1.0);
    assert_eq!(p.required_mipmap_levels(f(0.1), f(0.1), &scaled), Some(3));
    assert_eq!(p.required_mipmap_levels(f(0.5), f(0.1), &scaled), None);
    assert_eq!(p.required_mipmap_levels(f(0.1), f(0.6), &scaled), None);
    assert_eq!(p.required_mipmap_levels(f(f32::NAN), f(0.1), &scaled), None);
    let q = pattern(img.as_ref(), SpreadMode::Pad, FilterQuality::Nearest, 1.0);
    assert_eq!(q.required_mipmap_levels(f(0.1), f(0.1), &scaled), None);
    let mut b = RasterPipelineBuilder::new();
    let measured = PatternMetrics { mipmap_levels: Some(3), ..metrics(Some(scaling())) };
    assert!(p.push_stages(ColorSpace::Linear, &mut b, measured));
    assert_eq!(b.required_mipmap_levels, 3);
}

#[test]
fn images_need_a_pixel_for_each_place() {
    let pixels = vec![PremultipliedColorU8::transparent(); 6];
    assert!(PixmapRef::from_pixels(&pixels, 3, 2).is_some());
    assert!(PixmapRef::from_pixels(&pixels, 2, 3).is_some());
    assert!(PixmapRef::from_pixels(&pixels, 3, 3).is_none());
    assert!(PixmapRef::from_pixels(&pixels, 0, 6).is_none());
    assert!(PixmapRef::from_pixels(&pixels, 6, 0).is_none());
    assert!(PixmapRef::from_pixels(&[], 0, 0).is_none());
    assert!(Pixmap::new(0, 1).is_none());
    assert!(Pixmap::new(1, 0).is_none());
    assert!(Pixmap::new(0x2000_0000, 1).is_none());
    let img = Pixmap::new(3, 2).unwrap();
    assert_eq!(img.pixels().len(), 6);
    assert!(img.pixels().iter().all(|p| *p == PremultipliedColorU8::transparent()));
    assert!(Pixmap::from_vec(pixels.clone(), 3, 2).is_some());
    assert!(Pixmap::from_vec(pixels, 4, 2).is_none());
}
