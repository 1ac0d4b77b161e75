use raster_core::color::{Color, ColorSpace};
use raster_core::pipeline::{RasterPipelineBuilder, Stage};
use raster_core::point::Point;
use raster_core::scalar::Scalar;
use raster_core::shaders::gradient::{
    check_positions_ascend, color_without_interpolation, find_stop, hard_edge_stops, pad, Gradient,
    GradientStop,
};
use raster_core::shaders::SpreadMode;
use raster_core::transform::Transform;
use tiny_skia_path as tsp;

fn v(x: f32) -> Scalar {
    Scalar::from_bits(x.to_bits())
}

fn shade(level: f32, alpha: f32) -> Color {
    Color::from_rgba(v(level), v(level), v(level), v(alpha)).unwrap()
}

fn stops_at(positions: &[f32]) -> Vec<GradientStop> {
    positions.iter().map(|&p| GradientStop { position: v(p), color: shade(p.abs().min(1.0), 1.0) }).collect()
}

fn lib_ts(ts: tsp::Transform) -> Transform {
    Transform::from_row(v(ts.sx), v(ts.ky), v(ts.kx), v(ts.sy), v(ts.tx), v(ts.ty))
}

fn transforms() -> Vec<tsp::Transform> {
    vec![
        tsp::Transform::identity(),
        tsp::Transform::from_translate(1.0, 0.0),
        tsp::Transform::from_translate(0.0, -2.5),
        tsp::Transform::from_translate(-0.0, 0.0),
        tsp::Transform::from_scale(2.0, 1.0),
        tsp::Transform::from_scale(1.0, 1.0),
        tsp::Transform::from_skew(0.5, 0.0),
        tsp::Transform::from_row(1.0, 0.0, 0.0, 1.0, f32::NAN, 0.0),
        tsp::Transform::from_row(1.0, 0.0, 0.0, 1.0, f32::INFINITY, 0.0),
        tsp::Transform::from_row(f32::NAN, 0.0, 0.0, 1.0, 0.0, 0.0),
        tsp::Transform::from_row(1.0, -0.0, -0.0, 1.0, -0.0, -0.0),
        tsp::Transform::from_row(2.0, 3.0, 4.0, 5.0, 6.0, 7.0),
        tsp::Transform::from_row(0.0, 0.0, 0.0, 0.0, 0.0, 0.0),
    ]
}

#[test]
fn transform_classes_agree_with_the_float_transform() {
    for ts in transforms() {
        let c = lib_ts(ts);
        assert_eq!(c.is_identity(), ts.is_identity(), "{ts:?}");
        assert_eq!(c.is_translate(), ts.is_translate(), "{ts:?}");
        assert_eq!(c.is_finite(), ts.is_finite(), "{ts:?}");
        assert_eq!(c.has_scale(), ts.has_scale(), "{ts:?}");
        assert_eq!(c.has_skew(), ts.has_skew(), "{ts:?}");
        assert_eq!(c.has_translate(), ts.has_translate(), "{ts:?}");
    }
    assert_eq!(Transform::identity(), lib_ts(tsp::Transform::identity()));
    assert_eq!(Transform::from_translate(v(3.0), v(4.0)), lib_ts(tsp::Transform::from_translate(3.0, 4.0)));
    let rows = Transform::from_row(v(1.0), v(2.0), v(3.0), v(4.0), v(5.0), v(6.0));
    assert_eq!((rows.sx, rows.ky, rows.kx, rows.sy, rows.tx, rows.ty), (v(1.0), v(2.0), v(3.0), v(4.0), v(5.0), v(6.0)));
}

#[test]
fn points_compare_as_numbers() {
    assert_eq!(Point::from_xy(v(0.0), v(-0.0)), Point::zero());
    assert_ne!(Point::from_xy(v(f32::NAN), v(0.0)), Point::from_xy(v(f32::NAN), v(0.0)));
    assert!(Point::from_xy(v(1.0), v(2.0)).is_same(Point::from_xy(v(1.0), v(2.0))));
    assert!(!Point::from_xy(v(1.0), v(2.0)).is_same(Point::from_xy(v(2.0), v(1.0))));
    assert!(Point::from_xy(v(1.0), v(2.0)).is_finite());
    assert!(!Point::from_xy(v(1.0), v(f32::INFINITY)).is_finite());
    assert!(!Point::from_xy(v(f32::NAN), v(2.0)).is_finite());
}

#[test]
fn a_new_pipeline_is_blank() {
    let p = RasterPipelineBuilder::new();
    assert!(p.stages.is_empty());
    assert_eq!(p.required_mipmap_levels, 0);
    assert_eq!(p.ctx.transform, Transform::identity());
    assert_eq!(p.ctx.current_coverage, v(0.0));
    assert_eq!(p.ctx.two_point_conical_gradient.p0, v(0.0));
    assert_eq!(p.ctx.sampler.spread_mode, SpreadMode::Pad);
    assert_eq!(p.ctx.limit_x.scale, v(0.0));
}

#[test]
fn the_pipeline_records_transforms_that_do_something() {
    for ts in transforms() {
        let mut p = RasterPipelineBuilder::new();
        p.push(Stage::SeedShader);
        p.push_transform(lib_ts(ts));
        if ts.is_finite() && !ts.is_identity() {
            assert_eq!(p.stages, vec![Stage::SeedShader, Stage::Transform]);
            assert_eq!(p.ctx.transform.tx.to_bits(), ts.tx.to_bits());
        } else {
            assert_eq!(p.stages, vec![Stage::SeedShader]);
            assert_eq!(p.ctx.transform, Transform::identity());
        }
    }
    let mut p = RasterPipelineBuilder::new();
    p.push_all(&vec![Stage::Gather, Stage::Clamp0]);
    p.push_all(&vec![]);
    p.push_all(&vec![Stage::ClampA]);
    p.set_required_mipmap_levels(4);
    assert_eq!(p.stages, vec![Stage::Gather, Stage::Clamp0, Stage::ClampA]);
    assert_eq!(p.required_mipmap_levels, 4);
}

#[test]
fn color_spaces_expand_by_their_own_stage() {
    assert_eq!(ColorSpace::Linear.expand_stage(), None);
    assert_eq!(ColorSpace::Gamma2.expand_stage(), Some(Stage::GammaExpand2));
    assert_eq!(ColorSpace::SimpleSRGB.expand_stage(), Some(Stage::GammaExpand22));
    assert_eq!(ColorSpace::FullSRGBGamma.expand_stage(), Some(Stage::GammaExpandSrgb));
}

#[test]
fn ascending_positions_are_told_from_others() {
    assert!(check_positions_ascend(&stops_at(&[])));
    assert!(check_positions_ascend(&stops_at(&[0.5])));
    assert!(check_positions_ascend(&stops_at(&[0.0, 0.5, 1.0])));
    assert!(check_positions_ascend(&stops_at(&[0.0, 1.0, 1.0])));
    assert!(check_positions_ascend(&stops_at(&[-0.0, 0.0, 0.25, 0.25])));
    assert!(!check_positions_ascend(&stops_at(&[0.0, 1.0, 0.5])));
    assert!(!check_positions_ascend(&stops_at(&[0.5, 0.25])));
    assert!(!check_positions_ascend(&stops_at(&[f32::NAN])));
    assert!(!check_positions_ascend(&stops_at(&[0.0, f32::NAN, 1.0])));
    assert!(!check_positions_ascend(&stops_at(&[0.0, 0.5, f32::NAN])));
}

#[test]
fn gradients_wrap_look_up_and_expand_in_that_order() {
    let stops = vec![GradientStop::new(v(0.0), shade(0.0, 1.0)), GradientStop::new(v(1.0), shade(1.0, 0.25))];
    for (mode, wrap) in [
        (SpreadMode::Pad, Stage::PadX1),
        (SpreadMode::Reflect, Stage::ReflectX1),
        (SpreadMode::Repeat, Stage::RepeatX1),
    ] {
        let g = Gradient::new(stops.clone(), mode, Transform::identity(), vec![]);
        assert!(!g.colors_are_opaque);
        assert_eq!(g.stops, stops);
        assert_eq!(g.spread_mode, mode);
        let mut p = RasterPipelineBuilder::new();
        p.push(Stage::SeedShader);
        let pushed = g.push_stages(
            &mut p,
            ColorSpace::SimpleSRGB,
            &vec![Stage::XYToRadius],
            &vec![Stage::ApplyVectorMask],
            Some(lib_ts(tsp::Transform::from_scale(2.0, 2.0))),
        );
        assert!(pushed);
        assert_eq!(
            p.stages,
            vec![
                Stage::SeedShader,
                Stage::Transform,
                Stage::XYToRadius,
                wrap,
                Stage::Gradient,
                Stage::GammaExpand22,
                Stage::ApplyVectorMask,
            ]
        );
        let mut q = RasterPipelineBuilder::new();
        assert!(!g.push_stages(&mut q, ColorSpace::Linear, &vec![Stage::XYToRadius], &vec![], None));
        assert!(q.stages.is_empty());
    }
}

#[test]
fn padding_clamps_the_parameter() {
    for (t, want) in [
        (-1.0f32, 0.0f32),
        (-0.0, 0.0),
        (0.0, 0.0),
        (0.25, 0.25),
        (1.0, 1.0),
        (1.5, 1.0),
        (f32::INFINITY, 1.0),
        (f32::NEG_INFINITY, 0.0),
        (f32::NAN, 0.0),
    ] {
        assert_eq!(pad(v(t)), v(want), "{t:?}");
        assert_eq!(pad(v(t)), v(t.max(0.0).min(1.0)), "{t:?}");
    }
}

#[test]
fn stops_are_found_by_bisection() {
    let stops = stops_at(&[0.0, 0.25, 0.25, 0.5, 0.75, 1.0, 1.0]);
    for (t, count) in [
        (-1.0f32, 0usize),
        (-0.0, 1),
        (0.0, 1),
        (0.1, 1),
        (0.25, 3),
        (0.3, 3),
        (0.5, 4),
        (0.99, 5),
        (1.0, 7),
        (2.0, 7),
        (f32::INFINITY, 7),
        (f32::NAN, 0),
    ] {
        assert_eq!(find_stop(&stops, v(t)), count, "{t:?}");
        let linear = stops.iter().filter(|s| f32::from_bits(s.position.to_bits()) <= t).count();
        assert_eq!(find_stop(&stops, v(t)), linear, "{t:?}");
    }
    assert_eq!(find_stop(&vec![], v(0.5)), 0);
    for n in 1..20usize {
        let positions: Vec<f32> = (0..n).map(|i| i as f32 / n as f32).collect();
        let stops = stops_at(&positions);
        for k in 0..=(2 * n) {
            let t = k as f32 / (2 * n) as f32 - 0.01;
            let linear = positions.iter().filter(|&&p| p <= t).count();
            assert_eq!(find_stop(&stops, v(t)), linear);
        }
    }
}

#[test]
fn a_hard_edge_needs_no_interpolation() {
    let first = shade(0.25, 1.0);
    let last = shade(0.75, 1.0);
    let stops = vec![
        GradientStop::new(v(0.0), first),
        GradientStop::new(v(0.5), shade(0.5, 1.0)),
        GradientStop::new(v(1.0), last),
    ];
    let table = hard_edge_stops(&stops);
    assert!(check_positions_ascend(&table));
    for t in [-5.0f32, -0.0, 0.0, 0.5, 0.999_999_9, f32::NAN, f32::NEG_INFINITY] {
        assert_eq!(color_without_interpolation(&table, pad(v(t))), Some(first), "{t:?}");
    }
    for t in [1.0f32, 1.000_000_1, 2.0, f32::INFINITY] {
        assert_eq!(color_without_interpolation(&table, pad(v(t))), Some(last), "{t:?}");
    }
    assert_eq!(color_without_interpolation(&stops, v(0.25)), None);
    assert_eq!(color_without_interpolation(&stops, v(0.75)), None);
    assert_eq!(color_without_interpolation(&stops, v(-0.5)), Some(first));
    assert_eq!(color_without_interpolation(&stops, v(1.0)), Some(last));
    assert_eq!(color_without_interpolation(&stops, v(3.0)), Some(last));
}

#[test]
fn colors_are_identical_bit_for_bit() {
    let a = Color { r: v(0.0), g: v(0.5), b: v(1.0), a: v(1.0) };
    let b = Color { r: v(-0.0), g: v(0.5), b: v(1.0), a: v(1.0) };
    assert!(a.is_identical(a));
    assert!(!a.is_identical(b));
    assert_eq!(a, b);
}
