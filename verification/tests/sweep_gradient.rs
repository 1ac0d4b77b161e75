use raster_core::color::{Color, ColorSpace};
use raster_core::pipeline::{RasterPipelineBuilder, Stage, TwoPointConicalGradientCtx};
use raster_core::point::Point;
use raster_core::scalar::Scalar;
use raster_core::shaders::gradient::GradientStop;
use raster_core::shaders::sweep_gradient::{SweepGradient, SweepMetrics};
use raster_core::shaders::{Shader, SpreadMode};
use raster_core::transform::{MatrixStep, Transform};
use tiny_skia_path as tsp;

fn num(x: f32) -> Scalar {
    Scalar::from_bits(x.to_bits())
}

fn rgb(r: f32, g: f32, b: f32) -> Color {
    Color::from_rgba(num(r), num(g), num(b), num(1.0)).unwrap()
}

fn red_to_blue() -> Vec<GradientStop> {
    vec![
        GradientStop::new(num(0.0), rgb(1.0, 0.0, 0.0)),
        GradientStop::new(num(1.0), rgb(0.0, 0.0, 1.0)),
    ]
}

fn sweep(
    center: (f32, f32),
    start: f32,
    end: f32,
    stops: Vec<GradientStop>,
    mode: SpreadMode,
    ts: tsp::Transform,
) -> Option<Shader<'static>> {
    let measured = SweepMetrics {
        invertible: ts.invert().is_some(),
        angle_delta: num(start - end),
        t0: num(start / 360.0),
        t1: num(end / 360.0),
    };
    SweepGradient::new(
        Point::from_xy(num(center.0), num(center.1)),
        num(start),
        num(end),
        stops,
        mode,
        Transform::from_row(num(ts.sx), num(ts.ky), num(ts.kx), num(ts.sy), num(ts.tx), num(ts.ty)),
        measured,
    )
}

fn sweep_of(shader: Option<Shader<'static>>) -> SweepGradient {
    match shader {
        Some(Shader::SweepGradient(g)) => g,
        other => panic!("not a sweep gradient: {other:?}"),
    }
}

fn coefficients(g: &SweepGradient) -> TwoPointConicalGradientCtx {
    let t0 = f32::from_bits(g.t0.to_bits());
    let t1 = f32::from_bits(g.t1.to_bits());
    let scale = 1.0 / (t1 - t0);
    TwoPointConicalGradientCtx { p0: num(scale), p1: num(-scale * t0) }
}

#[test]
fn full_turn_pads() {
    let id = tsp::Transform::identity();
    for mode in [SpreadMode::Pad, SpreadMode::Reflect, SpreadMode::Repeat] {
        let g = sweep_of(sweep((0.0, 0.0), 0.0, 360.0, red_to_blue(), mode, id));
        assert_eq!(g.base.spread_mode, SpreadMode::Pad);
        assert_eq!(g.t0, num(0.0));
        assert_eq!(g.t1, num(1.0));
        assert_eq!(g.base.stops, red_to_blue());
        assert!(g.is_opaque());
        let mut p = RasterPipelineBuilder::new();
        assert!(g.push_stages(ColorSpace::Linear, &mut p, Some(Transform::identity()), coefficients(&g)));
        assert_eq!(p.stages, vec![Stage::XYToUnitAngle, Stage::PadX1, Stage::Gradient]);
    }
    let wide = sweep_of(sweep((0.0, 0.0), -10.0, 400.0, red_to_blue(), SpreadMode::Repeat, id));
    assert_eq!(wide.base.spread_mode, SpreadMode::Pad);
}

#[test]
fn part_of_a_turn_keeps_its_mode() {
    let id = tsp::Transform::identity();
    let g = sweep_of(sweep((3.0, -4.0), 90.0, 180.0, red_to_blue(), SpreadMode::Repeat, id));
    assert_eq!(g.base.spread_mode, SpreadMode::Repeat);
    assert_eq!(g.t0, num(0.25));
    assert_eq!(g.t1, num(0.5));
    assert_eq!(
        g.base.points_to_unit,
        vec![MatrixStep::Translate { tx: num(-3.0), ty: num(4.0) }]
    );
    let mut p = RasterPipelineBuilder::new();
    assert!(g.push_stages(ColorSpace::Gamma2, &mut p, Some(Transform::identity()), coefficients(&g)));
    assert_eq!(
        p.stages,
        vec![
            Stage::XYToUnitAngle,
            Stage::ApplyConcentricScaleBias,
            Stage::RepeatX1,
            Stage::Gradient,
            Stage::GammaExpand2,
        ]
    );
    assert_eq!(p.ctx.two_point_conical_gradient.p0, num(4.0));
    assert_eq!(p.ctx.two_point_conical_gradient.p1, num(-1.0));
}

#[test]
fn a_half_turn_is_rescaled_by_two() {
    let id = tsp::Transform::identity();
    let g = sweep_of(sweep((0.0, 0.0), 0.0, 180.0, red_to_blue(), SpreadMode::Pad, id));
    assert_eq!(g.t0, num(0.0));
    assert_eq!(g.t1, num(0.5));
    let mut p = RasterPipelineBuilder::new();
    assert!(g.push_stages(ColorSpace::Linear, &mut p, Some(Transform::identity()), coefficients(&g)));
    assert_eq!(
        p.stages,
        vec![Stage::XYToUnitAngle, Stage::ApplyConcentricScaleBias, Stage::PadX1, Stage::Gradient]
    );
    assert_eq!(p.ctx.two_point_conical_gradient.p0, num(2.0));
    assert_eq!(p.ctx.two_point_conical_gradient.p1, num(0.0));
    let half_a_turn = 0.5 * f32::from_bits(p.ctx.two_point_conical_gradient.p0.to_bits())
        + f32::from_bits(p.ctx.two_point_conical_gradient.p1.to_bits());
    assert_eq!(half_a_turn, 1.0);
}

#[test]
fn a_rescale_needs_a_scale_or_a_bias() {
    let id = tsp::Transform::identity();
    let g = sweep_of(sweep((0.0, 0.0), 0.0, 180.0, red_to_blue(), SpreadMode::Reflect, id));
    for (scale, bias, rescaled) in [
        (1.0f32, 0.0f32, false),
        (1.0, -0.0, false),
        (2.0, 0.0, true),
        (2.0, -0.0, true),
        (1.0, 0.5, true),
        (4.0, -1.0, true),
        (f32::NAN, 0.0, true),
        (1.0, f32::NAN, true),
        (f32::INFINITY, 0.0, true),
    ] {
        let mut p = RasterPipelineBuilder::new();
        let measured = TwoPointConicalGradientCtx { p0: num(scale), p1: num(bias) };
        assert!(g.push_stages(ColorSpace::Linear, &mut p, Some(Transform::identity()), measured));
        let mut want = vec![Stage::XYToUnitAngle];
        if rescaled {
            want.push(Stage::ApplyConcentricScaleBias);
        }
        want.extend([Stage::ReflectX1, Stage::Gradient]);
        assert_eq!(p.stages, want, "{scale:?} {bias:?}");
    }
    let mut q = RasterPipelineBuilder::new();
    assert!(!g.push_stages(ColorSpace::Linear, &mut q, None, coefficients(&g)));
    assert!(q.stages.is_empty());
    assert_eq!(q.ctx.two_point_conical_gradient.p0, num(2.0));
}

#[test]
fn empty_range_fails_unless_it_pads() {
    let id = tsp::Transform::identity();
    for mode in [SpreadMode::Reflect, SpreadMode::Repeat] {
        assert_eq!(sweep((0.0, 0.0), 90.0, 90.0, red_to_blue(), mode, id), None);
        assert_eq!(sweep((0.0, 0.0), 0.0, 0.0, red_to_blue(), mode, id), None);
    }
    assert_eq!(sweep((0.0, 0.0), 0.0, 0.0, red_to_blue(), SpreadMode::Pad, id), None);
    assert_eq!(sweep((0.0, 0.0), -90.0, -90.0, red_to_blue(), SpreadMode::Pad, id), None);
}

#[test]
fn empty_range_pads_to_a_hard_edge() {
    let id = tsp::Transform::identity();
    let stops = vec![
        GradientStop::new(num(0.0), rgb(1.0, 0.0, 0.0)),
        GradientStop::new(num(0.5), rgb(0.0, 1.0, 0.0)),
        GradientStop::new(num(1.0), rgb(0.0, 0.0, 1.0)),
    ];
    let g = sweep_of(sweep((1.0, 1.0), 90.0, 90.0, stops, SpreadMode::Pad, id));
    assert_eq!(
        g.base.stops,
        vec![
            GradientStop::new(num(0.0), rgb(1.0, 0.0, 0.0)),
            GradientStop::new(num(1.0), rgb(1.0, 0.0, 0.0)),
            GradientStop::new(num(1.0), rgb(0.0, 0.0, 1.0)),
        ]
    );
    assert_eq!(g.t0, num(0.0));
    assert_eq!(g.t1, num(0.25));
    assert_eq!(g.base.spread_mode, SpreadMode::Pad);
    assert_eq!(
        g.base.points_to_unit,
        vec![MatrixStep::Translate { tx: num(-1.0), ty: num(-1.0) }]
    );
}

#[test]
fn angles_have_to_be_finite_and_in_order() {
    let id = tsp::Transform::identity();
    for stops in [vec![GradientStop::new(num(0.0), rgb(1.0, 0.0, 0.0))], red_to_blue()] {
        assert_eq!(sweep((0.0, 0.0), 180.0, 90.0, stops.clone(), SpreadMode::Pad, id), None);
        assert_eq!(sweep((0.0, 0.0), f32::NAN, 90.0, stops.clone(), SpreadMode::Pad, id), None);
        assert_eq!(sweep((0.0, 0.0), 0.0, f32::INFINITY, stops.clone(), SpreadMode::Pad, id), None);
        assert_eq!(
            sweep((0.0, 0.0), f32::NEG_INFINITY, 0.0, stops, SpreadMode::Pad, id),
            None
        );
    }
}

#[test]
fn one_stop_sweeps_to_a_solid_color() {
    let stops = vec![GradientStop::new(num(0.7), rgb(0.0, 1.0, 0.0))];
    let singular = tsp::Transform::from_row(0.0, 0.0, 0.0, 0.0, 0.0, 0.0);
    for ts in [tsp::Transform::identity(), singular] {
        for (start, end) in [(0.0, 360.0), (90.0, 90.0), (-30.0, 30.0)] {
            for mode in [SpreadMode::Pad, SpreadMode::Reflect, SpreadMode::Repeat] {
                assert_eq!(
                    sweep((2.0, 3.0), start, end, stops.clone(), mode, ts),
                    Some(Shader::SolidColor(rgb(0.0, 1.0, 0.0)))
                );
            }
        }
    }
}

#[test]
fn sweep_needs_stops_and_an_inverse() {
    let skewed = tsp::Transform::from_row(1.0, 2.0, 2.0, 4.0, 0.0, 0.0);
    assert_eq!(sweep((0.0, 0.0), 0.0, 360.0, red_to_blue(), SpreadMode::Pad, skewed), None);
    assert_eq!(
        sweep((0.0, 0.0), 0.0, 360.0, vec![], SpreadMode::Pad, tsp::Transform::identity()),
        None
    );
}

#[test]
fn angles_a_step_apart_can_measure_as_one_turn() {
    let start = f32::from_bits(0x447A_0003);
    let end = f32::from_bits(0x447A_0004);
    assert!(start < end && end - start > 1.0 / 32768.0);
    assert_eq!(start / 360.0, end / 360.0);
    let g = sweep_of(sweep((0.0, 0.0), start, end, red_to_blue(), SpreadMode::Pad, tsp::Transform::identity()));
    assert_eq!(g.t0, g.t1);
    assert_eq!(g.t0, num(start / 360.0));
    let apart = sweep_of(sweep((0.0, 0.0), 90.0, 180.0, red_to_blue(), SpreadMode::Pad, tsp::Transform::identity()));
    assert!(apart.t0.lt(apart.t1) && apart.t0.is_finite() && apart.t1.is_finite());
}
