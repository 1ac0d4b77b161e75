use raster_core::color::Color;
use raster_core::point::Point;
use raster_core::scalar::Scalar;
use raster_core::shaders::conical_gradient::{
    ConicalGradient, ConicalMetrics, FocalMetrics, GradientType,
};
use raster_core::shaders::gradient::{
    color_without_interpolation, find_stop, pad, GradientStop,
};
use raster_core::shaders::sweep_gradient::{SweepGradient, SweepMetrics};
use raster_core::shaders::{Shader, SpreadMode};
use raster_core::transform::{MatrixStep, Transform};
use tiny_skia_path as tsp;
use tiny_skia_path::Scalar as FloatExt;

fn bits(x: f32) -> Scalar {
    Scalar::from_bits(x.to_bits())
}

fn float_of(x: Scalar) -> f32 {
    f32::from_bits(x.to_bits())
}

fn at(x: f32, y: f32) -> Point {
    Point::from_xy(bits(x), bits(y))
}

fn float_point(p: Point) -> tsp::Point {
    tsp::Point::from_xy(float_of(p.x), float_of(p.y))
}

fn opaque(r: f32, g: f32, b: f32) -> Color {
    Color::from_rgba(bits(r), bits(g), bits(b), bits(1.0)).unwrap()
}

fn red_blue() -> Vec<GradientStop> {
    vec![
        GradientStop::new(bits(0.0), opaque(1.0, 0.0, 0.0)),
        GradientStop::new(bits(1.0), opaque(0.0, 0.0, 1.0)),
    ]
}

fn segment_to_unit_x(origin: tsp::Point, unit: tsp::Point) -> Option<tsp::Transform> {
    let from_poly2 = |p0: tsp::Point, p1: tsp::Point| {
        tsp::Transform::from_row(p1.y - p0.y, p0.x - p1.x, p1.x - p0.x, p1.y - p0.y, p0.x, p0.y)
    };
    let inverse = from_poly2(origin, unit).invert()?;
    Some(from_poly2(tsp::Point::from_xy(0.0, 0.0), tsp::Point::from_xy(1.0, 0.0)).pre_concat(inverse))
}

fn evaluate(steps: &[MatrixStep]) -> Option<tsp::Transform> {
    let mut ts = tsp::Transform::identity();
    for step in steps {
        ts = match *step {
            MatrixStep::Translate { tx, ty } => ts.post_translate(float_of(tx), float_of(ty)),
            MatrixStep::Scale { sx, sy } => ts.post_scale(float_of(sx), float_of(sy)),
            MatrixStep::ScaleByReciprocal { divisor } => {
                let inv = float_of(divisor).invert();
                ts.post_scale(inv, inv)
            }
            MatrixStep::SegmentToUnitX { origin, unit } => {
                ts.post_concat(segment_to_unit_x(float_point(origin), float_point(unit))?)
            }
            MatrixStep::FocalScale { r1 } => {
                let r1 = float_of(r1);
                ts.post_scale(r1 / (r1 * r1 - 1.0), 1.0 / (r1 * r1 - 1.0).abs().sqrt())
            }
            MatrixStep::FocalGapScale { focal_x } => {
                let gap = (1.0 - float_of(focal_x)).abs();
                ts.post_scale(gap, gap)
            }
        };
    }
    Some(ts)
}

fn map(ts: tsp::Transform, x: f32, y: f32) -> (f32, f32) {
    let mut p = tsp::Point::from_xy(x, y);
    ts.map_point(&mut p);
    (p.x, p.y)
}

fn measure_circles(c0: tsp::Point, r0: f32, c1: tsp::Point, r1: f32) -> ConicalMetrics {
    let distance = (c0 - c1).length();
    let (start_ratio, end_ratio) = (r0 / distance, r1 / distance);
    let focal_x = start_ratio / (start_ratio - end_ratio);
    ConicalMetrics {
        invertible: true,
        distance: bits(distance),
        radius_delta: bits(r0 - r1),
        unit_x_solvable: segment_to_unit_x(c0, c1).is_some(),
        start_ratio: bits(start_ratio),
        end_ratio: bits(end_ratio),
        focal: FocalMetrics {
            focal_x: bits(focal_x),
            scaled_r1: bits(end_ratio / (1.0 - focal_x).abs()),
            solvable: segment_to_unit_x(tsp::Point::from_xy(focal_x, 0.0), tsp::Point::from_xy(1.0, 0.0))
                .is_some(),
        },
    }
}

fn conical_of(c0: (f32, f32), r0: f32, c1: (f32, f32), r1: f32, mode: SpreadMode) -> ConicalGradient {
    let shader = ConicalGradient::new(
        at(c0.0, c0.1),
        bits(r0),
        at(c1.0, c1.1),
        bits(r1),
        red_blue(),
        mode,
        Transform::identity(),
        measure_circles(tsp::Point::from_xy(c0.0, c0.1), r0, tsp::Point::from_xy(c1.0, c1.1), r1),
    );
    match shader {
        Some(Shader::ConicalGradient(g)) => g,
        other => panic!("not a conical gradient: {other:?}"),
    }
}

fn close(a: f32, b: f32) -> bool {
    (a - b).abs() <= 1.0e-5
}

#[test]
fn radial_steps_bring_the_circle_to_the_unit_circle() {
    let g = conical_of((3.0, 4.0), 0.0, (3.0, 4.0), 5.0, SpreadMode::Pad);
    let ts = evaluate(&g.base.points_to_unit).unwrap();
    assert_eq!(map(ts, 3.0, 4.0), (0.0, 0.0));
    assert_eq!(map(ts, 8.0, 4.0), (1.0, 0.0));
    assert_eq!(map(ts, 3.0, -1.0), (0.0, -1.0));
    let (x, y) = map(ts, 6.0, 8.0);
    assert!(close((x * x + y * y).sqrt(), 1.0));
}

#[test]
fn strip_steps_bring_the_centers_to_the_unit_segment() {
    let g = conical_of((1.0, 1.0), 2.0, (4.0, 5.0), 2.0, SpreadMode::Pad);
    assert_eq!(g.gradient_type, GradientType::Strip);
    let ts = evaluate(&g.base.points_to_unit).unwrap();
    let (x0, y0) = map(ts, 1.0, 1.0);
    let (x1, y1) = map(ts, 4.0, 5.0);
    assert!(close(x0, 0.0) && close(y0, 0.0));
    assert!(close(x1, 1.0) && close(y1, 0.0));
}

#[test]
fn focal_steps_bring_the_focal_point_to_the_origin() {
    let g = conical_of((0.0, 0.0), 1.0, (2.0, 0.0), 8.0, SpreadMode::Pad);
    let data = match g.gradient_type {
        GradientType::Focal(data) => data,
        other => panic!("not focal: {other:?}"),
    };
    let ts = evaluate(&g.base.points_to_unit).unwrap();
    let focal = 2.0 * float_of(data.focal_x);
    let (x, y) = map(ts, focal, 0.0);
    assert!(close(x, 0.0) && close(y, 0.0));
    assert!(data.is_well_behaved());
    let t = |px: f32, py: f32| {
        let (x, y) = map(ts, px, py);
        let t = (x * x + y * y).sqrt() - x * (1.0 / float_of(data.r1));
        t + float_of(data.focal_x)
    };
    assert!(close(t(-1.0, 0.0), 0.0));
    assert!(close(t(1.0, 0.0), 0.0));
    assert!(close(t(0.0, 1.0), 0.0));
    assert!(close(t(10.0, 0.0), 1.0));
    assert!(close(t(-6.0, 0.0), 1.0));
    assert!(close(t(2.0, 8.0), 1.0));
}

#[test]
fn a_focal_point_on_the_end_circle_runs_from_the_point_to_the_circle() {
    let g = conical_of((0.0, 0.0), 0.0, (10.0, 0.0), 10.0, SpreadMode::Pad);
    let data = match g.gradient_type {
        GradientType::Focal(data) => data,
        other => panic!("not focal: {other:?}"),
    };
    assert!(data.is_focal_on_circle() && data.is_natively_focal());
    let ts = evaluate(&g.base.points_to_unit).unwrap();
    let t = |px: f32, py: f32| {
        let (x, y) = map(ts, px, py);
        x + y * y / x
    };
    assert!(close(t(1.0e-6, 0.0), 0.0));
    assert!(close(t(10.0, 0.0), 0.5));
    assert!(close(t(20.0, 0.0), 1.0));
    assert!(close(t(10.0, 10.0), 1.0));
    assert!(close(t(10.0, -10.0), 1.0));
    let near_the_point = pad(bits(t(1.0e-6, 0.0)));
    assert!(find_stop(&g.base.stops, near_the_point) >= 1);
    assert_eq!(
        color_without_interpolation(&g.base.stops, pad(bits(t(20.0, 0.0)))),
        Some(opaque(0.0, 0.0, 1.0))
    );
    assert_eq!(
        color_without_interpolation(&g.base.stops, pad(bits(-0.0))),
        None
    );
    assert_eq!(find_stop(&g.base.stops, pad(bits(0.0))), 1);
    assert_eq!(g.base.stops[0].color, opaque(1.0, 0.0, 0.0));
}

#[test]
fn a_full_sweep_runs_from_the_first_color_towards_the_last() {
    let measured = SweepMetrics {
        invertible: true,
        angle_delta: bits(0.0 - 360.0),
        t0: bits(0.0 / 360.0),
        t1: bits(360.0 / 360.0),
    };
    let shader = SweepGradient::new(
        at(0.0, 0.0),
        bits(0.0),
        bits(360.0),
        red_blue(),
        SpreadMode::Repeat,
        Transform::identity(),
        measured,
    );
    let g = match shader {
        Some(Shader::SweepGradient(g)) => g,
        other => panic!("not a sweep gradient: {other:?}"),
    };
    assert_eq!(g.base.spread_mode, SpreadMode::Pad);
    let ts = evaluate(&g.base.points_to_unit).unwrap();
    let scale = 1.0 / (float_of(g.t1) - float_of(g.t0));
    let bias = -scale * float_of(g.t0);
    let t = |degrees: f32| {
        let (x, y) = map(ts, degrees.to_radians().cos(), degrees.to_radians().sin());
        let mut turn = y.atan2(x) / (2.0 * std::f32::consts::PI);
        if turn < 0.0 {
            turn += 1.0;
        }
        turn * scale + bias
    };
    assert_eq!(t(0.0), 0.0);
    assert!(t(359.999) > 0.9999 && t(359.999) < 1.0);
    assert_eq!(find_stop(&g.base.stops, pad(bits(t(0.0)))), 1);
    assert_eq!(g.base.stops[0].color, opaque(1.0, 0.0, 0.0));
    assert_eq!(find_stop(&g.base.stops, pad(bits(t(359.999)))), 1);
    assert_eq!(g.base.stops[1].color, opaque(0.0, 0.0, 1.0));
    assert_eq!(g.base.stops[1].position, bits(1.0));
}
