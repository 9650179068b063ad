//! Checks of the 2D outline builders.

use gizmomath::dim2::{
    arrow_2d, ellipse_inner, GizmoBuilder2d, GizmoPrimitive2d, PolygonBuilder, Polyline2dBuilder,
    DEFAULT_CIRCLE_RESOLUTION,
};
use gizmomath::extrusion::{ExtrudableMesh, ExtrusionMeshBuilder, Indices};
use gizmomath::primitives::{
    Annulus, Arc2d, Capsule2d, Circle, CircularSector, CircularSegment, Dir2, Ellipse, Extrusion,
    Line2d, Primitive2d, Rectangle, RegularPolygon, Rhombus, Segment2d, Triangle2d, Vec2,
    WindingOrder,
};
use gizmomath::scalar::Scalar;
use gizmomath::GizmoRenderSystem;

const UNITS: f64 = 4294967296.0;

fn fx(v: f64) -> Scalar {
    if v < 0.0 {
        Scalar::Fin { neg: true, mag: (-v * UNITS).round() as u64 }
    } else {
        Scalar::Fin { neg: false, mag: (v * UNITS).round() as u64 }
    }
}

fn tof(s: Scalar) -> f64 {
    match s {
        Scalar::NaN => f64::NAN,
        Scalar::PosInf => f64::INFINITY,
        Scalar::NegInf => f64::NEG_INFINITY,
        Scalar::Fin { neg, mag } => {
            let v = mag as f64 / UNITS;
            if neg {
                -v
            } else {
                v
            }
        },
    }
}

fn close(a: Scalar, b: f64) -> bool {
    (tof(a) - b).abs() < 1e-6
}

#[test]
fn circle_outline_is_closed_ring() {
    let circle = Circle { radius: fx(2.0) };
    let strips = circle.gizmos().linestrips();
    assert_eq!(strips.len(), 1);
    assert_eq!(strips[0].len(), DEFAULT_CIRCLE_RESOLUTION + 1);
    // The first point sits at angle zero: (sin 0, cos 0) * r = (0, r).
    assert_eq!(strips[0][0].x, Scalar::Fin { neg: false, mag: 0 });
    assert!(close(strips[0][0].y, 2.0));
    // The ring closes onto its first point, up to the sampled full turn.
    let last = strips[0][DEFAULT_CIRCLE_RESOLUTION];
    assert!(close(last.x, 0.0));
    assert!(close(last.y, 2.0));
}

#[test]
fn ellipse_resolution_is_configurable() {
    let ellipse = Ellipse { half_size: Vec2 { x: fx(2.0), y: fx(1.0) } };
    let strips = ellipse.gizmos().resolution(16).linestrips();
    assert_eq!(strips[0].len(), 17);
    let quarter = strips[0][4];
    assert!(close(quarter.x, 2.0));
    assert!(close(quarter.y, 0.0));
}

#[test]
fn ellipse_inner_samples_count() {
    let pts = ellipse_inner(Vec2 { x: fx(1.0), y: fx(1.0) }, 8);
    assert_eq!(pts.len(), 9);
}

#[test]
fn arc_kinds_close_their_outlines() {
    let arc = Arc2d::new(fx(1.0), fx(std::f64::consts::FRAC_PI_2));
    let plain = arc.gizmos().resolution(8).linestrips();
    assert_eq!(plain[0].len(), 9);

    let sector = CircularSector { arc }.gizmos().resolution(8).linestrips();
    assert_eq!(sector[0].len(), 11);
    // A sector closes through the center.
    assert_eq!(sector[0][9], Vec2 { x: fx(0.0), y: fx(0.0) });
    assert_eq!(sector[0][10], sector[0][0]);

    let segment = CircularSegment { arc }.gizmos().resolution(8).linestrips();
    assert_eq!(segment[0].len(), 10);
    assert_eq!(segment[0][9], segment[0][0]);
}

#[test]
fn arc_default_resolution_scales_with_angle() {
    let arc = Arc2d::new(fx(1.0), fx(std::f64::consts::PI));
    let strips = arc.gizmos().linestrips();
    // A full half-turn arc at the default density: 32 segments.
    assert_eq!(strips[0].len(), 33);
}

#[test]
fn line_draw_arrow_toggles_head() {
    let line = Line2d { direction: Dir2 { vec: Vec2 { x: fx(1.0), y: fx(0.0) } } };
    let plain = line.gizmos().linestrips();
    assert_eq!(plain.len(), 1);
    assert_eq!(plain[0].len(), 2);
    // The shaft simulates an infinite line.
    assert!(close(plain[0][0].x, 100000.0));
    assert!(close(plain[0][1].x, -100000.0));

    let arrowed = line.gizmos().draw_arrow(true).linestrips();
    assert_eq!(arrowed.len(), 2);
    assert_eq!(arrowed[1].len(), 3);
}

#[test]
fn segment_draw_arrow_toggles_shape() {
    let segment = Segment2d {
        direction: Dir2 { vec: Vec2 { x: fx(0.0), y: fx(1.0) } },
        half_length: fx(3.0),
    };
    let plain = segment.gizmos().linestrips();
    assert_eq!(plain.len(), 1);
    assert!(close(plain[0][0].y, -3.0));
    assert!(close(plain[0][1].y, 3.0));

    let arrowed = segment.gizmos().draw_arrow(true).linestrips();
    assert_eq!(arrowed.len(), 2);
    assert_eq!(arrowed[1][1], arrowed[0][1]);
}

#[test]
fn rhombus_outline_closes() {
    let rhombus = Rhombus { half_diagonals: Vec2 { x: fx(2.0), y: fx(1.0) } };
    let strips = rhombus.gizmos().linestrips();
    assert_eq!(strips[0].len(), 5);
    assert_eq!(strips[0][0], strips[0][4]);
    assert_eq!(strips[0][1], Vec2 { x: fx(0.0), y: fx(1.0) });
}

#[test]
fn rectangle_outline_corners() {
    let rect = Rectangle { half_size: Vec2 { x: fx(2.0), y: fx(1.0) } };
    let strips = rect.gizmos().linestrips();
    assert_eq!(strips[0].len(), 5);
    assert_eq!(strips[0][2], Vec2 { x: fx(-2.0), y: fx(-1.0) });
    assert_eq!(strips[0][0], strips[0][4]);
}

#[test]
fn triangle_outline_closes() {
    let tri = Triangle2d { a: fx_v(0.0, 0.0), b: fx_v(1.0, 0.0), c: fx_v(0.0, 1.0) };
    let strips = tri.gizmos().linestrips();
    assert_eq!(strips[0].len(), 4);
    assert_eq!(strips[0][3], strips[0][0]);
}

fn fx_v(x: f64, y: f64) -> Vec2 {
    Vec2 { x: fx(x), y: fx(y) }
}

#[test]
fn polyline_degenerate_and_plain() {
    let empty = Polyline2dBuilder::new(vec![fx_v(1.0, 1.0)]).linestrips();
    assert_eq!(empty.len(), 1);
    assert_eq!(empty[0].len(), 0);

    let line = Polyline2dBuilder::new(vec![fx_v(0.0, 0.0), fx_v(1.0, 0.0), fx_v(1.0, 1.0)])
        .linestrips();
    assert_eq!(line[0].len(), 3);
}

#[test]
fn polygon_closes_unless_degenerate() {
    let tri = PolygonBuilder::new(vec![fx_v(0.0, 0.0), fx_v(1.0, 0.0), fx_v(0.0, 1.0)])
        .linestrips();
    assert_eq!(tri[0].len(), 4);
    assert_eq!(tri[0][3], tri[0][0]);

    let pair = PolygonBuilder::new(vec![fx_v(0.0, 0.0), fx_v(1.0, 0.0)]).linestrips();
    assert_eq!(pair[0].len(), 2);
}

#[test]
fn regular_polygon_vertices() {
    let square = RegularPolygon { circumcircle: Circle { radius: fx(1.0) }, sides: 4 };
    let strips = square.gizmos().linestrips();
    assert_eq!(strips[0].len(), 5);
    assert_eq!(strips[0][0].x, Scalar::Fin { neg: false, mag: 0 });
}

#[test]
fn annulus_draws_two_rings() {
    let annulus = Annulus {
        inner_circle: Circle { radius: fx(1.0) },
        outer_circle: Circle { radius: fx(2.0) },
    };
    let strips = annulus.gizmos().inner_resolution(8).outer_resolution(16).linestrips();
    assert_eq!(strips.len(), 2);
    assert_eq!(strips[0].len(), 9);
    assert_eq!(strips[1].len(), 17);

    let both = annulus.gizmos().resolution(12).linestrips();
    assert_eq!(both[0].len(), 13);
    assert_eq!(both[1].len(), 13);
}

#[test]
fn capsule_outline_point_count() {
    let capsule = Capsule2d { radius: fx(1.0), half_length: fx(2.0) };
    let strips = capsule.gizmos().linestrips();
    assert_eq!(strips.len(), 1);
    // Two mapped caps of resolution + 1 points each, plus the closing point.
    assert_eq!(strips[0].len(), 2 * (DEFAULT_CIRCLE_RESOLUTION + 1) + 1);
    assert_eq!(strips[0][2 * (DEFAULT_CIRCLE_RESOLUTION + 1)], strips[0][0]);
}

#[test]
fn direction_draws_an_arrow() {
    let dir = Dir2 { vec: Vec2 { x: fx(0.0), y: fx(1.0) } };
    let strips = dir.gizmos().linestrips();
    assert_eq!(strips.len(), 2);
    assert!(close(strips[0][1].y, 50.0));
}

#[test]
fn arrow_head_is_anchored_at_tip() {
    let strips = arrow_2d(fx_v(0.0, 0.0), fx_v(10.0, 0.0));
    assert_eq!(strips.len(), 2);
    assert_eq!(strips[1].len(), 3);
    assert_eq!(strips[1][1], fx_v(10.0, 0.0));
}

struct Quad;

impl Primitive2d for Quad {}

impl ExtrudableMesh for Quad {
    fn perimeter_indices(&self) -> Vec<Indices> {
        vec![Indices::U16(vec![0, 1, 2, 3, 0])]
    }
}

#[test]
fn extrusion_builder_keeps_settings() {
    let extrusion = Extrusion { base_shape: Quad, half_depth: fx(0.5) };
    let builder = ExtrusionMeshBuilder::new(extrusion, 1);
    assert_eq!(builder.segments, 1);
    let builder = builder.segments(7);
    assert_eq!(builder.segments, 7);
    assert_eq!(builder.meshable.half_depth, fx(0.5));
    assert_eq!(builder.meshable.base_shape.perimeter_indices().len(), 1);
}

#[test]
fn winding_order_distinguishes_cases() {
    assert_eq!(WindingOrder::Clockwise, WindingOrder::Clockwise);
    assert_ne!(WindingOrder::Clockwise, WindingOrder::CounterClockwise);
    assert_ne!(WindingOrder::CounterClockwise, WindingOrder::Invalid);
}

#[test]
fn render_system_labels_are_distinct() {
    assert_eq!(GizmoRenderSystem::QueueLineGizmos2d, GizmoRenderSystem::QueueLineGizmos2d);
    assert_ne!(
        GizmoRenderSystem::QueueLineGizmos2d,
        GizmoRenderSystem::QueueLineGizmos3d
    );
}
