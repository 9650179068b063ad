//! Outline builders for the 2D primitives.
//!
//! Each primitive yields a builder; a builder yields the line strips that
//! draw the primitive, as vectors of exact-scalar points.  The strips of
//! every builder are pinned to a specification-level sequence, so the
//! sampled outlines are a function of the primitive and its settings alone.

use vstd::prelude::*;

use crate::primitives::{
    spec_v2, spec_vadd, spec_vmul, spec_vneg, spec_vperp, spec_vrotate, spec_vscale, spec_vsub,
    spec_vzero, Annulus, Arc2d, Capsule2d, Circle, CircularSector, CircularSegment, Dir2, Ellipse,
    Line2d, Plane2d, Polygon, Polyline2d, Primitive2d, Rectangle, RegularPolygon, Rhombus,
    Segment2d, Triangle2d, Vec2,
};
use crate::scalar::{
    spec_abs, spec_add, spec_cos, spec_div, spec_from_usize, spec_mul, spec_sin, spec_sub,
    Scalar, HALF_PI_U, PI_U, SCALE, TAU_U,
};

verus! {

/// Default number of segments for circles and arcs.
pub const DEFAULT_CIRCLE_RESOLUTION: usize = 32;

/// Units of the minimum drawn line length `50`.
pub const MIN_LINE_LEN_U: u64 = 214748364800;

/// Units of the length `100000` used to simulate infinite lines.
pub const INFINITE_LEN_U: u64 = 429496729600000;

/// Units of `sqrt(2)`.
pub const SQRT2_U: u64 = 6074001000;

/// Units of `10`.
pub const TEN_U: u64 = 42949672960;

/// Units of `5`, the plane arrow-head tip length `50 / 10`.
pub const PLANE_TIP_U: u64 = 21474836480;

/// The strips of a builder output, as a mathematical value.
pub open spec fn views(v: Vec<Vec<Vec2>>) -> Seq<Seq<Vec2>> {
    v@.map_values(|q: Vec<Vec2>| q@)
}

/// A producer of the line strips that draw one primitive.
pub trait GizmoBuilder2d {
    /// What the builder needs of its settings before its outline can be
    /// sampled: machine bounds on resolutions and angles, nothing more.
    spec fn wf(&self) -> bool;

    /// The line strips the builder produces, as a mathematical value.
    spec fn strips(&self) -> Seq<Seq<Vec2>>;

    /// Produces the line strips that draw the primitive.
    fn linestrips(&self) -> (r: Vec<Vec<Vec2>>)
        requires
            self.wf(),
        ensures
            views(r) == self.strips(),
    ;
}

/// A 2D primitive that knows its outline builder.
pub trait GizmoPrimitive2d: Primitive2d {
    /// The builder produced for this primitive.
    type Output: GizmoBuilder2d;

    /// The builder, as a mathematical value.
    spec fn builder(&self) -> Self::Output;

    /// Returns the outline builder of this primitive, with default settings.
    fn gizmos(&self) -> (r: Self::Output)
        ensures
            r == self.builder(),
    ;
}

/// One point of a sampled ellipse: the angle `i * tau / resolution`, taken
/// as `(sin, cos)` and scaled by the half-extents.
pub open spec fn spec_ellipse_pt(half_size: Vec2, resolution: usize, i: usize) -> Vec2 {
    let angle = spec_div(
        spec_mul(spec_from_usize(i), Scalar::Fin { neg: false, mag: TAU_U }),
        spec_from_usize(resolution),
    );
    spec_vmul(spec_v2(spec_sin(angle), spec_cos(angle)), half_size)
}

/// The closed sampled outline of an ellipse: `resolution + 1` points.
pub open spec fn spec_ellipse_pts(half_size: Vec2, resolution: usize) -> Seq<Vec2> {
    Seq::new((resolution + 1) as nat, |i: int| spec_ellipse_pt(half_size, resolution, i as usize))
}

/// Samples the closed outline of an ellipse with the given half-extents.
pub fn ellipse_inner(half_size: Vec2, resolution: usize) -> (r: Vec<Vec2>)
    requires
        resolution < usize::MAX,
    ensures
        r@ == spec_ellipse_pts(half_size, resolution),
{
    let tau = Scalar::Fin { neg: false, mag: TAU_U };
    let res_s = Scalar::from_usize(resolution);
    let mut out: Vec<Vec2> = Vec::new();
    let mut i: usize = 0;
    while i < resolution + 1
        invariant
            i <= resolution + 1,
            resolution < usize::MAX,
            res_s == spec_from_usize(resolution),
            tau == (Scalar::Fin { neg: false, mag: TAU_U }),
            out@.len() == i as int,
            forall|j: int|
                0 <= j < i as int ==> out@[j] == spec_ellipse_pt(half_size, resolution, j as usize),
        decreases resolution + 1 - i,
    {
        let angle = Scalar::from_usize(i).mul(tau).div(res_s);
        let pt = Vec2::new(angle.sin(), angle.cos()).mul(half_size);
        out.push(pt);
        i = i + 1;
    }
    proof {
        assert(out@ =~= spec_ellipse_pts(half_size, resolution));
    }
    out
}

/// One point of a sampled circle: the angle `i * tau / resolution`, taken as
/// `(sin, cos)` and scaled by the radius.
pub open spec fn spec_circle_pt(radius: Scalar, resolution: usize, i: usize) -> Vec2 {
    let angle = spec_div(
        spec_mul(spec_from_usize(i), Scalar::Fin { neg: false, mag: TAU_U }),
        spec_from_usize(resolution),
    );
    spec_vscale(spec_v2(spec_sin(angle), spec_cos(angle)), radius)
}

/// The `nth_point` of a regular polygon with `resolution` sides inscribed in
/// a circle of the given radius.
fn single_circle_coordinate(radius: Scalar, resolution: usize, nth_point: usize) -> (r: Vec2)
    ensures
        r == spec_circle_pt(radius, resolution, nth_point),
{
    let tau = Scalar::Fin { neg: false, mag: TAU_U };
    let angle = Scalar::from_usize(nth_point).mul(tau).div(Scalar::from_usize(resolution));
    Vec2::new(angle.sin(), angle.cos()).scale(radius)
}

/// The three points of an arrow head at `position` pointing along
/// `direction`, with wings of the given tip length swept back at half turns.
pub open spec fn spec_arrow_head(position: Vec2, direction: Dir2, tip_length: Scalar) -> Seq<
    Vec2,
> {
    let left_offset = spec_vscale(
        spec_vrotate(
            direction.vec,
            spec_v2(Scalar::Fin { neg: true, mag: SQRT2_U }, Scalar::Fin { neg: false, mag: SQRT2_U }),
        ),
        tip_length,
    );
    let right_offset = spec_vscale(
        spec_vrotate(
            direction.vec,
            spec_v2(Scalar::Fin { neg: true, mag: SQRT2_U }, Scalar::Fin { neg: true, mag: SQRT2_U }),
        ),
        tip_length,
    );
    seq![spec_vadd(position, left_offset), position, spec_vadd(position, right_offset)]
}

/// Builds the arrow head strip at `position` along `direction`.
pub fn arrow_head(position: Vec2, direction: Dir2, tip_length: Scalar) -> (r: Vec<Vec2>)
    ensures
        r@ == spec_arrow_head(position, direction, tip_length),
{
    let left_offset = direction.as_vec2().rotate(
        Vec2::new(
            Scalar::Fin { neg: true, mag: SQRT2_U },
            Scalar::Fin { neg: false, mag: SQRT2_U },
        ),
    ).scale(tip_length);
    let right_offset = direction.as_vec2().rotate(
        Vec2::new(
            Scalar::Fin { neg: true, mag: SQRT2_U },
            Scalar::Fin { neg: true, mag: SQRT2_U },
        ),
    ).scale(tip_length);
    let mut out: Vec<Vec2> = Vec::new();
    out.push(position.add(left_offset));
    out.push(position);
    out.push(position.add(right_offset));
    proof {
        assert(out@ =~= spec_arrow_head(position, direction, tip_length));
    }
    out
}

/// The two strips of an arrow from `start` to `end`: the shaft, and a head
/// whose tip length is a tenth of the shaft.
pub open spec fn spec_arrow_2d(start: Vec2, end: Vec2) -> Seq<Seq<Vec2>> {
    let shaft = seq![start, end];
    let tip_length = spec_div(
        crate::primitives::spec_vlength(spec_vsub(end, start)),
        Scalar::Fin { neg: false, mag: TEN_U },
    );
    let direction = Dir2 { vec: crate::primitives::spec_vnormalize(spec_vsub(end, start)) };
    seq![shaft, spec_arrow_head(end, direction, tip_length)]
}

/// Builds the strips of an arrow from `start` to `end`.
pub fn arrow_2d(start: Vec2, end: Vec2) -> (r: Vec<Vec<Vec2>>)
    ensures
        views(r) == spec_arrow_2d(start, end),
{
    let mut segment: Vec<Vec2> = Vec::new();
    segment.push(start);
    segment.push(end);
    let tip_length = end.sub(start).length().div(Scalar::Fin { neg: false, mag: TEN_U });
    let direction = Dir2::new_unchecked(end.sub(start).normalize());
    let head = arrow_head(end, direction, tip_length);
    let mut out: Vec<Vec<Vec2>> = Vec::new();
    out.push(segment);
    out.push(head);
    proof {
        assert(views(out) =~~= spec_arrow_2d(start, end));
    }
    out
}


/// Wraps a single strip as a builder result.
fn one_strip(points: Vec<Vec2>) -> (r: Vec<Vec<Vec2>>)
    ensures
        views(r) == seq![points@],
{
    let ghost pv = points@;
    let mut out: Vec<Vec<Vec2>> = Vec::new();
    out.push(points);
    proof {
        assert(views(out) =~~= seq![pv]);
    }
    out
}

/// Copies a borrowed strip of points.
fn copy_points(v: &Vec<Vec2>) -> (r: Vec<Vec2>)
    ensures
        r@ == v@,
{
    let mut out: Vec<Vec2> = Vec::new();
    let mut i: usize = 0;
    while i < v.len()
        invariant
            i <= v@.len(),
            out@ == v@.take(i as int),
        decreases v@.len() - i,
    {
        out.push(v[i]);
        proof {
            assert(out@ =~= v@.take(i + 1));
        }
        i = i + 1;
    }
    proof {
        assert(out@ =~= v@);
    }
    out
}

/// Which closed or open shape an arc builder draws.
#[derive(Clone, Copy, Debug, PartialEq, Eq, Structural)]
pub enum ArcKind {
    /// The bare arc.
    Arc,
    /// The arc closed through the center.
    Sector,
    /// The arc closed by its chord.
    Segment,
}

/// Builder for configuring the drawing options of an [`Arc2d`] and the
/// shapes that share its outline.
#[derive(Clone, Copy, Debug)]
pub struct Arc2dBuilder {
    pub arc: Arc2d,
    pub arc_kind: ArcKind,
    pub resolution: Option<usize>,
}

/// The default resolution of an arc: the ceiling of `half_angle / pi` turns
/// times the default circle resolution.
pub open spec fn spec_default_arc_resolution(half_angle: Scalar) -> usize {
    let t = spec_mul(
        spec_div(spec_abs(half_angle), Scalar::Fin { neg: false, mag: PI_U }),
        spec_from_usize(DEFAULT_CIRCLE_RESOLUTION),
    );
    match t {
        Scalar::Fin { neg, mag } => {
            if neg {
                0
            } else {
                ((mag + (SCALE - 1)) / (SCALE as int)) as usize
            }
        },
        _ => 0,
    }
}

fn default_arc_resolution(half_angle: Scalar) -> (r: usize)
    ensures
        r == spec_default_arc_resolution(half_angle),
{
    let t = half_angle.abs().div(Scalar::Fin { neg: false, mag: PI_U }).mul(
        Scalar::from_usize(DEFAULT_CIRCLE_RESOLUTION),
    );
    match t {
        Scalar::Fin { neg, mag } => {
            if neg {
                0
            } else {
                let c: u128 = (mag as u128 + 4294967295u128) / 4294967296u128;
                #[verifier::truncate] (c as usize)
            }
        },
        _ => 0,
    }
}

/// The resolution an arc builder samples with.
pub open spec fn spec_arc_resolution(b: Arc2dBuilder) -> usize {
    match b.resolution {
        Option::Some(r) => r,
        Option::None => spec_default_arc_resolution(b.arc.half_angle),
    }
}

/// One point of a sampled arc, starting a half-angle before the vertical and
/// stepping by `half_angle / resolution`.
pub open spec fn spec_arc_pt(arc: Arc2d, resolution: usize, i: usize) -> Vec2 {
    let delta = spec_div(arc.half_angle, spec_from_usize(resolution));
    let start = spec_sub(Scalar::Fin { neg: false, mag: HALF_PI_U }, arc.half_angle);
    let angle = spec_add(start, spec_mul(spec_from_usize(i), delta));
    spec_vscale(spec_v2(spec_cos(angle), spec_sin(angle)), arc.radius)
}

/// The sampled points of an arc builder, before the closing points of a
/// sector or segment are appended.
pub open spec fn spec_arc_base(arc: Arc2d, resolution: usize) -> Seq<Vec2> {
    Seq::new((resolution + 1) as nat, |i: int| spec_arc_pt(arc, resolution, i as usize))
}

impl Arc2dBuilder {
    /// Set the number of line-segments for this arc.
    pub fn resolution(self, resolution: usize) -> (r: Arc2dBuilder)
        ensures
            r == (Arc2dBuilder { resolution: Option::Some(resolution), ..self }),
    {
        Arc2dBuilder { resolution: Option::Some(resolution), ..self }
    }
}

impl GizmoBuilder2d for Arc2dBuilder {
    open spec fn wf(&self) -> bool {
        spec_arc_resolution(*self) <= usize::MAX - 2
    }

    open spec fn strips(&self) -> Seq<Seq<Vec2>> {
        let res = spec_arc_resolution(*self);
        let base = spec_arc_base(self.arc, res);
        let pts = match self.arc_kind {
            ArcKind::Arc => base,
            ArcKind::Sector => base.push(spec_vzero()).push(base[0]),
            ArcKind::Segment => base.push(base[0]),
        };
        seq![pts]
    }

    fn linestrips(&self) -> (r: Vec<Vec<Vec2>>) {
        let resolution = match self.resolution {
            Option::Some(res) => res,
            Option::None => default_arc_resolution(self.arc.half_angle),
        };
        let delta = self.arc.half_angle.div(Scalar::from_usize(resolution));
        let start = Scalar::Fin { neg: false, mag: HALF_PI_U }.sub(self.arc.half_angle);
        let mut positions: Vec<Vec2> = Vec::new();
        let mut i: usize = 0;
        while i < resolution + 1
            invariant
                i <= resolution + 1,
                resolution <= usize::MAX - 2,
                delta == spec_div(self.arc.half_angle, spec_from_usize(resolution)),
                start == spec_sub(
                    Scalar::Fin { neg: false, mag: HALF_PI_U },
                    self.arc.half_angle,
                ),
                positions@.len() == i as int,
                forall|j: int|
                    0 <= j < i as int ==> positions@[j] == spec_arc_pt(
                        self.arc,
                        resolution,
                        j as usize,
                    ),
            decreases resolution + 1 - i,
        {
            let angle = start.add(Scalar::from_usize(i).mul(delta));
            positions.push(Vec2::new(angle.cos(), angle.sin()).scale(self.arc.radius));
            i = i + 1;
        }
        proof {
            assert(positions@ =~= spec_arc_base(self.arc, resolution));
        }
        let ghost base = positions@;
        match self.arc_kind {
            ArcKind::Arc => {},
            ArcKind::Sector => {
                positions.push(Vec2::zero());
                let first = positions[0];
                positions.push(first);
            },
            ArcKind::Segment => {
                let first = positions[0];
                positions.push(first);
            },
        }
        let r = one_strip(positions);
        proof {
            assert(views(r) =~~= self.strips());
        }
        r
    }
}

impl GizmoPrimitive2d for Arc2d {
    type Output = Arc2dBuilder;

    open spec fn builder(&self) -> Arc2dBuilder {
        Arc2dBuilder { arc: *self, arc_kind: ArcKind::Arc, resolution: Option::None }
    }

    fn gizmos(&self) -> (r: Arc2dBuilder) {
        Arc2dBuilder { arc: *self, arc_kind: ArcKind::Arc, resolution: Option::None }
    }
}

impl GizmoPrimitive2d for CircularSector {
    type Output = Arc2dBuilder;

    open spec fn builder(&self) -> Arc2dBuilder {
        Arc2dBuilder { arc: self.arc, arc_kind: ArcKind::Sector, resolution: Option::None }
    }

    fn gizmos(&self) -> (r: Arc2dBuilder) {
        Arc2dBuilder { arc: self.arc, arc_kind: ArcKind::Sector, resolution: Option::None }
    }
}

impl GizmoPrimitive2d for CircularSegment {
    type Output = Arc2dBuilder;

    open spec fn builder(&self) -> Arc2dBuilder {
        Arc2dBuilder { arc: self.arc, arc_kind: ArcKind::Segment, resolution: Option::None }
    }

    fn gizmos(&self) -> (r: Arc2dBuilder) {
        Arc2dBuilder { arc: self.arc, arc_kind: ArcKind::Segment, resolution: Option::None }
    }
}

/// Builder for configuring the drawing options of an [`Ellipse`] or a
/// [`Circle`].
#[derive(Clone, Copy, Debug)]
pub struct EllipseBuilder {
    pub half_size: Vec2,
    pub resolution: usize,
}

impl EllipseBuilder {
    /// Set the number of line-segments for this ellipse.
    pub fn resolution(self, resolution: usize) -> (r: EllipseBuilder)
        ensures
            r == (EllipseBuilder { resolution, ..self }),
    {
        EllipseBuilder { resolution, ..self }
    }
}

impl GizmoBuilder2d for EllipseBuilder {
    open spec fn wf(&self) -> bool {
        self.resolution < usize::MAX
    }

    open spec fn strips(&self) -> Seq<Seq<Vec2>> {
        seq![spec_ellipse_pts(self.half_size, self.resolution)]
    }

    fn linestrips(&self) -> (r: Vec<Vec<Vec2>>) {
        let r = one_strip(ellipse_inner(self.half_size, self.resolution));
        proof {
            assert(views(r) =~~= self.strips());
        }
        r
    }
}

impl GizmoPrimitive2d for Circle {
    type Output = EllipseBuilder;

    open spec fn builder(&self) -> EllipseBuilder {
        EllipseBuilder {
            half_size: spec_v2(self.radius, self.radius),
            resolution: DEFAULT_CIRCLE_RESOLUTION,
        }
    }

    fn gizmos(&self) -> (r: EllipseBuilder) {
        EllipseBuilder {
            half_size: Vec2::splat(self.radius),
            resolution: DEFAULT_CIRCLE_RESOLUTION,
        }
    }
}

impl GizmoPrimitive2d for Ellipse {
    type Output = EllipseBuilder;

    open spec fn builder(&self) -> EllipseBuilder {
        EllipseBuilder { half_size: self.half_size, resolution: DEFAULT_CIRCLE_RESOLUTION }
    }

    fn gizmos(&self) -> (r: EllipseBuilder) {
        EllipseBuilder { half_size: self.half_size, resolution: DEFAULT_CIRCLE_RESOLUTION }
    }
}

/// Builder for configuring the drawing options of an [`Annulus`].
#[derive(Clone, Copy, Debug)]
pub struct AnnulusBuilder {
    pub inner_radius: Scalar,
    pub outer_radius: Scalar,
    pub inner_resolution: usize,
    pub outer_resolution: usize,
}

impl AnnulusBuilder {
    /// Set the number of line-segments for each circle of the annulus.
    pub fn resolution(self, resolution: usize) -> (r: AnnulusBuilder)
        ensures
            r == (AnnulusBuilder {
                inner_resolution: resolution,
                outer_resolution: resolution,
                ..self
            }),
    {
        AnnulusBuilder { inner_resolution: resolution, outer_resolution: resolution, ..self }
    }

    /// Set the number of line-segments for the outer circle of the annulus.
    pub fn outer_resolution(self, resolution: usize) -> (r: AnnulusBuilder)
        ensures
            r == (AnnulusBuilder { outer_resolution: resolution, ..self }),
    {
        AnnulusBuilder { outer_resolution: resolution, ..self }
    }

    /// Set the number of line-segments for the inner circle of the annulus.
    pub fn inner_resolution(self, resolution: usize) -> (r: AnnulusBuilder)
        ensures
            r == (AnnulusBuilder { inner_resolution: resolution, ..self }),
    {
        AnnulusBuilder { inner_resolution: resolution, ..self }
    }
}

impl GizmoBuilder2d for AnnulusBuilder {
    open spec fn wf(&self) -> bool {
        self.inner_resolution < usize::MAX && self.outer_resolution < usize::MAX
    }

    open spec fn strips(&self) -> Seq<Seq<Vec2>> {
        seq![
            spec_ellipse_pts(
                spec_v2(self.inner_radius, self.inner_radius),
                self.inner_resolution,
            ),
            spec_ellipse_pts(
                spec_v2(self.outer_radius, self.outer_radius),
                self.outer_resolution,
            ),
        ]
    }

    fn linestrips(&self) -> (r: Vec<Vec<Vec2>>) {
        let inner = ellipse_inner(Vec2::splat(self.inner_radius), self.inner_resolution);
        let outer = ellipse_inner(Vec2::splat(self.outer_radius), self.outer_resolution);
        let mut out: Vec<Vec<Vec2>> = Vec::new();
        out.push(inner);
        out.push(outer);
        proof {
            assert(views(out) =~~= self.strips());
        }
        out
    }
}

impl GizmoPrimitive2d for Annulus {
    type Output = AnnulusBuilder;

    open spec fn builder(&self) -> AnnulusBuilder {
        AnnulusBuilder {
            inner_radius: self.inner_circle.radius,
            outer_radius: self.outer_circle.radius,
            inner_resolution: DEFAULT_CIRCLE_RESOLUTION,
            outer_resolution: DEFAULT_CIRCLE_RESOLUTION,
        }
    }

    fn gizmos(&self) -> (r: AnnulusBuilder) {
        AnnulusBuilder {
            inner_radius: self.inner_circle.radius,
            outer_radius: self.outer_circle.radius,
            inner_resolution: DEFAULT_CIRCLE_RESOLUTION,
            outer_resolution: DEFAULT_CIRCLE_RESOLUTION,
        }
    }
}

/// Builder for the outline of a [`Rhombus`].
#[derive(Clone, Copy, Debug)]
pub struct RhombusBuilder {
    pub half_diagonals: Vec2,
}

impl GizmoBuilder2d for RhombusBuilder {
    open spec fn wf(&self) -> bool {
        true
    }

    open spec fn strips(&self) -> Seq<Seq<Vec2>> {
        let zero = Scalar::Fin { neg: false, mag: 0 };
        seq![
            seq![
                spec_v2(self.half_diagonals.x, zero),
                spec_v2(zero, self.half_diagonals.y),
                spec_v2(crate::scalar::spec_neg(self.half_diagonals.x), zero),
                spec_v2(zero, crate::scalar::spec_neg(self.half_diagonals.y)),
                spec_v2(self.half_diagonals.x, zero),
            ],
        ]
    }

    fn linestrips(&self) -> (r: Vec<Vec<Vec2>>) {
        let zero = Scalar::zero();
        let mut pts: Vec<Vec2> = Vec::new();
        pts.push(Vec2::new(self.half_diagonals.x, zero));
        pts.push(Vec2::new(zero, self.half_diagonals.y));
        pts.push(Vec2::new(self.half_diagonals.x.neg(), zero));
        pts.push(Vec2::new(zero, self.half_diagonals.y.neg()));
        pts.push(Vec2::new(self.half_diagonals.x, zero));
        let r = one_strip(pts);
        proof {
            assert(views(r) =~~= self.strips());
        }
        r
    }
}

impl GizmoPrimitive2d for Rhombus {
    type Output = RhombusBuilder;

    open spec fn builder(&self) -> RhombusBuilder {
        RhombusBuilder { half_diagonals: self.half_diagonals }
    }

    fn gizmos(&self) -> (r: RhombusBuilder) {
        RhombusBuilder { half_diagonals: self.half_diagonals }
    }
}

/// Builder for configuring the drawing options of a [`Line2d`].
#[derive(Clone, Copy, Debug)]
pub struct Line2dBuilder {
    /// Direction of the line.
    pub direction: Dir2,
    /// Decides whether to indicate the direction of the line with an arrow.
    pub draw_arrow: bool,
}

impl Line2dBuilder {
    /// Set the drawing mode of the line (arrow vs. plain line).
    pub fn draw_arrow(self, is_enabled: bool) -> (r: Line2dBuilder)
        ensures
            r == (Line2dBuilder { draw_arrow: is_enabled, ..self }),
    {
        Line2dBuilder { draw_arrow: is_enabled, ..self }
    }
}

impl GizmoBuilder2d for Line2dBuilder {
    open spec fn wf(&self) -> bool {
        true
    }

    open spec fn strips(&self) -> Seq<Seq<Vec2>> {
        let start = spec_vscale(self.direction.vec, Scalar::Fin { neg: false, mag: INFINITE_LEN_U });
        let end = spec_vneg(start);
        if self.draw_arrow {
            seq![
                seq![start, end],
                spec_arrow_head(
                    spec_vzero(),
                    self.direction,
                    Scalar::Fin { neg: false, mag: MIN_LINE_LEN_U },
                ),
            ]
        } else {
            seq![seq![start, end]]
        }
    }

    fn linestrips(&self) -> (r: Vec<Vec<Vec2>>) {
        let start = self.direction.as_vec2().scale(
            Scalar::Fin { neg: false, mag: INFINITE_LEN_U },
        );
        let end = start.neg();
        let mut shaft: Vec<Vec2> = Vec::new();
        shaft.push(start);
        shaft.push(end);
        let mut out: Vec<Vec<Vec2>> = Vec::new();
        out.push(shaft);
        if self.draw_arrow {
            out.push(
                arrow_head(
                    Vec2::zero(),
                    self.direction,
                    Scalar::Fin { neg: false, mag: MIN_LINE_LEN_U },
                ),
            );
        }
        proof {
            assert(views(out) =~~= self.strips());
        }
        out
    }
}

impl GizmoPrimitive2d for Line2d {
    type Output = Line2dBuilder;

    open spec fn builder(&self) -> Line2dBuilder {
        Line2dBuilder { direction: self.direction, draw_arrow: false }
    }

    fn gizmos(&self) -> (r: Line2dBuilder) {
        Line2dBuilder { direction: self.direction, draw_arrow: false }
    }
}


/// Builder for the direction arrow of a [`Dir2`].
#[derive(Clone, Copy, Debug)]
pub struct Dir2Builder {
    pub direction: Dir2,
}

impl GizmoBuilder2d for Dir2Builder {
    open spec fn wf(&self) -> bool {
        true
    }

    open spec fn strips(&self) -> Seq<Seq<Vec2>> {
        spec_arrow_2d(
            spec_vzero(),
            spec_vscale(self.direction.vec, Scalar::Fin { neg: false, mag: MIN_LINE_LEN_U }),
        )
    }

    fn linestrips(&self) -> (r: Vec<Vec<Vec2>>) {
        arrow_2d(
            Vec2::zero(),
            self.direction.as_vec2().scale(Scalar::Fin { neg: false, mag: MIN_LINE_LEN_U }),
        )
    }
}

impl GizmoPrimitive2d for Dir2 {
    type Output = Dir2Builder;

    open spec fn builder(&self) -> Dir2Builder {
        Dir2Builder { direction: *self }
    }

    fn gizmos(&self) -> (r: Dir2Builder) {
        Dir2Builder { direction: *self }
    }
}

/// Builder for the outline of a [`Plane2d`]: the plane line, its normal
/// arrow, and a small arrow marking the plane's counterclockwise direction.
#[derive(Clone, Copy, Debug)]
pub struct Plane2dBuilder {
    pub normal: Dir2,
}

impl GizmoBuilder2d for Plane2dBuilder {
    open spec fn wf(&self) -> bool {
        true
    }

    open spec fn strips(&self) -> Seq<Seq<Vec2>> {
        let line_dir = Dir2 { vec: spec_vneg(spec_vperp(self.normal.vec)) };
        let base = spec_arrow_2d(
            spec_vzero(),
            spec_vscale(self.normal.vec, Scalar::Fin { neg: false, mag: MIN_LINE_LEN_U }),
        );
        let inf = Scalar::Fin { neg: false, mag: INFINITE_LEN_U };
        base.push(
            seq![spec_vscale(line_dir.vec, inf), spec_vneg(spec_vscale(line_dir.vec, inf))],
        ).push(
            spec_arrow_head(
                spec_vscale(line_dir.vec, Scalar::Fin { neg: false, mag: MIN_LINE_LEN_U }),
                line_dir,
                Scalar::Fin { neg: false, mag: PLANE_TIP_U },
            ),
        )
    }

    #[verifier::rlimit(100)]
    #[verifier::spinoff_prover]
    fn linestrips(&self) -> (r: Vec<Vec<Vec2>>) {
        let line_dir = Dir2::new_unchecked(self.normal.as_vec2().perp().neg());
        let mut out = arrow_2d(
            Vec2::zero(),
            self.normal.as_vec2().scale(Scalar::Fin { neg: false, mag: MIN_LINE_LEN_U }),
        );
        let inf = Scalar::Fin { neg: false, mag: INFINITE_LEN_U };
        let mut line: Vec<Vec2> = Vec::new();
        line.push(line_dir.as_vec2().scale(inf));
        line.push(line_dir.as_vec2().scale(inf).neg());
        out.push(line);
        out.push(
            arrow_head(
                line_dir.as_vec2().scale(Scalar::Fin { neg: false, mag: MIN_LINE_LEN_U }),
                line_dir,
                Scalar::Fin { neg: false, mag: PLANE_TIP_U },
            ),
        );
        proof {
            assert(views(out) =~~= self.strips());
        }
        out
    }
}

impl GizmoPrimitive2d for Plane2d {
    type Output = Plane2dBuilder;

    open spec fn builder(&self) -> Plane2dBuilder {
        Plane2dBuilder { normal: self.normal }
    }

    fn gizmos(&self) -> (r: Plane2dBuilder) {
        Plane2dBuilder { normal: self.normal }
    }
}

/// Builder for configuring the drawing options of a [`Segment2d`].
#[derive(Clone, Copy, Debug)]
pub struct Segment2dBuilder {
    /// Direction of the line segment.
    pub direction: Dir2,
    /// Half-length of the line segment.
    pub half_length: Scalar,
    /// Decides whether to draw just a line or an arrow.
    pub draw_arrow: bool,
}

impl Segment2dBuilder {
    /// Set the drawing mode of the line (arrow vs. plain line).
    pub fn draw_arrow(self, is_enabled: bool) -> (r: Segment2dBuilder)
        ensures
            r == (Segment2dBuilder { draw_arrow: is_enabled, ..self }),
    {
        Segment2dBuilder { draw_arrow: is_enabled, ..self }
    }
}

impl GizmoBuilder2d for Segment2dBuilder {
    open spec fn wf(&self) -> bool {
        true
    }

    open spec fn strips(&self) -> Seq<Seq<Vec2>> {
        let end = spec_vscale(self.direction.vec, self.half_length);
        let start = spec_vneg(end);
        if self.draw_arrow {
            spec_arrow_2d(start, end)
        } else {
            seq![seq![start, end]]
        }
    }

    fn linestrips(&self) -> (r: Vec<Vec<Vec2>>) {
        let end = self.direction.as_vec2().scale(self.half_length);
        let start = end.neg();
        if self.draw_arrow {
            arrow_2d(start, end)
        } else {
            let mut segment: Vec<Vec2> = Vec::new();
            segment.push(start);
            segment.push(end);
            let r = one_strip(segment);
            proof {
                assert(views(r) =~~= self.strips());
            }
            r
        }
    }
}

impl GizmoPrimitive2d for Segment2d {
    type Output = Segment2dBuilder;

    open spec fn builder(&self) -> Segment2dBuilder {
        Segment2dBuilder {
            direction: self.direction,
            half_length: self.half_length,
            draw_arrow: false,
        }
    }

    fn gizmos(&self) -> (r: Segment2dBuilder) {
        Segment2dBuilder {
            direction: self.direction,
            half_length: self.half_length,
            draw_arrow: false,
        }
    }
}

/// Builder for the strip of an open [`Polyline2d`].
#[derive(Debug)]
pub struct Polyline2dBuilder {
    pub vertices: Vec<Vec2>,
}

impl Polyline2dBuilder {
    /// Wraps the vertices to draw.
    pub fn new(vertices: Vec<Vec2>) -> (r: Polyline2dBuilder)
        ensures
            r.vertices@ == vertices@,
    {
        Polyline2dBuilder { vertices }
    }
}

impl GizmoBuilder2d for Polyline2dBuilder {
    open spec fn wf(&self) -> bool {
        true
    }

    open spec fn strips(&self) -> Seq<Seq<Vec2>> {
        if self.vertices@.len() < 2 {
            seq![Seq::empty()]
        } else {
            seq![self.vertices@]
        }
    }

    fn linestrips(&self) -> (r: Vec<Vec<Vec2>>) {
        let n = self.vertices.len();
        let points: Vec<Vec2> = if n == 0 || n == 1 {
            Vec::new()
        } else {
            copy_points(&self.vertices)
        };
        let r = one_strip(points);
        proof {
            assert(views(r) =~~= self.strips());
        }
        r
    }
}

/// Builder for the closed strip of a [`Polygon`].
#[derive(Debug)]
pub struct PolygonBuilder {
    pub vertices: Vec<Vec2>,
}

impl PolygonBuilder {
    /// Wraps the vertices to draw.
    pub fn new(vertices: Vec<Vec2>) -> (r: PolygonBuilder)
        ensures
            r.vertices@ == vertices@,
    {
        PolygonBuilder { vertices }
    }
}

impl GizmoBuilder2d for PolygonBuilder {
    open spec fn wf(&self) -> bool {
        self.vertices@.len() < usize::MAX
    }

    open spec fn strips(&self) -> Seq<Seq<Vec2>> {
        if self.vertices@.len() < 2 {
            seq![Seq::empty()]
        } else if self.vertices@.len() == 2 {
            seq![self.vertices@]
        } else {
            seq![self.vertices@.push(self.vertices@[0])]
        }
    }

    fn linestrips(&self) -> (r: Vec<Vec<Vec2>>) {
        let n = self.vertices.len();
        let points: Vec<Vec2> = if n == 0 || n == 1 {
            Vec::new()
        } else if n == 2 {
            copy_points(&self.vertices)
        } else {
            let mut pts = copy_points(&self.vertices);
            let first = pts[0];
            pts.push(first);
            pts
        };
        let r = one_strip(points);
        proof {
            assert(views(r) =~~= self.strips());
        }
        r
    }
}

/// Builder for the outline of a [`Triangle2d`].
#[derive(Clone, Copy, Debug)]
pub struct Triangle2dBuilder {
    pub a: Vec2,
    pub b: Vec2,
    pub c: Vec2,
}

impl GizmoBuilder2d for Triangle2dBuilder {
    open spec fn wf(&self) -> bool {
        true
    }

    open spec fn strips(&self) -> Seq<Seq<Vec2>> {
        seq![seq![self.a, self.b, self.c, self.a]]
    }

    fn linestrips(&self) -> (r: Vec<Vec<Vec2>>) {
        let mut pts: Vec<Vec2> = Vec::new();
        pts.push(self.a);
        pts.push(self.b);
        pts.push(self.c);
        pts.push(self.a);
        let r = one_strip(pts);
        proof {
            assert(views(r) =~~= self.strips());
        }
        r
    }
}

impl GizmoPrimitive2d for Triangle2d {
    type Output = Triangle2dBuilder;

    open spec fn builder(&self) -> Triangle2dBuilder {
        Triangle2dBuilder { a: self.a, b: self.b, c: self.c }
    }

    fn gizmos(&self) -> (r: Triangle2dBuilder) {
        Triangle2dBuilder { a: self.a, b: self.b, c: self.c }
    }
}

/// Builder for the outline of a [`Rectangle`].
#[derive(Clone, Copy, Debug)]
pub struct RectangleBuilder {
    pub half_size: Vec2,
}

impl GizmoBuilder2d for RectangleBuilder {
    open spec fn wf(&self) -> bool {
        true
    }

    open spec fn strips(&self) -> Seq<Seq<Vec2>> {
        seq![
            seq![
                self.half_size,
                spec_v2(self.half_size.x, crate::scalar::spec_neg(self.half_size.y)),
                spec_v2(
                    crate::scalar::spec_neg(self.half_size.x),
                    crate::scalar::spec_neg(self.half_size.y),
                ),
                spec_v2(crate::scalar::spec_neg(self.half_size.x), self.half_size.y),
                self.half_size,
            ],
        ]
    }

    fn linestrips(&self) -> (r: Vec<Vec<Vec2>>) {
        let mut pts: Vec<Vec2> = Vec::new();
        pts.push(self.half_size);
        pts.push(Vec2::new(self.half_size.x, self.half_size.y.neg()));
        pts.push(Vec2::new(self.half_size.x.neg(), self.half_size.y.neg()));
        pts.push(Vec2::new(self.half_size.x.neg(), self.half_size.y));
        pts.push(self.half_size);
        let r = one_strip(pts);
        proof {
            assert(views(r) =~~= self.strips());
        }
        r
    }
}

impl GizmoPrimitive2d for Rectangle {
    type Output = RectangleBuilder;

    open spec fn builder(&self) -> RectangleBuilder {
        RectangleBuilder { half_size: self.half_size }
    }

    fn gizmos(&self) -> (r: RectangleBuilder) {
        RectangleBuilder { half_size: self.half_size }
    }
}

/// Builder for the outline of a [`RegularPolygon`].
#[derive(Clone, Copy, Debug)]
pub struct RegularPolygonBuilder {
    pub circumradius: Scalar,
    pub sides: usize,
}

impl GizmoBuilder2d for RegularPolygonBuilder {
    open spec fn wf(&self) -> bool {
        self.sides < usize::MAX
    }

    open spec fn strips(&self) -> Seq<Seq<Vec2>> {
        seq![
            Seq::new(
                (self.sides + 1) as nat,
                |i: int| spec_circle_pt(self.circumradius, self.sides, i as usize),
            ),
        ]
    }

    fn linestrips(&self) -> (r: Vec<Vec<Vec2>>) {
        let mut pts: Vec<Vec2> = Vec::new();
        let mut i: usize = 0;
        while i < self.sides + 1
            invariant
                i <= self.sides + 1,
                self.sides < usize::MAX,
                pts@.len() == i as int,
                forall|j: int|
                    0 <= j < i as int ==> pts@[j] == spec_circle_pt(
                        self.circumradius,
                        self.sides,
                        j as usize,
                    ),
            decreases self.sides + 1 - i,
        {
            pts.push(single_circle_coordinate(self.circumradius, self.sides, i));
            i = i + 1;
        }
        let r = one_strip(pts);
        proof {
            assert(views(r) =~~= self.strips());
        }
        r
    }
}

impl GizmoPrimitive2d for RegularPolygon {
    type Output = RegularPolygonBuilder;

    open spec fn builder(&self) -> RegularPolygonBuilder {
        RegularPolygonBuilder { circumradius: self.circumcircle.radius, sides: self.sides }
    }

    fn gizmos(&self) -> (r: RegularPolygonBuilder) {
        RegularPolygonBuilder { circumradius: self.circumradius(), sides: self.sides }
    }
}

/// Builder for configuring the drawing options of a [`Capsule2d`].
#[derive(Clone, Copy, Debug)]
pub struct Capsule2dBuilder {
    pub radius: Scalar,
    pub half_length: Scalar,
    pub resolution: usize,
}

/// The quarter-circle cap strip a capsule is built from.
pub open spec fn spec_capsule_arc(radius: Scalar, resolution: usize) -> Seq<Vec2> {
    (Arc2dBuilder {
        arc: Arc2d { radius, half_angle: Scalar::Fin { neg: false, mag: HALF_PI_U } },
        arc_kind: ArcKind::Arc,
        resolution: Option::Some(resolution),
    }).strips()[0]
}

impl GizmoBuilder2d for Capsule2dBuilder {
    open spec fn wf(&self) -> bool {
        self.resolution <= (usize::MAX - 3) / 2
    }

    open spec fn strips(&self) -> Seq<Seq<Vec2>> {
        let arc_pts = spec_capsule_arc(self.radius, self.resolution);
        let zero = Scalar::Fin { neg: false, mag: 0 };
        let top = spec_v2(zero, self.half_length);
        let bottom = spec_v2(zero, crate::scalar::spec_neg(self.half_length));
        let up = arc_pts.map_values(|p: Vec2| spec_vadd(top, p));
        let down = arc_pts.map_values(|p: Vec2| spec_vsub(bottom, p));
        seq![up.add(down).push(up[0])]
    }

    #[verifier::rlimit(100)]
    #[verifier::spinoff_prover]
    fn linestrips(&self) -> (r: Vec<Vec<Vec2>>) {
        let arc_builder = Arc2d::new(self.radius, Scalar::Fin { neg: false, mag: HALF_PI_U })
            .gizmos().resolution(self.resolution);
        let strips = arc_builder.linestrips();
        proof {
            assert(views(strips).len() == 1);
            assert(strips@.len() == 1);
        }
        let arc_points: &Vec<Vec2> = &strips[0];
        proof {
            assert(arc_points@ == views(strips)[0]);
            assert(arc_points@ == spec_capsule_arc(self.radius, self.resolution));
            assert(spec_capsule_arc(self.radius, self.resolution).len() == self.resolution + 1);
        }
        let zero = Scalar::zero();
        let top = Vec2::new(zero, self.half_length);
        let bottom = Vec2::new(zero, self.half_length.neg());
        let n = arc_points.len();
        let mut positions: Vec<Vec2> = Vec::new();
        let mut i: usize = 0;
        while i < n
            invariant
                i <= n,
                n == arc_points@.len(),
                n <= usize::MAX - 2,
                positions@.len() == i as int,
                forall|j: int|
                    0 <= j < i as int ==> positions@[j] == spec_vadd(top, arc_points@[j]),
            decreases n - i,
        {
            positions.push(top.add(arc_points[i]));
            i = i + 1;
        }
        let mut k: usize = 0;
        while k < n
            invariant
                k <= n,
                1 <= n,
                n == arc_points@.len(),
                arc_points@ == spec_capsule_arc(self.radius, self.resolution),
                n + n <= usize::MAX - 1,
                top == spec_v2(Scalar::Fin { neg: false, mag: 0 }, self.half_length),
                bottom == spec_v2(
                    Scalar::Fin { neg: false, mag: 0 },
                    crate::scalar::spec_neg(self.half_length),
                ),
                forall|j: int|
                    0 <= j < n ==> #[trigger] positions@[j] == spec_vadd(top, arc_points@[j]),
                positions@.len() == n + k,
                forall|j: int|
                    n <= j < n + k ==> positions@[j] == spec_vsub(bottom, arc_points@[j - n]),
            decreases n - k,
        {
            positions.push(bottom.sub(arc_points[k]));
            k = k + 1;
        }
        let first = positions[0];
        positions.push(first);
        proof {
            let arc_pts = spec_capsule_arc(self.radius, self.resolution);
            let upv = arc_pts.map_values(|p: Vec2| spec_vadd(spec_v2(
                Scalar::Fin { neg: false, mag: 0 },
                self.half_length,
            ), p));
            let downv = arc_pts.map_values(|p: Vec2| spec_vsub(spec_v2(
                Scalar::Fin { neg: false, mag: 0 },
                crate::scalar::spec_neg(self.half_length),
            ), p));
            assert(forall|j: int| 0 <= j < n ==> positions@[j] == #[trigger] upv[j]);
            assert(forall|j: int| n <= j < n + n ==> #[trigger] positions@[j] == downv[j - n]);
            assert(positions@ =~= upv.add(downv).push(upv[0]));
        }
        let r = one_strip(positions);
        proof {
            assert(views(r) =~~= self.strips());
        }
        r
    }
}

impl GizmoPrimitive2d for Capsule2d {
    type Output = Capsule2dBuilder;

    open spec fn builder(&self) -> Capsule2dBuilder {
        Capsule2dBuilder {
            radius: self.radius,
            half_length: self.half_length,
            resolution: DEFAULT_CIRCLE_RESOLUTION,
        }
    }

    fn gizmos(&self) -> (r: Capsule2dBuilder) {
        Capsule2dBuilder {
            radius: self.radius,
            half_length: self.half_length,
            resolution: DEFAULT_CIRCLE_RESOLUTION,
        }
    }
}

} // verus!
