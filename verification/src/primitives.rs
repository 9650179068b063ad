//! Primitive shapes over the exact scalar kernel.
//!
//! The origin is `(0, 0)` for 2D primitives unless stated otherwise.  Every
//! vector operation is pinned to a specification function, exactly as the
//! scalar kernel is.

use vstd::prelude::*;

use crate::scalar::{spec_add, spec_div, spec_mul, spec_neg, spec_sqrt, spec_sub, Scalar, SCALE};

verus! {

/// A marker trait for 2D primitives
pub trait Primitive2d {

}

/// A marker trait for 3D primitives
pub trait Primitive3d {

}

/// A trait for measuring 2D primitives
pub trait Measured2d {
    /// Get the area of the shape
    fn area(&self) -> Scalar;

    /// Get the perimeter of the shape
    fn perimeter(&self) -> Scalar;
}

/// A trait for measuring 3D primitives
pub trait Measured3d {
    /// Get the surface area of the shape
    fn area(&self) -> Scalar;

    /// Get the volume of the shape
    fn volume(&self) -> Scalar;
}

/// The winding order for a set of points
#[derive(Clone, Copy, Debug, PartialEq, Eq)]
pub enum WindingOrder {
    /// A clockwise winding order
    Clockwise,
    /// A counterclockwise winding order
    CounterClockwise,
    /// An invalid winding order indicating that it could not be computed
    /// reliably.  This often happens in degenerate cases where the points lie
    /// on the same line.
    Invalid,
}

/// A two-dimensional vector of exact scalars.
#[derive(Clone, Copy, Debug, PartialEq, Eq, Structural)]
pub struct Vec2 {
    pub x: Scalar,
    pub y: Scalar,
}

pub open spec fn spec_v2(x: Scalar, y: Scalar) -> Vec2 {
    Vec2 { x, y }
}

pub open spec fn spec_vzero() -> Vec2 {
    Vec2 { x: Scalar::Fin { neg: false, mag: 0 }, y: Scalar::Fin { neg: false, mag: 0 } }
}

pub open spec fn spec_vadd(a: Vec2, b: Vec2) -> Vec2 {
    Vec2 { x: spec_add(a.x, b.x), y: spec_add(a.y, b.y) }
}

pub open spec fn spec_vsub(a: Vec2, b: Vec2) -> Vec2 {
    Vec2 { x: spec_sub(a.x, b.x), y: spec_sub(a.y, b.y) }
}

pub open spec fn spec_vneg(a: Vec2) -> Vec2 {
    Vec2 { x: spec_neg(a.x), y: spec_neg(a.y) }
}

/// Componentwise product, as scaling an outline by an ellipse's half-size.
pub open spec fn spec_vmul(a: Vec2, b: Vec2) -> Vec2 {
    Vec2 { x: spec_mul(a.x, b.x), y: spec_mul(a.y, b.y) }
}

pub open spec fn spec_vscale(a: Vec2, s: Scalar) -> Vec2 {
    Vec2 { x: spec_mul(a.x, s), y: spec_mul(a.y, s) }
}

/// Rotation of `b` by the unit complex number `a`.
pub open spec fn spec_vrotate(a: Vec2, b: Vec2) -> Vec2 {
    Vec2 {
        x: spec_sub(spec_mul(a.x, b.x), spec_mul(a.y, b.y)),
        y: spec_add(spec_mul(a.y, b.x), spec_mul(a.x, b.y)),
    }
}

pub open spec fn spec_vlength(a: Vec2) -> Scalar {
    spec_sqrt(spec_add(spec_mul(a.x, a.x), spec_mul(a.y, a.y)))
}

pub open spec fn spec_vnormalize(a: Vec2) -> Vec2 {
    spec_vscale(
        a,
        spec_div(Scalar::Fin { neg: false, mag: SCALE }, spec_vlength(a)),
    )
}

/// The counterclockwise perpendicular.
pub open spec fn spec_vperp(a: Vec2) -> Vec2 {
    Vec2 { x: spec_neg(a.y), y: a.x }
}

impl Vec2 {
    pub fn new(x: Scalar, y: Scalar) -> (r: Vec2)
        ensures
            r == spec_v2(x, y),
    {
        Vec2 { x, y }
    }

    /// The zero vector.
    pub fn zero() -> (r: Vec2)
        ensures
            r == spec_vzero(),
    {
        Vec2 { x: Scalar::zero(), y: Scalar::zero() }
    }

    /// Both components set to the same scalar.
    pub fn splat(s: Scalar) -> (r: Vec2)
        ensures
            r == spec_v2(s, s),
    {
        Vec2 { x: s, y: s }
    }

    pub fn add(self, o: Vec2) -> (r: Vec2)
        ensures
            r == spec_vadd(self, o),
    {
        Vec2 { x: self.x.add(o.x), y: self.y.add(o.y) }
    }

    pub fn sub(self, o: Vec2) -> (r: Vec2)
        ensures
            r == spec_vsub(self, o),
    {
        Vec2 { x: self.x.sub(o.x), y: self.y.sub(o.y) }
    }

    pub fn neg(self) -> (r: Vec2)
        ensures
            r == spec_vneg(self),
    {
        Vec2 { x: self.x.neg(), y: self.y.neg() }
    }

    /// Componentwise product.
    pub fn mul(self, o: Vec2) -> (r: Vec2)
        ensures
            r == spec_vmul(self, o),
    {
        Vec2 { x: self.x.mul(o.x), y: self.y.mul(o.y) }
    }

    pub fn scale(self, s: Scalar) -> (r: Vec2)
        ensures
            r == spec_vscale(self, s),
    {
        Vec2 { x: self.x.mul(s), y: self.y.mul(s) }
    }

    /// Rotates `o` by this vector read as a unit complex number.
    pub fn rotate(self, o: Vec2) -> (r: Vec2)
        ensures
            r == spec_vrotate(self, o),
    {
        Vec2 {
            x: self.x.mul(o.x).sub(self.y.mul(o.y)),
            y: self.y.mul(o.x).add(self.x.mul(o.y)),
        }
    }

    pub fn length(self) -> (r: Scalar)
        ensures
            r == spec_vlength(self),
    {
        self.x.mul(self.x).add(self.y.mul(self.y)).sqrt()
    }

    pub fn normalize(self) -> (r: Vec2)
        ensures
            r == spec_vnormalize(self),
    {
        self.scale(Scalar::one().div(self.length()))
    }

    /// The counterclockwise perpendicular.
    pub fn perp(self) -> (r: Vec2)
        ensures
            r == spec_vperp(self),
    {
        Vec2 { x: self.y.neg(), y: self.x }
    }
}

/// A normalized direction in 2D, stored as its unit vector.
#[derive(Clone, Copy, Debug, PartialEq, Eq, Structural)]
pub struct Dir2 {
    pub vec: Vec2,
}

impl Dir2 {
    /// Wraps a vector that the caller promises is normalized.
    pub fn new_unchecked(vec: Vec2) -> (r: Dir2)
        ensures
            r == (Dir2 { vec }),
    {
        Dir2 { vec }
    }

    pub fn as_vec2(self) -> (r: Vec2)
        ensures
            r == self.vec,
    {
        self.vec
    }
}

impl Primitive2d for Dir2 {

}

/// A circular arc of a given radius spanning twice `half_angle` radians,
/// centered on the vertical axis.
#[derive(Clone, Copy, Debug, PartialEq, Eq, Structural)]
pub struct Arc2d {
    pub radius: Scalar,
    pub half_angle: Scalar,
}

impl Arc2d {
    pub fn new(radius: Scalar, half_angle: Scalar) -> (r: Arc2d)
        ensures
            r == (Arc2d { radius, half_angle }),
    {
        Arc2d { radius, half_angle }
    }
}

impl Primitive2d for Arc2d {

}

/// A circle.
#[derive(Clone, Copy, Debug, PartialEq, Eq, Structural)]
pub struct Circle {
    pub radius: Scalar,
}

impl Primitive2d for Circle {

}

/// A pie slice: an arc together with the two radii to its endpoints.
#[derive(Clone, Copy, Debug, PartialEq, Eq, Structural)]
pub struct CircularSector {
    pub arc: Arc2d,
}

impl Primitive2d for CircularSector {

}

/// A circular segment: an arc together with its chord.
#[derive(Clone, Copy, Debug, PartialEq, Eq, Structural)]
pub struct CircularSegment {
    pub arc: Arc2d,
}

impl Primitive2d for CircularSegment {

}

/// An axis-aligned ellipse given by its half-extents.
#[derive(Clone, Copy, Debug, PartialEq, Eq, Structural)]
pub struct Ellipse {
    pub half_size: Vec2,
}

impl Primitive2d for Ellipse {

}

/// A ring between two concentric circles.
#[derive(Clone, Copy, Debug, PartialEq, Eq, Structural)]
pub struct Annulus {
    pub inner_circle: Circle,
    pub outer_circle: Circle,
}

impl Primitive2d for Annulus {

}

/// A rhombus given by its half-diagonals.
#[derive(Clone, Copy, Debug, PartialEq, Eq, Structural)]
pub struct Rhombus {
    pub half_diagonals: Vec2,
}

impl Primitive2d for Rhombus {

}

/// A capsule: a rectangle capped by two half-circles.
#[derive(Clone, Copy, Debug, PartialEq, Eq, Structural)]
pub struct Capsule2d {
    pub radius: Scalar,
    pub half_length: Scalar,
}

impl Primitive2d for Capsule2d {

}

/// An infinite line through the origin.
#[derive(Clone, Copy, Debug, PartialEq, Eq, Structural)]
pub struct Line2d {
    pub direction: Dir2,
}

impl Primitive2d for Line2d {

}

/// An infinite plane (here: a line) through the origin with the given normal.
#[derive(Clone, Copy, Debug, PartialEq, Eq, Structural)]
pub struct Plane2d {
    pub normal: Dir2,
}

impl Primitive2d for Plane2d {

}

/// A segment through the origin given by direction and half-length.
#[derive(Clone, Copy, Debug, PartialEq, Eq, Structural)]
pub struct Segment2d {
    pub direction: Dir2,
    pub half_length: Scalar,
}

impl Primitive2d for Segment2d {

}

/// An open polyline.
#[derive(Debug, PartialEq, Eq)]
pub struct Polyline2d {
    pub vertices: Vec<Vec2>,
}

impl Primitive2d for Polyline2d {

}

/// A closed polygon.
#[derive(Debug, PartialEq, Eq)]
pub struct Polygon {
    pub vertices: Vec<Vec2>,
}

impl Primitive2d for Polygon {

}

/// A triangle.
#[derive(Clone, Copy, Debug, PartialEq, Eq, Structural)]
pub struct Triangle2d {
    pub a: Vec2,
    pub b: Vec2,
    pub c: Vec2,
}

impl Primitive2d for Triangle2d {

}

/// An axis-aligned rectangle given by its half-extents.
#[derive(Clone, Copy, Debug, PartialEq, Eq, Structural)]
pub struct Rectangle {
    pub half_size: Vec2,
}

impl Primitive2d for Rectangle {

}

/// A regular polygon inscribed in its circumcircle.
#[derive(Clone, Copy, Debug, PartialEq, Eq, Structural)]
pub struct RegularPolygon {
    pub circumcircle: Circle,
    pub sides: usize,
}

impl RegularPolygon {
    /// The radius of the circumcircle.
    pub fn circumradius(&self) -> (r: Scalar)
        ensures
            r == self.circumcircle.radius,
    {
        self.circumcircle.radius
    }
}

impl Primitive2d for RegularPolygon {

}

/// A 2D shape swept along the depth axis.
#[derive(Debug)]
pub struct Extrusion<T> {
    pub base_shape: T,
    pub half_depth: Scalar,
}

impl<T: Primitive2d> Primitive3d for Extrusion<T> {

}

} // verus!
