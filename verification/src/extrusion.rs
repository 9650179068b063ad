//! Builder settings for meshes swept from a 2D base shape.

use vstd::prelude::*;

use crate::primitives::{Extrusion, Primitive2d};

verus! {

/// Vertex indices of a mesh, in either width.
#[derive(Debug, PartialEq, Eq)]
pub enum Indices {
    /// Sixteen-bit indices.
    U16(Vec<u16>),
    /// Thirty-two-bit indices.
    U32(Vec<u32>),
}

/// A base shape whose perimeter is known as index strips, so that the swept
/// sides of its extrusion can be stitched.  Implemented by the consumers of
/// the library for their own mesh types.
pub trait ExtrudableMesh {
    /// The indices of each closed loop of the base shape's perimeter.
    fn perimeter_indices(&self) -> Vec<Indices>;
}

/// Builder for the mesh of an [`Extrusion`].
#[derive(Debug)]
pub struct ExtrusionMeshBuilder<T: Primitive2d + ExtrudableMesh> {
    pub meshable: Extrusion<T>,
    pub segments: usize,
}

impl<T: Primitive2d + ExtrudableMesh> ExtrusionMeshBuilder<T> {
    /// Wraps an extrusion with the given number of barrel segments.
    pub fn new(extrusion: Extrusion<T>, segments: usize) -> (r: ExtrusionMeshBuilder<T>)
        ensures
            r == (ExtrusionMeshBuilder { meshable: extrusion, segments }),
    {
        ExtrusionMeshBuilder { meshable: extrusion, segments }
    }

    /// Sets the number of segments along the depth of the extrusion.
    pub fn segments(self, segments: usize) -> (r: ExtrusionMeshBuilder<T>)
        ensures
            r == (ExtrusionMeshBuilder { segments, ..self }),
    {
        ExtrusionMeshBuilder { segments, ..self }
    }
}

} // verus!
