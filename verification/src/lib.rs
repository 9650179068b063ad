//! Exact-arithmetic scalar kernel and elliptic-integral library for gizmo
//! curve sampling, together with the 2D primitive outline builders that
//! consume it.

use vstd::prelude::*;

pub mod dim2;
pub mod elliptic;
pub mod extrusion;
pub mod primitives;
pub mod scalar;

verus! {

/// System set label for the systems handling the rendering of gizmos.
#[derive(Clone, Copy, Debug, Hash, PartialEq, Eq, Structural)]
pub enum GizmoRenderSystem {
    /// Adds gizmos to the 2D transparent render phase
    QueueLineGizmos2d,
    /// Adds gizmos to the 3D transparent render phase
    QueueLineGizmos3d,
}

} // verus!
