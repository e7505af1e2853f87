//! Sampling a curve and stroking a pattern along it.
//!
//! A curve sampler hands out path samples one by one; a stroke pattern
//! consumes a sampler and produces a triangle mesh. Both are capability
//! contracts implemented by collaborators that own the actual curves and
//! patterns; this module only fixes their shapes.

use vstd::prelude::*;

use crate::math::Point;
use crate::math::Vector;

verus! {

/// A triangle mesh: vertex coordinates, one normal per vertex, and vertex
/// index triples, one per triangle.
pub struct TriMesh {
    /// Vertex positions.
    pub coords: Vec<Point>,
    /// Per-vertex normals.
    pub normals: Vec<Vector>,
    /// Vertex indices of each triangle.
    pub indices: Vec<(u32, u32, u32)>,
}

/// A sample point and its associated tangent.
pub enum PathSample {
    /// A point that starts a new path.
    StartPoint(Point, Vector),
    /// A point that is inside of the path currently generated.
    InnerPoint(Point, Vector),
    /// A point that ends the path currently generated.
    EndPoint(Point, Vector),
    /// Used when the sampler does not have any other points to generate.
    EndOfSample,
}

/// A curve sampler.
pub trait CurveSampler {
    /// Returns the next sample point.
    fn next(&mut self) -> PathSample;
}

/// A pattern that is replicated along a path.
///
/// It is responsible of the generation of the whole mesh.
pub trait StrokePattern {
    /// Generates the mesh using this pattern and the curve sampled by
    /// `sampler`.
    fn stroke<C: CurveSampler>(&mut self, sampler: &mut C) -> TriMesh;
}

} // verus!
