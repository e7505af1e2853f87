//! Bounding volumes for spatialized normal cones.
//!
//! An axis-aligned box bounds the space a geometry occupies; a circular cone
//! bounds the directions of its normals; `SpatializedNormalCone` combines the
//! two so that hierarchy builders and traversals can prune with both at once.
//!
//! All scalars are signed 64-bit fixed-point numbers with 32 fractional bits.

pub mod aabb;
pub mod bounding_volume;
pub mod circular_cone;
pub mod math;
pub mod path;
pub mod spatialized_normal_cone;
pub mod trig;

pub use aabb::AABB;
pub use bounding_volume::BoundingVolume;
pub use circular_cone::CircularCone;
pub use math::Point;
pub use math::Real;
pub use math::Vector;
pub use path::CurveSampler;
pub use path::PathSample;
pub use path::StrokePattern;
pub use path::TriMesh;
pub use spatialized_normal_cone::SpatializedNormalCone;
