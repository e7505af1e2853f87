//! The combination of an AABB with a circular cone to bound both the space
//! occupied by a geometry and its normals.
//!
//! Every operation conjoins the two sub-bounds: the composite intersects or
//! contains another exactly when both the boxes and the cones do, and a
//! merge merges each part independently. Margins are linear distances, so
//! loosening and tightening adjust the box only and leave the normal cone
//! unchanged.

use vstd::prelude::*;

use crate::aabb::aabb_can_adjust;
use crate::aabb::aabb_center;
use crate::aabb::aabb_contains;
use crate::aabb::aabb_intersects;
use crate::aabb::aabb_inv;
use crate::aabb::aabb_loosened;
use crate::aabb::aabb_merged;
use crate::aabb::aabb_tightened;
use crate::aabb::lemma_aabb_contains_implies_intersects;
use crate::aabb::lemma_aabb_merged_contains_both;
use crate::aabb::AABB;
use crate::bounding_volume::BoundingVolume;
use crate::circular_cone::cone_contains;
use crate::circular_cone::cone_intersects;
use crate::circular_cone::cone_inv;
use crate::circular_cone::cone_merged;
use crate::circular_cone::lemma_cone_contains_implies_intersects;
use crate::circular_cone::lemma_cone_merged_contains_both;
use crate::circular_cone::CircularCone;
use crate::math::Point;
use crate::math::Real;

verus! {

/// An AABB bounding the space occupied by a geometry, paired with a circular
/// cone bounding its normals.
#[derive(Clone, Copy, PartialEq, Eq, Structural, Debug)]
pub struct SpatializedNormalCone {
    /// An AABB bounding the space occupied by a geometry.
    pub aabb: AABB,
    /// A circular cone bounding the normals of a geometry.
    pub normals: CircularCone,
}

/// Well-formedness: both parts are well-formed.
pub open spec fn snc_inv(s: SpatializedNormalCone) -> bool {
    aabb_inv(s.aabb) && cone_inv(s.normals)
}

/// The composite may overlap another exactly when both parts may.
pub open spec fn snc_intersects(s: SpatializedNormalCone, o: SpatializedNormalCone) -> bool {
    aabb_intersects(s.aabb, o.aabb) && cone_intersects(s.normals, o.normals)
}

/// The composite contains another exactly when both parts do.
pub open spec fn snc_contains(s: SpatializedNormalCone, o: SpatializedNormalCone) -> bool {
    aabb_contains(s.aabb, o.aabb) && cone_contains(s.normals, o.normals)
}

/// Componentwise merge.
pub open spec fn snc_merged(s: SpatializedNormalCone, o: SpatializedNormalCone)
    -> SpatializedNormalCone {
    SpatializedNormalCone {
        aabb: aabb_merged(s.aabb, o.aabb),
        normals: cone_merged(s.normals, o.normals),
    }
}

impl SpatializedNormalCone {
    /// Builds the composite bound from its two parts.
    pub fn new(aabb: AABB, normals: CircularCone) -> (r: SpatializedNormalCone)
        ensures
            r == (SpatializedNormalCone { aabb, normals }),
    {
        SpatializedNormalCone { aabb, normals }
    }
}

impl BoundingVolume for SpatializedNormalCone {
    open spec fn inv(self) -> bool {
        snc_inv(self)
    }

    open spec fn spec_intersects(self, other: Self) -> bool {
        snc_intersects(self, other)
    }

    open spec fn spec_contains(self, other: Self) -> bool {
        snc_contains(self, other)
    }

    open spec fn spec_merged(self, other: Self) -> Self {
        snc_merged(self, other)
    }

    open spec fn can_adjust(self, margin: Real) -> bool {
        aabb_can_adjust(self.aabb, margin)
    }

    open spec fn spec_loosened(self, margin: Real) -> Self {
        SpatializedNormalCone { aabb: aabb_loosened(self.aabb, margin), normals: self.normals }
    }

    open spec fn spec_tightened(self, margin: Real) -> Self {
        SpatializedNormalCone { aabb: aabb_tightened(self.aabb, margin), normals: self.normals }
    }

    open spec fn spec_center(self) -> Point {
        aabb_center(self.aabb)
    }

    fn center(&self) -> (c: Point) {
        self.aabb.center()
    }

    fn intersects(&self, other: &Self) -> (r: bool) {
        self.aabb.intersects(&other.aabb) && self.normals.double_cones_intersect(&other.normals)
    }

    fn contains(&self, other: &Self) -> (r: bool) {
        self.aabb.contains(&other.aabb) && self.normals.contains(&other.normals)
    }

    fn merge(&mut self, other: &Self) {
        self.aabb.merge(&other.aabb);
        self.normals.merge(&other.normals);
    }

    fn merged(&self, other: &Self) -> (r: Self) {
        SpatializedNormalCone {
            aabb: self.aabb.merged(&other.aabb),
            normals: self.normals.merged(&other.normals),
        }
    }

    fn loosen(&mut self, margin: Real) {
        self.aabb.loosen(margin)
    }

    fn loosened(&self, margin: Real) -> (r: Self) {
        SpatializedNormalCone { aabb: self.aabb.loosened(margin), normals: self.normals }
    }

    fn tighten(&mut self, margin: Real) {
        self.aabb.tighten(margin)
    }

    fn tightened(&self, margin: Real) -> (r: Self) {
        SpatializedNormalCone { aabb: self.aabb.tightened(margin), normals: self.normals }
    }
}

/// Merging two composite bounds yields a bound containing each of them; as
/// the statement holds for both argument orders, the merge is commutative in
/// the only sense hierarchy construction needs.
pub proof fn lemma_snc_merged_contains_both(s: SpatializedNormalCone, o: SpatializedNormalCone)
    requires
        snc_inv(s),
        snc_inv(o),
    ensures
        snc_inv(snc_merged(s, o)),
        snc_contains(snc_merged(s, o), s),
        snc_contains(snc_merged(s, o), o),
{
    lemma_aabb_merged_contains_both(s.aabb, o.aabb);
    lemma_cone_merged_contains_both(s.normals, o.normals);
}

/// A composite bound certainly inside another also overlaps it: containment
/// is never reported where intersection would be denied.
pub proof fn lemma_snc_contains_implies_intersects(s: SpatializedNormalCone, o: SpatializedNormalCone)
    requires
        snc_inv(s),
        snc_inv(o),
        snc_contains(s, o),
    ensures
        snc_intersects(s, o),
{
    lemma_aabb_contains_implies_intersects(s.aabb, o.aabb);
    lemma_cone_contains_implies_intersects(s.normals, o.normals);
}

} // verus!
