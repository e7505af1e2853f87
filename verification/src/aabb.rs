//! Axis-aligned bounding boxes: the spatial half of a spatialized normal cone.
//!
//! A box is the product of three closed coordinate intervals, kept corner to
//! corner (`mins` componentwise below `maxs`). All operations are the
//! standard slab tests and componentwise corner arithmetic.

use vstd::prelude::*;

use crate::bounding_volume::BoundingVolume;
use crate::math::Point;
use crate::math::Real;
use crate::math::MAX_EXTENT;

verus! {

/// An axis-aligned box, bounding the space a geometry occupies.
#[derive(Clone, Copy, PartialEq, Eq, Structural, Debug)]
pub struct AABB {
    /// Corner with the smallest coordinate on every axis.
    pub mins: Point,
    /// Corner with the largest coordinate on every axis.
    pub maxs: Point,
}

/// The smaller of two scalars.
pub open spec fn rmin(a: Real, b: Real) -> Real {
    if a <= b {
        a
    } else {
        b
    }
}

/// The larger of two scalars.
pub open spec fn rmax(a: Real, b: Real) -> Real {
    if a <= b {
        b
    } else {
        a
    }
}

/// Well-formedness: corners are ordered on every axis and lie within the
/// representable extent, so that merges, midpoints and margins cannot
/// overflow the fixed-point scalars.
pub open spec fn aabb_inv(a: AABB) -> bool {
    &&& -MAX_EXTENT <= a.mins.x && a.mins.x <= a.maxs.x && a.maxs.x <= MAX_EXTENT
    &&& -MAX_EXTENT <= a.mins.y && a.mins.y <= a.maxs.y && a.maxs.y <= MAX_EXTENT
    &&& -MAX_EXTENT <= a.mins.z && a.mins.z <= a.maxs.z && a.maxs.z <= MAX_EXTENT
}

/// The midpoint of the box, axis by axis.
pub open spec fn aabb_center(a: AABB) -> Point {
    Point {
        x: (a.mins.x + (a.maxs.x - a.mins.x) / 2) as i64,
        y: (a.mins.y + (a.maxs.y - a.mins.y) / 2) as i64,
        z: (a.mins.z + (a.maxs.z - a.mins.z) / 2) as i64,
    }
}

/// The slab test: the boxes overlap exactly when their intervals overlap on
/// every axis.
pub open spec fn aabb_intersects(a: AABB, b: AABB) -> bool {
    &&& a.mins.x <= b.maxs.x && b.mins.x <= a.maxs.x
    &&& a.mins.y <= b.maxs.y && b.mins.y <= a.maxs.y
    &&& a.mins.z <= b.maxs.z && b.mins.z <= a.maxs.z
}

/// `b` lies inside `a` exactly when `b`'s interval lies inside `a`'s on
/// every axis.
pub open spec fn aabb_contains(a: AABB, b: AABB) -> bool {
    &&& a.mins.x <= b.mins.x && b.maxs.x <= a.maxs.x
    &&& a.mins.y <= b.mins.y && b.maxs.y <= a.maxs.y
    &&& a.mins.z <= b.mins.z && b.maxs.z <= a.maxs.z
}

/// The smallest box containing both inputs: componentwise minimum of the
/// `mins` corners and maximum of the `maxs` corners.
pub open spec fn aabb_merged(a: AABB, b: AABB) -> AABB {
    AABB {
        mins: Point {
            x: rmin(a.mins.x, b.mins.x),
            y: rmin(a.mins.y, b.mins.y),
            z: rmin(a.mins.z, b.mins.z),
        },
        maxs: Point {
            x: rmax(a.maxs.x, b.maxs.x),
            y: rmax(a.maxs.y, b.maxs.y),
            z: rmax(a.maxs.z, b.maxs.z),
        },
    }
}

/// The box grown outward by `m` on every side.
pub open spec fn aabb_loosened(a: AABB, m: Real) -> AABB {
    AABB {
        mins: Point {
            x: (a.mins.x - m) as i64,
            y: (a.mins.y - m) as i64,
            z: (a.mins.z - m) as i64,
        },
        maxs: Point {
            x: (a.maxs.x + m) as i64,
            y: (a.maxs.y + m) as i64,
            z: (a.maxs.z + m) as i64,
        },
    }
}

/// Lower end of an interval `[lo, hi]` shrunk by `m`: the interval is pulled
/// in from both sides, and collapses to its midpoint rather than inverting.
pub open spec fn tightened_lo(lo: Real, hi: Real, m: Real) -> Real {
    if lo + m <= hi - m {
        (lo + m) as i64
    } else {
        (lo + (hi - lo) / 2) as i64
    }
}

/// Upper end of an interval `[lo, hi]` shrunk by `m`; see `tightened_lo`.
pub open spec fn tightened_hi(lo: Real, hi: Real, m: Real) -> Real {
    if lo + m <= hi - m {
        (hi - m) as i64
    } else {
        (lo + (hi - lo) / 2) as i64
    }
}

/// The box shrunk inward by `m` on every side, never inverting an axis.
pub open spec fn aabb_tightened(a: AABB, m: Real) -> AABB {
    AABB {
        mins: Point {
            x: tightened_lo(a.mins.x, a.maxs.x, m),
            y: tightened_lo(a.mins.y, a.maxs.y, m),
            z: tightened_lo(a.mins.z, a.maxs.z, m),
        },
        maxs: Point {
            x: tightened_hi(a.mins.x, a.maxs.x, m),
            y: tightened_hi(a.mins.y, a.maxs.y, m),
            z: tightened_hi(a.mins.z, a.maxs.z, m),
        },
    }
}

/// Margins are non-negative and small enough that the grown box still fits
/// within the representable extent.
pub open spec fn aabb_can_adjust(a: AABB, m: Real) -> bool {
    &&& 0 <= m
    &&& -MAX_EXTENT <= a.mins.x - m && a.maxs.x + m <= MAX_EXTENT
    &&& -MAX_EXTENT <= a.mins.y - m && a.maxs.y + m <= MAX_EXTENT
    &&& -MAX_EXTENT <= a.mins.z - m && a.maxs.z + m <= MAX_EXTENT
}

impl AABB {
    /// Builds the box with the given corners.
    pub fn new(mins: Point, maxs: Point) -> (r: AABB)
        ensures
            r == (AABB { mins, maxs }),
    {
        AABB { mins, maxs }
    }
}

impl BoundingVolume for AABB {
    open spec fn inv(self) -> bool {
        aabb_inv(self)
    }

    open spec fn spec_intersects(self, other: Self) -> bool {
        aabb_intersects(self, other)
    }

    open spec fn spec_contains(self, other: Self) -> bool {
        aabb_contains(self, other)
    }

    open spec fn spec_merged(self, other: Self) -> Self {
        aabb_merged(self, other)
    }

    open spec fn can_adjust(self, margin: Real) -> bool {
        aabb_can_adjust(self, margin)
    }

    open spec fn spec_loosened(self, margin: Real) -> Self {
        aabb_loosened(self, margin)
    }

    open spec fn spec_tightened(self, margin: Real) -> Self {
        aabb_tightened(self, margin)
    }

    open spec fn spec_center(self) -> Point {
        aabb_center(self)
    }

    fn center(&self) -> (c: Point) {
        Point {
            x: self.mins.x + (self.maxs.x - self.mins.x) / 2,
            y: self.mins.y + (self.maxs.y - self.mins.y) / 2,
            z: self.mins.z + (self.maxs.z - self.mins.z) / 2,
        }
    }

    fn intersects(&self, other: &Self) -> (r: bool) {
        self.mins.x <= other.maxs.x && other.mins.x <= self.maxs.x && self.mins.y <= other.maxs.y
            && other.mins.y <= self.maxs.y && self.mins.z <= other.maxs.z && other.mins.z
            <= self.maxs.z
    }

    fn contains(&self, other: &Self) -> (r: bool) {
        self.mins.x <= other.mins.x && other.maxs.x <= self.maxs.x && self.mins.y <= other.mins.y
            && other.maxs.y <= self.maxs.y && self.mins.z <= other.mins.z && other.maxs.z
            <= self.maxs.z
    }

    fn merge(&mut self, other: &Self) {
        let m = self.merged(other);
        *self = m;
    }

    fn merged(&self, other: &Self) -> (r: Self) {
        AABB {
            mins: Point {
                x: if self.mins.x <= other.mins.x {
                    self.mins.x
                } else {
                    other.mins.x
                },
                y: if self.mins.y <= other.mins.y {
                    self.mins.y
                } else {
                    other.mins.y
                },
                z: if self.mins.z <= other.mins.z {
                    self.mins.z
                } else {
                    other.mins.z
                },
            },
            maxs: Point {
                x: if self.maxs.x <= other.maxs.x {
                    other.maxs.x
                } else {
                    self.maxs.x
                },
                y: if self.maxs.y <= other.maxs.y {
                    other.maxs.y
                } else {
                    self.maxs.y
                },
                z: if self.maxs.z <= other.maxs.z {
                    other.maxs.z
                } else {
                    self.maxs.z
                },
            },
        }
    }

    fn loosen(&mut self, margin: Real) {
        let m = self.loosened(margin);
        *self = m;
    }

    fn loosened(&self, margin: Real) -> (r: Self) {
        AABB {
            mins: Point {
                x: self.mins.x - margin,
                y: self.mins.y - margin,
                z: self.mins.z - margin,
            },
            maxs: Point {
                x: self.maxs.x + margin,
                y: self.maxs.y + margin,
                z: self.maxs.z + margin,
            },
        }
    }

    fn tighten(&mut self, margin: Real) {
        let m = self.tightened(margin);
        *self = m;
    }

    fn tightened(&self, margin: Real) -> (r: Self) {
        AABB {
            mins: Point {
                x: tighten_axis_lo(self.mins.x, self.maxs.x, margin),
                y: tighten_axis_lo(self.mins.y, self.maxs.y, margin),
                z: tighten_axis_lo(self.mins.z, self.maxs.z, margin),
            },
            maxs: Point {
                x: tighten_axis_hi(self.mins.x, self.maxs.x, margin),
                y: tighten_axis_hi(self.mins.y, self.maxs.y, margin),
                z: tighten_axis_hi(self.mins.z, self.maxs.z, margin),
            },
        }
    }
}

/// Executable form of `tightened_lo` for one axis.
fn tighten_axis_lo(lo: Real, hi: Real, m: Real) -> (r: Real)
    requires
        -MAX_EXTENT <= lo <= hi <= MAX_EXTENT,
        0 <= m,
        lo - m >= -MAX_EXTENT,
        hi + m <= MAX_EXTENT,
    ensures
        r == tightened_lo(lo, hi, m),
{
    if lo + m <= hi - m {
        lo + m
    } else {
        lo + (hi - lo) / 2
    }
}

/// Executable form of `tightened_hi` for one axis.
fn tighten_axis_hi(lo: Real, hi: Real, m: Real) -> (r: Real)
    requires
        -MAX_EXTENT <= lo <= hi <= MAX_EXTENT,
        0 <= m,
        lo - m >= -MAX_EXTENT,
        hi + m <= MAX_EXTENT,
    ensures
        r == tightened_hi(lo, hi, m),
{
    if lo + m <= hi - m {
        hi - m
    } else {
        lo + (hi - lo) / 2
    }
}

/// Merging two boxes yields a box containing each of them; as the statement
/// holds for both argument orders, the merge is commutative in the only
/// sense hierarchy construction needs.
pub proof fn lemma_aabb_merged_contains_both(a: AABB, b: AABB)
    requires
        aabb_inv(a),
        aabb_inv(b),
    ensures
        aabb_inv(aabb_merged(a, b)),
        aabb_contains(aabb_merged(a, b), a),
        aabb_contains(aabb_merged(a, b), b),
{
}

/// A box certainly inside another also overlaps it: containment is never
/// reported where intersection would be denied.
pub proof fn lemma_aabb_contains_implies_intersects(a: AABB, b: AABB)
    requires
        aabb_inv(a),
        aabb_inv(b),
        aabb_contains(a, b),
    ensures
        aabb_intersects(a, b),
{
}

/// Loosening a box by a margin and tightening it by the same margin never
/// shrinks it past the original: the result contains the original box.
pub proof fn lemma_aabb_loosen_tighten_contains(a: AABB, m: Real)
    requires
        aabb_inv(a),
        aabb_can_adjust(a, m),
    ensures
        aabb_contains(aabb_tightened(aabb_loosened(a, m), m), a),
{
}

} // verus!
