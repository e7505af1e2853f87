//! Fixed-point scalars and the point/vector types the bounds are built from.
//!
//! A `Real` is a signed 64-bit fixed-point number with 32 fractional bits:
//! the mathematical value is the stored integer divided by `SCALE`. Angles
//! are `Real`s measured in radians, so `PI` is the largest half-angle a
//! circular cone can carry.

use vstd::prelude::*;

verus! {

/// Scalar type of the library: fixed point, 32 fractional bits.
pub type Real = i64;

/// Number of fixed-point units in 1.0.
pub const SCALE: i64 = 4294967296;

/// The angle pi in fixed-point units (rounded to the nearest unit).
pub const PI: i64 = 13493037705;

/// A location in space, one fixed-point coordinate per axis.
#[derive(Clone, Copy, PartialEq, Eq, Structural, Debug)]
pub struct Point {
    pub x: Real,
    pub y: Real,
    pub z: Real,
}

/// A direction or displacement, one fixed-point coordinate per axis.
#[derive(Clone, Copy, PartialEq, Eq, Structural, Debug)]
pub struct Vector {
    pub x: Real,
    pub y: Real,
    pub z: Real,
}

impl Point {
    /// Builds the point with the given coordinates.
    pub fn new(x: Real, y: Real, z: Real) -> (r: Point)
        ensures
            r == (Point { x, y, z }),
    {
        Point { x, y, z }
    }
}

impl Vector {
    /// Builds the vector with the given coordinates.
    pub fn new(x: Real, y: Real, z: Real) -> (r: Vector)
        ensures
            r == (Vector { x, y, z }),
    {
        Vector { x, y, z }
    }
}

/// Largest coordinate magnitude a box corner may carry. Keeping corners in
/// this range lets widths, midpoints and merges be computed without
/// overflowing the fixed-point representation.
pub const MAX_EXTENT: i64 = 2305843009213693952;

/// The componentwise negation of `v`.
pub open spec fn spec_neg(v: Vector) -> Vector {
    Vector { x: (-v.x) as i64, y: (-v.y) as i64, z: (-v.z) as i64 }
}

/// Every coordinate of `v` has magnitude at most 1.0: what a (quantized)
/// unit vector always satisfies, and all a cone axis is required to be.
pub open spec fn bounded_axis(v: Vector) -> bool {
    -SCALE <= v.x <= SCALE && -SCALE <= v.y <= SCALE && -SCALE <= v.z <= SCALE
}

/// The negation of a bounded vector.
pub(crate) fn vneg(v: &Vector) -> (r: Vector)
    requires
        bounded_axis(*v),
    ensures
        r == spec_neg(*v),
        bounded_axis(r),
{
    Vector { x: -v.x, y: -v.y, z: -v.z }
}

} // verus!
