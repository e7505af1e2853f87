//! Circular (double) cones of directions: the normal half of a spatialized
//! normal cone.
//!
//! A cone is a cap of the unit sphere around an axis, of angular radius
//! `half_angle`; it is read as a double cone, bounding a direction and its
//! negation alike. The angular distance between two double cones' axes is
//! therefore `angle_between`: the arc-cosine of the absolute dot product,
//! zero when the axes are equal or opposite. A half-angle of `PI` covers
//! every direction and absorbs merges.
//!
//! Merging finds a small enclosing double cone: the axis is rotated from one
//! input axis toward the other (or its negation, whichever alignment gives
//! the smaller enclosing radius) by spherical interpolation, and the
//! half-angle is then taken as the largest angular reach of the two inputs
//! from that axis — so the merge contains both inputs by construction, for
//! every rounding of the underlying trigonometry.

use vstd::prelude::*;

use crate::bounding_volume::BoundingVolume;
use crate::math::bounded_axis;
use crate::math::spec_neg;
use crate::math::vneg;
use crate::math::Point;
use crate::math::Real;
use crate::math::Vector;
use crate::math::PI;
use crate::math::SCALE;
use crate::trig::acos_fixed;
use crate::trig::acos_of;
use crate::trig::sin_fixed;
use crate::trig::sin_of;

verus! {

/// A double cone of unit directions around `axis`, of angular radius
/// `half_angle` (in fixed-point radians, at most `PI`).
#[derive(Clone, Copy, PartialEq, Eq, Structural, Debug)]
pub struct CircularCone {
    /// Central direction of the cap; its negation is bounded as well.
    pub axis: Vector,
    /// Angular radius of the cap, in `[0, PI]`.
    pub half_angle: Real,
}

/// Well-formedness: the axis has unit-sized coordinates and the half-angle
/// is an angle in `[0, PI]`.
pub open spec fn cone_inv(c: CircularCone) -> bool {
    bounded_axis(c.axis) && 0 <= c.half_angle <= PI
}

/// The absolute value of `x`.
pub open spec fn iabs(x: int) -> int {
    if x < 0 {
        -x
    } else {
        x
    }
}

/// Unscaled dot product of two coordinate vectors.
pub open spec fn dot3(a: Vector, b: Vector) -> int {
    a.x * b.x + a.y * b.y + a.z * b.z
}

/// The absolute dot product of two axes, brought back to the scalar scale
/// and clamped into `[0, 1]`: the cosine of the doubled angular distance.
pub open spec fn unit_abs_dot(a: Vector, b: Vector) -> int {
    let q = iabs(dot3(a, b)) / (SCALE as int);
    if q > SCALE {
        SCALE as int
    } else {
        q
    }
}

/// Angular distance between the axes of two double cones: the smallest
/// rotation aligning `b` or its negation with `a`. Equal or opposite axes
/// are exactly at distance zero; otherwise the distance is the arc-cosine
/// of the absolute dot product, kept in `[0, PI]`.
pub open spec fn angle_between(a: Vector, b: Vector) -> int {
    if a == b || a == spec_neg(b) {
        0
    } else {
        let t = acos_of(unit_abs_dot(a, b));
        if t < 0 {
            0
        } else if t > PI {
            PI as int
        } else {
            t
        }
    }
}

/// `c` contains `o` when `o`'s cap, expanded by its own radius, fits inside
/// `c`'s cap; a cone of half-angle `PI` contains everything.
pub open spec fn cone_contains(c: CircularCone, o: CircularCone) -> bool {
    c.half_angle >= PI || angle_between(c.axis, o.axis) + o.half_angle <= c.half_angle
}

/// Two double cones overlap exactly when the angular gap between their axes
/// does not exceed the sum of their angular radii.
pub open spec fn cone_intersects(c: CircularCone, o: CircularCone) -> bool {
    angle_between(c.axis, o.axis) <= c.half_angle + o.half_angle
}

/// A sine value clamped into `[0, 1]`, as used for interpolation weights.
pub open spec fn clamp_sin(s: int) -> int {
    if s < 0 {
        0
    } else if s > SCALE {
        SCALE as int
    } else {
        s
    }
}

/// Division rounding toward zero, for a positive divisor.
pub open spec fn div_trunc(num: int, den: int) -> int {
    if num >= 0 {
        num / den
    } else {
        -((-num) / den)
    }
}

/// A coordinate clamped into unit size.
pub open spec fn clamp_coord(x: int) -> i64 {
    if x < -SCALE {
        (-SCALE) as i64
    } else if x > SCALE {
        SCALE
    } else {
        x as i64
    }
}

/// Spherical interpolation: the axis obtained by rotating from `a` toward
/// `b` by the angle `t`, where `d` is the angle from `a` to `b`. The
/// interpolation weights are sines; each output coordinate is clamped back
/// into unit size. A non-positive `sin(d)` (degenerate arc) leaves `a`.
pub open spec fn slerp_axis(a: Vector, b: Vector, t: int, d: int) -> Vector {
    let s1 = clamp_sin(sin_of(d - t));
    let s2 = clamp_sin(sin_of(t));
    let s3 = sin_of(d);
    if s3 <= 0 {
        a
    } else {
        Vector {
            x: clamp_coord(div_trunc(s1 * a.x + s2 * b.x, s3)),
            y: clamp_coord(div_trunc(s1 * a.y + s2 * b.y, s3)),
            z: clamp_coord(div_trunc(s1 * a.z + s2 * b.z, s3)),
        }
    }
}

/// `x` clamped into `[lo, hi]`.
pub open spec fn iclamp(x: int, lo: int, hi: int) -> int {
    if x < lo {
        lo
    } else if x > hi {
        hi
    } else {
        x
    }
}

/// One enclosing-cone candidate: rotate from `c`'s axis toward `toward`
/// (at angular distance `d`) far enough to stand midway between the two
/// caps' far edges, then take as half-angle the larger angular reach of the
/// two inputs from the new axis, capped at `PI`. The recomputed half-angle
/// makes the candidate contain both inputs whatever the rotation produced.
pub open spec fn merge_candidate(c: CircularCone, o: CircularCone, toward: Vector, d: int) -> CircularCone {
    let target = (d + c.half_angle + o.half_angle) / 2;
    let t = iclamp(target - c.half_angle, 0, d);
    let axis = slerp_axis(c.axis, toward, t, d);
    let h1 = angle_between(axis, c.axis) + c.half_angle;
    let h2 = angle_between(axis, o.axis) + o.half_angle;
    let h = if h1 <= h2 {
        h2
    } else {
        h1
    };
    CircularCone { axis, half_angle: (if h > PI { PI as int } else { h }) as i64 }
}

/// A small double cone enclosing both inputs. An all-covering input absorbs
/// the merge; an input containing the other is returned unchanged. Otherwise
/// two candidates are built — rotating toward the other axis in its closer
/// alignment, and toward the opposite one — and the one with the smaller
/// half-angle wins, the direct alignment on a tie.
pub open spec fn cone_merged(c: CircularCone, o: CircularCone) -> CircularCone {
    if c.half_angle >= PI || o.half_angle >= PI {
        CircularCone { axis: c.axis, half_angle: PI }
    } else if cone_contains(c, o) {
        c
    } else if cone_contains(o, c) {
        o
    } else {
        let bd = if dot3(c.axis, o.axis) < 0 {
            spec_neg(o.axis)
        } else {
            o.axis
        };
        let d = angle_between(c.axis, o.axis);
        let cand1 = merge_candidate(c, o, bd, d);
        let cand2 = merge_candidate(c, o, spec_neg(bd), PI - d);
        if cand1.half_angle <= cand2.half_angle {
            cand1
        } else {
            cand2
        }
    }
}

/// Wide dot product of two bounded axes.
fn dot_wide(a: &Vector, b: &Vector) -> (r: i128)
    requires
        bounded_axis(*a),
        bounded_axis(*b),
    ensures
        r as int == dot3(*a, *b),
        -3 * (SCALE as int) * (SCALE as int) <= r as int <= 3 * (SCALE as int) * (SCALE as int),
{
    proof {
        assert(-((SCALE as int) * (SCALE as int)) <= (a.x as int) * (b.x as int) <= (SCALE as int)
            * (SCALE as int)) by (nonlinear_arith)
            requires
                -(SCALE as int) <= a.x as int <= SCALE as int,
                -(SCALE as int) <= b.x as int <= SCALE as int,
        ;
        assert(-((SCALE as int) * (SCALE as int)) <= (a.y as int) * (b.y as int) <= (SCALE as int)
            * (SCALE as int)) by (nonlinear_arith)
            requires
                -(SCALE as int) <= a.y as int <= SCALE as int,
                -(SCALE as int) <= b.y as int <= SCALE as int,
        ;
        assert(-((SCALE as int) * (SCALE as int)) <= (a.z as int) * (b.z as int) <= (SCALE as int)
            * (SCALE as int)) by (nonlinear_arith)
            requires
                -(SCALE as int) <= a.z as int <= SCALE as int,
                -(SCALE as int) <= b.z as int <= SCALE as int,
        ;
    }
    (a.x as i128) * (b.x as i128) + (a.y as i128) * (b.y as i128) + (a.z as i128) * (b.z as i128)
}

/// Angular distance between two bounded axes: executable form of
/// `angle_between`.
fn angle_between_axes(a: &Vector, b: &Vector) -> (r: i64)
    requires
        bounded_axis(*a),
        bounded_axis(*b),
    ensures
        r as int == angle_between(*a, *b),
        0 <= r <= PI,
{
    let nb = vneg(b);
    if *a == *b || *a == nb {
        return 0;
    }
    let d = dot_wide(a, b);
    let ad: u128 = if d < 0 {
        (-d) as u128
    } else {
        d as u128
    };
    let q: u128 = ad / (SCALE as u128);
    let c: i64 = if q > SCALE as u128 {
        SCALE
    } else {
        q as i64
    };
    let t = acos_fixed(c);
    if t < 0 {
        0
    } else if t > PI {
        PI
    } else {
        t
    }
}

/// Interpolation weight: a sine clamped into `[0, 1]`.
fn clamped_sin(x: i64) -> (r: i64)
    requires
        0 <= x <= PI,
    ensures
        r as int == clamp_sin(sin_of(x as int)),
        0 <= r <= SCALE,
{
    let s = sin_fixed(x);
    if s < 0 {
        0
    } else if s > SCALE {
        SCALE
    } else {
        s
    }
}

/// One interpolated coordinate: division by the positive `den`, rounded
/// toward zero and clamped into unit size.
fn div_coord(num: i128, den: i64) -> (r: i64)
    requires
        0 < den,
        -0x40000000000000000 <= num <= 0x40000000000000000,
    ensures
        r == clamp_coord(div_trunc(num as int, den as int)),
{
    if num >= 0 {
        let q = (num as u128) / (den as u128);
        if q > SCALE as u128 {
            SCALE
        } else {
            q as i64
        }
    } else {
        let q = ((-num) as u128) / (den as u128);
        if q > SCALE as u128 {
            -SCALE
        } else {
            -(q as i64)
        }
    }
}

/// Executable form of `merge_candidate`; the recomputed half-angle gives
/// containment of both inputs outright.
fn build_merge_candidate(c: &CircularCone, o: &CircularCone, toward: &Vector, d: i64) -> (r:
    CircularCone)
    requires
        cone_inv(*c),
        cone_inv(*o),
        bounded_axis(*toward),
        0 <= d <= PI,
    ensures
        r == merge_candidate(*c, *o, *toward, d as int),
        cone_inv(r),
        cone_contains(r, *c),
        cone_contains(r, *o),
{
    let target = (d + c.half_angle + o.half_angle) / 2;
    let t0 = target - c.half_angle;
    let t = if t0 < 0 {
        0
    } else if t0 > d {
        d
    } else {
        t0
    };
    let s1 = clamped_sin(d - t);
    let s2 = clamped_sin(t);
    let s3 = sin_fixed(d);
    let axis = if s3 <= 0 {
        c.axis
    } else {
        proof {
            lemma_weighted_sum_bounded(s1 as int, s2 as int, c.axis.x as int, toward.x as int);
            lemma_weighted_sum_bounded(s1 as int, s2 as int, c.axis.y as int, toward.y as int);
            lemma_weighted_sum_bounded(s1 as int, s2 as int, c.axis.z as int, toward.z as int);
        }
        Vector {
            x: div_coord((s1 as i128) * (c.axis.x as i128) + (s2 as i128) * (toward.x as i128), s3),
            y: div_coord((s1 as i128) * (c.axis.y as i128) + (s2 as i128) * (toward.y as i128), s3),
            z: div_coord((s1 as i128) * (c.axis.z as i128) + (s2 as i128) * (toward.z as i128), s3),
        }
    };
    let h1 = angle_between_axes(&axis, &c.axis) + c.half_angle;
    let h2 = angle_between_axes(&axis, &o.axis) + o.half_angle;
    let h = if h1 <= h2 {
        h2
    } else {
        h1
    };
    let hc = if h > PI {
        PI
    } else {
        h
    };
    CircularCone { axis, half_angle: hc }
}

/// A weighted sum of two unit-sized coordinates with unit-sized weights
/// stays within the range `div_coord` accepts.
proof fn lemma_weighted_sum_bounded(s1: int, s2: int, x: int, y: int)
    requires
        0 <= s1 <= SCALE,
        0 <= s2 <= SCALE,
        -SCALE <= x <= SCALE,
        -SCALE <= y <= SCALE,
    ensures
        -((SCALE as int) * (SCALE as int)) <= s1 * x <= (SCALE as int) * (SCALE as int),
        -((SCALE as int) * (SCALE as int)) <= s2 * y <= (SCALE as int) * (SCALE as int),
        -0x40000000000000000 <= s1 * x + s2 * y <= 0x40000000000000000,
{
    assert(-((SCALE as int) * (SCALE as int)) <= s1 * x <= (SCALE as int) * (SCALE as int))
        by (nonlinear_arith)
        requires
            0 <= s1 <= SCALE,
            -SCALE <= x <= SCALE,
    ;
    assert(-((SCALE as int) * (SCALE as int)) <= s2 * y <= (SCALE as int) * (SCALE as int))
        by (nonlinear_arith)
        requires
            0 <= s2 <= SCALE,
            -SCALE <= y <= SCALE,
    ;
}

impl CircularCone {
    /// True whenever the two double cones share a direction; executable
    /// form of `cone_intersects`.
    pub fn double_cones_intersect(&self, other: &Self) -> (r: bool)
        requires
            cone_inv(*self),
            cone_inv(*other),
        ensures
            r == cone_intersects(*self, *other),
    {
        let ab = angle_between_axes(&self.axis, &other.axis);
        ab <= self.half_angle + other.half_angle
    }
}

impl BoundingVolume for CircularCone {
    open spec fn inv(self) -> bool {
        cone_inv(self)
    }

    open spec fn spec_intersects(self, other: Self) -> bool {
        cone_intersects(self, other)
    }

    open spec fn spec_contains(self, other: Self) -> bool {
        cone_contains(self, other)
    }

    open spec fn spec_merged(self, other: Self) -> Self {
        cone_merged(self, other)
    }

    open spec fn can_adjust(self, margin: Real) -> bool {
        0 <= margin
    }

    open spec fn spec_loosened(self, margin: Real) -> Self {
        self
    }

    open spec fn spec_tightened(self, margin: Real) -> Self {
        self
    }

    open spec fn spec_center(self) -> Point {
        Point { x: 0, y: 0, z: 0 }
    }

    fn center(&self) -> (c: Point) {
        Point { x: 0, y: 0, z: 0 }
    }

    fn intersects(&self, other: &Self) -> (r: bool) {
        self.double_cones_intersect(other)
    }

    fn contains(&self, other: &Self) -> (r: bool) {
        if self.half_angle >= PI {
            true
        } else {
            let ab = angle_between_axes(&self.axis, &other.axis);
            ab + other.half_angle <= self.half_angle
        }
    }

    fn merge(&mut self, other: &Self) {
        let m = self.merged(other);
        *self = m;
    }

    fn merged(&self, other: &Self) -> (r: Self) {
        if self.half_angle >= PI || other.half_angle >= PI {
            CircularCone { axis: self.axis, half_angle: PI }
        } else if self.contains(other) {
            *self
        } else if other.contains(self) {
            *other
        } else {
            let dot = dot_wide(&self.axis, &other.axis);
            let bd = if dot < 0 {
                vneg(&other.axis)
            } else {
                other.axis
            };
            let d = angle_between_axes(&self.axis, &other.axis);
            let cand1 = build_merge_candidate(self, other, &bd, d);
            let nbd = vneg(&bd);
            let cand2 = build_merge_candidate(self, other, &nbd, PI - d);
            if cand1.half_angle <= cand2.half_angle {
                cand1
            } else {
                cand2
            }
        }
    }

    fn loosen(&mut self, margin: Real) {
    }

    fn loosened(&self, margin: Real) -> (r: Self) {
        *self
    }

    fn tighten(&mut self, margin: Real) {
    }

    fn tightened(&self, margin: Real) -> (r: Self) {
        *self
    }
}

/// Merging two double cones yields a cone containing each of them, whatever
/// values the underlying trigonometry produced; as the statement holds for
/// both argument orders, the merge is commutative in the only sense
/// hierarchy construction needs.
pub proof fn lemma_cone_merged_contains_both(c: CircularCone, o: CircularCone)
    requires
        cone_inv(c),
        cone_inv(o),
    ensures
        cone_inv(cone_merged(c, o)),
        cone_contains(cone_merged(c, o), c),
        cone_contains(cone_merged(c, o), o),
{
}

/// A double cone certainly inside another also overlaps it: containment is
/// never reported where intersection would be denied.
pub proof fn lemma_cone_contains_implies_intersects(c: CircularCone, o: CircularCone)
    requires
        cone_inv(c),
        cone_inv(o),
        cone_contains(c, o),
    ensures
        cone_intersects(c, o),
{
}

/// Every double cone of half-angle below `PI` contains itself.
pub proof fn lemma_cone_self_containment(c: CircularCone)
    requires
        cone_inv(c),
        c.half_angle < PI,
    ensures
        cone_contains(c, c),
{
}

/// Negating one axis leaves the angular distance unchanged: a double cone
/// bounds a direction and its negation alike.
pub proof fn lemma_angle_between_neg(u: Vector, v: Vector)
    requires
        bounded_axis(u),
        bounded_axis(v),
    ensures
        angle_between(u, spec_neg(v)) == angle_between(u, v),
{
    let nv = spec_neg(v);
    assert(nv.x == -(v.x as int) && nv.y == -(v.y as int) && nv.z == -(v.z as int));
    assert(spec_neg(nv) == v);
    assert(dot3(u, nv) == -dot3(u, v)) by (nonlinear_arith)
        requires
            nv.x == -(v.x as int),
            nv.y == -(v.y as int),
            nv.z == -(v.z as int),
    ;
}

/// Doubling symmetry: a cone intersects a second cone exactly when it
/// intersects the second cone with its axis negated.
pub proof fn lemma_doubling_symmetry(c: CircularCone, o: CircularCone)
    requires
        bounded_axis(c.axis),
        bounded_axis(o.axis),
    ensures
        cone_intersects(c, (CircularCone { axis: spec_neg(o.axis), half_angle: o.half_angle }))
            == cone_intersects(c, o),
{
    lemma_angle_between_neg(c.axis, o.axis);
}

} // verus!
