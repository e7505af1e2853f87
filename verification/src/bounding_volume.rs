//! The capability contract every bound implements.
//!
//! Hierarchy builders merge bounds bottom-up with `merged`/`merge` and prune
//! top-down with `intersects`/`contains`; they stay generic over the concrete
//! bound representation through this trait. Each implementation supplies a
//! mathematical model of itself through the `spec` members, and the
//! executable members are proved against that model. Merging is guaranteed
//! to produce a bound that contains both inputs, whichever operand order the
//! builder uses.

use vstd::prelude::*;

use crate::math::Point;
use crate::math::Real;

verus! {

/// A conservative bound over some geometric region, mergeable and adjustable.
pub trait BoundingVolume: Sized {
    /// Well-formedness of a bound value.
    spec fn inv(self) -> bool;

    /// Model of `intersects`: the two bounds may overlap.
    spec fn spec_intersects(self, other: Self) -> bool;

    /// Model of `contains`: `other` certainly lies inside `self`.
    spec fn spec_contains(self, other: Self) -> bool;

    /// Model of `merged`.
    spec fn spec_merged(self, other: Self) -> Self;

    /// When `loosen`/`tighten` by `margin` are defined for this bound.
    spec fn can_adjust(self, margin: Real) -> bool;

    /// Model of `loosened`.
    spec fn spec_loosened(self, margin: Real) -> Self;

    /// Model of `tightened`.
    spec fn spec_tightened(self, margin: Real) -> Self;

    /// Model of `center`.
    spec fn spec_center(self) -> Point;

    /// A representative point of this bound, for hierarchy heuristics.
    fn center(&self) -> (c: Point)
        requires
            self.inv(),
        ensures
            c == self.spec_center(),
    ;

    /// True whenever the two bounds overlap; may also be true when they do
    /// not (the test is conservative, never reporting a false negative).
    fn intersects(&self, other: &Self) -> (r: bool)
        requires
            self.inv(),
            other.inv(),
        ensures
            r == self.spec_intersects(*other),
    ;

    /// True only when `other` is certainly contained in `self`.
    fn contains(&self, other: &Self) -> (r: bool)
        requires
            self.inv(),
            other.inv(),
        ensures
            r == self.spec_contains(*other),
    ;

    /// In-place form of `merged`.
    fn merge(&mut self, other: &Self)
        requires
            old(self).inv(),
            other.inv(),
        ensures
            *final(self) == old(self).spec_merged(*other),
            final(self).inv(),
            final(self).spec_contains(*old(self)),
            final(self).spec_contains(*other),
    ;

    /// A bound that contains both `self` and `other`.
    fn merged(&self, other: &Self) -> (r: Self)
        requires
            self.inv(),
            other.inv(),
        ensures
            r == self.spec_merged(*other),
            r.inv(),
            r.spec_contains(*self),
            r.spec_contains(*other),
    ;

    /// In-place form of `loosened`.
    fn loosen(&mut self, margin: Real)
        requires
            old(self).inv(),
            old(self).can_adjust(margin),
        ensures
            *final(self) == old(self).spec_loosened(margin),
            final(self).inv(),
            final(self).spec_contains(*old(self)),
    ;

    /// This bound expanded outward by the non-negative distance `margin`;
    /// the result still contains the original.
    fn loosened(&self, margin: Real) -> (r: Self)
        requires
            self.inv(),
            self.can_adjust(margin),
        ensures
            r == self.spec_loosened(margin),
            r.inv(),
            r.spec_contains(*self),
    ;

    /// In-place form of `tightened`.
    fn tighten(&mut self, margin: Real)
        requires
            old(self).inv(),
            old(self).can_adjust(margin),
        ensures
            *final(self) == old(self).spec_tightened(margin),
            final(self).inv(),
    ;

    /// This bound shrunk inward by the non-negative distance `margin`;
    /// shrinking never inverts the bound.
    fn tightened(&self, margin: Real) -> (r: Self)
        requires
            self.inv(),
            self.can_adjust(margin),
        ensures
            r == self.spec_tightened(margin),
            r.inv(),
    ;
}

} // verus!
