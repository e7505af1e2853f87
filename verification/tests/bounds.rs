use cone_bounds::math::MAX_EXTENT;
use cone_bounds::math::PI;
use cone_bounds::math::SCALE;
use cone_bounds::BoundingVolume;
use cone_bounds::CircularCone;
use cone_bounds::Point;
use cone_bounds::SpatializedNormalCone;
use cone_bounds::Vector;
use cone_bounds::AABB;

/// A scalar from its real value: fixed point, 32 fractional bits.
fn fx(v: f64) -> i64 {
    (v * SCALE as f64).round() as i64
}

fn point(x: f64, y: f64, z: f64) -> Point {
    Point::new(fx(x), fx(y), fx(z))
}

fn vector(x: f64, y: f64, z: f64) -> Vector {
    Vector::new(fx(x), fx(y), fx(z))
}

fn aabb(min: (f64, f64, f64), max: (f64, f64, f64)) -> AABB {
    AABB::new(point(min.0, min.1, min.2), point(max.0, max.1, max.2))
}

fn cone(axis: (f64, f64, f64), half_angle: f64) -> CircularCone {
    CircularCone { axis: vector(axis.0, axis.1, axis.2), half_angle: fx(half_angle) }
}

#[test]
fn aabb_merge_of_disjoint_boxes_spans_both() {
    let a = aabb((0.0, 0.0, 0.0), (1.0, 1.0, 1.0));
    let b = aabb((2.0, 2.0, 2.0), (3.0, 3.0, 3.0));
    let m = a.merged(&b);
    assert_eq!(m.mins, point(0.0, 0.0, 0.0));
    assert_eq!(m.maxs, point(3.0, 3.0, 3.0));
}

#[test]
fn aabb_merged_contains_both_inputs_in_both_orders() {
    let a = aabb((0.0, -1.0, 0.5), (1.0, 1.0, 2.0));
    let b = aabb((-2.0, 0.0, 1.0), (0.5, 4.0, 1.5));
    let m1 = a.merged(&b);
    let m2 = b.merged(&a);
    assert!(m1.contains(&a) && m1.contains(&b));
    assert!(m2.contains(&a) && m2.contains(&b));
}

#[test]
fn aabb_merge_in_place_matches_merged() {
    let mut a = aabb((0.0, 0.0, 0.0), (1.0, 1.0, 1.0));
    let b = aabb((2.0, 2.0, 2.0), (3.0, 3.0, 3.0));
    let m = a.merged(&b);
    a.merge(&b);
    assert_eq!(a, m);
}

#[test]
fn aabb_contains_implies_intersects() {
    let a = aabb((0.0, 0.0, 0.0), (4.0, 4.0, 4.0));
    let b = aabb((1.0, 1.0, 1.0), (2.0, 2.0, 2.0));
    assert!(a.contains(&b));
    assert!(a.intersects(&b));
    assert!(!b.contains(&a));
}

#[test]
fn aabb_intersects_is_the_slab_test() {
    let a = aabb((0.0, 0.0, 0.0), (1.0, 1.0, 1.0));
    let touching = aabb((1.0, 0.0, 0.0), (2.0, 1.0, 1.0));
    let separated = aabb((1.5, 0.0, 0.0), (2.0, 1.0, 1.0));
    assert!(a.intersects(&touching));
    assert!(!a.intersects(&separated));
}

#[test]
fn aabb_center_is_the_midpoint() {
    let a = aabb((0.0, -2.0, 1.0), (1.0, 4.0, 3.0));
    assert_eq!(a.center(), point(0.5, 1.0, 2.0));
}

#[test]
fn aabb_loosened_grows_every_side() {
    let a = aabb((0.0, 0.0, 0.0), (1.0, 1.0, 1.0));
    let l = a.loosened(fx(0.25));
    assert_eq!(l.mins, point(-0.25, -0.25, -0.25));
    assert_eq!(l.maxs, point(1.25, 1.25, 1.25));
    assert!(l.contains(&a));
}

#[test]
fn aabb_tightened_shrinks_without_inverting() {
    let a = aabb((0.0, 0.0, 0.0), (1.0, 1.0, 1.0));
    let t = a.tightened(fx(0.25));
    assert_eq!(t.mins, point(0.25, 0.25, 0.25));
    assert_eq!(t.maxs, point(0.75, 0.75, 0.75));
    let collapsed = a.tightened(fx(0.75));
    assert_eq!(collapsed.mins, point(0.5, 0.5, 0.5));
    assert_eq!(collapsed.maxs, point(0.5, 0.5, 0.5));
}

#[test]
fn aabb_loosen_then_tighten_contains_original() {
    let a = aabb((0.0, -1.0, 2.0), (1.0, 1.0, 2.5));
    let m = fx(0.3);
    let round_trip = a.loosened(m).tightened(m);
    assert!(round_trip.contains(&a));
}

#[test]
fn aabb_degenerate_point_box_merges() {
    let p = aabb((1.0, 1.0, 1.0), (1.0, 1.0, 1.0));
    let a = aabb((0.0, 0.0, 0.0), (0.5, 0.5, 0.5));
    let m = a.merged(&p);
    assert!(m.contains(&p) && m.contains(&a));
    assert_eq!(m.maxs, point(1.0, 1.0, 1.0));
}

#[test]
fn aabb_at_the_extent_limits_still_merges_and_centers() {
    let a = AABB::new(
        Point::new(-MAX_EXTENT, -MAX_EXTENT, -MAX_EXTENT),
        Point::new(0, 0, 0),
    );
    let b = AABB::new(Point::new(0, 0, 0), Point::new(MAX_EXTENT, MAX_EXTENT, MAX_EXTENT));
    let m = a.merged(&b);
    assert!(m.contains(&a) && m.contains(&b));
    assert_eq!(m.center(), Point::new(0, 0, 0));
}

#[test]
fn antipodal_cones_intersect() {
    let a = cone((1.0, 0.0, 0.0), 0.1);
    let b = cone((-1.0, 0.0, 0.0), 0.1);
    assert!(a.double_cones_intersect(&b));
    assert!(b.double_cones_intersect(&a));
}

#[test]
fn perpendicular_narrow_cones_do_not_intersect() {
    let a = cone((1.0, 0.0, 0.0), 0.1);
    let b = cone((0.0, 1.0, 0.0), 0.1);
    assert!(!a.double_cones_intersect(&b));
    assert!(!b.double_cones_intersect(&a));
}

#[test]
fn wide_cones_at_quarter_turn_intersect() {
    let s = 0.5f64.sqrt();
    let a = cone((1.0, 0.0, 0.0), 0.2);
    let b = cone((s, s, 0.0), 0.2);
    assert!(!a.double_cones_intersect(&b));
    let c = cone((s, s, 0.0), 0.7);
    assert!(a.double_cones_intersect(&c));
}

#[test]
fn cone_intersects_matches_negated_axis() {
    let s = 0.5f64.sqrt();
    let cases = [
        (cone((1.0, 0.0, 0.0), 0.1), cone((0.0, 1.0, 0.0), 0.1)),
        (cone((1.0, 0.0, 0.0), 0.3), cone((s, s, 0.0), 0.6)),
        (cone((0.0, 0.0, 1.0), 0.5), cone((0.0, 0.0, -1.0), 0.2)),
    ];
    for (a, b) in cases {
        let negated = CircularCone { axis: Vector::new(-b.axis.x, -b.axis.y, -b.axis.z), half_angle: b.half_angle };
        assert_eq!(a.double_cones_intersect(&b), a.double_cones_intersect(&negated));
    }
}

#[test]
fn cone_contains_itself_below_full_cover() {
    let a = cone((1.0, 0.0, 0.0), 0.4);
    assert!(a.contains(&a));
    let s = (1.0f64 / 3.0).sqrt();
    let b = cone((s, s, s), 2.0);
    assert!(b.contains(&b));
}

#[test]
fn cone_contains_narrower_aligned_cone_only() {
    let wide = cone((1.0, 0.0, 0.0), 0.8);
    let narrow = cone((1.0, 0.0, 0.0), 0.2);
    assert!(wide.contains(&narrow));
    assert!(!narrow.contains(&wide));
    let perpendicular = cone((0.0, 1.0, 0.0), 0.2);
    assert!(!wide.contains(&perpendicular));
}

#[test]
fn cone_contains_implies_intersects() {
    let s = 0.5f64.sqrt();
    let wide = cone((1.0, 0.0, 0.0), 1.0);
    let tilted = cone((s, s, 0.0), 0.2);
    assert!(wide.contains(&tilted));
    assert!(wide.double_cones_intersect(&tilted));
}

#[test]
fn full_cover_cone_contains_everything() {
    let all = cone((1.0, 0.0, 0.0), std::f64::consts::PI);
    assert!(all.contains(&cone((0.0, 1.0, 0.0), 3.0)));
    assert!(all.contains(&cone((0.0, 0.0, -1.0), 0.0)));
}

#[test]
fn cone_merged_contains_both_inputs_in_both_orders() {
    let s = 0.5f64.sqrt();
    let n = (1.0f64 + 0.25 * 0.25).sqrt();
    let cases = [
        (cone((1.0, 0.0, 0.0), 0.3), cone((0.0, 1.0, 0.0), 0.1)),
        (cone((1.0, 0.0, 0.0), 0.1), cone((-1.0, 0.0, 0.0), 0.1)),
        (cone((s, s, 0.0), 0.5), cone((0.0, 0.0, 1.0), 0.4)),
        (cone((1.0, 0.0, 0.0), 0.2), cone((-s, s, 0.0), 0.7)),
        (cone((1.0, 0.0, 0.0), 0.1), cone((1.0 / n, 0.25 / n, 0.0), 0.1)),
    ];
    for (a, b) in cases {
        let m1 = a.merged(&b);
        let m2 = b.merged(&a);
        assert!(m1.contains(&a) && m1.contains(&b));
        assert!(m2.contains(&a) && m2.contains(&b));
        assert!(m1.half_angle <= PI && m2.half_angle <= PI);
        assert!(m1.axis.x.abs() <= SCALE && m1.axis.y.abs() <= SCALE && m1.axis.z.abs() <= SCALE);
    }
}

#[test]
fn cone_merged_with_itself_is_itself() {
    let a = cone((0.0, 0.0, 1.0), 0.4);
    assert_eq!(a.merged(&a), a);
}

#[test]
fn cone_merge_absorbs_contained_cone() {
    let wide = cone((1.0, 0.0, 0.0), 1.2);
    let narrow = cone((1.0, 0.0, 0.0), 0.3);
    assert_eq!(wide.merged(&narrow), wide);
    assert_eq!(narrow.merged(&wide), wide);
}

#[test]
fn cone_merge_with_full_cover_is_full_cover() {
    let all = cone((0.0, 0.0, 1.0), std::f64::consts::PI);
    let narrow = cone((1.0, 0.0, 0.0), 0.3);
    assert_eq!(all.merged(&narrow).half_angle, PI);
    assert_eq!(narrow.merged(&all).half_angle, PI);
}

#[test]
fn cone_merge_half_angle_is_near_minimal() {
    // Quarter turn between the axes, radii 0.3 and 0.1: the smallest
    // enclosing double cone has half-angle (pi/2 + 0.3 + 0.1) / 2.
    let a = cone((1.0, 0.0, 0.0), 0.3);
    let b = cone((0.0, 1.0, 0.0), 0.1);
    let m = a.merged(&b);
    let expected = (std::f64::consts::FRAC_PI_2 + 0.4) / 2.0;
    assert!(m.half_angle >= fx(expected - 0.01));
    assert!(m.half_angle <= fx(expected + 0.01));
}

#[test]
fn cone_merge_in_place_matches_merged() {
    let mut a = cone((1.0, 0.0, 0.0), 0.3);
    let b = cone((0.0, 1.0, 0.0), 0.1);
    let m = a.merged(&b);
    a.merge(&b);
    assert_eq!(a, m);
}

#[test]
fn cone_loosen_and_tighten_are_no_ops() {
    let a = cone((1.0, 0.0, 0.0), 0.3);
    assert_eq!(a.loosened(fx(0.5)), a);
    assert_eq!(a.tightened(fx(0.5)), a);
    let mut b = a;
    b.loosen(fx(0.5));
    b.tighten(fx(0.5));
    assert_eq!(b, a);
}

#[test]
fn snc_intersects_needs_both_parts_to_overlap() {
    let near = SpatializedNormalCone::new(
        aabb((0.0, 0.0, 0.0), (1.0, 1.0, 1.0)),
        cone((1.0, 0.0, 0.0), 0.1),
    );
    let same_space_other_normals = SpatializedNormalCone::new(
        aabb((0.5, 0.5, 0.5), (1.5, 1.5, 1.5)),
        cone((0.0, 1.0, 0.0), 0.1),
    );
    let same_normals_other_space = SpatializedNormalCone::new(
        aabb((5.0, 5.0, 5.0), (6.0, 6.0, 6.0)),
        cone((1.0, 0.0, 0.0), 0.1),
    );
    let both = SpatializedNormalCone::new(
        aabb((0.5, 0.5, 0.5), (1.5, 1.5, 1.5)),
        cone((-1.0, 0.0, 0.0), 0.1),
    );
    assert!(!near.intersects(&same_space_other_normals));
    assert!(!near.intersects(&same_normals_other_space));
    assert!(near.intersects(&both));
}

#[test]
fn snc_contains_needs_both_parts_contained() {
    let outer = SpatializedNormalCone::new(
        aabb((0.0, 0.0, 0.0), (4.0, 4.0, 4.0)),
        cone((1.0, 0.0, 0.0), 1.0),
    );
    let inner = SpatializedNormalCone::new(
        aabb((1.0, 1.0, 1.0), (2.0, 2.0, 2.0)),
        cone((1.0, 0.0, 0.0), 0.2),
    );
    let inner_space_wild_normals = SpatializedNormalCone::new(
        aabb((1.0, 1.0, 1.0), (2.0, 2.0, 2.0)),
        cone((0.0, 1.0, 0.0), 1.0),
    );
    assert!(outer.contains(&inner));
    assert!(outer.intersects(&inner));
    assert!(!outer.contains(&inner_space_wild_normals));
}

#[test]
fn snc_merged_contains_both_inputs_in_both_orders() {
    let a = SpatializedNormalCone::new(
        aabb((0.0, 0.0, 0.0), (1.0, 1.0, 1.0)),
        cone((1.0, 0.0, 0.0), 0.3),
    );
    let b = SpatializedNormalCone::new(
        aabb((2.0, -1.0, 0.0), (3.0, 0.5, 2.0)),
        cone((0.0, 1.0, 0.0), 0.1),
    );
    let m1 = a.merged(&b);
    let m2 = b.merged(&a);
    assert!(m1.contains(&a) && m1.contains(&b));
    assert!(m2.contains(&a) && m2.contains(&b));
    let mut c = a;
    c.merge(&b);
    assert_eq!(c, m1);
}

#[test]
fn snc_margins_touch_only_the_box() {
    let a = SpatializedNormalCone::new(
        aabb((0.0, 0.0, 0.0), (1.0, 1.0, 1.0)),
        cone((1.0, 0.0, 0.0), 0.3),
    );
    let l = a.loosened(fx(0.25));
    assert_eq!(l.normals, a.normals);
    assert_eq!(l.aabb, a.aabb.loosened(fx(0.25)));
    assert!(l.contains(&a));
    let t = a.tightened(fx(0.25));
    assert_eq!(t.normals, a.normals);
    assert_eq!(t.aabb, a.aabb.tightened(fx(0.25)));
    assert_eq!(a.center(), a.aabb.center());
}
