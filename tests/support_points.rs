use shape_core::convex_hull_utils::{indexed_support_point_id, indexed_support_point_nth, support_point_id};
use shape_core::math::Point;

fn sample() -> Vec<Point> {
    vec![Point::new(0, 0, 0), Point::new(2, 0, 0), Point::new(1, 5, 0)]
}

#[test]
fn full_scan_picks_largest_dot_product() {
    let dir = Point::new(1, 0, 0);
    assert_eq!(support_point_id(&dir, &sample()), Some(1));
}

#[test]
fn indexed_scan_returns_original_index() {
    let dir = Point::new(1, 0, 0);
    assert_eq!(indexed_support_point_id(&dir, &sample(), &[0, 2]), Some(2));
}

#[test]
fn indexed_scan_returns_position_in_index_list() {
    let dir = Point::new(1, 0, 0);
    assert_eq!(indexed_support_point_nth(&dir, &sample(), &[0, 2]), Some(1));
}

#[test]
fn empty_point_set_has_no_support_point() {
    let dir = Point::new(1, 0, 0);
    assert_eq!(support_point_id(&dir, &[]), None);
    assert_eq!(indexed_support_point_id(&dir, &sample(), &[]), None);
    assert_eq!(indexed_support_point_nth(&dir, &sample(), &[]), None);
}

#[test]
fn ties_go_to_the_first_point() {
    let dir = Point::new(0, 1, 0);
    let pts = vec![Point::new(3, 1, 0), Point::new(-4, 7, 2), Point::new(9, 7, -1)];
    assert_eq!(support_point_id(&dir, &pts), Some(1));
    assert_eq!(indexed_support_point_id(&dir, &pts, &[2, 1, 0]), Some(2));
    assert_eq!(indexed_support_point_nth(&dir, &pts, &[2, 1, 0]), Some(0));
}

#[test]
fn negative_dot_products_still_yield_a_point() {
    let dir = Point::new(-1, -1, -1);
    let pts = vec![Point::new(5, 5, 5), Point::new(1, 2, 3), Point::new(4, 0, 4)];
    assert_eq!(support_point_id(&dir, &pts), Some(1));
}

#[test]
fn repeated_indices_are_scanned_in_order() {
    let dir = Point::new(1, 0, 0);
    assert_eq!(indexed_support_point_nth(&dir, &sample(), &[1, 1, 0]), Some(0));
    assert_eq!(indexed_support_point_id(&dir, &sample(), &[0, 1, 1]), Some(1));
}
