use pbrt_geometry::bounds2::Bounds2;
use pbrt_geometry::point2::Point2;
use pbrt_geometry::scalar::{Int, Max, Min};

#[test]
pub fn bounding_box_test_bounds_new() {
    let pt = Bounds2::<Int>::new();
    assert_eq!(pt.p_min.x, Int::max_value());
    assert_eq!(pt.p_min.y, Int::max_value());
    assert_eq!(pt.p_max.x, Int::min_value());
    assert_eq!(pt.p_max.y, Int::min_value());
}

#[test]
pub fn bounding_box_test_from_pts() {
    let pt1 = Point2::<Int>::new(1, 11);
    let pt2 = Point2::<Int>::new(12, 2);
    let bound = Bounds2::<Int>::from_pts(pt1, pt2);
    assert_eq!(bound.p_min, Point2::<Int>::new(1, 2));
    assert_eq!(bound.p_max, Point2::<Int>::new(12, 11));
}

#[test]
pub fn bounding_box_test_diagnol() {
    let pt1 = Point2::<Int>::new(1, 11);
    let pt2 = Point2::<Int>::new(12, 2);
    let b = Bounds2::<Int>::from_pts(pt1, pt2);
    let diag = b.diagonal();
    assert_eq!(diag.x, 11);
    assert_eq!(diag.y, 9);
}

#[test]
pub fn bounding_box_test_area() {
    let pt1 = Point2::<Int>::new(1, 11);
    let pt2 = Point2::<Int>::new(12, 2);
    let b = Bounds2::<Int>::from_pts(pt1, pt2);
    let area = b.area();
    assert_eq!(area, 9 * 11);
}

#[test]
pub fn bounding_box_test_max_extent_0() {
    let pt1 = Point2::<Int>::new(1, 11);
    let pt2 = Point2::<Int>::new(12, 2);
    let b = Bounds2::<Int>::from_pts(pt1, pt2);
    let extent = b.maximum_extent();
    assert_eq!(extent, 0);
}

#[test]
pub fn bounding_box_test_max_extent_1() {
    let pt1 = Point2::<Int>::new(2, 12);
    let pt2 = Point2::<Int>::new(11, 1);
    let b = Bounds2::<Int>::from_pts(pt1, pt2);
    let extent = b.maximum_extent();
    assert_eq!(extent, 1);
}

#[test]
pub fn bounding_box_test_idx() {
    let pt1 = Point2::<Int>::new(1, 11);
    let pt2 = Point2::<Int>::new(12, 2);
    let b = Bounds2::<Int>::from_pts(pt1, pt2);
    assert_eq!(b[0], Point2::<Int>::new(1, 2));
    assert_eq!(b[1], Point2::<Int>::new(12, 11));
}

#[test]
#[should_panic]
pub fn bounding_box_test_idx_panic() {
    let pt1 = Point2::<Int>::new(1, 11);
    let pt2 = Point2::<Int>::new(12, 2);
    let b = Bounds2::<Int>::from_pts(pt1, pt2);
    assert_eq!(b[2], Point2::<Int>::new(1, 2));
}

#[test]
pub fn bounding_box2_test_bounds_new() {
    let pt = Bounds2::<Int>::new();
    assert_eq!(pt.p_min.x, Int::max_value());
    assert_eq!(pt.p_min.y, Int::max_value());
    assert_eq!(pt.p_max.x, Int::min_value());
    assert_eq!(pt.p_max.y, Int::min_value());
}

#[test]
pub fn bounding_box2_test_from_pts() {
    let pt1 = Point2::<Int>::new(1, 11);
    let pt2 = Point2::<Int>::new(12, 2);
    let bound = Bounds2::<Int>::from_pts(pt1, pt2);
    assert_eq!(bound.p_min, Point2::<Int>::new(1, 2));
    assert_eq!(bound.p_max, Point2::<Int>::new(12, 11));
}

#[test]
pub fn bounding_box2_test_diagnol() {
    let pt1 = Point2::<Int>::new(1, 11);
    let pt2 = Point2::<Int>::new(12, 2);
    let b = Bounds2::<Int>::from_pts(pt1, pt2);
    let diag = b.diagonal();
    assert_eq!(diag.x, 11);
    assert_eq!(diag.y, 9);
}

#[test]
pub fn bounding_box2_test_area() {
    let pt1 = Point2::<Int>::new(1, 11);
    let pt2 = Point2::<Int>::new(12, 2);
    let b = Bounds2::<Int>::from_pts(pt1, pt2);
    let area = b.area();
    assert_eq!(area, 9 * 11);
}

#[test]
pub fn bounding_box2_test_max_extent_0() {
    let pt1 = Point2::<Int>::new(1, 11);
    let pt2 = Point2::<Int>::new(12, 2);
    let b = Bounds2::<Int>::from_pts(pt1, pt2);
    let extent = b.maximum_extent();
    assert_eq!(extent, 0);
}

#[test]
pub fn bounding_box2_test_max_extent_1() {
    let pt1 = Point2::<Int>::new(2, 12);
    let pt2 = Point2::<Int>::new(11, 1);
    let b = Bounds2::<Int>::from_pts(pt1, pt2);
    let extent = b.maximum_extent();
    assert_eq!(extent, 1);
}

#[test]
pub fn bounding_box2_test_idx() {
    let pt1 = Point2::<Int>::new(1, 11);
    let pt2 = Point2::<Int>::new(12, 2);
    let b = Bounds2::<Int>::from_pts(pt1, pt2);
    assert_eq!(b[0], Point2::<Int>::new(1, 2));
    assert_eq!(b[1], Point2::<Int>::new(12, 11));
}

#[test]
#[should_panic]
pub fn bounding_box2_test_idx_panic() {
    let pt1 = Point2::<Int>::new(1, 11);
    let pt2 = Point2::<Int>::new(12, 2);
    let b = Bounds2::<Int>::from_pts(pt1, pt2);
    assert_eq!(b[2], Point2::<Int>::new(1, 2));
}

fn sample_square() -> Bounds2<Int> {
    Bounds2::<Int>::from_pts(Point2::<Int>::new(1, 1), Point2::<Int>::new(3, 3))
}

#[test]
pub fn test_inside() {
    let min = Point2::<Int>::new(1, 1);
    let max = Point2::<Int>::new(3, 3);
    let b = Bounds2::<Int>::from_pts(min, max);
    let check = Point2::<Int>::new(2, 2);
    assert!(Bounds2::inside(&check, &b));
    assert!(Bounds2::inside(&max, &b));
}

#[test]
pub fn test_inside_exclusive() {
    let min = Point2::<Int>::new(1, 1);
    let max = Point2::<Int>::new(3, 3);
    let b = Bounds2::<Int>::from_pts(min, max);
    let check = Point2::<Int>::new(2, 2);
    assert!(Bounds2::inside_exclusive(&check, &b));
    assert!(!Bounds2::inside_exclusive(&max, &b));
}

#[test]
pub fn bounds_lower_border_is_inside_either_way() {
    let b = sample_square();
    let min = Point2::<Int>::new(1, 1);
    assert!(Bounds2::inside(&min, &b));
    assert!(Bounds2::inside_exclusive(&min, &b));
    assert!(!Bounds2::inside(&Point2::<Int>::new(0, 2), &b));
    assert!(!Bounds2::inside(&Point2::<Int>::new(2, 4), &b));
    assert!(!Bounds2::inside_exclusive(&Point2::<Int>::new(3, 2), &b));
    assert!(!Bounds2::inside_exclusive(&Point2::<Int>::new(2, 3), &b));
}

#[test]
pub fn bounds_from_pts_ignores_the_order() {
    let p1 = Point2::<Int>::new(1, 11);
    let p2 = Point2::<Int>::new(12, 2);
    let a = Bounds2::<Int>::from_pts(p1, p2);
    let b = Bounds2::<Int>::from_pts(p2, p1);
    assert_eq!(a.p_min, b.p_min);
    assert_eq!(a.p_max, b.p_max);
}

#[test]
pub fn bounds_union_into_empty_gives_the_point() {
    let p = Point2::<Int>::new(5, -3);
    let b = Bounds2::<Int>::new().union_point(&p);
    assert_eq!(b.p_min, p);
    assert_eq!(b.p_max, p);
}

#[test]
pub fn bounds_union_grows_on_each_axis_by_itself() {
    let b = sample_square().union_point(&Point2::<Int>::new(7, 0));
    assert_eq!(b.p_min, Point2::<Int>::new(1, 0));
    assert_eq!(b.p_max, Point2::<Int>::new(7, 3));
    let same = sample_square().union_point(&Point2::<Int>::new(2, 2));
    assert_eq!(same.p_min, Point2::<Int>::new(1, 1));
    assert_eq!(same.p_max, Point2::<Int>::new(3, 3));
}

#[test]
pub fn bounds_maximum_extent_of_a_square_is_x() {
    assert_eq!(sample_square().maximum_extent(), 0);
}

#[test]
pub fn bounds_lerp_at_the_corners() {
    let b = Bounds2::<Int>::from_pts(Point2::<Int>::new(5, 1), Point2::<Int>::new(10, 10));
    let lo = b.lerp(&Point2::<Int>::new(0, 0));
    assert_eq!(lo, Point2::<Int>::new(5, 1));
    let hi = b.lerp(&Point2::<Int>::new(1, 1));
    assert_eq!(hi, Point2::<Int>::new(10, 10));
    let mixed = b.lerp(&Point2::<Int>::new(1, 0));
    assert_eq!(mixed, Point2::<Int>::new(10, 1));
    let beyond = b.lerp(&Point2::<Int>::new(2, -1));
    assert_eq!(beyond, Point2::<Int>::new(15, -8));
}

#[test]
pub fn bounds_offset_divides_by_the_extent() {
    let b = Bounds2::<Int>::from_pts(Point2::<Int>::new(1, 1), Point2::<Int>::new(3, 5));
    let at_max = b.offset(&Point2::<Int>::new(3, 5));
    assert_eq!(at_max.x, 1);
    assert_eq!(at_max.y, 1);
    let at_min = b.offset(&Point2::<Int>::new(1, 1));
    assert_eq!(at_min.x, 0);
    assert_eq!(at_min.y, 0);
    let outside = b.offset(&Point2::<Int>::new(9, 13));
    assert_eq!(outside.x, 4);
    assert_eq!(outside.y, 3);
    let below = b.offset(&Point2::<Int>::new(-4, 0));
    assert_eq!(below.x, -2);
    assert_eq!(below.y, 0);
}

#[test]
pub fn bounds_offset_on_an_axis_without_extent() {
    let b = Bounds2::<Int>::from_pts(Point2::<Int>::new(4, 1), Point2::<Int>::new(4, 3));
    let o = b.offset(&Point2::<Int>::new(9, 3));
    assert_eq!(o.x, 5);
    assert_eq!(o.y, 1);
}

#[test]
pub fn bounds_bounding_sphere_of_a_square() {
    let b = sample_square();
    let mut center: Point2<Int> = Default::default();
    let mut rad_squared: Int = 0;
    b.bounding_sphere(&mut center, &mut rad_squared);
    assert_eq!(center, Point2::<Int>::new(2, 2));
    assert_eq!(rad_squared, 2);
}

#[test]
pub fn bounds_bounding_sphere_of_a_long_box() {
    let b = Bounds2::<Int>::from_pts(Point2::<Int>::new(-4, 0), Point2::<Int>::new(4, 6));
    let mut center = Point2::<Int>::new(9, 9);
    let mut rad_squared: Int = 9;
    b.bounding_sphere(&mut center, &mut rad_squared);
    assert_eq!(center, Point2::<Int>::new(0, 3));
    assert_eq!(rad_squared, 25);
}

#[test]
pub fn bounds_bounding_sphere_of_the_empty_box_has_no_radius() {
    let b = Bounds2::<Int>::new();
    let mut center = Point2::<Int>::new(9, 9);
    let mut rad_squared: Int = 9;
    b.bounding_sphere(&mut center, &mut rad_squared);
    assert_eq!(center, Point2::<Int>::new(0, 0));
    assert_eq!(rad_squared, 0);
}

#[test]
pub fn bounds_default_is_empty() {
    let b: Bounds2<Int> = Default::default();
    assert_eq!(b.p_min, Point2::<Int>::new(Int::MAX, Int::MAX));
    assert_eq!(b.p_max, Point2::<Int>::new(Int::MIN, Int::MIN));
}

#[test]
pub fn bounds_area_of_a_degenerate_box() {
    let b = Bounds2::<Int>::from_pts(Point2::<Int>::new(4, 1), Point2::<Int>::new(4, 3));
    assert_eq!(b.area(), 0);
    assert_eq!(b.maximum_extent(), 1);
}
