use pbrt_geometry::point2::{distance2_squared, lerp, Point2i};
use pbrt_geometry::scalar::HasNaN;
use pbrt_geometry::vector2::Vector2i;

#[test]
pub fn test_point2_eq() {
    let left = Point2i::new(1, 2);
    let right = Point2i::new(1, 2);
    assert!(left == right);
}

#[test]
pub fn test_point2_default() {
    let v = Point2i::default();
    assert_eq!(v.x, 0);
    assert_eq!(v.y, 0);
}

#[test]
pub fn test_point2_new() {
    let v = Point2i::new(1, 2);
    assert_eq!(v.x, 1);
    assert_eq!(v.y, 2);
}

#[test]
pub fn test_point2_copy() {
    let v = Point2i::new(1, 2);
    let cp = v;
    assert_eq!(cp.x, v.x);
    assert_eq!(cp.y, v.y);
}

#[test]
pub fn test_point2_add() {
    let left = Point2i::new(1, 2);
    let right = Point2i::new(3, 4);
    let result = left + right;
    assert_eq!(result.x, 4);
    assert_eq!(result.y, 6);
}

#[test]
pub fn test_point2_add_assign() {
    let mut left = Point2i::new(1, 2);
    let right = Point2i::new(3, 4);
    left += right;
    assert_eq!(left.x, 4);
    assert_eq!(left.y, 6);
}

#[test]
pub fn test_point2_basic() {
    let left = Point2i::new(1, 2);
    let right = Point2i::new(3, 4);
    let sum = left + right;
    assert_eq!(sum.x, 4);
    assert_eq!(sum.y, 6);
}

#[test]
pub fn test_point2_neg() {
    let left = Point2i::new(3, 6);
    let neg = -left;
    assert_eq!(neg.x, -3);
    assert_eq!(neg.y, -6);
}

#[test]
pub fn test_point2_idx() {
    let left = Point2i::new(2, 4);
    assert_eq!(left[0], 2);
    assert_eq!(left[1], 4);
}

#[test]
#[should_panic]
pub fn test_point2_idx_panic() {
    let pt = Point2i::new(2, 4);
    let _value = pt[3];
}

#[test]
pub fn test_point2_distance_squared() {
    let start = Point2i::new(2, 4);
    let end = Point2i::new(2, 0);
    let dist = distance2_squared(&start, &end);
    assert_eq!(dist, 16);
}

#[test]
pub fn test_point2_scalar_mul() {
    let start = Point2i::new(2, 4);
    let result = start * 2;
    assert_eq!(result.x, 4);
    assert_eq!(result.y, 8);
}

#[test]
pub fn test_point2_addref_vector2() {
    let mut pt = Point2i::new(2, 4);
    let vec = Vector2i::new(3, 5);
    pt += vec;
    assert_eq!(pt.x, 5);
    assert_eq!(pt.y, 9);
}

#[test]
pub fn test_point2_addassign_vector2() {
    let mut pt = Point2i::new(2, 4);
    let vec = Vector2i::new(3, 5);
    pt += vec;
    assert_eq!(pt.x, 5);
    assert_eq!(pt.y, 9);
}

#[test]
pub fn test_point2_add_vector2() {
    let pt = Point2i::new(2, 4);
    let vec = Vector2i::new(3, 5);
    let result = pt + vec;
    assert_eq!(result.x, 5);
    assert_eq!(result.y, 9);
}

#[test]
pub fn test_point2_vector2() {
    let pt = Point2i::new(2, 4);
    let vec = Vector2i::from(pt);
    assert_eq!(vec.x, 2);
    assert_eq!(vec.y, 4);
}

#[test]
pub fn point2_test_vector2_point2() {
    let vec = Vector2i::new(2, 4);
    let pt = Point2i::from(vec);
    assert_eq!(pt.x, 2);
    assert_eq!(pt.y, 4);
}

#[test]
pub fn test_point2_sub_vector() {
    let left = Point2i::new(3, 6);
    let right = Vector2i::new(2, 4);
    let result = left - right;
    assert_eq!(result.x, 1);
    assert_eq!(result.y, 2);
}

#[test]
pub fn test_point2_div_assign_scalar() {
    let mut left = Point2i::new(2, 4);
    left /= 2;
    assert_eq!(left.x, 1);
    assert_eq!(left.y, 2);
}

#[test]
pub fn test_point2_mul_assign_scalar() {
    let mut left = Point2i::new(2, 3);
    left *= 2;
    assert_eq!(left.x, 4);
    assert_eq!(left.y, 6);
}

#[test]
pub fn test_point2_div_scalar() {
    let mut left = Point2i::new(2, 4);
    left = left / 2;
    assert_eq!(left.x, 1);
    assert_eq!(left.y, 2);
}

#[test]
pub fn test_point2_mul_scalar() {
    let mut left = Point2i::new(2, 3);
    left = left * 2;
    assert_eq!(left.x, 4);
    assert_eq!(left.y, 6);
}

#[test]
pub fn test_point2_sub_assign() {
    let mut left = Point2i::new(3, 6);
    let right = Vector2i::new(2, 4);
    left -= right;
    assert_eq!(left.x, 1);
    assert_eq!(left.y, 2);
}

#[test]
pub fn test_point2_sub() {
    let left = Point2i::new(3, 6);
    let right = Point2i::new(2, 4);
    let result = left - right;
    assert_eq!(result.x, 1);
    assert_eq!(result.y, 2);
}

#[test]
pub fn point2_difference_added_back_gives_the_point() {
    let p = Point2i::new(-7, 12);
    let q = Point2i::new(20, -5);
    let v = p - q;
    assert_eq!(v.x, -27);
    assert_eq!(v.y, 17);
    assert!(q + v == p);
}

#[test]
pub fn point2_lerp_reaches_both_ends() {
    let a = Point2i::new(-7, 12);
    let b = Point2i::new(20, -5);
    assert!(lerp(0, &a, &b) == a);
    assert!(lerp(1, &a, &b) == b);
}

#[test]
pub fn point2_lerp_beyond_the_end() {
    let a = Point2i::new(1, 2);
    let b = Point2i::new(4, 0);
    let r = lerp(2, &a, &b);
    assert_eq!(r.x, 7);
    assert_eq!(r.y, -2);
}

#[test]
pub fn point2_division_rounds_toward_zero() {
    let p = Point2i::new(7, -7) / 2;
    assert_eq!(p.x, 3);
    assert_eq!(p.y, -3);
}

#[test]
pub fn point2_has_no_nan() {
    assert!(!Point2i::new(1, 2).has_nan());
}

#[test]
pub fn point2_sum_of_two_points() {
    let mut p = Point2i::new(1, 2);
    p += Point2i::new(10, 20);
    assert_eq!(p.x, 11);
    assert_eq!(p.y, 22);
}

#[test]
pub fn point2_default_of_the_trait_is_the_origin() {
    let p: Point2i = Default::default();
    assert_eq!(p.x, 0);
    assert_eq!(p.y, 0);
}
