use pbrt_geometry::point3::Point3i;
use pbrt_geometry::scalar::HasNaN;
use pbrt_geometry::vector3::Vector3i;

#[test]
pub fn test_point3_eq() {
    let left = Point3i::new(1, 2, 3);
    let right = Point3i::new(1, 2, 3);
    assert!(left == right);
}

#[test]
pub fn test_point3_default() {
    let v = Point3i::default();
    assert_eq!(v.x, 0);
    assert_eq!(v.y, 0);
    assert_eq!(v.z, 0);
}

#[test]
pub fn test_point3_new() {
    let v = Point3i::new(1, 2, 3);
    assert_eq!(v.x, 1);
    assert_eq!(v.y, 2);
    assert_eq!(v.z, 3);
}

#[test]
pub fn test_point3_copy() {
    let v = Point3i::new(1, 2, 3);
    let cp = v;
    assert_eq!(cp.x, v.x);
    assert_eq!(cp.y, v.y);
    assert_eq!(cp.z, v.z);
}

#[test]
pub fn test_point3_add() {
    let left = Point3i::new(1, 2, 3);
    let right = Point3i::new(3, 4, 5);
    let result = left + right;
    assert_eq!(result.x, 4);
    assert_eq!(result.y, 6);
    assert_eq!(result.z, 8);
}

#[test]
pub fn test_point3_add_assign() {
    let mut left = Point3i::new(1, 2, 3);
    let right = Point3i::new(3, 4, 5);
    left += right;
    assert_eq!(left.x, 4);
    assert_eq!(left.y, 6);
    assert_eq!(left.z, 8);
}

#[test]
pub fn test_point3_basic() {
    let left = Point3i::new(1, 2, 3);
    let right = Point3i::new(3, 4, 5);
    let sum = left + right;
    assert_eq!(sum.x, 4);
    assert_eq!(sum.y, 6);
    assert_eq!(sum.z, 8);
}

#[test]
pub fn test_point3_neg() {
    let left = Point3i::new(3, 6, 9);
    let neg = -left;
    assert_eq!(neg.x, -3);
    assert_eq!(neg.y, -6);
    assert_eq!(neg.z, -9);
}

#[test]
pub fn test_point3_idx() {
    let left = Point3i::new(2, 4, 6);
    assert_eq!(left[0], 2);
    assert_eq!(left[1], 4);
    assert_eq!(left[2], 6);
}

#[test]
#[should_panic]
pub fn test_point3_idx_panic() {
    let pt = Point3i::new(2, 4, 6);
    let _value = pt[3];
}

#[test]
pub fn test_point3_distance_squared() {
    let start = Point3i::new(2, 4, 8);
    let end = Point3i::new(2, 4, 0);
    let dist = Point3i::distance_squared(&start, &end);
    assert_eq!(dist, 64);
}

#[test]
pub fn test_point3_scalar_mul() {
    let start = Point3i::new(2, 4, 8);
    let result = start * 2;
    assert_eq!(result.x, 4);
    assert_eq!(result.y, 8);
    assert_eq!(result.z, 16);
}

#[test]
pub fn test_point3_addref_vector2() {
    let mut pt = Point3i::new(2, 4, 8);
    let vec = Vector3i::new(3, 5, 7);
    pt += vec;
    assert_eq!(pt.x, 5);
    assert_eq!(pt.y, 9);
    assert_eq!(pt.z, 15);
}

#[test]
pub fn test_point3_addassign_vector2() {
    let mut pt = Point3i::new(2, 4, 8);
    let vec = Vector3i::new(3, 5, 7);
    pt += vec;
    assert_eq!(pt.x, 5);
    assert_eq!(pt.y, 9);
    assert_eq!(pt.z, 15);
}

#[test]
pub fn test_point3_add_vector2() {
    let pt = Point3i::new(2, 4, 8);
    let vec = Vector3i::new(3, 5, 7);
    let result = pt + vec;
    assert_eq!(result.x, 5);
    assert_eq!(result.y, 9);
    assert_eq!(result.z, 15);
}

#[test]
pub fn test_point3_vector2() {
    let pt = Point3i::new(2, 4, 8);
    let vec = Vector3i::from(pt);
    assert_eq!(vec.x, 2);
    assert_eq!(vec.y, 4);
    assert_eq!(vec.z, 8);
}

#[test]
pub fn point3_test_vector2_point2() {
    let vec = Vector3i::new(2, 4, 8);
    let pt = Point3i::from(vec);
    assert_eq!(pt.x, 2);
    assert_eq!(pt.y, 4);
    assert_eq!(pt.z, 8);
}

#[test]
pub fn test_point3_sub_vector() {
    let left = Point3i::new(3, 6, 9);
    let right = Vector3i::new(2, 4, 8);
    let result = left - right;
    assert_eq!(result.x, 1);
    assert_eq!(result.y, 2);
    assert_eq!(result.z, 1);
}

#[test]
pub fn test_point3_div_assign_scalar() {
    let mut left = Point3i::new(2, 4, 6);
    left /= 2;
    assert_eq!(left.x, 1);
    assert_eq!(left.y, 2);
    assert_eq!(left.z, 3);
}

#[test]
pub fn test_point3_mul_assign_scalar() {
    let mut left = Point3i::new(2, 3, 4);
    left *= 2;
    assert_eq!(left.x, 4);
    assert_eq!(left.y, 6);
    assert_eq!(left.z, 8);
}

#[test]
pub fn test_point3_div_scalar() {
    let mut left = Point3i::new(2, 4, 6);
    left = left / 2;
    assert_eq!(left.x, 1);
    assert_eq!(left.y, 2);
    assert_eq!(left.z, 3);
}

#[test]
pub fn test_point3_mul_scalar() {
    let mut left = Point3i::new(2, 3, 4);
    left = left * 2;
    assert_eq!(left.x, 4);
    assert_eq!(left.y, 6);
    assert_eq!(left.z, 8);
}

#[test]
pub fn test_point3_sub_assign() {
    let mut left = Point3i::new(3, 6, 9);
    let right = Vector3i::new(2, 4, 8);
    left -= right;
    assert_eq!(left.x, 1);
    assert_eq!(left.y, 2);
    assert_eq!(left.z, 1);
}

#[test]
pub fn test_point3_sub() {
    let left = Point3i::new(3, 6, 9);
    let right = Point3i::new(2, 4, 6);
    let result = left - right;
    assert_eq!(result.x, 1);
    assert_eq!(result.y, 2);
    assert_eq!(result.z, 3);
}

#[test]
pub fn point3_difference_added_back_gives_the_point() {
    let p = Point3i::new(-7, 12, 3);
    let q = Point3i::new(20, -5, 9);
    let v = p - q;
    assert_eq!(v.x, -27);
    assert_eq!(v.y, 17);
    assert_eq!(v.z, -6);
    assert!(q + v == p);
}

#[test]
pub fn point3_lerp_reaches_both_ends() {
    let a = Point3i::new(-7, 12, 3);
    let b = Point3i::new(20, -5, 9);
    assert!(Point3i::lerp(0, &a, &b) == a);
    assert!(Point3i::lerp(1, &a, &b) == b);
}

#[test]
pub fn point3_lerp_beyond_the_end() {
    let a = Point3i::new(1, 2, 3);
    let b = Point3i::new(4, 0, 3);
    let r = Point3i::lerp(2, &a, &b);
    assert_eq!(r.x, 7);
    assert_eq!(r.y, -2);
    assert_eq!(r.z, 3);
}

#[test]
pub fn point3_division_rounds_toward_zero() {
    let p = Point3i::new(7, -7, -1) / 2;
    assert_eq!(p.x, 3);
    assert_eq!(p.y, -3);
    assert_eq!(p.z, 0);
}

#[test]
pub fn point3_has_no_nan() {
    assert!(!Point3i::new(1, 2, 3).has_nan());
}

#[test]
pub fn point3_sum_of_two_points() {
    let mut p = Point3i::new(1, 2, 3);
    p += Point3i::new(10, 20, 30);
    assert_eq!(p.x, 11);
    assert_eq!(p.y, 22);
    assert_eq!(p.z, 33);
}

#[test]
pub fn point3_default_of_the_trait_is_the_origin() {
    let p: Point3i = Default::default();
    assert_eq!(p.x, 0);
    assert_eq!(p.y, 0);
    assert_eq!(p.z, 0);
}
