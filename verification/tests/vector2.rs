use pbrt_geometry::scalar::HasNaN;
use pbrt_geometry::vector2::Vector2i;

#[test]
pub fn geometry_test_vector2_eq() {
    let left = Vector2i::new(1, 2);
    let right = Vector2i::new(1, 2);
    assert!(left == right);
}

#[test]
pub fn geometry_test_vector2f_default() {
    let v = Vector2i::default();
    assert_eq!(v.x, 0);
    assert_eq!(v.y, 0);
}

#[test]
pub fn geometry_test_vector2f_new() {
    let v = Vector2i::new(1, 2);
    assert_eq!(v.x, 1);
    assert_eq!(v.y, 2);
}

#[test]
pub fn geometry_test_vector2f_copy() {
    let v = Vector2i::new(1, 2);
    let cp = v;
    assert_eq!(cp.x, v.x);
    assert_eq!(cp.y, v.y);
}

#[test]
pub fn geometry_test_vector2f_add() {
    let left = Vector2i::new(1, 2);
    let right = Vector2i::new(3, 4);
    let result = left + right;
    assert_eq!(result.x, 4);
    assert_eq!(result.y, 6);
}

#[test]
pub fn geometry_test_vector2f_add_assign() {
    let mut left = Vector2i::new(1, 2);
    let right = Vector2i::new(3, 4);
    left += right;
    assert_eq!(left.x, 4);
    assert_eq!(left.y, 6);
}

#[test]
pub fn vector2_test_vector2_eq() {
    let left = Vector2i::new(1, 2);
    let right = Vector2i::new(1, 2);
    assert!(left == right);
}

#[test]
pub fn vector2_test_vector2f_default() {
    let v = Vector2i::default();
    assert_eq!(v.x, 0);
    assert_eq!(v.y, 0);
}

#[test]
pub fn vector2_test_vector2f_new() {
    let v = Vector2i::new(1, 2);
    assert_eq!(v.x, 1);
    assert_eq!(v.y, 2);
}

#[test]
pub fn vector2_test_vector2f_copy() {
    let v = Vector2i::new(1, 2);
    let cp = v;
    assert_eq!(cp.x, v.x);
    assert_eq!(cp.y, v.y);
}

#[test]
pub fn vector2_test_vector2f_add() {
    let left = Vector2i::new(1, 2);
    let right = Vector2i::new(3, 4);
    let result = left + right;
    assert_eq!(result.x, 4);
    assert_eq!(result.y, 6);
}

#[test]
pub fn vector2_test_vector2f_add_assign() {
    let mut left = Vector2i::new(1, 2);
    let right = Vector2i::new(3, 4);
    left += right;
    assert_eq!(left.x, 4);
    assert_eq!(left.y, 6);
}

#[test]
pub fn test_vector2i_basic() {
    let left = Vector2i::new(1, 2);
    let right = Vector2i::new(3, 4);
    let sum = left + right;
    assert_eq!(sum.x, 4);
    assert_eq!(sum.y, 6);
}

#[test]
pub fn test_vector2f_neg() {
    let left = Vector2i::new(3, 6);
    let neg = -left;
    assert_eq!(neg.x, -3);
    assert_eq!(neg.y, -6);
}

#[test]
pub fn test_vector2_idx() {
    let left = Vector2i::new(2, 4);
    assert_eq!(left[0], 2);
    assert_eq!(left[1], 4);
}

#[test]
pub fn geometry_test_vector2f_sub_assign() {
    let mut left = Vector2i::new(3, 6);
    let right = Vector2i::new(2, 4);
    left -= right;
    assert_eq!(left.x, 1);
    assert_eq!(left.y, 2);
}

#[test]
pub fn geometry_test_vector2f_sub() {
    let left = Vector2i::new(3, 6);
    let right = Vector2i::new(2, 4);
    let result = left - right;
    assert_eq!(result.x, 1);
    assert_eq!(result.y, 2);
}

#[test]
pub fn vector2_test_vector2f_sub_assign() {
    let mut left = Vector2i::new(3, 6);
    let right = Vector2i::new(2, 4);
    left -= right;
    assert_eq!(left.x, 1);
    assert_eq!(left.y, 2);
}

#[test]
pub fn vector2_test_vector2f_sub() {
    let left = Vector2i::new(3, 6);
    let right = Vector2i::new(2, 4);
    let result = left - right;
    assert_eq!(result.x, 1);
    assert_eq!(result.y, 2);
}

#[test]
pub fn test_vector2_div_assign_scalar() {
    let mut left = Vector2i::new(2, 4);
    left /= 2;
    assert_eq!(left.x, 1);
    assert_eq!(left.y, 2);
}

#[test]
pub fn test_vector2_mul_assign_scalar() {
    let mut left = Vector2i::new(2, 3);
    left *= 2;
    assert_eq!(left.x, 4);
    assert_eq!(left.y, 6);
}

#[test]
pub fn test_vector2_div_scalar() {
    let mut left = Vector2i::new(2, 4);
    left /= 2;
    assert_eq!(left.x, 1);
    assert_eq!(left.y, 2);
}

#[test]
pub fn test_vector2_mul_scalar() {
    let mut left = Vector2i::new(2, 3);
    left *= 2;
    assert_eq!(left.x, 4);
    assert_eq!(left.y, 6);
}

#[test]
pub fn vector2_length_squared_of_three_four() {
    assert_eq!(Vector2i::new(3, 4).length_squared(), 25);
    assert_eq!(Vector2i::new(-3, 4).length_squared(), 25);
    assert_eq!(Vector2i::new(0, 0).length_squared(), 0);
}

#[test]
pub fn vector2_division_rounds_toward_zero() {
    let v = Vector2i::new(7, -7) / 2;
    assert_eq!(v.x, 3);
    assert_eq!(v.y, -3);
    let w = Vector2i::new(7, -7) / -2;
    assert_eq!(w.x, -3);
    assert_eq!(w.y, 3);
}

#[test]
pub fn vector2_addition_commutes_and_associates() {
    let a = Vector2i::new(5, -9);
    let b = Vector2i::new(-2, 40);
    let c = Vector2i::new(17, 3);
    assert!(a + b == b + a);
    assert!((a + b) + c == a + (b + c));
    assert_eq!(((a + b) + c).x, 20);
    assert_eq!(((a + b) + c).y, 34);
}

#[test]
pub fn vector2_scaling_is_undone_by_division() {
    let v = Vector2i::new(-13, 8);
    for s in [1, -1, 2, -7, 1000] {
        assert!((v * s) / s == v);
    }
}

#[test]
pub fn vector2_has_no_nan() {
    assert!(!Vector2i::new(1, 2).has_nan());
}

#[test]
pub fn vector2_differs_in_one_component() {
    assert!(Vector2i::new(1, 2) != Vector2i::new(1, 3));
    assert!(Vector2i::new(1, 2) != Vector2i::new(0, 2));
}

#[test]
pub fn vector2_clone_is_equal() {
    let v = Vector2i::new(4, 5);
    let w = v.clone();
    assert!(v == w);
}
