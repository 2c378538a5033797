use pbrt_geometry::scalar::{HasNaN, Int, Max, Min, One, Zero};
use pbrt_geometry::utils::lerp;

#[test]
pub fn int_identities_and_sentinels() {
    assert_eq!(<Int as Zero>::zero(), 0);
    assert_eq!(<Int as One>::one(), 1);
    assert_eq!(<Int as Min>::min_value(), -2147483648);
    assert_eq!(<Int as Max>::max_value(), 2147483647);
}

#[test]
pub fn int_is_never_nan() {
    assert!(!HasNaN::has_nan(&0));
    assert!(!HasNaN::has_nan(&Int::MIN));
    assert!(!HasNaN::has_nan(&Int::MAX));
}

#[test]
pub fn int_min_and_max_of_two() {
    assert_eq!(<Int as Min>::min(3, 8), 3);
    assert_eq!(<Int as Min>::min(8, 3), 3);
    assert_eq!(<Int as Min>::min(-4, -4), -4);
    assert_eq!(<Int as Max>::max(3, 8), 8);
    assert_eq!(<Int as Max>::max(8, 3), 8);
    assert_eq!(<Int as Max>::max(-4, -4), -4);
}

#[test]
pub fn scalar_lerp_values() {
    assert_eq!(lerp(0, 5, 10), 5);
    assert_eq!(lerp(1, 5, 10), 10);
    assert_eq!(lerp(2, 5, 10), 15);
    assert_eq!(lerp(-1, 5, 10), 0);
    assert_eq!(lerp(3, -4, 6), 26);
}
