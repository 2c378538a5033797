use pbrt_geometry::point3::Point3i;
use pbrt_geometry::ray::Ray;
use pbrt_geometry::scalar::Int;
use pbrt_geometry::vector3::Vector3i;

/// A medium for the rays of these tests.
struct Fog {
    density: Int,
}

#[test]
pub fn test_no_nan() {
    let ray = Ray::<Int, Fog>::new(
        &Point3i::new(1, 2, 3),
        &Vector3i::new(4, 5, 6),
        None,
        None,
        None,
    );
    assert_eq!(ray.has_nan(), false)
}

#[test]
pub fn ray_from_od_takes_the_defaults() {
    let ray = Ray::<Int, Fog>::from_od(&Point3i::new(1, 2, 3), &Vector3i::new(4, 5, 6));
    assert_eq!(ray.o, Point3i::new(1, 2, 3));
    assert_eq!(ray.d, Vector3i::new(4, 5, 6));
    assert_eq!(ray.t_max, Int::MAX);
    assert_eq!(ray.time, 0);
    assert_eq!(ray.medium.is_none(), true);
}

#[test]
pub fn ray_new_keeps_what_is_given() {
    let fog = Fog { density: 3 };
    let ray = Ray::new(
        &Point3i::new(1, 2, 3),
        &Vector3i::new(4, 5, 6),
        Some(100),
        Some(7),
        Some(&fog),
    );
    assert_eq!(ray.o, Point3i::new(1, 2, 3));
    assert_eq!(ray.d, Vector3i::new(4, 5, 6));
    assert_eq!(ray.t_max, 100);
    assert_eq!(ray.time, 7);
    assert_eq!(ray.medium.unwrap().density, 3);
}

#[test]
pub fn ray_evaluate_walks_along_the_direction() {
    let ray = Ray::<Int, Fog>::from_od(&Point3i::new(1, 2, 3), &Vector3i::new(2, 2, 2));
    assert_eq!(ray.evaluate(2), Point3i::new(5, 6, 7));
    assert_eq!(ray.evaluate(0), Point3i::new(1, 2, 3));
    assert_eq!(ray.evaluate(-1), Point3i::new(-1, 0, 1));
}

#[test]
pub fn ray_evaluate_ignores_the_ceiling() {
    let ray = Ray::<Int, Fog>::new(
        &Point3i::new(1, 2, 3),
        &Vector3i::new(2, 2, 2),
        Some(1),
        None,
        None,
    );
    assert_eq!(ray.evaluate(5), Point3i::new(11, 12, 13));
}

#[test]
pub fn ray_copy_borrows_the_same_medium() {
    let fog = Fog { density: 3 };
    let ray = Ray::new(&Point3i::new(1, 2, 3), &Vector3i::new(4, 5, 6), None, None, Some(&fog));
    let copy = ray;
    assert_eq!(copy.medium.unwrap().density, ray.medium.unwrap().density);
    assert_eq!(copy.o, ray.o);
}
