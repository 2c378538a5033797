//! Geometric primitives over an interchangeable scalar: vectors, points,
//! axis-aligned bounds and rays.
//!
//! Every type is a plain value. The scalar is a type parameter bound by
//! `Scalar`; the integer scalar `Int` is the one this crate provides.
pub mod bounds2;
pub mod point2;
pub mod point3;
pub mod ray;
pub mod ray_differential;
pub mod scalar;
pub mod scalar_int;
pub mod scalar_laws;
pub mod utils;
pub mod vector2;
pub mod vector3;

pub use bounds2::{Bounds2, Bounds2i};
pub use point2::{Point2, Point2i};
pub use point3::{Point3, Point3i};
pub use ray::Ray;
pub use ray_differential::RayDifferential;
pub use scalar::{quotient, HasNaN, Int, Max, Min, One, Scalar, Zero};
pub use vector2::{Vector2, Vector2i};
pub use vector3::{Vector3, Vector3i};
