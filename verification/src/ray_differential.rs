//! Rays with the footprint of a pixel.
use crate::point3::Point3;
use crate::ray::Ray;
use crate::scalar::{HasNaN, Scalar};
use crate::vector3::Vector3;
use vstd::prelude::*;
use vstd::std_specs::ops::{AddSpec, MulSpec, SubSpec};

verus! {

/// A ray together with two auxiliary rays, each offset by one pixel along
/// one axis of the image plane.
///
/// The auxiliary origins and directions count only while `has_differential`
/// is set; where they were not given they are zero.
#[derive(Debug)]
pub struct RayDifferential<'a, T: Scalar, M> {
    pub ray: Ray<'a, T, M>,
    pub has_differential: bool,
    pub rx_origin: Point3<T>,
    pub ry_origin: Point3<T>,
    pub rx_direction: Vector3<T>,
    pub ry_direction: Vector3<T>,
}

impl<'a, T: Scalar, M> Clone for RayDifferential<'a, T, M> {
    /// A copy, which borrows the same medium.
    fn clone(&self) -> (r: Self)
        ensures
            r == *self,
    {
        *self
    }
}

impl<'a, T: Scalar, M> Copy for RayDifferential<'a, T, M> {

}

/// The point `o + (p - o) * s`, coordinate by coordinate.
pub open spec fn scaled_point<T: Scalar>(o: Point3<T>, p: Point3<T>, s: T) -> Point3<T> {
    o.add_spec(p.sub_spec(o).mul_spec(s))
}

/// The vector `d + (v - d) * s`, component by component.
pub open spec fn scaled_vector<T: Scalar>(d: Vector3<T>, v: Vector3<T>, s: T) -> Vector3<T> {
    d.add_spec(v.sub_spec(d).mul_spec(s))
}

/// Whether `a + (b - a) * s` can be computed: every intermediate result is
/// representable.
pub open spec fn scalable<T: Scalar>(a: int, b: int, s: int) -> bool {
    &&& T::representable(b - a)
    &&& T::representable((b - a) * s)
    &&& T::representable(scaled_value(a, b, s))
}

/// The integer `a + (b - a) * s`.
pub open spec fn scaled_value(a: int, b: int, s: int) -> int {
    a + (b - a) * s
}

/// `r` holds no NaN, and each of its coordinates is that of `o` plus `s`
/// times the distance from `o` to `p`.
pub open spec fn origin_scaled_by<T: Scalar>(
    o: Point3<T>,
    p: Point3<T>,
    s: T,
    r: Point3<T>,
) -> bool {
    &&& !r.has_nan_spec()
    &&& r.x.value() == scaled_value(o.x.value(), p.x.value(), s.value())
    &&& r.y.value() == scaled_value(o.y.value(), p.y.value(), s.value())
    &&& r.z.value() == scaled_value(o.z.value(), p.z.value(), s.value())
}

/// `r` holds no NaN, and each of its components is that of `d` plus `s`
/// times the difference between `v` and `d`.
pub open spec fn direction_scaled_by<T: Scalar>(
    d: Vector3<T>,
    v: Vector3<T>,
    s: T,
    r: Vector3<T>,
) -> bool {
    &&& !r.has_nan_spec()
    &&& r.x.value() == scaled_value(d.x.value(), v.x.value(), s.value())
    &&& r.y.value() == scaled_value(d.y.value(), v.y.value(), s.value())
    &&& r.z.value() == scaled_value(d.z.value(), v.z.value(), s.value())
}

impl<'a, T: Scalar, M> RayDifferential<'a, T, M> {
    /// The ray with no differential; the auxiliary rays are zero.
    pub fn from_ray(ray: &Ray<'a, T, M>) -> (r: Self)
        ensures
            r == (RayDifferential::<T, M> {
                ray: *ray,
                has_differential: false,
                rx_origin: Point3 { x: T::zero_spec(), y: T::zero_spec(), z: T::zero_spec() },
                ry_origin: Point3 { x: T::zero_spec(), y: T::zero_spec(), z: T::zero_spec() },
                rx_direction: Vector3 { x: T::zero_spec(), y: T::zero_spec(), z: T::zero_spec() },
                ry_direction: Vector3 { x: T::zero_spec(), y: T::zero_spec(), z: T::zero_spec() },
            }),
    {
        Self {
            ray: *ray,
            has_differential: false,
            rx_origin: Point3::<T>::default(),
            ry_origin: Point3::<T>::default(),
            rx_direction: Vector3::<T>::default(),
            ry_direction: Vector3::<T>::default(),
        }
    }

    /// The ray from `o` along `d` with no differential.
    pub fn from_od(o: &Point3<T>, d: &Vector3<T>) -> (r: Self)
        ensures
            r == (RayDifferential::<T, M> {
                ray: Ray {
                    o: *o,
                    d: *d,
                    t_max: T::max_value_spec(),
                    time: T::zero_spec(),
                    medium: None,
                },
                has_differential: false,
                rx_origin: Point3 { x: T::zero_spec(), y: T::zero_spec(), z: T::zero_spec() },
                ry_origin: Point3 { x: T::zero_spec(), y: T::zero_spec(), z: T::zero_spec() },
                rx_direction: Vector3 { x: T::zero_spec(), y: T::zero_spec(), z: T::zero_spec() },
                ry_direction: Vector3 { x: T::zero_spec(), y: T::zero_spec(), z: T::zero_spec() },
            }),
    {
        RayDifferential::new(o, d, false, &None, &None, &None, &None)
    }

    /// The ray from `o` along `d` with the given auxiliary rays. An origin
    /// or direction that is not given is zero.
    pub fn new(
        o: &Point3<T>,
        d: &Vector3<T>,
        has_differential: bool,
        rx_origin: &Option<Point3<T>>,
        ry_origin: &Option<Point3<T>>,
        rx_direction: &Option<Vector3<T>>,
        ry_direction: &Option<Vector3<T>>,
    ) -> (r: Self)
        ensures
            r.ray == (Ray::<T, M> {
                o: *o,
                d: *d,
                t_max: T::max_value_spec(),
                time: T::zero_spec(),
                medium: None,
            }),
            r.has_differential == has_differential,
            r.rx_origin == (match *rx_origin {
                Some(p) => p,
                None => Point3 { x: T::zero_spec(), y: T::zero_spec(), z: T::zero_spec() },
            }),
            r.ry_origin == (match *ry_origin {
                Some(p) => p,
                None => Point3 { x: T::zero_spec(), y: T::zero_spec(), z: T::zero_spec() },
            }),
            r.rx_direction == (match *rx_direction {
                Some(v) => v,
                None => Vector3 { x: T::zero_spec(), y: T::zero_spec(), z: T::zero_spec() },
            }),
            r.ry_direction == (match *ry_direction {
                Some(v) => v,
                None => Vector3 { x: T::zero_spec(), y: T::zero_spec(), z: T::zero_spec() },
            }),
    {
        Self {
            ray: Ray::new(o, d, None, None, None),
            has_differential,
            rx_origin: match rx_origin {
                Some(p) => *p,
                None => Point3::<T>::default(),
            },
            ry_origin: match ry_origin {
                Some(p) => *p,
                None => Point3::<T>::default(),
            },
            rx_direction: match rx_direction {
                Some(v) => *v,
                None => Vector3::<T>::default(),
            },
            ry_direction: match ry_direction {
                Some(v) => *v,
                None => Vector3::<T>::default(),
            },
        }
    }

    /// Whether the ray holds NaN, or, while the differential is set, an
    /// auxiliary origin or direction does.
    pub open spec fn has_nan_spec(&self) -> bool {
        self.ray.has_nan_spec() || (self.has_differential && (self.rx_origin.has_nan_spec()
            || self.rx_direction.has_nan_spec() || self.ry_origin.has_nan_spec()
            || self.ry_direction.has_nan_spec()))
    }

    /// Whether the ray holds NaN, or, while the differential is set, an
    /// auxiliary origin or direction does.
    pub fn has_nan(&self) -> (r: bool)
        ensures
            r == self.has_nan_spec(),
    {
        self.ray.has_nan() || (self.has_differential && (self.rx_origin.has_nan()
            || self.rx_direction.has_nan() || self.ry_origin.has_nan()
            || self.ry_direction.has_nan()))
    }

    /// When `scale_differential` may be called: nothing is NaN, and each
    /// auxiliary origin and direction can be scaled toward the ray's.
    pub open spec fn scale_differential_req(&self, s: T) -> bool {
        &&& !s.has_nan_spec()
        &&& !self.ray.o.has_nan_spec()
        &&& !self.ray.d.has_nan_spec()
        &&& !self.rx_origin.has_nan_spec()
        &&& !self.ry_origin.has_nan_spec()
        &&& !self.rx_direction.has_nan_spec()
        &&& !self.ry_direction.has_nan_spec()
        &&& scalable::<T>(self.ray.o.x.value(), self.rx_origin.x.value(), s.value())
        &&& scalable::<T>(self.ray.o.y.value(), self.rx_origin.y.value(), s.value())
        &&& scalable::<T>(self.ray.o.z.value(), self.rx_origin.z.value(), s.value())
        &&& scalable::<T>(self.ray.o.x.value(), self.ry_origin.x.value(), s.value())
        &&& scalable::<T>(self.ray.o.y.value(), self.ry_origin.y.value(), s.value())
        &&& scalable::<T>(self.ray.o.z.value(), self.ry_origin.z.value(), s.value())
        &&& scalable::<T>(self.ray.d.x.value(), self.rx_direction.x.value(), s.value())
        &&& scalable::<T>(self.ray.d.y.value(), self.rx_direction.y.value(), s.value())
        &&& scalable::<T>(self.ray.d.z.value(), self.rx_direction.z.value(), s.value())
        &&& scalable::<T>(self.ray.d.x.value(), self.ry_direction.x.value(), s.value())
        &&& scalable::<T>(self.ray.d.y.value(), self.ry_direction.y.value(), s.value())
        &&& scalable::<T>(self.ray.d.z.value(), self.ry_direction.z.value(), s.value())
    }

    /// Scales the offsets of the auxiliary rays from the ray by `s`: each
    /// auxiliary origin becomes `o + (origin - o) * s`, and each auxiliary
    /// direction `d + (direction - d) * s`. The ray itself and the flag stay.
    pub fn scale_differential(&mut self, s: T)
        requires
            old(self).scale_differential_req(s),
        ensures
            final(self).ray == old(self).ray,
            final(self).has_differential == old(self).has_differential,
            final(self).rx_origin == scaled_point(old(self).ray.o, old(self).rx_origin, s),
            final(self).ry_origin == scaled_point(old(self).ray.o, old(self).ry_origin, s),
            final(self).rx_direction == scaled_vector(old(self).ray.d, old(self).rx_direction, s),
            final(self).ry_direction == scaled_vector(old(self).ray.d, old(self).ry_direction, s),
            origin_scaled_by(old(self).ray.o, old(self).rx_origin, s, final(self).rx_origin),
            origin_scaled_by(old(self).ray.o, old(self).ry_origin, s, final(self).ry_origin),
            direction_scaled_by(
                old(self).ray.d,
                old(self).rx_direction,
                s,
                final(self).rx_direction,
            ),
            direction_scaled_by(
                old(self).ray.d,
                old(self).ry_direction,
                s,
                final(self).ry_direction,
            ),
    {
        proof {
            Self::lemma_scalable(self.ray.o.x, self.rx_origin.x, s);
            Self::lemma_scalable(self.ray.o.y, self.rx_origin.y, s);
            Self::lemma_scalable(self.ray.o.z, self.rx_origin.z, s);
            Self::lemma_scalable(self.ray.o.x, self.ry_origin.x, s);
            Self::lemma_scalable(self.ray.o.y, self.ry_origin.y, s);
            Self::lemma_scalable(self.ray.o.z, self.ry_origin.z, s);
            Self::lemma_scalable(self.ray.d.x, self.rx_direction.x, s);
            Self::lemma_scalable(self.ray.d.y, self.rx_direction.y, s);
            Self::lemma_scalable(self.ray.d.z, self.rx_direction.z, s);
            Self::lemma_scalable(self.ray.d.x, self.ry_direction.x, s);
            Self::lemma_scalable(self.ray.d.y, self.ry_direction.y, s);
            Self::lemma_scalable(self.ray.d.z, self.ry_direction.z, s);
        }
        self.rx_origin = self.ray.o + (self.rx_origin - self.ray.o) * s;
        self.ry_origin = self.ray.o + (self.ry_origin - self.ray.o) * s;
        self.rx_direction = self.ray.d + (self.rx_direction - self.ray.d) * s;
        self.ry_direction = self.ray.d + (self.ry_direction - self.ray.d) * s;
    }

    /// The three steps of `a + (b - a) * s` are permitted where their
    /// results are representable.
    proof fn lemma_scalable(a: T, b: T, s: T)
        requires
            !a.has_nan_spec(),
            !b.has_nan_spec(),
            !s.has_nan_spec(),
            scalable::<T>(a.value(), b.value(), s.value()),
        ensures
            b.sub_req(a),
            !b.sub_spec(a).has_nan_spec(),
            b.sub_spec(a).value() == b.value() - a.value(),
            b.sub_spec(a).mul_req(s),
            !b.sub_spec(a).mul_spec(s).has_nan_spec(),
            b.sub_spec(a).mul_spec(s).value() == (b.value() - a.value()) * s.value(),
            a.add_req(b.sub_spec(a).mul_spec(s)),
    {
        T::lemma_sub(b, a);
        T::lemma_mul(b.sub_spec(a), s);
        T::lemma_add(a, b.sub_spec(a).mul_spec(s));
    }
}

} // verus!
