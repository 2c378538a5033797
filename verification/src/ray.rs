//! Rays: half-lines in space with a parameter ceiling.
use crate::point3::Point3;
use crate::scalar::{HasNaN, Max, Scalar, Zero};
use crate::vector3::Vector3;
use vstd::prelude::*;
use vstd::std_specs::ops::{AddSpec, MulSpec};

verus! {

/// A ray: the points `o + d * t` for the parameters `t` up to `t_max`.
///
/// `M` is the type of the medium that the ray travels through. The ray only
/// borrows it; a ray without a medium travels through vacuum.
#[derive(Debug)]
pub struct Ray<'a, T: Scalar, M> {
    /// The origin.
    pub o: Point3<T>,
    /// The direction.
    pub d: Vector3<T>,
    /// The ceiling of the parameter. It is stored, not enforced: `evaluate`
    /// takes any parameter.
    pub t_max: T,
    /// The time at which the ray exists.
    pub time: T,
    /// The medium at the origin, if any.
    pub medium: Option<&'a M>,
}

impl<'a, T: Scalar, M> Clone for Ray<'a, T, M> {
    /// A copy of the ray, which borrows the same medium.
    fn clone(&self) -> (r: Self)
        ensures
            r == *self,
    {
        *self
    }
}

impl<'a, T: Scalar, M> Copy for Ray<'a, T, M> {

}

impl<'a, T: Scalar, M> Ray<'a, T, M> {
    /// The ray from `o` along `d`, with no ceiling below the largest scalar,
    /// at time zero, in vacuum.
    pub fn from_od(o: &Point3<T>, d: &Vector3<T>) -> (r: Self)
        ensures
            r == (Ray::<T, M> {
                o: *o,
                d: *d,
                t_max: T::max_value_spec(),
                time: T::zero_spec(),
                medium: None,
            }),
    {
        Self::new(o, d, None, None, None)
    }

    /// The ray from `o` along `d`. A ceiling that is not given is the
    /// largest scalar, and a time that is not given is zero.
    pub fn new(
        o: &Point3<T>,
        d: &Vector3<T>,
        t_max: Option<T>,
        time: Option<T>,
        medium: Option<&'a M>,
    ) -> (r: Self)
        ensures
            r == (Ray::<T, M> {
                o: *o,
                d: *d,
                t_max: match t_max {
                    Some(t) => t,
                    None => T::max_value_spec(),
                },
                time: match time {
                    Some(t) => t,
                    None => T::zero_spec(),
                },
                medium,
            }),
    {
        Ray {
            o: *o,
            d: *d,
            t_max: match t_max {
                Some(t) => t,
                None => T::max_value(),
            },
            time: match time {
                Some(t) => t,
                None => T::zero(),
            },
            medium,
        }
    }

    /// Whether the origin, the direction or the ceiling holds NaN.
    pub open spec fn has_nan_spec(&self) -> bool {
        self.o.has_nan_spec() || self.d.has_nan_spec() || self.t_max.has_nan_spec()
    }

    /// Whether the origin, the direction or the ceiling holds NaN.
    pub fn has_nan(&self) -> (r: bool)
        ensures
            r == self.has_nan_spec(),
    {
        self.o.has_nan() || self.d.has_nan() || self.t_max.has_nan()
    }

    /// When `evaluate` may be called: nothing is NaN, and the scaled
    /// direction and the point it leads to are representable.
    pub open spec fn evaluate_req(&self, t: T) -> bool {
        &&& !self.o.has_nan_spec()
        &&& !self.d.has_nan_spec()
        &&& !t.has_nan_spec()
        &&& T::representable(self.d.x.value() * t.value())
        &&& T::representable(self.d.y.value() * t.value())
        &&& T::representable(self.d.z.value() * t.value())
        &&& T::representable(self.o.x.value() + self.d.x.value() * t.value())
        &&& T::representable(self.o.y.value() + self.d.y.value() * t.value())
        &&& T::representable(self.o.z.value() + self.d.z.value() * t.value())
    }

    /// The point that `evaluate` gives.
    pub open spec fn evaluate_spec(&self, t: T) -> Point3<T> {
        self.o.add_spec(self.d.mul_spec(t))
    }

    /// The point `o + d * t`. The parameter is not held against `t_max`.
    pub fn evaluate(&self, t: T) -> (r: Point3<T>)
        requires
            self.evaluate_req(t),
        ensures
            r == self.evaluate_spec(t),
            !r.has_nan_spec(),
            r.x.value() == self.o.x.value() + self.d.x.value() * t.value(),
            r.y.value() == self.o.y.value() + self.d.y.value() * t.value(),
            r.z.value() == self.o.z.value() + self.d.z.value() * t.value(),
    {
        proof {
            T::lemma_mul(self.d.x, t);
            T::lemma_mul(self.d.y, t);
            T::lemma_mul(self.d.z, t);
        }
        self.o + self.d * t
    }
}

} // verus!
