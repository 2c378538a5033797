//! Positions in space.
use crate::scalar::{quotient, HasNaN, Int, Scalar};
use crate::scalar_laws;
use crate::vector3::Vector3;
use core::ops::{Add, AddAssign, Div, DivAssign, Index, Mul, MulAssign, Neg, Sub, SubAssign};
use vstd::prelude::*;
use vstd::std_specs::cmp::PartialEqSpec;
use vstd::std_specs::convert::FromSpec;
use vstd::std_specs::ops::{AddSpec, DivSpec, MulSpec, NegSpec, SubSpec};

verus! {

/// A position in space, with coordinates of scalar type `T`.
///
/// Points and vectors differ in their algebra: the difference of two points
/// is a vector, and a point moved by a vector is a point.
#[derive(Debug)]
pub struct Point3<T> {
    pub x: T,
    pub y: T,
    pub z: T,
}

/// A point with integer coordinates.
pub type Point3i = Point3<Int>;

impl<T: Scalar> Point3<T> {
    /// The point with the given coordinates, none of which may be NaN.
    pub fn new(x: T, y: T, z: T) -> (r: Self)
        requires
            !x.has_nan_spec(),
            !y.has_nan_spec(),
            !z.has_nan_spec(),
        ensures
            r == (Point3 { x, y, z }),
    {
        Self { x, y, z }
    }

    /// The origin.
    pub fn default() -> (r: Self)
        ensures
            r == (Point3 { x: T::zero_spec(), y: T::zero_spec(), z: T::zero_spec() }),
            !r.has_nan_spec(),
    {
        proof {
            T::lemma_constants();
        }
        Self { x: T::zero(), y: T::zero(), z: T::zero() }
    }

    /// The squared distance between two points as an integer.
    pub open spec fn distance_squared_value(a: Self, b: Self) -> int {
        (a.x.value() - b.x.value()) * (a.x.value() - b.x.value())
        + (a.y.value() - b.y.value()) * (a.y.value() - b.y.value())
        + (a.z.value() - b.z.value()) * (a.z.value() - b.z.value())
    }

    /// The squared distance between two points, in the scalar's own domain.
    pub fn distance_squared(left: &Point3<T>, right: &Point3<T>) -> (r: T)
        requires
            left.sub_req(right),
            T::representable(left.sub_spec(right).norm_squared()),
        ensures
            !r.has_nan_spec(),
            r.value() == left.sub_spec(right).norm_squared(),
            r.value() == Self::distance_squared_value(*left, *right),
    {
        proof {
            T::lemma_sub(left.x, right.x);
            T::lemma_sub(left.y, right.y);
            T::lemma_sub(left.z, right.z);
        }
        (left - right).length_squared()
    }

    /// When `lerp` may be called: nothing is NaN and every intermediate
    /// result is representable.
    pub open spec fn lerp_req(t: T, p0: Self, p1: Self) -> bool {
        &&& !t.has_nan_spec()
        &&& !p0.has_nan_spec()
        &&& !p1.has_nan_spec()
        &&& T::representable(1 - t.value())
        &&& T::representable(p0.x.value() * (1 - t.value()))
        &&& T::representable(p1.x.value() * t.value())
        &&& T::representable(p0.x.value() * (1 - t.value()) + p1.x.value() * t.value())
        &&& T::representable(p0.y.value() * (1 - t.value()))
        &&& T::representable(p1.y.value() * t.value())
        &&& T::representable(p0.y.value() * (1 - t.value()) + p1.y.value() * t.value())
        &&& T::representable(p0.z.value() * (1 - t.value()))
        &&& T::representable(p1.z.value() * t.value())
        &&& T::representable(p0.z.value() * (1 - t.value()) + p1.z.value() * t.value())
    }

    /// The point that `lerp` gives.
    pub open spec fn lerp_spec(t: T, p0: Self, p1: Self) -> Self {
        p0.mul_spec(T::one_spec().sub_spec(t)).add_spec(p1.mul_spec(t))
    }

    /// The point `p0 * (1 - t) + p1 * t`, computed in the scalar's own
    /// domain: `p0` at `t = 0`, `p1` at `t = 1`.
    pub fn lerp(t: T, p0: &Point3<T>, p1: &Point3<T>) -> (r: Point3<T>)
        requires
            Self::lerp_req(t, *p0, *p1),
        ensures
            r == Self::lerp_spec(t, *p0, *p1),
            !r.has_nan_spec(),
            r.x.value() == p0.x.value() * (1 - t.value()) + p1.x.value()
                * t.value(),
            r.y.value() == p0.y.value() * (1 - t.value()) + p1.y.value()
                * t.value(),
            r.z.value() == p0.z.value() * (1 - t.value()) + p1.z.value()
                * t.value(),
    {
        proof {
            T::lemma_constants();
            T::lemma_sub(T::one_spec(), t);
        }
        let s = T::one() - t;
        proof {
            T::lemma_mul(p0.x, s);
            T::lemma_mul(p0.y, s);
            T::lemma_mul(p0.z, s);
            T::lemma_mul(p1.x, t);
            T::lemma_mul(p1.y, t);
            T::lemma_mul(p1.z, t);
        }
        *p0 * s + *p1 * t
    }

    /// Interpolating at zero gives the first point, and at one the second.
    pub proof fn lemma_lerp_endpoints(a: Self, b: Self)
        requires
            !a.has_nan_spec(),
            !b.has_nan_spec(),
        ensures
            Self::lerp_req(T::zero_spec(), a, b),
            Self::lerp_spec(T::zero_spec(), a, b) == a,
            Self::lerp_req(T::one_spec(), a, b),
            Self::lerp_spec(T::one_spec(), a, b) == b,
    {
        T::lemma_constants();
        T::lemma_sub(T::one_spec(), T::zero_spec());
        T::lemma_sub(T::one_spec(), T::one_spec());
        T::lemma_value(T::one_spec().sub_spec(T::zero_spec()), T::one_spec());
        T::lemma_value(T::one_spec().sub_spec(T::one_spec()), T::zero_spec());
        scalar_laws::lemma_lerp_endpoints(a.x, b.x);
        scalar_laws::lemma_lerp_endpoints(a.y, b.y);
        scalar_laws::lemma_lerp_endpoints(a.z, b.z);
    }

    /// The difference of two points, added to the second, gives the first.
    pub proof fn lemma_sub_then_add(p: Self, q: Self)
        requires
            p.sub_req(q),
        ensures
            q.add_req(p.sub_spec(q)),
            q.add_spec(p.sub_spec(q)) == p,
    {
        T::lemma_sub(p.x, q.x);
        T::lemma_sub(p.y, q.y);
        T::lemma_sub(p.z, q.z);
        scalar_laws::lemma_sub_then_add(p.x, q.x);
        scalar_laws::lemma_sub_then_add(p.y, q.y);
        scalar_laws::lemma_sub_then_add(p.z, q.z);
        T::lemma_add(q.x, p.x.sub_spec(q.x));
        T::lemma_add(q.y, p.y.sub_spec(q.y));
        T::lemma_add(q.z, p.z.sub_spec(q.z));
    }

    /// On values without NaN, `==` holds exactly of equal values.
    pub proof fn lemma_eq(a: Self, b: Self)
        requires
            !a.has_nan_spec(),
            !b.has_nan_spec(),
        ensures
            Self::obeys_eq_spec(),
            a.eq_spec(&b) <==> a == b,
    {
        T::lemma_order(a.x, b.x);
        T::lemma_order(a.y, b.y);
        T::lemma_order(a.z, b.z);
        T::lemma_value(a.x, b.x);
        T::lemma_value(a.y, b.y);
        T::lemma_value(a.z, b.z);
    }
}

impl<T: Scalar> Clone for Point3<T> {
    /// A copy of the point.
    fn clone(&self) -> (r: Self)
        ensures
            r == *self,
    {
        *self
    }
}

impl<T: Scalar> Copy for Point3<T> {

}

impl<T: Scalar> HasNaN for Point3<T> {
    /// Some coordinate is NaN.
    open spec fn has_nan_spec(&self) -> bool {
        self.x.has_nan_spec() || self.y.has_nan_spec() || self.z.has_nan_spec()
    }

    /// Whether some coordinate is NaN.
    fn has_nan(&self) -> (r: bool) {
        self.x.has_nan() || self.y.has_nan() || self.z.has_nan()
    }
}

impl<T: Scalar> Default for Point3<T> {
    /// The origin.
    fn default() -> (r: Self)
        ensures
            r == (Point3 { x: T::zero_spec(), y: T::zero_spec(), z: T::zero_spec() }),
    {
        Self { x: T::zero(), y: T::zero(), z: T::zero() }
    }
}

impl<T: Scalar> PartialEq for Point3<T> {
    /// Whether every coordinate equals its counterpart.
    fn eq(&self, rhs: &Point3<T>) -> (r: bool) {
        self.x == rhs.x && self.y == rhs.y && self.z == rhs.z
    }
}

impl<T: Scalar> vstd::std_specs::cmp::PartialEqSpecImpl for Point3<T> {
    open spec fn obeys_eq_spec() -> bool {
        T::obeys_eq_spec()
    }

    open spec fn eq_spec(&self, rhs: &Point3<T>) -> bool {
        self.x.eq_spec(&rhs.x) && self.y.eq_spec(&rhs.y) && self.z.eq_spec(&rhs.z)
    }
}

impl<T: Scalar> vstd::std_specs::convert::FromSpecImpl<Vector3<T>> for Point3<T> {
    open spec fn obeys_from_spec() -> bool {
        true
    }

    open spec fn from_spec(item: Vector3<T>) -> Self {
        Point3 { x: item.x, y: item.y, z: item.z }
    }
}

impl<T: Scalar> From<Vector3<T>> for Point3<T> {
    /// The point that the vector leads to from the origin.
    fn from(item: Vector3<T>) -> (r: Self) {
        Self { x: item.x, y: item.y, z: item.z }
    }
}

impl<T: Scalar> vstd::std_specs::convert::FromSpecImpl<Point3<T>> for Vector3<T> {
    open spec fn obeys_from_spec() -> bool {
        true
    }

    open spec fn from_spec(item: Point3<T>) -> Self {
        Vector3 { x: item.x, y: item.y, z: item.z }
    }
}

impl<T: Scalar> From<Point3<T>> for Vector3<T> {
    /// The vector that leads from the origin to the point.
    fn from(item: Point3<T>) -> (r: Self) {
        Self { x: item.x, y: item.y, z: item.z }
    }
}

impl<T: Scalar> vstd::std_specs::ops::AddSpecImpl<Vector3<T>> for Point3<T> {
    open spec fn obeys_add_spec() -> bool {
        true
    }

    open spec fn add_req(self, rhs: Vector3<T>) -> bool {
        &&& !self.has_nan_spec()
        &&& !rhs.has_nan_spec()
        &&& T::representable(self.x.value() + rhs.x.value())
        &&& T::representable(self.y.value() + rhs.y.value())
        &&& T::representable(self.z.value() + rhs.z.value())
    }

    open spec fn add_spec(self, rhs: Vector3<T>) -> Self {
        Self { x: self.x.add_spec(rhs.x), y: self.y.add_spec(rhs.y), z: self.z.add_spec(rhs.z) }
    }
}

impl<T: Scalar> Add<Vector3<T>> for Point3<T> {
    type Output = Self;

    /// The point moved by the vector.
    fn add(self, rhs: Vector3<T>) -> (r: Self)
        ensures
            !r.has_nan_spec(),
            r.x.value() == self.x.value() + rhs.x.value(),
            r.y.value() == self.y.value() + rhs.y.value(),
            r.z.value() == self.z.value() + rhs.z.value(),
    {
        proof {
            T::lemma_add(self.x, rhs.x);
            T::lemma_add(self.y, rhs.y);
            T::lemma_add(self.z, rhs.z);
        }
        Self::new(self.x + rhs.x, self.y + rhs.y, self.z + rhs.z)
    }
}

impl<T: Scalar> AddAssign<Vector3<T>> for Point3<T> {
    /// Moves this point by the vector.
    fn add_assign(&mut self, rhs: Vector3<T>)
        requires
            old(self).add_req(rhs),
        ensures
            *final(self) == old(self).add_spec(rhs),
            !final(self).has_nan_spec(),
            final(self).x.value() == old(self).x.value() + rhs.x.value(),
            final(self).y.value() == old(self).y.value() + rhs.y.value(),
            final(self).z.value() == old(self).z.value() + rhs.z.value(),
    {
        proof {
            T::lemma_add(self.x, rhs.x);
            T::lemma_add(self.y, rhs.y);
            T::lemma_add(self.z, rhs.z);
        }
        *self = Self::new(self.x + rhs.x, self.y + rhs.y, self.z + rhs.z);
    }
}

impl<T: Scalar> vstd::std_specs::ops::AddSpecImpl for Point3<T> {
    open spec fn obeys_add_spec() -> bool {
        true
    }

    open spec fn add_req(self, rhs: Self) -> bool {
        &&& !self.has_nan_spec()
        &&& !rhs.has_nan_spec()
        &&& T::representable(self.x.value() + rhs.x.value())
        &&& T::representable(self.y.value() + rhs.y.value())
        &&& T::representable(self.z.value() + rhs.z.value())
    }

    open spec fn add_spec(self, rhs: Self) -> Self {
        Self { x: self.x.add_spec(rhs.x), y: self.y.add_spec(rhs.y), z: self.z.add_spec(rhs.z) }
    }
}

impl<T: Scalar> Add for Point3<T> {
    type Output = Self;

    /// The coordinate-wise sum of two points. The sum of two positions is no
    /// position; this operator is offered because averages and centroids are
    /// computed with it.
    fn add(self, rhs: Self) -> (r: Self)
        ensures
            !r.has_nan_spec(),
            r.x.value() == self.x.value() + rhs.x.value(),
            r.y.value() == self.y.value() + rhs.y.value(),
            r.z.value() == self.z.value() + rhs.z.value(),
    {
        proof {
            T::lemma_add(self.x, rhs.x);
            T::lemma_add(self.y, rhs.y);
            T::lemma_add(self.z, rhs.z);
        }
        Self::new(self.x + rhs.x, self.y + rhs.y, self.z + rhs.z)
    }
}

impl<T: Scalar> AddAssign for Point3<T> {
    /// Adds the coordinates of `rhs` to this point's; see `add` of two points.
    fn add_assign(&mut self, rhs: Self)
        requires
            old(self).add_req(rhs),
        ensures
            *final(self) == old(self).add_spec(rhs),
            !final(self).has_nan_spec(),
            final(self).x.value() == old(self).x.value() + rhs.x.value(),
            final(self).y.value() == old(self).y.value() + rhs.y.value(),
            final(self).z.value() == old(self).z.value() + rhs.z.value(),
    {
        proof {
            T::lemma_add(self.x, rhs.x);
            T::lemma_add(self.y, rhs.y);
            T::lemma_add(self.z, rhs.z);
        }
        *self = Self::new(self.x + rhs.x, self.y + rhs.y, self.z + rhs.z);
    }
}

impl<T: Scalar> vstd::std_specs::ops::SubSpecImpl<Vector3<T>> for Point3<T> {
    open spec fn obeys_sub_spec() -> bool {
        true
    }

    open spec fn sub_req(self, rhs: Vector3<T>) -> bool {
        &&& !self.has_nan_spec()
        &&& !rhs.has_nan_spec()
        &&& T::representable(self.x.value() - rhs.x.value())
        &&& T::representable(self.y.value() - rhs.y.value())
        &&& T::representable(self.z.value() - rhs.z.value())
    }

    open spec fn sub_spec(self, rhs: Vector3<T>) -> Self {
        Self { x: self.x.sub_spec(rhs.x), y: self.y.sub_spec(rhs.y), z: self.z.sub_spec(rhs.z) }
    }
}

impl<T: Scalar> Sub<Vector3<T>> for Point3<T> {
    type Output = Self;

    /// The point moved against the vector.
    fn sub(self, rhs: Vector3<T>) -> (r: Self)
        ensures
            !r.has_nan_spec(),
            r.x.value() == self.x.value() - rhs.x.value(),
            r.y.value() == self.y.value() - rhs.y.value(),
            r.z.value() == self.z.value() - rhs.z.value(),
    {
        proof {
            T::lemma_sub(self.x, rhs.x);
            T::lemma_sub(self.y, rhs.y);
            T::lemma_sub(self.z, rhs.z);
        }
        Self::new(self.x - rhs.x, self.y - rhs.y, self.z - rhs.z)
    }
}

impl<T: Scalar> SubAssign<Vector3<T>> for Point3<T> {
    /// Moves this point against the vector.
    fn sub_assign(&mut self, rhs: Vector3<T>)
        requires
            old(self).sub_req(rhs),
        ensures
            *final(self) == old(self).sub_spec(rhs),
            !final(self).has_nan_spec(),
            final(self).x.value() == old(self).x.value() - rhs.x.value(),
            final(self).y.value() == old(self).y.value() - rhs.y.value(),
            final(self).z.value() == old(self).z.value() - rhs.z.value(),
    {
        proof {
            T::lemma_sub(self.x, rhs.x);
            T::lemma_sub(self.y, rhs.y);
            T::lemma_sub(self.z, rhs.z);
        }
        *self = Self::new(self.x - rhs.x, self.y - rhs.y, self.z - rhs.z);
    }
}

impl<T: Scalar> vstd::std_specs::ops::SubSpecImpl for Point3<T> {
    open spec fn obeys_sub_spec() -> bool {
        true
    }

    open spec fn sub_req(self, rhs: Self) -> bool {
        &&& !self.has_nan_spec()
        &&& !rhs.has_nan_spec()
        &&& T::representable(self.x.value() - rhs.x.value())
        &&& T::representable(self.y.value() - rhs.y.value())
        &&& T::representable(self.z.value() - rhs.z.value())
    }

    open spec fn sub_spec(self, rhs: Self) -> Vector3<T> {
        Vector3 { x: self.x.sub_spec(rhs.x), y: self.y.sub_spec(rhs.y), z: self.z.sub_spec(rhs.z) }
    }
}

impl<T: Scalar> Sub for Point3<T> {
    type Output = Vector3<T>;

    /// The vector that leads from `rhs` to this point.
    fn sub(self, rhs: Self) -> (r: Vector3<T>)
        ensures
            !r.has_nan_spec(),
            r.x.value() == self.x.value() - rhs.x.value(),
            r.y.value() == self.y.value() - rhs.y.value(),
            r.z.value() == self.z.value() - rhs.z.value(),
    {
        proof {
            T::lemma_sub(self.x, rhs.x);
            T::lemma_sub(self.y, rhs.y);
            T::lemma_sub(self.z, rhs.z);
        }
        Vector3::<T>::new(self.x - rhs.x, self.y - rhs.y, self.z - rhs.z)
    }
}

impl<'a, T: Scalar> vstd::std_specs::ops::SubSpecImpl for &'a Point3<T> {
    open spec fn obeys_sub_spec() -> bool {
        true
    }

    open spec fn sub_req(self, rhs: Self) -> bool {
        vstd::std_specs::ops::SubSpec::<Point3<T>>::sub_req(*self, *rhs)
    }

    open spec fn sub_spec(self, rhs: Self) -> Vector3<T> {
        vstd::std_specs::ops::SubSpec::<Point3<T>>::sub_spec(*self, *rhs)
    }
}

impl<'a, T: Scalar> Sub for &'a Point3<T> {
    type Output = Vector3<T>;

    /// The vector that leads from `rhs` to this point.
    fn sub(self, rhs: Self) -> (r: Vector3<T>)
        ensures
            !r.has_nan_spec(),
            r.x.value() == self.x.value() - rhs.x.value(),
            r.y.value() == self.y.value() - rhs.y.value(),
            r.z.value() == self.z.value() - rhs.z.value(),
    {
        *self - *rhs
    }
}

impl<T: Scalar> vstd::std_specs::ops::MulSpecImpl<T> for Point3<T> {
    open spec fn obeys_mul_spec() -> bool {
        true
    }

    open spec fn mul_req(self, rhs: T) -> bool {
        &&& !self.has_nan_spec()
        &&& !rhs.has_nan_spec()
        &&& T::representable(self.x.value() * rhs.value())
        &&& T::representable(self.y.value() * rhs.value())
        &&& T::representable(self.z.value() * rhs.value())
    }

    open spec fn mul_spec(self, rhs: T) -> Self {
        Self { x: self.x.mul_spec(rhs), y: self.y.mul_spec(rhs), z: self.z.mul_spec(rhs) }
    }
}

impl<T: Scalar> Mul<T> for Point3<T> {
    type Output = Self;

    /// Every coordinate multiplied by the scalar.
    fn mul(self, rhs: T) -> (r: Self)
        ensures
            !r.has_nan_spec(),
            r.x.value() == self.x.value() * rhs.value(),
            r.y.value() == self.y.value() * rhs.value(),
            r.z.value() == self.z.value() * rhs.value(),
    {
        proof {
            T::lemma_mul(self.x, rhs);
            T::lemma_mul(self.y, rhs);
            T::lemma_mul(self.z, rhs);
        }
        Self::new(self.x * rhs, self.y * rhs, self.z * rhs)
    }
}

impl<T: Scalar> MulAssign<T> for Point3<T> {
    /// Multiplies every coordinate by the scalar.
    fn mul_assign(&mut self, rhs: T)
        requires
            old(self).mul_req(rhs),
        ensures
            *final(self) == old(self).mul_spec(rhs),
            !final(self).has_nan_spec(),
            final(self).x.value() == old(self).x.value() * rhs.value(),
            final(self).y.value() == old(self).y.value() * rhs.value(),
            final(self).z.value() == old(self).z.value() * rhs.value(),
    {
        proof {
            T::lemma_mul(self.x, rhs);
            T::lemma_mul(self.y, rhs);
            T::lemma_mul(self.z, rhs);
        }
        *self = Self::new(self.x * rhs, self.y * rhs, self.z * rhs);
    }
}

impl<T: Scalar> vstd::std_specs::ops::DivSpecImpl<T> for Point3<T> {
    open spec fn obeys_div_spec() -> bool {
        true
    }

    open spec fn div_req(self, rhs: T) -> bool {
        &&& !self.has_nan_spec()
        &&& !rhs.has_nan_spec()
        &&& rhs.value() != 0
        &&& T::representable(quotient(self.x.value(), rhs.value()))
        &&& T::representable(quotient(self.y.value(), rhs.value()))
        &&& T::representable(quotient(self.z.value(), rhs.value()))
    }

    open spec fn div_spec(self, rhs: T) -> Self {
        Self { x: self.x.div_spec(rhs), y: self.y.div_spec(rhs), z: self.z.div_spec(rhs) }
    }
}

impl<T: Scalar> Div<T> for Point3<T> {
    type Output = Self;

    /// Every coordinate divided by the scalar, which is not zero, and rounded
    /// toward zero.
    fn div(self, rhs: T) -> (r: Self)
        ensures
            !r.has_nan_spec(),
            r.x.value() == quotient(self.x.value(), rhs.value()),
            r.y.value() == quotient(self.y.value(), rhs.value()),
            r.z.value() == quotient(self.z.value(), rhs.value()),
    {
        proof {
            T::lemma_div(self.x, rhs);
            T::lemma_div(self.y, rhs);
            T::lemma_div(self.z, rhs);
        }
        Self::new(self.x / rhs, self.y / rhs, self.z / rhs)
    }
}

impl<T: Scalar> DivAssign<T> for Point3<T> {
    /// Divides every coordinate by the scalar, which is not zero.
    fn div_assign(&mut self, rhs: T)
        requires
            old(self).div_req(rhs),
        ensures
            *final(self) == old(self).div_spec(rhs),
            !final(self).has_nan_spec(),
            final(self).x.value() == quotient(old(self).x.value(), rhs.value()),
            final(self).y.value() == quotient(old(self).y.value(), rhs.value()),
            final(self).z.value() == quotient(old(self).z.value(), rhs.value()),
    {
        proof {
            T::lemma_div(self.x, rhs);
            T::lemma_div(self.y, rhs);
            T::lemma_div(self.z, rhs);
        }
        *self = Self::new(self.x / rhs, self.y / rhs, self.z / rhs);
    }
}

impl<T: Scalar> vstd::std_specs::ops::NegSpecImpl for Point3<T> {
    open spec fn obeys_neg_spec() -> bool {
        true
    }

    open spec fn neg_req(self) -> bool {
        &&& !self.has_nan_spec()
        &&& T::representable(-self.x.value())
        &&& T::representable(-self.y.value())
        &&& T::representable(-self.z.value())
    }

    open spec fn neg_spec(self) -> Self {
        Point3 { x: self.x.neg_spec(), y: self.y.neg_spec(), z: self.z.neg_spec() }
    }
}

impl<T: Scalar> Neg for Point3<T> {
    type Output = Self;

    /// The point mirrored at the origin.
    fn neg(self) -> (r: Self)
        ensures
            !r.has_nan_spec(),
            r.x.value() == -self.x.value(),
            r.y.value() == -self.y.value(),
            r.z.value() == -self.z.value(),
    {
        proof {
            T::lemma_neg(self.x);
            T::lemma_neg(self.y);
            T::lemma_neg(self.z);
        }
        Self::new(self.x.neg(), self.y.neg(), self.z.neg())
    }
}

impl<T: Scalar> vstd::std_specs::core::IndexSpecImpl<Int> for Point3<T> {
    open spec fn index_req(&self, idx: &Int) -> bool {
        0 <= *idx <= 2
    }
}

impl<T: Scalar> Index<Int> for Point3<T> {
    type Output = T;

    /// The coordinate with the given index, counted from 0. An index past
    /// the last coordinate is outside the contract, and stops the program.
    fn index(&self, idx: Int) -> (r: &T)
        ensures
            *r == (if idx == 0 {
                self.x
            } else if idx == 1 {
                self.y
            } else {
                self.z
            }),
    {
        match idx {
            0 => &self.x,
            1 => &self.y,
            2 => &self.z,
            _ => vstd::pervasive::unreached(),
        }
    }
}

} // verus!
