//! Positions in the plane.
use crate::scalar::{quotient, HasNaN, Int, Scalar};
use crate::scalar_laws;
use crate::vector2::Vector2;
use core::ops::{Add, AddAssign, Div, DivAssign, Index, Mul, MulAssign, Neg, Sub, SubAssign};
use vstd::prelude::*;
use vstd::std_specs::cmp::PartialEqSpec;
use vstd::std_specs::convert::FromSpec;
use vstd::std_specs::ops::{AddSpec, DivSpec, MulSpec, NegSpec, SubSpec};

verus! {

/// A position in the plane, with coordinates of scalar type `T`.
///
/// Points and vectors differ in their algebra: the difference of two points
/// is a vector, and a point moved by a vector is a point.
#[derive(Debug)]
pub struct Point2<T> {
    pub x: T,
    pub y: T,
}

/// A point with integer coordinates.
pub type Point2i = Point2<Int>;

impl<T: Scalar> Point2<T> {
    /// The point with the given coordinates, none of which may be NaN.
    pub fn new(x: T, y: T) -> (r: Self)
        requires
            !x.has_nan_spec(),
            !y.has_nan_spec(),
        ensures
            r == (Point2 { x, y }),
    {
        Self { x, y }
    }

    /// The origin.
    pub fn default() -> (r: Self)
        ensures
            r == (Point2 { x: T::zero_spec(), y: T::zero_spec() }),
            !r.has_nan_spec(),
    {
        proof {
            T::lemma_constants();
        }
        Self { x: T::zero(), y: T::zero() }
    }

    /// The difference of two points, added to the second, gives the first.
    pub proof fn lemma_sub_then_add(p: Self, q: Self)
        requires
            p.sub_req(q),
        ensures
            q.add_req(p.sub_spec(q)),
            q.add_spec(p.sub_spec(q)) == p,
    {
        T::lemma_sub(p.x, q.x);
        T::lemma_sub(p.y, q.y);
        scalar_laws::lemma_sub_then_add(p.x, q.x);
        scalar_laws::lemma_sub_then_add(p.y, q.y);
        T::lemma_add(q.x, p.x.sub_spec(q.x));
        T::lemma_add(q.y, p.y.sub_spec(q.y));
    }

    /// On values without NaN, `==` holds exactly of equal values.
    pub proof fn lemma_eq(a: Self, b: Self)
        requires
            !a.has_nan_spec(),
            !b.has_nan_spec(),
        ensures
            Self::obeys_eq_spec(),
            a.eq_spec(&b) <==> a == b,
    {
        T::lemma_order(a.x, b.x);
        T::lemma_order(a.y, b.y);
        T::lemma_value(a.x, b.x);
        T::lemma_value(a.y, b.y);
    }
}

impl<T: Scalar> Clone for Point2<T> {
    /// A copy of the point.
    fn clone(&self) -> (r: Self)
        ensures
            r == *self,
    {
        *self
    }
}

impl<T: Scalar> Copy for Point2<T> {

}

impl<T: Scalar> HasNaN for Point2<T> {
    /// Some coordinate is NaN.
    open spec fn has_nan_spec(&self) -> bool {
        self.x.has_nan_spec() || self.y.has_nan_spec()
    }

    /// Whether some coordinate is NaN.
    fn has_nan(&self) -> (r: bool) {
        self.x.has_nan() || self.y.has_nan()
    }
}

impl<T: Scalar> Default for Point2<T> {
    /// The origin.
    fn default() -> (r: Self)
        ensures
            r == (Point2 { x: T::zero_spec(), y: T::zero_spec() }),
    {
        Self { x: T::zero(), y: T::zero() }
    }
}

impl<T: Scalar> PartialEq for Point2<T> {
    /// Whether every coordinate equals its counterpart.
    fn eq(&self, rhs: &Point2<T>) -> (r: bool) {
        self.x == rhs.x && self.y == rhs.y
    }
}

impl<T: Scalar> vstd::std_specs::cmp::PartialEqSpecImpl for Point2<T> {
    open spec fn obeys_eq_spec() -> bool {
        T::obeys_eq_spec()
    }

    open spec fn eq_spec(&self, rhs: &Point2<T>) -> bool {
        self.x.eq_spec(&rhs.x) && self.y.eq_spec(&rhs.y)
    }
}

impl<T: Scalar> vstd::std_specs::convert::FromSpecImpl<Vector2<T>> for Point2<T> {
    open spec fn obeys_from_spec() -> bool {
        true
    }

    open spec fn from_spec(item: Vector2<T>) -> Self {
        Point2 { x: item.x, y: item.y }
    }
}

impl<T: Scalar> From<Vector2<T>> for Point2<T> {
    /// The point that the vector leads to from the origin.
    fn from(item: Vector2<T>) -> (r: Self) {
        Self { x: item.x, y: item.y }
    }
}

impl<T: Scalar> vstd::std_specs::convert::FromSpecImpl<Point2<T>> for Vector2<T> {
    open spec fn obeys_from_spec() -> bool {
        true
    }

    open spec fn from_spec(item: Point2<T>) -> Self {
        Vector2 { x: item.x, y: item.y }
    }
}

impl<T: Scalar> From<Point2<T>> for Vector2<T> {
    /// The vector that leads from the origin to the point.
    fn from(item: Point2<T>) -> (r: Self) {
        Self { x: item.x, y: item.y }
    }
}

impl<T: Scalar> vstd::std_specs::ops::AddSpecImpl<Vector2<T>> for Point2<T> {
    open spec fn obeys_add_spec() -> bool {
        true
    }

    open spec fn add_req(self, rhs: Vector2<T>) -> bool {
        &&& !self.has_nan_spec()
        &&& !rhs.has_nan_spec()
        &&& T::representable(self.x.value() + rhs.x.value())
        &&& T::representable(self.y.value() + rhs.y.value())
    }

    open spec fn add_spec(self, rhs: Vector2<T>) -> Self {
        Self { x: self.x.add_spec(rhs.x), y: self.y.add_spec(rhs.y) }
    }
}

impl<T: Scalar> Add<Vector2<T>> for Point2<T> {
    type Output = Self;

    /// The point moved by the vector.
    fn add(self, rhs: Vector2<T>) -> (r: Self)
        ensures
            !r.has_nan_spec(),
            r.x.value() == self.x.value() + rhs.x.value(),
            r.y.value() == self.y.value() + rhs.y.value(),
    {
        proof {
            T::lemma_add(self.x, rhs.x);
            T::lemma_add(self.y, rhs.y);
        }
        Self::new(self.x + rhs.x, self.y + rhs.y)
    }
}

impl<T: Scalar> AddAssign<Vector2<T>> for Point2<T> {
    /// Moves this point by the vector.
    fn add_assign(&mut self, rhs: Vector2<T>)
        requires
            old(self).add_req(rhs),
        ensures
            *final(self) == old(self).add_spec(rhs),
            !final(self).has_nan_spec(),
            final(self).x.value() == old(self).x.value() + rhs.x.value(),
            final(self).y.value() == old(self).y.value() + rhs.y.value(),
    {
        proof {
            T::lemma_add(self.x, rhs.x);
            T::lemma_add(self.y, rhs.y);
        }
        *self = Self::new(self.x + rhs.x, self.y + rhs.y);
    }
}

impl<T: Scalar> vstd::std_specs::ops::AddSpecImpl for Point2<T> {
    open spec fn obeys_add_spec() -> bool {
        true
    }

    open spec fn add_req(self, rhs: Self) -> bool {
        &&& !self.has_nan_spec()
        &&& !rhs.has_nan_spec()
        &&& T::representable(self.x.value() + rhs.x.value())
        &&& T::representable(self.y.value() + rhs.y.value())
    }

    open spec fn add_spec(self, rhs: Self) -> Self {
        Self { x: self.x.add_spec(rhs.x), y: self.y.add_spec(rhs.y) }
    }
}

impl<T: Scalar> Add for Point2<T> {
    type Output = Self;

    /// The coordinate-wise sum of two points. The sum of two positions is no
    /// position; this operator is offered because averages and centroids are
    /// computed with it.
    fn add(self, rhs: Self) -> (r: Self)
        ensures
            !r.has_nan_spec(),
            r.x.value() == self.x.value() + rhs.x.value(),
            r.y.value() == self.y.value() + rhs.y.value(),
    {
        proof {
            T::lemma_add(self.x, rhs.x);
            T::lemma_add(self.y, rhs.y);
        }
        Self::new(self.x + rhs.x, self.y + rhs.y)
    }
}

impl<T: Scalar> AddAssign for Point2<T> {
    /// Adds the coordinates of `rhs` to this point's; see `add` of two points.
    fn add_assign(&mut self, rhs: Self)
        requires
            old(self).add_req(rhs),
        ensures
            *final(self) == old(self).add_spec(rhs),
            !final(self).has_nan_spec(),
            final(self).x.value() == old(self).x.value() + rhs.x.value(),
            final(self).y.value() == old(self).y.value() + rhs.y.value(),
    {
        proof {
            T::lemma_add(self.x, rhs.x);
            T::lemma_add(self.y, rhs.y);
        }
        *self = Self::new(self.x + rhs.x, self.y + rhs.y);
    }
}

impl<T: Scalar> vstd::std_specs::ops::SubSpecImpl<Vector2<T>> for Point2<T> {
    open spec fn obeys_sub_spec() -> bool {
        true
    }

    open spec fn sub_req(self, rhs: Vector2<T>) -> bool {
        &&& !self.has_nan_spec()
        &&& !rhs.has_nan_spec()
        &&& T::representable(self.x.value() - rhs.x.value())
        &&& T::representable(self.y.value() - rhs.y.value())
    }

    open spec fn sub_spec(self, rhs: Vector2<T>) -> Self {
        Self { x: self.x.sub_spec(rhs.x), y: self.y.sub_spec(rhs.y) }
    }
}

impl<T: Scalar> Sub<Vector2<T>> for Point2<T> {
    type Output = Self;

    /// The point moved against the vector.
    fn sub(self, rhs: Vector2<T>) -> (r: Self)
        ensures
            !r.has_nan_spec(),
            r.x.value() == self.x.value() - rhs.x.value(),
            r.y.value() == self.y.value() - rhs.y.value(),
    {
        proof {
            T::lemma_sub(self.x, rhs.x);
            T::lemma_sub(self.y, rhs.y);
        }
        Self::new(self.x - rhs.x, self.y - rhs.y)
    }
}

impl<T: Scalar> SubAssign<Vector2<T>> for Point2<T> {
    /// Moves this point against the vector.
    fn sub_assign(&mut self, rhs: Vector2<T>)
        requires
            old(self).sub_req(rhs),
        ensures
            *final(self) == old(self).sub_spec(rhs),
            !final(self).has_nan_spec(),
            final(self).x.value() == old(self).x.value() - rhs.x.value(),
            final(self).y.value() == old(self).y.value() - rhs.y.value(),
    {
        proof {
            T::lemma_sub(self.x, rhs.x);
            T::lemma_sub(self.y, rhs.y);
        }
        *self = Self::new(self.x - rhs.x, self.y - rhs.y);
    }
}

impl<T: Scalar> vstd::std_specs::ops::SubSpecImpl for Point2<T> {
    open spec fn obeys_sub_spec() -> bool {
        true
    }

    open spec fn sub_req(self, rhs: Self) -> bool {
        &&& !self.has_nan_spec()
        &&& !rhs.has_nan_spec()
        &&& T::representable(self.x.value() - rhs.x.value())
        &&& T::representable(self.y.value() - rhs.y.value())
    }

    open spec fn sub_spec(self, rhs: Self) -> Vector2<T> {
        Vector2 { x: self.x.sub_spec(rhs.x), y: self.y.sub_spec(rhs.y) }
    }
}

impl<T: Scalar> Sub for Point2<T> {
    type Output = Vector2<T>;

    /// The vector that leads from `rhs` to this point.
    fn sub(self, rhs: Self) -> (r: Vector2<T>)
        ensures
            !r.has_nan_spec(),
            r.x.value() == self.x.value() - rhs.x.value(),
            r.y.value() == self.y.value() - rhs.y.value(),
    {
        proof {
            T::lemma_sub(self.x, rhs.x);
            T::lemma_sub(self.y, rhs.y);
        }
        Vector2::<T>::new(self.x - rhs.x, self.y - rhs.y)
    }
}

impl<'a, T: Scalar> vstd::std_specs::ops::SubSpecImpl for &'a Point2<T> {
    open spec fn obeys_sub_spec() -> bool {
        true
    }

    open spec fn sub_req(self, rhs: Self) -> bool {
        vstd::std_specs::ops::SubSpec::<Point2<T>>::sub_req(*self, *rhs)
    }

    open spec fn sub_spec(self, rhs: Self) -> Vector2<T> {
        vstd::std_specs::ops::SubSpec::<Point2<T>>::sub_spec(*self, *rhs)
    }
}

impl<'a, T: Scalar> Sub for &'a Point2<T> {
    type Output = Vector2<T>;

    /// The vector that leads from `rhs` to this point.
    fn sub(self, rhs: Self) -> (r: Vector2<T>)
        ensures
            !r.has_nan_spec(),
            r.x.value() == self.x.value() - rhs.x.value(),
            r.y.value() == self.y.value() - rhs.y.value(),
    {
        *self - *rhs
    }
}

impl<T: Scalar> vstd::std_specs::ops::MulSpecImpl<T> for Point2<T> {
    open spec fn obeys_mul_spec() -> bool {
        true
    }

    open spec fn mul_req(self, rhs: T) -> bool {
        &&& !self.has_nan_spec()
        &&& !rhs.has_nan_spec()
        &&& T::representable(self.x.value() * rhs.value())
        &&& T::representable(self.y.value() * rhs.value())
    }

    open spec fn mul_spec(self, rhs: T) -> Self {
        Self { x: self.x.mul_spec(rhs), y: self.y.mul_spec(rhs) }
    }
}

impl<T: Scalar> Mul<T> for Point2<T> {
    type Output = Self;

    /// Every coordinate multiplied by the scalar.
    fn mul(self, rhs: T) -> (r: Self)
        ensures
            !r.has_nan_spec(),
            r.x.value() == self.x.value() * rhs.value(),
            r.y.value() == self.y.value() * rhs.value(),
    {
        proof {
            T::lemma_mul(self.x, rhs);
            T::lemma_mul(self.y, rhs);
        }
        Self::new(self.x * rhs, self.y * rhs)
    }
}

impl<T: Scalar> MulAssign<T> for Point2<T> {
    /// Multiplies every coordinate by the scalar.
    fn mul_assign(&mut self, rhs: T)
        requires
            old(self).mul_req(rhs),
        ensures
            *final(self) == old(self).mul_spec(rhs),
            !final(self).has_nan_spec(),
            final(self).x.value() == old(self).x.value() * rhs.value(),
            final(self).y.value() == old(self).y.value() * rhs.value(),
    {
        proof {
            T::lemma_mul(self.x, rhs);
            T::lemma_mul(self.y, rhs);
        }
        *self = Self::new(self.x * rhs, self.y * rhs);
    }
}

impl<T: Scalar> vstd::std_specs::ops::DivSpecImpl<T> for Point2<T> {
    open spec fn obeys_div_spec() -> bool {
        true
    }

    open spec fn div_req(self, rhs: T) -> bool {
        &&& !self.has_nan_spec()
        &&& !rhs.has_nan_spec()
        &&& rhs.value() != 0
        &&& T::representable(quotient(self.x.value(), rhs.value()))
        &&& T::representable(quotient(self.y.value(), rhs.value()))
    }

    open spec fn div_spec(self, rhs: T) -> Self {
        Self { x: self.x.div_spec(rhs), y: self.y.div_spec(rhs) }
    }
}

impl<T: Scalar> Div<T> for Point2<T> {
    type Output = Self;

    /// Every coordinate divided by the scalar, which is not zero, and rounded
    /// toward zero.
    fn div(self, rhs: T) -> (r: Self)
        ensures
            !r.has_nan_spec(),
            r.x.value() == quotient(self.x.value(), rhs.value()),
            r.y.value() == quotient(self.y.value(), rhs.value()),
    {
        proof {
            T::lemma_div(self.x, rhs);
            T::lemma_div(self.y, rhs);
        }
        Self::new(self.x / rhs, self.y / rhs)
    }
}

impl<T: Scalar> DivAssign<T> for Point2<T> {
    /// Divides every coordinate by the scalar, which is not zero.
    fn div_assign(&mut self, rhs: T)
        requires
            old(self).div_req(rhs),
        ensures
            *final(self) == old(self).div_spec(rhs),
            !final(self).has_nan_spec(),
            final(self).x.value() == quotient(old(self).x.value(), rhs.value()),
            final(self).y.value() == quotient(old(self).y.value(), rhs.value()),
    {
        proof {
            T::lemma_div(self.x, rhs);
            T::lemma_div(self.y, rhs);
        }
        *self = Self::new(self.x / rhs, self.y / rhs);
    }
}

impl<T: Scalar> vstd::std_specs::ops::NegSpecImpl for Point2<T> {
    open spec fn obeys_neg_spec() -> bool {
        true
    }

    open spec fn neg_req(self) -> bool {
        &&& !self.has_nan_spec()
        &&& T::representable(-self.x.value())
        &&& T::representable(-self.y.value())
    }

    open spec fn neg_spec(self) -> Self {
        Point2 { x: self.x.neg_spec(), y: self.y.neg_spec() }
    }
}

impl<T: Scalar> Neg for Point2<T> {
    type Output = Self;

    /// The point mirrored at the origin.
    fn neg(self) -> (r: Self)
        ensures
            !r.has_nan_spec(),
            r.x.value() == -self.x.value(),
            r.y.value() == -self.y.value(),
    {
        proof {
            T::lemma_neg(self.x);
            T::lemma_neg(self.y);
        }
        Self::new(self.x.neg(), self.y.neg())
    }
}

impl<T: Scalar> vstd::std_specs::core::IndexSpecImpl<Int> for Point2<T> {
    open spec fn index_req(&self, idx: &Int) -> bool {
        0 <= *idx <= 1
    }
}

impl<T: Scalar> Index<Int> for Point2<T> {
    type Output = T;

    /// The coordinate with the given index, counted from 0. An index past
    /// the last coordinate is outside the contract, and stops the program.
    fn index(&self, idx: Int) -> (r: &T)
        ensures
            *r == (if idx == 0 {
                self.x
            } else {
                self.y
            }),
    {
        match idx {
            0 => &self.x,
            1 => &self.y,
            _ => vstd::pervasive::unreached(),
        }
    }
}

/// The squared distance between two points, in the scalar's own domain.
pub fn distance2_squared<T: Scalar>(left: &Point2<T>, right: &Point2<T>) -> (r: T)
    requires
        left.sub_req(right),
        T::representable(left.sub_spec(right).norm_squared()),
    ensures
        !r.has_nan_spec(),
        r.value() == left.sub_spec(right).norm_squared(),
        r.value() == distance_squared_value(*left, *right),
{
    proof {
        T::lemma_sub(left.x, right.x);
        T::lemma_sub(left.y, right.y);
    }
    (left - right).length_squared()
}

/// The squared distance between two points as an integer.
pub open spec fn distance_squared_value<T: Scalar>(a: Point2<T>, b: Point2<T>) -> int {
    (a.x.value() - b.x.value()) * (a.x.value() - b.x.value())
        + (a.y.value() - b.y.value()) * (a.y.value() - b.y.value())
}

/// When `lerp` may be called: nothing is NaN and every intermediate result
/// is representable.
pub open spec fn lerp_req<T: Scalar>(t: T, p0: Point2<T>, p1: Point2<T>) -> bool {
    &&& !t.has_nan_spec()
    &&& !p0.has_nan_spec()
    &&& !p1.has_nan_spec()
    &&& T::representable(1 - t.value())
    &&& T::representable(p0.x.value() * (1 - t.value()))
    &&& T::representable(p1.x.value() * t.value())
    &&& T::representable(p0.x.value() * (1 - t.value()) + p1.x.value() * t.value())
    &&& T::representable(p0.y.value() * (1 - t.value()))
    &&& T::representable(p1.y.value() * t.value())
    &&& T::representable(p0.y.value() * (1 - t.value()) + p1.y.value() * t.value())
}

/// The point that `lerp` gives.
pub open spec fn lerp_spec<T: Scalar>(t: T, p0: Point2<T>, p1: Point2<T>) -> Point2<T> {
    p0.mul_spec(T::one_spec().sub_spec(t)).add_spec(p1.mul_spec(t))
}

/// The point `p0 * (1 - t) + p1 * t`, computed in the scalar's own domain:
/// `p0` at `t = 0`, `p1` at `t = 1`.
pub fn lerp<T: Scalar>(t: T, p0: &Point2<T>, p1: &Point2<T>) -> (r: Point2<T>)
    requires
        lerp_req(t, *p0, *p1),
    ensures
        r == lerp_spec(t, *p0, *p1),
        !r.has_nan_spec(),
        r.x.value() == p0.x.value() * (1 - t.value()) + p1.x.value()
            * t.value(),
        r.y.value() == p0.y.value() * (1 - t.value()) + p1.y.value()
            * t.value(),
{
    proof {
        T::lemma_constants();
        T::lemma_sub(T::one_spec(), t);
    }
    let s = T::one() - t;
    proof {
        T::lemma_mul(p0.x, s);
        T::lemma_mul(p0.y, s);
        T::lemma_mul(p1.x, t);
        T::lemma_mul(p1.y, t);
    }
    *p0 * s + *p1 * t
}

/// Interpolating at zero gives the first point, and at one the second.
pub proof fn lemma_lerp_endpoints<T: Scalar>(a: Point2<T>, b: Point2<T>)
    requires
        !a.has_nan_spec(),
        !b.has_nan_spec(),
    ensures
        lerp_req(T::zero_spec(), a, b),
        lerp_spec(T::zero_spec(), a, b) == a,
        lerp_req(T::one_spec(), a, b),
        lerp_spec(T::one_spec(), a, b) == b,
{
    T::lemma_constants();
    T::lemma_sub(T::one_spec(), T::zero_spec());
    T::lemma_sub(T::one_spec(), T::one_spec());
    T::lemma_value(T::one_spec().sub_spec(T::zero_spec()), T::one_spec());
    T::lemma_value(T::one_spec().sub_spec(T::one_spec()), T::zero_spec());
    scalar_laws::lemma_lerp_endpoints(a.x, b.x);
    scalar_laws::lemma_lerp_endpoints(a.y, b.y);
}

} // verus!
