//! Free vectors in the plane.
use crate::scalar::{quotient, HasNaN, Int, Scalar};
use crate::scalar_laws;
use core::ops::{Add, AddAssign, Div, DivAssign, Index, Mul, MulAssign, Neg, Sub, SubAssign};
use vstd::prelude::*;
use vstd::std_specs::cmp::PartialEqSpec;
use vstd::std_specs::ops::{AddSpec, DivSpec, MulSpec, NegSpec, SubSpec};

verus! {

/// A displacement in the plane, with components of scalar type `T`.
///
/// A vector is a direction and a length, not a position.
#[derive(Debug)]
pub struct Vector2<T> {
    pub x: T,
    pub y: T,
}

/// A vector with integer components.
pub type Vector2i = Vector2<Int>;

impl<T: Scalar> Vector2<T> {
    /// The vector with the given components, none of which may be NaN.
    pub fn new(x: T, y: T) -> (r: Self)
        requires
            !x.has_nan_spec(),
            !y.has_nan_spec(),
        ensures
            r == (Vector2 { x, y }),
    {
        Self { x, y }
    }

    /// The squared length as an integer: the sum of the squared components.
    pub open spec fn norm_squared(self) -> int {
        self.x.value() * self.x.value() + self.y.value() * self.y.value()
    }

    /// The squared length, in the scalar's own domain.
    pub fn length_squared(&self) -> (r: T)
        requires
            !self.has_nan_spec(),
            T::representable(self.norm_squared()),
        ensures
            !r.has_nan_spec(),
            r.value() == self.norm_squared(),
    {
        proof {
            T::lemma_constants();
            scalar_laws::lemma_square_nonnegative(self.x.value());
            scalar_laws::lemma_square_nonnegative(self.y.value());
            scalar_laws::lemma_representable_between::<T>(
                0,
                self.x.value() * self.x.value(),
                self.norm_squared(),
            );
            scalar_laws::lemma_representable_between::<T>(
                0,
                self.y.value() * self.y.value(),
                self.norm_squared(),
            );
            T::lemma_mul(self.x, self.x);
            T::lemma_mul(self.y, self.y);
        }
        let xx = self.x * self.x;
        let yy = self.y * self.y;
        proof {
            scalar_laws::lemma_representable_between::<T>(
                0,
                xx.value() + yy.value(),
                self.norm_squared(),
            );
            T::lemma_add(xx, yy);
        }
        xx + yy
    }

    /// Addition does not depend on the order of the operands.
    pub proof fn lemma_add_commutative(a: Self, b: Self)
        requires
            a.add_req(b),
        ensures
            b.add_req(a),
            a.add_spec(b) == b.add_spec(a),
    {
        T::lemma_add(a.x, b.x);
        T::lemma_add(a.y, b.y);
        scalar_laws::lemma_add_commutative(a.x, b.x);
        scalar_laws::lemma_add_commutative(a.y, b.y);
    }

    /// Addition does not depend on how three operands are grouped.
    pub proof fn lemma_add_associative(a: Self, b: Self, c: Self)
        requires
            a.add_req(b),
            a.add_spec(b).add_req(c),
            b.add_req(c),
        ensures
            a.add_req(b.add_spec(c)),
            a.add_spec(b).add_spec(c) == a.add_spec(b.add_spec(c)),
    {
        T::lemma_add(a.x, b.x);
        T::lemma_add(a.y, b.y);
        T::lemma_add(b.x, c.x);
        T::lemma_add(b.y, c.y);
        T::lemma_add(a.x.add_spec(b.x), c.x);
        T::lemma_add(a.y.add_spec(b.y), c.y);
        scalar_laws::lemma_add_associative(a.x, b.x, c.x);
        scalar_laws::lemma_add_associative(a.y, b.y, c.y);
        T::lemma_add(a.x, b.x.add_spec(c.x));
        T::lemma_add(a.y, b.y.add_spec(c.y));
    }

    /// Scaling by a scalar that is not zero and dividing by it again gives
    /// the vector back.
    pub proof fn lemma_mul_then_div(v: Self, s: T)
        requires
            v.mul_req(s),
            s.value() != 0,
        ensures
            v.mul_spec(s).div_req(s),
            v.mul_spec(s).div_spec(s) == v,
    {
        T::lemma_mul(v.x, s);
        T::lemma_mul(v.y, s);
        scalar_laws::lemma_mul_then_div(v.x, s);
        scalar_laws::lemma_mul_then_div(v.y, s);
        T::lemma_div(v.x.mul_spec(s), s);
        T::lemma_div(v.y.mul_spec(s), s);
    }

    /// On values without NaN, `==` holds exactly of equal values.
    pub proof fn lemma_eq(a: Self, b: Self)
        requires
            !a.has_nan_spec(),
            !b.has_nan_spec(),
        ensures
            Self::obeys_eq_spec(),
            a.eq_spec(&b) <==> a == b,
    {
        T::lemma_order(a.x, b.x);
        T::lemma_order(a.y, b.y);
        T::lemma_value(a.x, b.x);
        T::lemma_value(a.y, b.y);
    }
}

impl<T: Scalar> Clone for Vector2<T> {
    /// A copy of the vector.
    fn clone(&self) -> (r: Self)
        ensures
            r == *self,
    {
        *self
    }
}

impl<T: Scalar> Copy for Vector2<T> {

}

impl<T: Scalar> HasNaN for Vector2<T> {
    /// Some component is NaN.
    open spec fn has_nan_spec(&self) -> bool {
        self.x.has_nan_spec() || self.y.has_nan_spec()
    }

    /// Whether some component is NaN.
    fn has_nan(&self) -> (r: bool) {
        self.x.has_nan() || self.y.has_nan()
    }
}

impl<T: Scalar> Default for Vector2<T> {
    /// The zero vector.
    fn default() -> (r: Self)
        ensures
            r == (Vector2 { x: T::zero_spec(), y: T::zero_spec() }),
    {
        Self { x: T::zero(), y: T::zero() }
    }
}

impl<T: Scalar> PartialEq for Vector2<T> {
    /// Whether every component equals its counterpart.
    fn eq(&self, rhs: &Vector2<T>) -> (r: bool) {
        self.x == rhs.x && self.y == rhs.y
    }
}

impl<T: Scalar> vstd::std_specs::cmp::PartialEqSpecImpl for Vector2<T> {
    open spec fn obeys_eq_spec() -> bool {
        T::obeys_eq_spec()
    }

    open spec fn eq_spec(&self, rhs: &Vector2<T>) -> bool {
        self.x.eq_spec(&rhs.x) && self.y.eq_spec(&rhs.y)
    }
}

impl<T: Scalar> vstd::std_specs::ops::AddSpecImpl for Vector2<T> {
    open spec fn obeys_add_spec() -> bool {
        true
    }

    open spec fn add_req(self, rhs: Self) -> bool {
        &&& !self.has_nan_spec()
        &&& !rhs.has_nan_spec()
        &&& T::representable(self.x.value() + rhs.x.value())
        &&& T::representable(self.y.value() + rhs.y.value())
    }

    open spec fn add_spec(self, rhs: Self) -> Self {
        Vector2 { x: self.x.add_spec(rhs.x), y: self.y.add_spec(rhs.y) }
    }
}

impl<T: Scalar> Add for Vector2<T> {
    type Output = Self;

    /// The component-wise sum.
    fn add(self, rhs: Self) -> (r: Self)
        ensures
            !r.has_nan_spec(),
            r.x.value() == self.x.value() + rhs.x.value(),
            r.y.value() == self.y.value() + rhs.y.value(),
    {
        proof {
            T::lemma_add(self.x, rhs.x);
            T::lemma_add(self.y, rhs.y);
        }
        Self::new(self.x + rhs.x, self.y + rhs.y)
    }
}

impl<T: Scalar> AddAssign for Vector2<T> {
    /// Adds `rhs` to this vector.
    fn add_assign(&mut self, rhs: Self)
        requires
            old(self).add_req(rhs),
        ensures
            *final(self) == old(self).add_spec(rhs),
            !final(self).has_nan_spec(),
            final(self).x.value() == old(self).x.value() + rhs.x.value(),
            final(self).y.value() == old(self).y.value() + rhs.y.value(),
    {
        proof {
            T::lemma_add(self.x, rhs.x);
            T::lemma_add(self.y, rhs.y);
        }
        *self = Self::new(self.x + rhs.x, self.y + rhs.y);
    }
}

impl<T: Scalar> vstd::std_specs::ops::SubSpecImpl for Vector2<T> {
    open spec fn obeys_sub_spec() -> bool {
        true
    }

    open spec fn sub_req(self, rhs: Self) -> bool {
        &&& !self.has_nan_spec()
        &&& !rhs.has_nan_spec()
        &&& T::representable(self.x.value() - rhs.x.value())
        &&& T::representable(self.y.value() - rhs.y.value())
    }

    open spec fn sub_spec(self, rhs: Self) -> Self {
        Vector2 { x: self.x.sub_spec(rhs.x), y: self.y.sub_spec(rhs.y) }
    }
}

impl<T: Scalar> Sub for Vector2<T> {
    type Output = Self;

    /// The component-wise difference.
    fn sub(self, rhs: Self) -> (r: Self)
        ensures
            !r.has_nan_spec(),
            r.x.value() == self.x.value() - rhs.x.value(),
            r.y.value() == self.y.value() - rhs.y.value(),
    {
        proof {
            T::lemma_sub(self.x, rhs.x);
            T::lemma_sub(self.y, rhs.y);
        }
        Self::new(self.x - rhs.x, self.y - rhs.y)
    }
}

impl<T: Scalar> SubAssign for Vector2<T> {
    /// Subtracts `rhs` from this vector.
    fn sub_assign(&mut self, rhs: Self)
        requires
            old(self).sub_req(rhs),
        ensures
            *final(self) == old(self).sub_spec(rhs),
            !final(self).has_nan_spec(),
            final(self).x.value() == old(self).x.value() - rhs.x.value(),
            final(self).y.value() == old(self).y.value() - rhs.y.value(),
    {
        proof {
            T::lemma_sub(self.x, rhs.x);
            T::lemma_sub(self.y, rhs.y);
        }
        *self = Self::new(self.x - rhs.x, self.y - rhs.y);
    }
}

impl<T: Scalar> vstd::std_specs::ops::MulSpecImpl<T> for Vector2<T> {
    open spec fn obeys_mul_spec() -> bool {
        true
    }

    open spec fn mul_req(self, rhs: T) -> bool {
        &&& !self.has_nan_spec()
        &&& !rhs.has_nan_spec()
        &&& T::representable(self.x.value() * rhs.value())
        &&& T::representable(self.y.value() * rhs.value())
    }

    open spec fn mul_spec(self, rhs: T) -> Self {
        Vector2 { x: self.x.mul_spec(rhs), y: self.y.mul_spec(rhs) }
    }
}

impl<T: Scalar> Mul<T> for Vector2<T> {
    type Output = Self;

    /// Every component multiplied by the scalar.
    fn mul(self, rhs: T) -> (r: Self)
        ensures
            !r.has_nan_spec(),
            r.x.value() == self.x.value() * rhs.value(),
            r.y.value() == self.y.value() * rhs.value(),
    {
        proof {
            T::lemma_mul(self.x, rhs);
            T::lemma_mul(self.y, rhs);
        }
        Self::new(self.x * rhs, self.y * rhs)
    }
}

impl<T: Scalar> MulAssign<T> for Vector2<T> {
    /// Multiplies every component by the scalar.
    fn mul_assign(&mut self, rhs: T)
        requires
            old(self).mul_req(rhs),
        ensures
            *final(self) == old(self).mul_spec(rhs),
            !final(self).has_nan_spec(),
            final(self).x.value() == old(self).x.value() * rhs.value(),
            final(self).y.value() == old(self).y.value() * rhs.value(),
    {
        proof {
            T::lemma_mul(self.x, rhs);
            T::lemma_mul(self.y, rhs);
        }
        *self = Self::new(self.x * rhs, self.y * rhs);
    }
}

impl<T: Scalar> vstd::std_specs::ops::DivSpecImpl<T> for Vector2<T> {
    open spec fn obeys_div_spec() -> bool {
        true
    }

    open spec fn div_req(self, rhs: T) -> bool {
        &&& !self.has_nan_spec()
        &&& !rhs.has_nan_spec()
        &&& rhs.value() != 0
        &&& T::representable(quotient(self.x.value(), rhs.value()))
        &&& T::representable(quotient(self.y.value(), rhs.value()))
    }

    open spec fn div_spec(self, rhs: T) -> Self {
        Vector2 { x: self.x.div_spec(rhs), y: self.y.div_spec(rhs) }
    }
}

impl<T: Scalar> Div<T> for Vector2<T> {
    type Output = Self;

    /// Every component divided by the scalar, which is not zero, and rounded
    /// toward zero.
    fn div(self, rhs: T) -> (r: Self)
        ensures
            !r.has_nan_spec(),
            r.x.value() == quotient(self.x.value(), rhs.value()),
            r.y.value() == quotient(self.y.value(), rhs.value()),
    {
        proof {
            T::lemma_div(self.x, rhs);
            T::lemma_div(self.y, rhs);
        }
        Self::new(self.x / rhs, self.y / rhs)
    }
}

impl<T: Scalar> DivAssign<T> for Vector2<T> {
    /// Divides every component by the scalar, which is not zero.
    fn div_assign(&mut self, rhs: T)
        requires
            old(self).div_req(rhs),
        ensures
            *final(self) == old(self).div_spec(rhs),
            !final(self).has_nan_spec(),
            final(self).x.value() == quotient(old(self).x.value(), rhs.value()),
            final(self).y.value() == quotient(old(self).y.value(), rhs.value()),
    {
        proof {
            T::lemma_div(self.x, rhs);
            T::lemma_div(self.y, rhs);
        }
        *self = Self::new(self.x / rhs, self.y / rhs);
    }
}

impl<T: Scalar> vstd::std_specs::ops::NegSpecImpl for Vector2<T> {
    open spec fn obeys_neg_spec() -> bool {
        true
    }

    open spec fn neg_req(self) -> bool {
        &&& !self.has_nan_spec()
        &&& T::representable(-self.x.value())
        &&& T::representable(-self.y.value())
    }

    open spec fn neg_spec(self) -> Self {
        Vector2 { x: self.x.neg_spec(), y: self.y.neg_spec() }
    }
}

impl<T: Scalar> Neg for Vector2<T> {
    type Output = Self;

    /// The opposite vector.
    fn neg(self) -> (r: Self)
        ensures
            !r.has_nan_spec(),
            r.x.value() == -self.x.value(),
            r.y.value() == -self.y.value(),
    {
        proof {
            T::lemma_neg(self.x);
            T::lemma_neg(self.y);
        }
        Self::new(self.x.neg(), self.y.neg())
    }
}

impl<T: Scalar> vstd::std_specs::core::IndexSpecImpl<Int> for Vector2<T> {
    open spec fn index_req(&self, idx: &Int) -> bool {
        0 <= *idx <= 1
    }
}

impl<T: Scalar> Index<Int> for Vector2<T> {
    type Output = T;

    /// The component with the given index, counted from 0. An index past the
    /// last component is outside the contract, and stops the program.
    fn index(&self, idx: Int) -> (r: &T)
        ensures
            *r == (if idx == 0 {
                self.x
            } else {
                self.y
            }),
    {
        match idx {
            0 => &self.x,
            1 => &self.y,
            _ => vstd::pervasive::unreached(),
        }
    }
}

} // verus!
