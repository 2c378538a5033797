//! The scalar abstraction: the capabilities a numeric type must offer before
//! vectors, points, bounds and rays can be built on it.
//!
//! A scalar that is not NaN stands for a mathematical integer, its `value`.
//! Every law below is stated over that value, so the geometry on top of the
//! scalars is reasoned about with plain integer arithmetic.
use core::ops::{Add, Div, Mul, Neg, Sub};
use vstd::prelude::*;
use vstd::std_specs::cmp::{PartialEqSpec, PartialOrdIs, PartialOrdSpec};
use vstd::std_specs::ops::{AddSpec, DivSpec, MulSpec, NegSpec, SubSpec};

verus! {

/// The integer scalar: a 32-bit signed integer.
pub type Int = i32;

/// Integer division that rounds toward zero, as machine division does.
pub open spec fn quotient(a: int, b: int) -> int {
    if a >= 0 {
        a / b
    } else {
        -((-a) / b)
    }
}

/// A value that may hold, or be, the NaN sentinel.
pub trait HasNaN {
    /// Whether the value is, or contains, NaN.
    spec fn has_nan_spec(&self) -> bool;

    /// Whether the value is, or contains, NaN.
    fn has_nan(&self) -> (r: bool)
        ensures
            r == self.has_nan_spec(),
    ;
}

/// The additive identity.
pub trait Zero: Sized {
    /// The value that `zero` gives.
    spec fn zero_spec() -> Self;

    /// The additive identity.
    fn zero() -> (r: Self)
        ensures
            r == Self::zero_spec(),
    ;
}

/// The multiplicative identity.
pub trait One: Sized {
    /// The value that `one` gives.
    spec fn one_spec() -> Self;

    /// The multiplicative identity.
    fn one() -> (r: Self)
        ensures
            r == Self::one_spec(),
    ;
}

/// The smallest value of the type, and the smaller of two values.
pub trait Min: Sized + PartialOrd {
    /// The value that `min_value` gives.
    spec fn min_value_spec() -> Self;

    /// The smallest value of the type.
    fn min_value() -> (r: Self)
        ensures
            r == Self::min_value_spec(),
    ;

    /// The left value if it is strictly less than the right one, else the
    /// right one.
    fn min(left: Self, right: Self) -> (r: Self)
        ensures
            Self::obeys_partial_cmp_spec() ==> r == (if left.is_lt(&right) {
                left
            } else {
                right
            }),
    {
        if left < right {
            left
        } else {
            right
        }
    }
}

/// The largest value of the type, and the larger of two values.
pub trait Max: Sized + PartialOrd {
    /// The value that `max_value` gives.
    spec fn max_value_spec() -> Self;

    /// The largest value of the type.
    fn max_value() -> (r: Self)
        ensures
            r == Self::max_value_spec(),
    ;

    /// The left value if it is strictly greater than the right one, else the
    /// right one.
    fn max(left: Self, right: Self) -> (r: Self)
        ensures
            Self::obeys_partial_cmp_spec() ==> r == (if left.is_gt(&right) {
                left
            } else {
                right
            }),
    {
        if left > right {
            left
        } else {
            right
        }
    }
}

/// The full capability set of a scalar, with the laws its operators obey.
///
/// The operators are those of `core::ops`; the laws tie each of them to
/// integer arithmetic on `value`. An operation is permitted exactly when its
/// exact result is representable.
pub trait Scalar:
    Copy + HasNaN + Zero + One + Min + Max + Add<Output = Self> + Sub<Output = Self> + Mul<
    Output = Self,
> + Div<Output = Self> + Neg<Output = Self> + PartialEq + PartialOrd {
    /// The integer that a scalar without NaN stands for.
    spec fn value(self) -> int;

    /// Whether an integer can be the value of a scalar of this type.
    spec fn representable(v: int) -> bool;

    /// The representable integers are those between the values of the two
    /// sentinels.
    proof fn lemma_representable(v: int)
        ensures
            Self::representable(v) <==> Self::min_value_spec().value() <= v
                <= Self::max_value_spec().value(),
    ;

    /// Two scalars without NaN that stand for the same integer are the same
    /// scalar, and each lies between the two sentinels.
    proof fn lemma_value(a: Self, b: Self)
        requires
            !a.has_nan_spec(),
            !b.has_nan_spec(),
        ensures
            a.value() == b.value() ==> a == b,
            Self::representable(a.value()),
    ;

    /// Zero, one and the two sentinels are no NaN; zero stands for 0 and one
    /// for 1, and both are representable.
    proof fn lemma_constants()
        ensures
            !Self::zero_spec().has_nan_spec(),
            !Self::one_spec().has_nan_spec(),
            !Self::min_value_spec().has_nan_spec(),
            !Self::max_value_spec().has_nan_spec(),
            Self::zero_spec().value() == 0,
            Self::one_spec().value() == 1,
            Self::representable(0),
            Self::representable(1),
    ;

    /// `==` and the four order operators compare the values.
    proof fn lemma_order(a: Self, b: Self)
        requires
            !a.has_nan_spec(),
            !b.has_nan_spec(),
        ensures
            Self::obeys_eq_spec(),
            Self::obeys_partial_cmp_spec(),
            a.eq_spec(&b) <==> a.value() == b.value(),
            a.is_lt(&b) <==> a.value() < b.value(),
            a.is_le(&b) <==> a.value() <= b.value(),
            a.is_gt(&b) <==> a.value() > b.value(),
            a.is_ge(&b) <==> a.value() >= b.value(),
    ;

    /// `+` is permitted when the sum is representable, and then gives it.
    proof fn lemma_add(a: Self, b: Self)
        requires
            !a.has_nan_spec(),
            !b.has_nan_spec(),
        ensures
            Self::obeys_add_spec(),
            a.add_req(b) <==> Self::representable(a.value() + b.value()),
            a.add_req(b) ==> !a.add_spec(b).has_nan_spec() && a.add_spec(b).value() == a.value()
                + b.value(),
    ;

    /// `-` is permitted when the difference is representable, and then gives
    /// it.
    proof fn lemma_sub(a: Self, b: Self)
        requires
            !a.has_nan_spec(),
            !b.has_nan_spec(),
        ensures
            Self::obeys_sub_spec(),
            a.sub_req(b) <==> Self::representable(a.value() - b.value()),
            a.sub_req(b) ==> !a.sub_spec(b).has_nan_spec() && a.sub_spec(b).value() == a.value()
                - b.value(),
    ;

    /// `*` is permitted when the product is representable, and then gives it.
    proof fn lemma_mul(a: Self, b: Self)
        requires
            !a.has_nan_spec(),
            !b.has_nan_spec(),
        ensures
            Self::obeys_mul_spec(),
            a.mul_req(b) <==> Self::representable(a.value() * b.value()),
            a.mul_req(b) ==> !a.mul_spec(b).has_nan_spec() && a.mul_spec(b).value() == a.value()
                * b.value(),
    ;

    /// `/` is permitted when the divisor is not zero and the quotient is
    /// representable, and then gives the quotient rounded toward zero.
    proof fn lemma_div(a: Self, b: Self)
        requires
            !a.has_nan_spec(),
            !b.has_nan_spec(),
        ensures
            Self::obeys_div_spec(),
            a.div_req(b) <==> b.value() != 0 && Self::representable(
                quotient(a.value(), b.value()),
            ),
            a.div_req(b) ==> !a.div_spec(b).has_nan_spec() && a.div_spec(b).value() == quotient(
                a.value(),
                b.value(),
            ),
    ;

    /// Unary `-` is permitted when the negation is representable, and then
    /// gives it.
    proof fn lemma_neg(a: Self)
        requires
            !a.has_nan_spec(),
        ensures
            Self::obeys_neg_spec(),
            a.neg_req() <==> Self::representable(-a.value()),
            a.neg_req() ==> !a.neg_spec().has_nan_spec() && a.neg_spec().value() == -a.value(),
    ;
}

impl HasNaN for Int {
    open spec fn has_nan_spec(&self) -> bool {
        false
    }

    fn has_nan(&self) -> (r: bool) {
        false
    }
}

impl Zero for Int {
    open spec fn zero_spec() -> Self {
        0
    }

    fn zero() -> (r: Self) {
        0
    }
}

impl One for Int {
    open spec fn one_spec() -> Self {
        1
    }

    fn one() -> (r: Self) {
        1
    }
}

impl Min for Int {
    open spec fn min_value_spec() -> Self {
        i32::MIN
    }

    fn min_value() -> (r: Self) {
        i32::MIN
    }
}

impl Max for Int {
    open spec fn max_value_spec() -> Self {
        i32::MAX
    }

    fn max_value() -> (r: Self) {
        i32::MAX
    }
}

} // verus!
