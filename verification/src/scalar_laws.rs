//! Algebraic laws that follow from the scalar laws, for every scalar type.
use crate::scalar::{quotient, Scalar};
use vstd::prelude::*;
use vstd::std_specs::ops::{AddSpec, DivSpec, MulSpec, SubSpec};

verus! {

/// Dividing a product by the nonzero factor gives the other factor back.
pub proof fn lemma_quotient_of_product(a: int, s: int)
    requires
        s != 0,
    ensures
        quotient(a * s, s) == a,
{
    if a * s >= 0 {
        assert((a * s) / s == a) by (nonlinear_arith)
            requires
                s != 0,
        ;
    } else {
        assert((-(a * s)) / s == -a) by (nonlinear_arith)
            requires
                s != 0,
        ;
    }
}

/// A quotient is no larger in magnitude than the dividend, strictly smaller
/// when the divisor is neither 1 nor -1, and has the sign of the dividend
/// when the divisor is positive.
pub proof fn lemma_quotient_bounds(a: int, b: int)
    requires
        b != 0,
    ensures
        a >= 0 ==> -a <= quotient(a, b) <= a,
        a < 0 ==> a <= quotient(a, b) <= -a,
        b == 1 ==> quotient(a, b) == a,
        b == -1 ==> quotient(a, b) == -a,
        a > 0 && b != 1 && b != -1 ==> -a < quotient(a, b) < a,
        a < 0 && b != 1 && b != -1 ==> a < quotient(a, b) < -a,
        a >= 0 && b > 0 ==> 0 <= quotient(a, b),
        a < 0 && b > 0 ==> quotient(a, b) <= 0,
{
    let m = if a >= 0 {
        a
    } else {
        -a
    };
    let q = m / b;
    assert(-m <= q <= m && (b == 1 ==> q == m) && (b == -1 ==> q == -m) && (m > 0 && b != 1 && b
        != -1 ==> -m < q < m) && (b > 0 ==> q >= 0)) by (nonlinear_arith)
        requires
            m >= 0,
            b != 0,
            q == m / b,
    ;
}

/// A square is not negative.
pub proof fn lemma_square_nonnegative(a: int)
    ensures
        a * a >= 0,
{
    assert(a * a >= 0) by (nonlinear_arith);
}

/// An integer between two representable integers is representable.
pub proof fn lemma_representable_between<T: Scalar>(lo: int, v: int, hi: int)
    requires
        T::representable(lo),
        T::representable(hi),
        lo <= v <= hi,
    ensures
        T::representable(v),
{
    T::lemma_representable(lo);
    T::lemma_representable(hi);
    T::lemma_representable(v);
}

/// Scalar addition does not depend on the order of its operands.
pub proof fn lemma_add_commutative<T: Scalar>(a: T, b: T)
    requires
        !a.has_nan_spec(),
        !b.has_nan_spec(),
        a.add_req(b),
    ensures
        b.add_req(a),
        a.add_spec(b) == b.add_spec(a),
{
    T::lemma_add(a, b);
    T::lemma_add(b, a);
    T::lemma_value(a.add_spec(b), b.add_spec(a));
}

/// Scalar addition does not depend on how three operands are grouped.
pub proof fn lemma_add_associative<T: Scalar>(a: T, b: T, c: T)
    requires
        !a.has_nan_spec(),
        !b.has_nan_spec(),
        !c.has_nan_spec(),
        a.add_req(b),
        a.add_spec(b).add_req(c),
        b.add_req(c),
    ensures
        a.add_req(b.add_spec(c)),
        a.add_spec(b).add_spec(c) == a.add_spec(b.add_spec(c)),
{
    T::lemma_add(a, b);
    T::lemma_add(b, c);
    T::lemma_add(a.add_spec(b), c);
    T::lemma_add(a, b.add_spec(c));
    T::lemma_value(a.add_spec(b).add_spec(c), a.add_spec(b.add_spec(c)));
}

/// Adding a difference back to what was subtracted gives the minuend.
pub proof fn lemma_sub_then_add<T: Scalar>(a: T, b: T)
    requires
        !a.has_nan_spec(),
        !b.has_nan_spec(),
        a.sub_req(b),
    ensures
        b.add_req(a.sub_spec(b)),
        b.add_spec(a.sub_spec(b)) == a,
{
    T::lemma_sub(a, b);
    T::lemma_value(a, b);
    T::lemma_add(b, a.sub_spec(b));
    T::lemma_value(b.add_spec(a.sub_spec(b)), a);
}

/// Dividing a product by the nonzero factor gives the other factor back.
pub proof fn lemma_mul_then_div<T: Scalar>(a: T, s: T)
    requires
        !a.has_nan_spec(),
        !s.has_nan_spec(),
        s.value() != 0,
        a.mul_req(s),
    ensures
        a.mul_spec(s).div_req(s),
        a.mul_spec(s).div_spec(s) == a,
{
    T::lemma_mul(a, s);
    T::lemma_value(a, s);
    lemma_quotient_of_product(a.value(), s.value());
    T::lemma_div(a.mul_spec(s), s);
    T::lemma_value(a.mul_spec(s).div_spec(s), a);
}

/// A scalar may be divided by a positive one: the quotient lies between zero
/// and the dividend, so it is representable.
pub proof fn lemma_div_by_positive<T: Scalar>(a: T, b: T)
    requires
        !a.has_nan_spec(),
        !b.has_nan_spec(),
        b.value() > 0,
    ensures
        T::obeys_div_spec(),
        T::representable(quotient(a.value(), b.value())),
        a.div_req(b),
        !a.div_spec(b).has_nan_spec(),
        a.div_spec(b).value() == quotient(a.value(), b.value()),
{
    T::lemma_constants();
    T::lemma_value(a, b);
    lemma_quotient_bounds(a.value(), b.value());
    if a.value() >= 0 {
        lemma_representable_between::<T>(0, quotient(a.value(), b.value()), a.value());
    } else {
        lemma_representable_between::<T>(a.value(), quotient(a.value(), b.value()), 0);
    }
    T::lemma_div(a, b);
}

/// Interpolating between two scalars at zero gives the first, and at one the
/// second: every step is permitted, and the sum is the endpoint.
pub proof fn lemma_lerp_endpoints<T: Scalar>(a: T, b: T)
    requires
        !a.has_nan_spec(),
        !b.has_nan_spec(),
    ensures
        a.mul_req(T::one_spec()),
        b.mul_req(T::zero_spec()),
        a.mul_spec(T::one_spec()).add_req(b.mul_spec(T::zero_spec())),
        a.mul_spec(T::one_spec()).add_spec(b.mul_spec(T::zero_spec())) == a,
        a.mul_req(T::zero_spec()),
        b.mul_req(T::one_spec()),
        a.mul_spec(T::zero_spec()).add_req(b.mul_spec(T::one_spec())),
        a.mul_spec(T::zero_spec()).add_spec(b.mul_spec(T::one_spec())) == b,
        T::representable(a.value() * 1),
        T::representable(a.value() * 0),
        T::representable(b.value() * 1),
        T::representable(b.value() * 0),
        T::representable(a.value() * 1 + b.value() * 0),
        T::representable(a.value() * 0 + b.value() * 1),
{
    T::lemma_constants();
    T::lemma_value(a, b);
    T::lemma_value(b, a);
    T::lemma_mul(a, T::one_spec());
    T::lemma_mul(a, T::zero_spec());
    T::lemma_mul(b, T::one_spec());
    T::lemma_mul(b, T::zero_spec());
    T::lemma_add(a.mul_spec(T::one_spec()), b.mul_spec(T::zero_spec()));
    T::lemma_add(a.mul_spec(T::zero_spec()), b.mul_spec(T::one_spec()));
    T::lemma_value(a.mul_spec(T::one_spec()).add_spec(b.mul_spec(T::zero_spec())), a);
    T::lemma_value(a.mul_spec(T::zero_spec()).add_spec(b.mul_spec(T::one_spec())), b);
}

} // verus!
