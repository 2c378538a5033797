//! Interpolation between two scalars.
use crate::scalar::{HasNaN, One, Scalar, Zero};
use crate::scalar_laws;
use vstd::prelude::*;
use vstd::std_specs::ops::{AddSpec, MulSpec, SubSpec};

verus! {

/// The integer `(1 - t) * s + t * e`.
pub open spec fn lerp_value(t: int, s: int, e: int) -> int {
    (1 - t) * s + t * e
}

/// When `lerp` may be called: nothing is NaN and every intermediate result
/// is representable.
pub open spec fn lerp_req<T: Scalar>(t: T, s: T, e: T) -> bool {
    &&& !t.has_nan_spec()
    &&& !s.has_nan_spec()
    &&& !e.has_nan_spec()
    &&& T::representable(1 - t.value())
    &&& T::representable((1 - t.value()) * s.value())
    &&& T::representable(t.value() * e.value())
    &&& T::representable(lerp_value(t.value(), s.value(), e.value()))
}

/// The scalar that `lerp` gives.
pub open spec fn lerp_spec<T: Scalar>(t: T, s: T, e: T) -> T {
    T::one_spec().sub_spec(t).mul_spec(s).add_spec(t.mul_spec(e))
}

/// The scalar `(1 - t) * s + t * e`: `s` at `t = 0`, `e` at `t = 1`.
pub fn lerp<T: Scalar>(t: T, s: T, e: T) -> (r: T)
    requires
        lerp_req(t, s, e),
    ensures
        r == lerp_spec(t, s, e),
        !r.has_nan_spec(),
        r.value() == lerp_value(t.value(), s.value(), e.value()),
{
    proof {
        T::lemma_constants();
        T::lemma_sub(T::one_spec(), t);
    }
    let w = T::one() - t;
    proof {
        T::lemma_mul(w, s);
        T::lemma_mul(t, e);
        T::lemma_add(w.mul_spec(s), t.mul_spec(e));
    }
    w * s + t * e
}

/// Interpolating at zero gives the start, and at one the end.
pub proof fn lemma_lerp_endpoints<T: Scalar>(s: T, e: T)
    requires
        !s.has_nan_spec(),
        !e.has_nan_spec(),
    ensures
        lerp_req(T::zero_spec(), s, e),
        lerp_spec(T::zero_spec(), s, e) == s,
        lerp_req(T::one_spec(), s, e),
        lerp_spec(T::one_spec(), s, e) == e,
{
    let zero = T::zero_spec();
    let one = T::one_spec();
    T::lemma_constants();
    T::lemma_value(s, e);
    T::lemma_value(e, s);
    T::lemma_sub(one, zero);
    T::lemma_sub(one, one);
    T::lemma_mul(one.sub_spec(zero), s);
    T::lemma_mul(one.sub_spec(one), s);
    T::lemma_mul(zero, e);
    T::lemma_mul(one, e);
    T::lemma_add(one.sub_spec(zero).mul_spec(s), zero.mul_spec(e));
    T::lemma_add(one.sub_spec(one).mul_spec(s), one.mul_spec(e));
    T::lemma_value(lerp_spec(zero, s, e), s);
    T::lemma_value(lerp_spec(one, s, e), e);
}

} // verus!
