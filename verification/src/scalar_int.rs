//! The integer scalar meets the scalar laws.
use crate::scalar::{Int, Scalar};
use crate::scalar_laws::lemma_quotient_bounds;
use vstd::prelude::*;

verus! {

impl Scalar for Int {
    open spec fn value(self) -> int {
        self as int
    }

    open spec fn representable(v: int) -> bool {
        i32::MIN <= v <= i32::MAX
    }

    proof fn lemma_representable(v: int) {
    }

    proof fn lemma_value(a: Self, b: Self) {
    }

    proof fn lemma_constants() {
    }

    proof fn lemma_order(a: Self, b: Self) {
    }

    proof fn lemma_add(a: Self, b: Self) {
    }

    proof fn lemma_sub(a: Self, b: Self) {
    }

    proof fn lemma_mul(a: Self, b: Self) {
    }

    proof fn lemma_div(a: Self, b: Self) {
        if b != 0 {
            lemma_quotient_bounds(a as int, b as int);
        }
    }

    proof fn lemma_neg(a: Self) {
    }
}

} // verus!
