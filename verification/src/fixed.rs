//! Fixed-point arithmetic helpers shared by the scaler and the projector.

use vstd::arithmetic::div_mod::{
    lemma_div_is_ordered, lemma_div_multiples_vanish, lemma_div_nonincreasing,
    lemma_div_pos_is_pos,
};
use vstd::prelude::*;

verus! {

/// Integer division that truncates toward zero, the rounding this library
/// uses when a product or a calibrated difference is brought back to its
/// fixed-point scale.
pub open spec fn trunc_div(a: int, b: int) -> int {
    if (a >= 0) == (b >= 0) {
        vstd::math::abs(a) as int / vstd::math::abs(b) as int
    } else {
        -(vstd::math::abs(a) as int / vstd::math::abs(b) as int)
    }
}

/// A truncating quotient is bounded by any bound on the exact quotient:
/// if `|a| <= m·b` then `|a / b| <= m`.
pub proof fn lemma_trunc_div_bound(a: int, b: int, m: int)
    requires
        b > 0,
        m >= 0,
        -(m * b) <= a <= m * b,
    ensures
        -m <= trunc_div(a, b) <= m,
{
    let av = vstd::math::abs(a) as int;
    let q = av / b;
    lemma_div_pos_is_pos(av, b);
    lemma_div_multiples_vanish(m, b);
    vstd::arithmetic::mul::lemma_mul_is_commutative(m, b);
    lemma_div_is_ordered(av, m * b, b);
    assert(0 <= q <= m);
}

/// Division truncating toward zero on machine integers, for operands small
/// enough that magnitudes and quotient stay inside `i64`.
pub fn trunc_div_i64(a: i64, b: i64) -> (q: i64)
    requires
        b != 0,
        -0x4000_0000_0000_0000 <= a <= 0x4000_0000_0000_0000,
        -0x4000_0000_0000_0000 <= b <= 0x4000_0000_0000_0000,
    ensures
        q == trunc_div(a as int, b as int),
{
    let na: u64 = if a >= 0 {
        a as u64
    } else {
        (-a) as u64
    };
    let nb: u64 = if b >= 0 {
        b as u64
    } else {
        (-b) as u64
    };
    assert(na == vstd::math::abs(a as int));
    assert(nb == vstd::math::abs(b as int));
    let q: u64 = na / nb;
    proof {
        lemma_div_pos_is_pos(na as int, nb as int);
        lemma_div_nonincreasing(na as int, nb as int);
    }
    if (a >= 0) == (b >= 0) {
        q as i64
    } else {
        -(q as i64)
    }
}

} // verus!
