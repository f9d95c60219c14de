//! Integer division that rounds toward zero.
//!
//! In specifications `/` and `%` are Euclidean. The machines of this crate
//! divide as the hardware does: the quotient is rounded toward zero and
//! the remainder takes the sign of the dividend.

use vstd::prelude::*;
use vstd::arithmetic::div_mod::{
    lemma_div_is_ordered_by_denominator, lemma_div_pos_is_pos, lemma_fundamental_div_mod,
    lemma_mod_bound,
};

verus! {

/// The quotient of `x` by `d`, rounded toward zero.
pub open spec fn quotient(x: int, d: int) -> int
    recommends
        d != 0,
{
    if x >= 0 && d > 0 {
        x / d
    } else if x >= 0 {
        -(x / (-d))
    } else if d > 0 {
        -((-x) / d)
    } else {
        (-x) / (-d)
    }
}

/// What is left of `x` when `d` has been taken out `quotient(x, d)` times.
pub open spec fn remainder(x: int, d: int) -> int
    recommends
        d != 0,
{
    x - d * quotient(x, d)
}

/// The distance of `x` from zero.
pub open spec fn magnitude(x: int) -> int {
    if x >= 0 {
        x
    } else {
        -x
    }
}

/// A quotient is no farther from zero than the dividend, and at most half
/// as far where the divisor is neither 1 nor -1.
pub proof fn lemma_quotient_magnitude(x: int, d: int)
    requires
        d != 0,
    ensures
        magnitude(quotient(x, d)) <= magnitude(x),
        magnitude(d) >= 2 ==> 2 * magnitude(quotient(x, d)) <= magnitude(x),
        d == 1 ==> quotient(x, d) == x,
        d == -1 ==> quotient(x, d) == -x,
{
    let a = magnitude(x);
    let b = magnitude(d);
    lemma_div_pos_is_pos(a, b);
    lemma_div_is_ordered_by_denominator(a, 1, b);
    if b >= 2 {
        lemma_div_is_ordered_by_denominator(a, 2, b);
    }
}

/// The remainder is the Euclidean remainder of the magnitudes, with the
/// sign of the dividend, and is closer to zero than the divisor.
pub proof fn lemma_remainder_sign(x: int, d: int)
    requires
        d != 0,
    ensures
        x >= 0 ==> remainder(x, d) == magnitude(x) % magnitude(d),
        x < 0 ==> remainder(x, d) == -(magnitude(x) % magnitude(d)),
        magnitude(remainder(x, d)) < magnitude(d),
{
    let a = magnitude(x);
    let b = magnitude(d);
    let q = a / b;
    let r = a % b;
    lemma_fundamental_div_mod(a, b);
    lemma_mod_bound(a, b);
    assert(a == b * q + r);
    if x >= 0 && d > 0 {
        assert(quotient(x, d) == q);
    } else if x >= 0 {
        assert(quotient(x, d) == -q);
        assert(d * (-q) == b * q) by (nonlinear_arith)
            requires
                d == -b,
        ;
    } else if d > 0 {
        assert(quotient(x, d) == -q);
        assert(d * (-q) == -(b * q)) by (nonlinear_arith)
            requires
                d == b,
        ;
    } else {
        assert(quotient(x, d) == q);
        assert(d * q == -(b * q)) by (nonlinear_arith)
            requires
                d == -b,
        ;
    }
}

/// The quotient and the remainder written out by the signs of the
/// operands, over the Euclidean division of their magnitudes.
pub proof fn lemma_division_by_signs(x: int, d: int)
    requires
        d != 0,
    ensures
        quotient(x, d) == (if x == 0 {
            0
        } else if x > 0 && d > 0 {
            x / d
        } else if x < 0 && d < 0 {
            (x * -1) / (d * -1)
        } else if x < 0 {
            ((x * -1) / d) * -1
        } else {
            (x / (d * -1)) * -1
        }),
        remainder(x, d) == (if x == 0 {
            0
        } else if x > 0 && d > 0 {
            x % d
        } else if x < 0 && d < 0 {
            ((x * -1) % (d * -1)) * -1
        } else if x < 0 {
            ((x * -1) % d) * -1
        } else {
            x % (d * -1)
        }),
{
    lemma_remainder_sign(x, d);
    lemma_quotient_magnitude(x, d);
    assert(x * -1 == -x);
    assert(d * -1 == -d);
    if x == 0 {
        lemma_div_pos_is_pos(0, magnitude(d));
        assert(quotient(x, d) == 0);
        assert(remainder(x, d) == 0);
    }
}

} // verus!
