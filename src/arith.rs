//! Small facts about products and quotients of bounded integers.

use vstd::prelude::*;
use vstd::arithmetic::div_mod::{lemma_div_is_ordered, lemma_div_multiples_vanish};
use vstd::arithmetic::mul::lemma_mul_upper_bound;

verus! {

/// Scaling `a` by `b / c` with `b <= c` gives a value in `[0, a]`.
pub proof fn lemma_scale_down(a: int, b: int, c: int)
    requires
        0 <= a,
        0 <= b <= c,
        0 < c,
    ensures
        0 <= a * b / c <= a,
{
    lemma_mul_upper_bound(a, a, b, c);
    assert(0 <= a * b) by (nonlinear_arith)
        requires
            0 <= a,
            0 <= b,
    ;
    lemma_div_is_ordered(0, a * b, c);
    lemma_div_is_ordered(a * b, a * c, c);
    assert(a * c == c * a) by (nonlinear_arith);
    lemma_div_multiples_vanish(a, c);
}

/// A product of two bounded non-negative values is bounded by the product of
/// the bounds.
pub proof fn lemma_product_bound(a: int, ab: int, b: int, bb: int)
    requires
        0 <= a <= ab,
        0 <= b <= bb,
    ensures
        0 <= a * b <= ab * bb,
{
    lemma_mul_upper_bound(a, ab, b, bb);
    assert(0 <= a * b) by (nonlinear_arith)
        requires
            0 <= a,
            0 <= b,
    ;
}

/// Dividing a bounded non-negative value keeps it between zero and the bound
/// divided alike.
pub proof fn lemma_quotient_bound(x: int, xb: int, d: int)
    requires
        0 <= x <= xb,
        0 < d,
    ensures
        0 <= x / d <= xb / d,
{
    lemma_div_is_ordered(0, x, d);
    lemma_div_is_ordered(x, xb, d);
}

} // verus!
