//! Division that rounds up.

use vstd::prelude::*;

verus! {

/// `a` divided by `b`, rounded up.
pub open spec fn ceil_div(a: int, b: int) -> int {
    if a % b == 0 {
        a / b
    } else {
        a / b + 1
    }
}

/// `a` divided by `b`, rounded up.
pub fn div_ceil(a: usize, b: usize) -> (q: usize)
    requires
        b > 0,
    ensures
        q == ceil_div(a as int, b as int),
{
    if a % b == 0 {
        a / b
    } else {
        assert(a / b < a) by (nonlinear_arith)
            requires
                a % b != 0,
                b > 0,
        ;
        a / b + 1
    }
}

/// Rounding up in its familiar form: `(a + b - 1) / b`.
pub proof fn rounding_up_by_the_usual_formula(a: int, b: int)
    requires
        a >= 0,
        b > 0,
    ensures
        ceil_div(a, b) == (a + b - 1) / b,
{
    let q = a / b;
    let r = a % b;
    assert(a == q * b + r && 0 <= r < b) by (nonlinear_arith)
        requires
            q == a / b,
            r == a % b,
            b > 0,
    ;
    if r == 0 {
        assert((q * b + b - 1) / b == q) by (nonlinear_arith)
            requires
                b > 0,
        ;
    } else {
        assert((q * b + r + b - 1) / b == q + 1) by (nonlinear_arith)
            requires
                b > 0,
                0 < r < b,
        ;
    }
}

/// One part more covers `b` more.
pub proof fn lemma_ceil_div_step(a: int, b: int)
    requires
        a >= 0,
        b > 0,
    ensures
        ceil_div(a + b, b) == ceil_div(a, b) + 1,
        0 < a <= b ==> ceil_div(a, b) == 1,
        ceil_div(0, b) == 0,
{
    assert((a + b) / b == a / b + 1 && (a + b) % b == a % b) by (nonlinear_arith)
        requires
            a >= 0,
            b > 0,
    ;
    if 0 < a <= b {
        assert(ceil_div(a, b) == 1) by (nonlinear_arith)
            requires
                0 < a <= b,
                ceil_div(a, b) == if a % b == 0 {
                    a / b
                } else {
                    a / b + 1
                },
        ;
    }
    assert(0int % b == 0 && 0int / b == 0) by (nonlinear_arith)
        requires
            b > 0,
    ;
}

/// The rounded-up quotient is the least count of parts of size `b` that cover `a`.
pub proof fn lemma_ceil_div_covers(a: int, b: int)
    requires
        a >= 0,
        b > 0,
    ensures
        ceil_div(a, b) >= 0,
        (ceil_div(a, b) - 1) * b < a || a == 0,
        a <= ceil_div(a, b) * b,
{
    let q = a / b;
    let r = a % b;
    assert(a == q * b + r && 0 <= r < b && q >= 0) by (nonlinear_arith)
        requires
            q == a / b,
            r == a % b,
            b > 0,
            a >= 0,
    ;
    assert((q + 1) * b == q * b + b) by (nonlinear_arith);
    assert((q - 1) * b == q * b - b) by (nonlinear_arith);
}

} // verus!
