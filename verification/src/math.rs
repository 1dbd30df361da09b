//! Integer arithmetic as the drivers' Rust code computes it.

use vstd::prelude::*;

verus! {

/// Division rounded toward zero, as Rust's `/` computes it on signed integers.
pub open spec fn trunc_div(a: int, b: int) -> int
    recommends
        b != 0,
{
    if (a >= 0) == (b > 0) || a % b == 0 {
        a / b
    } else {
        a / b + 1
    }
}


/// Division rounded toward zero by a positive divisor: the quotient times the
/// divisor is the largest multiple not beyond `a` in the direction of zero,
/// and the quotient has the sign of `a` (or is zero).
pub proof fn lemma_trunc_div_bounds(a: int, b: int)
    requires
        b > 0,
    ensures
        a >= 0 ==> 0 <= trunc_div(a, b) * b <= a < trunc_div(a, b) * b + b,
        a < 0 ==> trunc_div(a, b) * b - b < a <= trunc_div(a, b) * b <= 0,
{
    vstd::arithmetic::div_mod::lemma_fundamental_div_mod(a, b);
    let q = a / b;
    let r = a % b;
    assert(0 <= r < b) by {
        vstd::arithmetic::div_mod::lemma_mod_bound(a, b);
    }
    assert(a == q * b + r) by (nonlinear_arith)
        requires
            a == b * q + r,
    ;
    if a >= 0 {
        assert(q >= 0) by (nonlinear_arith)
            requires
                a == q * b + r,
                0 <= r < b,
                a >= 0,
                b > 0,
        ;
        assert(q * b >= 0) by (nonlinear_arith)
            requires
                q >= 0,
                b > 0,
        ;
    } else {
        if r == 0 {
            assert(trunc_div(a, b) == q);
        } else {
            assert(trunc_div(a, b) == q + 1);
            assert((q + 1) * b == q * b + b) by (nonlinear_arith);
        }
        assert(trunc_div(a, b) * b <= 0) by (nonlinear_arith)
            requires
                trunc_div(a, b) * b == a - r || trunc_div(a, b) * b == a - r + b,
                a < 0,
                0 <= r < b,
        ;
    }
}

} // verus!
