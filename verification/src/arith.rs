//! Integer helpers shared by the contracts' arithmetic specifications.
use vstd::prelude::*;

verus! {

/// `x` is representable as an `i128`.
pub open spec fn fits_i128(x: int) -> bool {
    i128::MIN <= x <= i128::MAX
}

/// Integer division rounding toward zero, as Rust's `/` on signed integers,
/// for a positive divisor.
pub open spec fn trunc_div(x: int, d: int) -> int
    recommends
        d > 0,
{
    if x >= 0 {
        x / d
    } else {
        -((-x) / d)
    }
}

/// Truncating division misses the exact quotient by less than one unit.
pub proof fn lemma_trunc_div_close(x: int, d: int)
    requires
        d > 0,
    ensures
        x - (d - 1) <= d * trunc_div(x, d) <= x + (d - 1),
{
    if x >= 0 {
        vstd::arithmetic::div_mod::lemma_fundamental_div_mod(x, d);
        assert(0 <= x % d < d);
    } else {
        let y = -x;
        vstd::arithmetic::div_mod::lemma_fundamental_div_mod(y, d);
        assert(0 <= y % d < d);
        assert(d * (-(y / d)) == -(d * (y / d))) by (nonlinear_arith);
    }
}

/// Truncating division of a non-negative dividend never rounds up.
pub proof fn lemma_trunc_div_below(x: int, d: int)
    requires
        x >= 0,
        d > 0,
    ensures
        d * trunc_div(x, d) <= x,
{
    vstd::arithmetic::div_mod::lemma_fundamental_div_mod(x, d);
    assert(0 <= x % d);
}

/// Truncating division by a positive divisor is monotone in the dividend.
pub proof fn lemma_trunc_div_monotone(x: int, y: int, d: int)
    requires
        x <= y,
        d > 0,
    ensures
        trunc_div(x, d) <= trunc_div(y, d),
{
    if x >= 0 {
        vstd::arithmetic::div_mod::lemma_div_is_ordered(x, y, d);
    } else if y >= 0 {
        assert((-x) / d >= 0) by (nonlinear_arith)
            requires
                -x > 0,
                d > 0,
        ;
        assert(y / d >= 0) by (nonlinear_arith)
            requires
                y >= 0,
                d > 0,
        ;
    } else {
        vstd::arithmetic::div_mod::lemma_div_is_ordered(-y, -x, d);
    }
}

/// Truncating division of an exact multiple gives the factor back.
pub proof fn lemma_trunc_div_exact(q: int, d: int)
    requires
        d > 0,
    ensures
        trunc_div(d * q, d) == q,
{
    if q >= 0 {
        assert(d * q >= 0) by (nonlinear_arith)
            requires
                q >= 0,
                d > 0,
        ;
        vstd::arithmetic::div_mod::lemma_div_multiples_vanish(q, d);
    } else {
        assert(d * q < 0) by (nonlinear_arith)
            requires
                q < 0,
                d > 0,
        ;
        assert(-(d * q) == d * (-q)) by (nonlinear_arith);
        vstd::arithmetic::div_mod::lemma_div_multiples_vanish(-q, d);
    }
}

} // verus!
