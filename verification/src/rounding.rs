//! Rounding of a ratio to three decimal digits, on scaled integers.
//!
//! The fraction `numer / denom` rounded to three decimal digits is the
//! integer nearest to `1000 * numer / denom`, ties broken away from zero;
//! for non-negative operands that is the same as rounding half up, which
//! integer arithmetic computes exactly as `(2000 * numer + denom) / (2 * denom)`.

use vstd::prelude::*;

verus! {

/// `1000 * n / d` rounded to the nearest integer, ties away from zero,
/// for `n >= 0` and `d > 0`.
pub open spec fn round_permille_spec(n: int, d: int) -> int {
    (2000 * n + d) / (2 * d)
}

/// The per-mille progress of `numer` through `denom`: `numer / denom`
/// rounded to three decimal digits, returned scaled by 1000.
pub fn round_permille(numer: u64, denom: u64) -> (r: u64)
    requires
        denom > 0,
        numer <= denom,
    ensures
        r == round_permille_spec(numer as int, denom as int),
        r <= 1000,
{
    proof {
        lemma_round_permille_bounds(numer as int, denom as int);
    }
    let scaled: u128 = 2000 * (numer as u128) + (denom as u128);
    let r: u128 = scaled / (2 * (denom as u128));
    r as u64
}

/// The rounded per-mille value lies in `[0, 1000]` whenever `0 <= n <= d`.
pub proof fn lemma_round_permille_bounds(n: int, d: int)
    requires
        0 < d,
        0 <= n <= d,
    ensures
        0 <= round_permille_spec(n, d) <= 1000,
{
    let x = 2000 * n + d;
    let q = x / (2 * d);
    vstd::arithmetic::div_mod::lemma_fundamental_div_mod(x, 2 * d);
    let rem = x % (2 * d);
    assert(x == 2 * d * q + rem);
    vstd::arithmetic::div_mod::lemma_div_pos_is_pos(x, 2 * d);
    assert(2 * d * q <= 2001 * d);
    assert(q <= 1000) by (nonlinear_arith)
        requires
            0 < d,
            0 <= q,
            2 * d * q <= 2001 * d,
    ;
}

/// A probe at the right edge of the window rounds to the full 1000.
pub proof fn lemma_round_permille_full(d: int)
    requires
        0 < d,
    ensures
        round_permille_spec(d, d) == 1000,
{
    vstd::arithmetic::div_mod::lemma_fundamental_div_mod_converse(
        2000 * d + d,
        2 * d,
        1000,
        d,
    );
}

/// A probe at the left edge of the window rounds to 0.
pub proof fn lemma_round_permille_zero(d: int)
    requires
        0 < d,
    ensures
        round_permille_spec(0, d) == 0,
{
    vstd::arithmetic::div_mod::lemma_fundamental_div_mod_converse(d, 2 * d, 0, d);
}

/// A probe at the exact midpoint of the window rounds to 500.
pub proof fn lemma_round_permille_half(n: int, d: int)
    requires
        0 < n,
        d == 2 * n,
    ensures
        round_permille_spec(n, d) == 500,
{
    vstd::arithmetic::div_mod::lemma_fundamental_div_mod_converse(
        2000 * n + d,
        2 * d,
        500,
        2 * n,
    );
}

} // verus!
