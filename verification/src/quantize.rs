//! Quantization of raw asset amounts to kilogram resolution.

use vstd::prelude::*;
use vstd::arithmetic::div_mod::{lemma_div_multiples_vanish, lemma_fundamental_div_mod};

verus! {

/// One kilogram expressed in the asset's smallest denomination
/// (decigrams). Swapped amounts are settled at this resolution.
pub const KG_RESOLUTION: i64 = 10_000;

/// `amount` rounded toward zero to a whole number of resolution units.
pub open spec fn quantized(amount: int) -> int {
    if amount >= 0 {
        (amount / (KG_RESOLUTION as int)) * (KG_RESOLUTION as int)
    } else {
        -(((-amount) / (KG_RESOLUTION as int)) * (KG_RESOLUTION as int))
    }
}

/// The quantized value of a non-negative amount never exceeds the amount
/// and is itself non-negative.
pub proof fn lemma_quantized_bounds(amount: int)
    requires
        0 <= amount,
    ensures
        0 <= quantized(amount) <= amount,
{
    let d = KG_RESOLUTION as int;
    lemma_fundamental_div_mod(amount, d);
}

/// Quantization is idempotent: re-quantizing a quantized non-negative
/// amount changes nothing.
pub proof fn lemma_quantize_idempotent(amount: int)
    requires
        0 <= amount,
    ensures
        quantized(quantized(amount)) == quantized(amount),
{
    let d = KG_RESOLUTION as int;
    let q = amount / d;
    lemma_fundamental_div_mod(amount, d);
    lemma_div_multiples_vanish(q, d);
    assert(d * q == q * d) by (nonlinear_arith);
    assert(quantized(amount) == q * d);
    assert((q * d) / d == q);
}

/// Rounds `amount` toward zero to kg resolution.
pub fn quantize_to_kg(amount: i64) -> (r: i64)
    ensures
        r == quantized(amount as int),
{
    proof {
        let d = KG_RESOLUTION as int;
        lemma_fundamental_div_mod(amount as int, d);
        lemma_fundamental_div_mod(-(amount as int), d);
    }
    (amount / KG_RESOLUTION) * KG_RESOLUTION
}

} // verus!
