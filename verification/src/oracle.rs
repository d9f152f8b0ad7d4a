//! The validation oracle.
//!
//! A second, maximum-precision computation of the pricing formula: the
//! numerator and denominator are held at 128 bits unconditionally and the
//! quotient is returned at 128 bits, with no early truncation, so it can
//! never overflow for any representable input. It exists only so that the
//! property checks can compare the production engine against ground truth;
//! it must never price a real trade.

use crate::engine::quote;
use crate::math;
use vstd::prelude::*;

verus! {

/// The ground-truth output amount for a trade, computed entirely at 128
/// bits. The denominator is nonzero whenever either the input amount or
/// the input-side reserve is positive.
pub fn oracle_quote(amount_in: u64, reserve_in: u64, reserve_out: u64) -> (r: u128)
    requires
        amount_in > 0 || reserve_in > 0,
    ensures
        r == quote(amount_in as int, reserve_in as int, reserve_out as int),
{
    proof {
        math::lemma_u64_product_fits_wide(amount_in, reserve_out);
    }
    let numerator = math::widen(amount_in) * math::widen(reserve_out);
    let denominator = math::widen(reserve_in) + math::widen(amount_in);
    numerator / denominator
}

} // verus!
