//! The laws the engine obeys.
//!
//! Each proof function states one property of every swap the engine can
//! be asked for, over the same outcome model that `secure_swap` is proved
//! to return exactly.

use crate::engine::{lemma_quote_le_reserve_out, quote, swap_outcome};
use crate::error::SwapError;
use vstd::prelude::*;

verus! {

/// Oracle agreement: whenever the engine succeeds, the amount it pays out
/// is exactly the wide-precision ground truth, truncated toward zero —
/// the same value `oracle_quote` computes. Precision is never silently
/// lost on the success path.
pub proof fn lemma_oracle_agreement(amount_in: u64, min_out: u64, reserve_x: u64, reserve_y: u64)
    requires
        amount_in > 0,
        reserve_x > 0,
        reserve_y > 0,
    ensures
        swap_outcome(amount_in, min_out, reserve_x, reserve_y) matches Ok(t) ==> t.0 == quote(
            amount_in as int,
            reserve_x as int,
            reserve_y as int,
        ),
{
    lemma_quote_le_reserve_out(amount_in as int, reserve_x as int, reserve_y as int);
}

/// Overflow containment: if the ground-truth output exceeds the native
/// 64-bit range, the engine reports overflow; it never narrows the value
/// into range by truncation.
pub proof fn lemma_overflow_containment(
    amount_in: u64,
    min_out: u64,
    reserve_x: u64,
    reserve_y: u64,
)
    requires
        amount_in > 0,
        reserve_x > 0,
        reserve_y > 0,
    ensures
        quote(amount_in as int, reserve_x as int, reserve_y as int) > u64::MAX ==> swap_outcome(
            amount_in,
            min_out,
            reserve_x,
            reserve_y,
        ) == Err::<(u64, u64, u64), SwapError>(SwapError::MathOverflow),
{
}

/// Reserve monotonicity: a successful swap strictly grows the input-side
/// reserve — the input amount is positive, or the call would have been
/// rejected — and never grows the output-side reserve.
pub proof fn lemma_reserve_monotonicity(
    amount_in: u64,
    min_out: u64,
    reserve_x: u64,
    reserve_y: u64,
)
    ensures
        swap_outcome(amount_in, min_out, reserve_x, reserve_y) matches Ok(t) ==> t.1 > reserve_x
            && t.2 <= reserve_y,
{
    if amount_in > 0 {
        lemma_quote_le_reserve_out(amount_in as int, reserve_x as int, reserve_y as int);
    }
}

/// Slippage enforcement: whenever the true output falls below the
/// caller's minimum, the call fails with exactly that verdict — the
/// caller is never handed a silently worse fill.
pub proof fn lemma_slippage_enforcement(
    amount_in: u64,
    min_out: u64,
    reserve_x: u64,
    reserve_y: u64,
)
    requires
        amount_in > 0,
        quote(amount_in as int, reserve_x as int, reserve_y as int) < min_out,
    ensures
        swap_outcome(amount_in, min_out, reserve_x, reserve_y) == Err::<
            (u64, u64, u64),
            SwapError,
        >(SwapError::SlippageExceeded),
{
}

/// Solvency: a successful swap never pays out more of the output asset
/// than the pool holds.
pub proof fn lemma_solvency(amount_in: u64, min_out: u64, reserve_x: u64, reserve_y: u64)
    ensures
        swap_outcome(amount_in, min_out, reserve_x, reserve_y) matches Ok(t) ==> t.0 <= reserve_y,
{
    if amount_in > 0 {
        lemma_quote_le_reserve_out(amount_in as int, reserve_x as int, reserve_y as int);
    }
}

} // verus!
