//! The swap computation engine.
//!
//! Given an input amount, a minimum acceptable output and the two current
//! reserves, the engine prices the trade under the constant-product rule,
//! computing the product of native-width operands at double width and
//! narrowing back with an explicit range check. Integer division truncates
//! toward zero, so the output is rounded in the pool's favor, never the
//! trader's. The engine is invoked once per direction; the opposite
//! direction is the same formula with the reserves swapped.

use crate::error::SwapError;
use crate::math;
use vstd::arithmetic::div_mod::{
    lemma_div_pos_is_pos, lemma_multiply_divide_le, lemma_multiply_divide_lt,
};
use vstd::arithmetic::mul::{
    lemma_mul_inequality, lemma_mul_nonnegative, lemma_mul_strict_inequality,
};
use vstd::prelude::*;

verus! {

/// The constant-product quote: the output amount bought by `amount_in`
/// against the pair `(reserve_in, reserve_out)`, truncated toward zero.
pub open spec fn quote(amount_in: int, reserve_in: int, reserve_out: int) -> int
    recommends
        reserve_in + amount_in > 0,
{
    (amount_in * reserve_out) / (reserve_in + amount_in)
}

/// The engine's complete outcome for one call, error kinds included: the
/// checks are applied in this order, and a failed call leaves no partial
/// state behind.
pub open spec fn swap_outcome(
    amount_in: u64,
    min_out: u64,
    reserve_in: u64,
    reserve_out: u64,
) -> Result<(u64, u64, u64), SwapError> {
    let q = quote(amount_in as int, reserve_in as int, reserve_out as int);
    if amount_in == 0 {
        Err(SwapError::InvalidAmount)
    } else if q > u64::MAX {
        Err(SwapError::MathOverflow)
    } else if q < min_out {
        Err(SwapError::SlippageExceeded)
    } else if q > reserve_out {
        Err(SwapError::InsufficientReserves)
    } else if reserve_in + amount_in > u64::MAX {
        Err(SwapError::MathOverflow)
    } else {
        Ok(((q as u64), (reserve_in + amount_in) as u64, (reserve_out - q) as u64))
    }
}

/// A positive input can never buy more than the output-side reserve: the
/// denominator of the quote is at least the input amount, so the quotient
/// is at most `reserve_out`.
pub proof fn lemma_quote_le_reserve_out(amount_in: int, reserve_in: int, reserve_out: int)
    requires
        amount_in > 0,
        reserve_in >= 0,
        reserve_out >= 0,
    ensures
        0 <= quote(amount_in, reserve_in, reserve_out) <= reserve_out,
{
    let den = reserve_in + amount_in;
    lemma_mul_nonnegative(amount_in, reserve_out);
    lemma_div_pos_is_pos(amount_in * reserve_out, den);
    lemma_mul_inequality(amount_in, den, reserve_out);
    lemma_multiply_divide_le(amount_in * reserve_out, den, reserve_out);
}

/// Against a pool whose input side is already funded, a trade can never
/// drain the whole output-side reserve: the quotient stays strictly below
/// `reserve_out`.
pub proof fn lemma_quote_lt_reserve_out(amount_in: int, reserve_in: int, reserve_out: int)
    requires
        amount_in > 0,
        reserve_in > 0,
        reserve_out > 0,
    ensures
        quote(amount_in, reserve_in, reserve_out) < reserve_out,
{
    let den = reserve_in + amount_in;
    lemma_mul_strict_inequality(amount_in, den, reserve_out);
    lemma_multiply_divide_lt(amount_in * reserve_out, den, reserve_out);
}

/// Swaps `amount_in` of the X asset for the Y asset. On success the result
/// holds the output amount and both post-trade reserves; on failure the
/// caller's reserves are untouched. Every arithmetic step is either
/// performed at 128 bits or checked, so no step silently wraps.
pub fn secure_swap(amount_in: u64, min_out: u64, reserve_x: u64, reserve_y: u64) -> (r: Result<
    (u64, u64, u64),
    SwapError,
>)
    ensures
        r == swap_outcome(amount_in, min_out, reserve_x, reserve_y),
{
    if amount_in == 0 {
        return Err(SwapError::InvalidAmount);
    }
    proof {
        math::lemma_u64_product_fits_wide(amount_in, reserve_y);
    }
    let numerator = match math::checked_mul_wide(math::widen(amount_in), math::widen(reserve_y)) {
        Some(n) => n,
        None => {
            return Err(SwapError::MathOverflow);
        },
    };
    let denominator = match math::checked_add_wide(math::widen(reserve_x), math::widen(amount_in)) {
        Some(d) => d,
        None => {
            return Err(SwapError::MathOverflow);
        },
    };
    if denominator == 0 {
        return Err(SwapError::MathOverflow);
    }
    let amount_out_wide = numerator / denominator;
    let amount_out = match math::narrow_to_u64(amount_out_wide) {
        Some(v) => v,
        None => {
            return Err(SwapError::MathOverflow);
        },
    };
    if amount_out < min_out {
        return Err(SwapError::SlippageExceeded);
    }
    if amount_out > reserve_y {
        return Err(SwapError::InsufficientReserves);
    }
    let new_reserve_x = match reserve_x.checked_add(amount_in) {
        Some(v) => v,
        None => {
            return Err(SwapError::MathOverflow);
        },
    };
    let new_reserve_y = match reserve_y.checked_sub(amount_out) {
        Some(v) => v,
        None => {
            return Err(SwapError::MathUnderflow);
        },
    };
    Ok((amount_out, new_reserve_x, new_reserve_y))
}

/// The outcome of the native-width formula, which wraps on overflow: kept
/// as the foil that the property checks compare against the engine.
pub open spec fn vulnerable_outcome(amount_in: u64, reserve_x: u64, reserve_y: u64) -> Option<
    (u64, u64, u64),
> {
    let numerator = amount_in.wrapping_mul(reserve_y);
    let denominator = reserve_x.wrapping_add(amount_in);
    if denominator == 0 {
        None
    } else {
        let amount_out = numerator / denominator;
        Some((amount_out, denominator, reserve_y.wrapping_sub(amount_out)))
    }
}

/// The naive native-width swap: multiplication and addition wrap silently,
/// no slippage bound is enforced, and the output can exceed the reserve it
/// is paid from. It exists to exhibit the overflow class that the engine
/// eliminates; it must never price a real trade.
pub fn vulnerable_swap(amount_in: u64, reserve_x: u64, reserve_y: u64) -> (r: Option<
    (u64, u64, u64),
>)
    ensures
        r == vulnerable_outcome(amount_in, reserve_x, reserve_y),
{
    let numerator = amount_in.wrapping_mul(reserve_y);
    let denominator = reserve_x.wrapping_add(amount_in);
    if denominator == 0 {
        return None;
    }
    let amount_out = numerator / denominator;
    let new_reserve_x = reserve_x.wrapping_add(amount_in);
    let new_reserve_y = reserve_y.wrapping_sub(amount_out);
    Some((amount_out, new_reserve_x, new_reserve_y))
}

} // verus!
