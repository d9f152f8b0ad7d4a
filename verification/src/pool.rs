//! The reserve pool model.
//!
//! A pool holds the two reserve balances and a fee rate fixed at creation.
//! Both reserves must be positive for the pool to accept swaps; a pool
//! with a zero reserve is considered drained and rejects trades. The
//! reserves are mutated exclusively through `apply` and the two swap
//! operations, and never partially: a failed swap leaves both untouched.
//!
//! The fee is charged on the input side: the fee share of `amount_in`,
//! truncated toward zero, is withheld from the quantity that prices the
//! trade, while the full `amount_in` is credited to the input-side
//! reserve. Charging the input rather than the output keeps the
//! truncating division rounding in the pool's favor.

use crate::engine;
use crate::engine::quote;
use crate::error::SwapError;
use crate::math;
use vstd::arithmetic::div_mod::{
    lemma_div_pos_is_pos, lemma_multiply_divide_le, lemma_multiply_divide_lt,
};
use vstd::arithmetic::mul::{lemma_mul_left_inequality, lemma_mul_nonnegative};
use vstd::prelude::*;

verus! {

/// The fee rate's full scale: a rate is a count of basis points, so many
/// ten-thousandths of the input amount.
pub const BPS_SCALE: u16 = 10000;

/// A caller's swap order: the quantity deposited and the least output it
/// will accept. A zero `min_out` requests no slippage protection.
/// Constructed per call, never persisted.
#[derive(Clone, Copy, Debug, PartialEq, Eq, Structural)]
pub struct SwapRequest {
    pub amount_in: u64,
    pub min_out: u64,
}

/// A successful trade: the output quantity paid out and both post-trade
/// reserves. Produced only on success; a failed swap leaves the pool
/// unchanged and yields no result.
#[derive(Clone, Copy, Debug, PartialEq, Eq, Structural)]
pub struct SwapResult {
    pub amount_out: u64,
    pub new_reserve_x: u64,
    pub new_reserve_y: u64,
}

/// The fee withheld from an input amount, truncated toward zero.
pub open spec fn fee_amount(amount_in: int, fee_bps: int) -> int {
    (amount_in * fee_bps) / (BPS_SCALE as int)
}

/// The input quantity left to price the trade after the fee is withheld.
pub open spec fn effective_in(amount_in: int, fee_bps: int) -> int {
    amount_in - fee_amount(amount_in, fee_bps)
}

/// The fee never exceeds its base: it is a truncated sub-unit share of the
/// input, and for a positive input it is strictly smaller, so at least one
/// unit is always left to price the trade.
pub proof fn lemma_fee_bounds(amount_in: int, fee_bps: int)
    requires
        0 <= amount_in,
        0 <= fee_bps < BPS_SCALE,
    ensures
        0 <= fee_amount(amount_in, fee_bps) <= amount_in,
        amount_in > 0 ==> fee_amount(amount_in, fee_bps) < amount_in,
{
    lemma_mul_nonnegative(amount_in, fee_bps);
    lemma_div_pos_is_pos(amount_in * fee_bps, BPS_SCALE as int);
    if amount_in > 0 {
        lemma_mul_left_inequality(amount_in, fee_bps, (BPS_SCALE - 1) as int);
        lemma_multiply_divide_lt(amount_in * fee_bps, BPS_SCALE as int, amount_in);
    } else {
        lemma_multiply_divide_le(amount_in * fee_bps, BPS_SCALE as int, amount_in);
    }
}

/// The outcome of one swap against a pool, error kinds included: a drained
/// pool rejects first, then the order's checks run in the engine's order
/// on the fee-reduced input.
pub open spec fn pool_swap_outcome(
    amount_in: u64,
    min_out: u64,
    reserve_in: u64,
    reserve_out: u64,
    fee_bps: u16,
) -> Result<(u64, u64, u64), SwapError> {
    if reserve_in == 0 || reserve_out == 0 {
        Err(SwapError::InsufficientReserves)
    } else if amount_in == 0 {
        Err(SwapError::InvalidAmount)
    } else {
        let q = quote(effective_in(amount_in as int, fee_bps as int), reserve_in as int,
            reserve_out as int);
        if q < min_out {
            Err(SwapError::SlippageExceeded)
        } else if reserve_in + amount_in > u64::MAX {
            Err(SwapError::MathOverflow)
        } else {
            Ok(((q as u64), (reserve_in + amount_in) as u64, (reserve_out - q) as u64))
        }
    }
}

/// The two reserve balances and the fee rate of one liquidity pool.
pub struct ReservePool {
    reserve_x: u64,
    reserve_y: u64,
    fee_bps: u16,
}

impl ReservePool {
    /// The X-side reserve balance.
    pub closed spec fn spec_reserve_x(&self) -> u64 {
        self.reserve_x
    }

    /// The Y-side reserve balance.
    pub closed spec fn spec_reserve_y(&self) -> u64 {
        self.reserve_y
    }

    /// The fee rate in basis points, fixed at pool creation.
    pub closed spec fn spec_fee_bps(&self) -> u16 {
        self.fee_bps
    }

    /// The fee rate stays below the full scale for the pool's whole life.
    pub open spec fn well_formed(&self) -> bool {
        self.spec_fee_bps() < BPS_SCALE
    }

    /// A pool accepts swaps only while both reserves are positive; one
    /// with an empty side is uninitialized or drained.
    pub open spec fn is_swappable(&self) -> bool {
        self.spec_reserve_x() > 0 && self.spec_reserve_y() > 0
    }

    /// Creates a pool from caller-supplied initial reserves and fee. A
    /// pool cannot start with an empty side, and the fee rate must stay
    /// below the full scale; either violation is an invalid argument.
    pub fn initialize(initial_x: u64, initial_y: u64, fee_bps: u16) -> (r: Result<
        ReservePool,
        SwapError,
    >)
        ensures
            (initial_x > 0 && initial_y > 0 && fee_bps < BPS_SCALE) <==> r is Ok,
            r matches Ok(p) ==> {
                &&& p.spec_reserve_x() == initial_x
                &&& p.spec_reserve_y() == initial_y
                &&& p.spec_fee_bps() == fee_bps
                &&& p.well_formed()
                &&& p.is_swappable()
            },
            r is Err ==> r == Err::<ReservePool, SwapError>(SwapError::InvalidAmount),
    {
        if initial_x == 0 || initial_y == 0 {
            return Err(SwapError::InvalidAmount);
        }
        if fee_bps >= BPS_SCALE {
            return Err(SwapError::InvalidAmount);
        }
        Ok(ReservePool { reserve_x: initial_x, reserve_y: initial_y, fee_bps })
    }

    /// Reads the X-side reserve.
    pub fn reserve_x(&self) -> (r: u64)
        ensures
            r == self.spec_reserve_x(),
    {
        self.reserve_x
    }

    /// Reads the Y-side reserve.
    pub fn reserve_y(&self) -> (r: u64)
        ensures
            r == self.spec_reserve_y(),
    {
        self.reserve_y
    }

    /// Reads the fee rate.
    pub fn fee_bps(&self) -> (r: u16)
        ensures
            r == self.spec_fee_bps(),
    {
        self.fee_bps
    }

    /// Unconditionally overwrites both reserves together. This is the only
    /// mutation path besides the swaps themselves; there is no setter for
    /// a single reserve, and callers must have validated the values.
    pub fn apply(&mut self, new_x: u64, new_y: u64)
        ensures
            final(self).spec_reserve_x() == new_x,
            final(self).spec_reserve_y() == new_y,
            final(self).spec_fee_bps() == old(self).spec_fee_bps(),
    {
        self.reserve_x = new_x;
        self.reserve_y = new_y;
    }

    /// Swaps X in for Y out: charges the fee on `amount_in`, prices the
    /// remainder through the engine, credits the full `amount_in` to the
    /// X reserve and debits the output from the Y reserve. On any failure
    /// the pool is left exactly as it was.
    pub fn swap_x_for_y(&mut self, request: SwapRequest) -> (r: Result<SwapResult, SwapError>)
        requires
            old(self).well_formed(),
        ensures
            final(self).spec_fee_bps() == old(self).spec_fee_bps(),
            final(self).well_formed(),
            r is Err ==> *final(self) == *old(self),
            r matches Ok(res) ==> {
                &&& pool_swap_outcome(
                    request.amount_in,
                    request.min_out,
                    old(self).spec_reserve_x(),
                    old(self).spec_reserve_y(),
                    old(self).spec_fee_bps(),
                ) == Ok::<(u64, u64, u64), SwapError>(
                    (res.amount_out, res.new_reserve_x, res.new_reserve_y),
                )
                &&& final(self).spec_reserve_x() == res.new_reserve_x
                &&& final(self).spec_reserve_y() == res.new_reserve_y
                &&& final(self).is_swappable()
            },
            r matches Err(e) ==> Err::<(u64, u64, u64), SwapError>(e) == pool_swap_outcome(
                request.amount_in,
                request.min_out,
                old(self).spec_reserve_x(),
                old(self).spec_reserve_y(),
                old(self).spec_fee_bps(),
            ),
    {
        if self.reserve_x == 0 || self.reserve_y == 0 {
            return Err(SwapError::InsufficientReserves);
        }
        if request.amount_in == 0 {
            return Err(SwapError::InvalidAmount);
        }
        let effective = effective_amount_in(request.amount_in, self.fee_bps);
        proof {
            lemma_fee_bounds(request.amount_in as int, self.fee_bps as int);
            engine::lemma_quote_le_reserve_out(
                effective as int,
                self.reserve_x as int,
                self.reserve_y as int,
            );
            engine::lemma_quote_lt_reserve_out(
                effective as int,
                self.reserve_x as int,
                self.reserve_y as int,
            );
        }
        match engine::secure_swap(effective, request.min_out, self.reserve_x, self.reserve_y) {
            Ok((amount_out, _, new_y)) => {
                let new_x = match self.reserve_x.checked_add(request.amount_in) {
                    Some(v) => v,
                    None => {
                        return Err(SwapError::MathOverflow);
                    },
                };
                self.reserve_x = new_x;
                self.reserve_y = new_y;
                Ok(SwapResult { amount_out, new_reserve_x: new_x, new_reserve_y: new_y })
            },
            Err(e) => Err(e),
        }
    }

    /// Swaps Y in for X out: the same formula with the reserves swapped.
    pub fn swap_y_for_x(&mut self, request: SwapRequest) -> (r: Result<SwapResult, SwapError>)
        requires
            old(self).well_formed(),
        ensures
            final(self).spec_fee_bps() == old(self).spec_fee_bps(),
            final(self).well_formed(),
            r is Err ==> *final(self) == *old(self),
            r matches Ok(res) ==> {
                &&& pool_swap_outcome(
                    request.amount_in,
                    request.min_out,
                    old(self).spec_reserve_y(),
                    old(self).spec_reserve_x(),
                    old(self).spec_fee_bps(),
                ) == Ok::<(u64, u64, u64), SwapError>(
                    (res.amount_out, res.new_reserve_y, res.new_reserve_x),
                )
                &&& final(self).spec_reserve_x() == res.new_reserve_x
                &&& final(self).spec_reserve_y() == res.new_reserve_y
                &&& final(self).is_swappable()
            },
            r matches Err(e) ==> Err::<(u64, u64, u64), SwapError>(e) == pool_swap_outcome(
                request.amount_in,
                request.min_out,
                old(self).spec_reserve_y(),
                old(self).spec_reserve_x(),
                old(self).spec_fee_bps(),
            ),
    {
        if self.reserve_x == 0 || self.reserve_y == 0 {
            return Err(SwapError::InsufficientReserves);
        }
        if request.amount_in == 0 {
            return Err(SwapError::InvalidAmount);
        }
        let effective = effective_amount_in(request.amount_in, self.fee_bps);
        proof {
            lemma_fee_bounds(request.amount_in as int, self.fee_bps as int);
            engine::lemma_quote_le_reserve_out(
                effective as int,
                self.reserve_y as int,
                self.reserve_x as int,
            );
            engine::lemma_quote_lt_reserve_out(
                effective as int,
                self.reserve_y as int,
                self.reserve_x as int,
            );
        }
        match engine::secure_swap(effective, request.min_out, self.reserve_y, self.reserve_x) {
            Ok((amount_out, _, new_x)) => {
                let new_y = match self.reserve_y.checked_add(request.amount_in) {
                    Some(v) => v,
                    None => {
                        return Err(SwapError::MathOverflow);
                    },
                };
                self.reserve_x = new_x;
                self.reserve_y = new_y;
                Ok(SwapResult { amount_out, new_reserve_x: new_x, new_reserve_y: new_y })
            },
            Err(e) => Err(e),
        }
    }
}

/// The input quantity left after the fee: the fee share is computed at
/// 128 bits and truncated toward zero before the subtraction.
pub fn effective_amount_in(amount_in: u64, fee_bps: u16) -> (r: u64)
    requires
        fee_bps < BPS_SCALE,
    ensures
        r == effective_in(amount_in as int, fee_bps as int),
{
    proof {
        math::lemma_u64_product_fits_wide(amount_in, fee_bps as u64);
        lemma_fee_bounds(amount_in as int, fee_bps as int);
    }
    let fee_wide = math::widen(amount_in) * (fee_bps as u128);
    let fee = (fee_wide / (BPS_SCALE as u128)) as u64;
    amount_in - fee
}

} // verus!
