//! The failure kinds that the swap engine distinguishes.

use vstd::prelude::*;

verus! {

/// Every failure of the engine is one of these kinds. Each is returned to
/// the immediate caller; none is retried internally and none is silently
/// downgraded to a default value.
#[derive(Clone, Copy, Debug, PartialEq, Eq, Structural)]
pub enum SwapError {
    /// The caller supplied a zero input amount.
    InvalidAmount,
    /// A checked arithmetic step (multiplication, addition, or the final
    /// narrowing back to native width) exceeded its representable range.
    MathOverflow,
    /// A checked subtraction would have gone negative.
    MathUnderflow,
    /// The computed output fell below the caller's minimum.
    SlippageExceeded,
    /// The computed output exceeded the available output-side reserve.
    InsufficientReserves,
}

} // verus!
