//! The property harness.
//!
//! Randomized input vectors for the engine, and the two invariant checks
//! that the randomized runs exercise. Both checks are proved to return
//! true on every input, so a run of the harness can only confirm what is
//! already verified; the random driver is kept because it exercises the
//! compiled code against the very inputs the proofs quantify over.

use crate::engine;
use crate::math;
use std::hash::{BuildHasher, Hasher};
use vstd::prelude::*;

verus! {

/// One randomized input vector: the swapped amount, the slippage bound
/// and the two initial reserves.
#[derive(Debug, Clone, Copy)]
pub struct SwapFuzzData {
    pub amount_in: u64,
    pub min_out: u64,
    pub initial_reserve_x: u64,
    pub initial_reserve_y: u64,
}

/// Relies on std::time::SystemTime::now and std::hash::RandomState: the
/// digest of a freshly keyed hasher over the clock reading. The value
/// depends on the clock and on the process's hasher keys, so nothing is
/// promised of it.
#[verifier::external_body]
fn entropy_u64() -> u64 {
    let state = std::collections::hash_map::RandomState::new();
    let mut hasher = state.build_hasher();
    let nanos = std::time::SystemTime::now()
        .duration_since(std::time::UNIX_EPOCH)
        .unwrap_or_default()
        .as_nanos() as u64;
    hasher.write_u64(nanos);
    hasher.finish()
}

impl SwapFuzzData {
    /// Draws one random input vector. Only the individual values depend
    /// on the clock; the structure does not: the deposit is the raw
    /// entropy value, no slippage bound is requested, and both reserves
    /// share one value sitting one above the deposit — folded back to one
    /// when that would wrap to zero, since a drawn pool must have
    /// liquidity on both sides.
    pub fn random() -> (r: SwapFuzzData)
        ensures
            r.min_out == 0,
            r.initial_reserve_y == r.initial_reserve_x,
            r.initial_reserve_x > 0,
            r.amount_in < u64::MAX ==> r.initial_reserve_x == r.amount_in + 1,
            r.amount_in == u64::MAX ==> r.initial_reserve_x == 1,
    {
        let seed = entropy_u64();
        let reserve: u64 = if seed == u64::MAX {
            1
        } else {
            seed + 1
        };
        SwapFuzzData {
            amount_in: seed,
            min_out: 0,
            initial_reserve_x: reserve,
            initial_reserve_y: reserve,
        }
    }
}

/// The overflow-containment check: whenever the wide-precision ground
/// truth and the native-width formula disagree, the engine either agrees
/// exactly with the ground truth or fails; it never returns a wrapped
/// value. Proved to hold of every input vector.
pub fn check_overflow_property(data: &SwapFuzzData) -> (r: bool)
    ensures
        r,
{
    if data.initial_reserve_x == 0 || data.initial_reserve_y == 0 {
        return true;
    }
    proof {
        math::lemma_u64_product_fits_wide(data.amount_in, data.initial_reserve_y);
        if data.amount_in > 0 {
            engine::lemma_quote_le_reserve_out(
                data.amount_in as int,
                data.initial_reserve_x as int,
                data.initial_reserve_y as int,
            );
        }
    }
    let expected_numerator = math::widen(data.amount_in) * math::widen(data.initial_reserve_y);
    let expected_denominator = math::widen(data.initial_reserve_x) + math::widen(data.amount_in);
    if expected_denominator == 0 {
        return true;
    }
    let expected_out = expected_numerator / expected_denominator;
    if expected_out > u64::MAX as u128 {
        return engine::secure_swap(
            data.amount_in,
            0,
            data.initial_reserve_x,
            data.initial_reserve_y,
        ).is_err();
    }
    if let Some((vulnerable_out, _, _)) = engine::vulnerable_swap(
        data.amount_in,
        data.initial_reserve_x,
        data.initial_reserve_y,
    ) {
        let correct_out = expected_out as u64;
        if vulnerable_out != correct_out {
            match engine::secure_swap(
                data.amount_in,
                0,
                data.initial_reserve_x,
                data.initial_reserve_y,
            ) {
                Ok((secure_out, _, _)) => secure_out == correct_out,
                Err(_) => true,
            }
        } else {
            true
        }
    } else {
        true
    }
}

/// The solvency check: a successful swap never pays out more than the
/// output-side reserve held, and never leaves that reserve larger than it
/// was. Proved to hold of every input vector.
pub fn check_underflow_property(data: &SwapFuzzData) -> (r: bool)
    ensures
        r,
{
    if data.initial_reserve_x == 0 || data.initial_reserve_y == 0 {
        return true;
    }
    match engine::secure_swap(data.amount_in, 0, data.initial_reserve_x, data.initial_reserve_y) {
        Ok((amount_out, _, new_reserve_y)) => {
            new_reserve_y <= data.initial_reserve_y && amount_out <= data.initial_reserve_y
        },
        Err(_) => true,
    }
}

} // verus!
