//! The wide-precision arithmetic layer.
//!
//! Reserve and amount quantities are 64 bits wide; every product of two of
//! them is computed at 128 bits, and every sum that could exceed 64 bits is
//! either computed at 128 bits or checked. Narrowing a 128-bit value back
//! to 64 bits is fallible and fails rather than truncates. This layer has
//! no recovery logic: each operation reports success or failure to its
//! caller and nothing more.

use vstd::arithmetic::mul::lemma_mul_upper_bound;
use vstd::prelude::*;

verus! {

/// Widens a native-width quantity to the 128-bit working width.
pub fn widen(x: u64) -> (r: u128)
    ensures
        r == x,
{
    x as u128
}

/// Checked multiplication at the wide width: reports failure instead of
/// wrapping when the product exceeds 128 bits.
pub fn checked_mul_wide(a: u128, b: u128) -> (r: Option<u128>)
    ensures
        a * b <= u128::MAX ==> r == Some((a * b) as u128),
        a * b > u128::MAX ==> r is None,
{
    a.checked_mul(b)
}

/// Checked addition at the wide width: reports failure instead of wrapping
/// when the sum exceeds 128 bits.
pub fn checked_add_wide(a: u128, b: u128) -> (r: Option<u128>)
    ensures
        a + b <= u128::MAX ==> r == Some((a + b) as u128),
        a + b > u128::MAX ==> r is None,
{
    a.checked_add(b)
}

/// Narrows a wide value back to the native width. This must fail, not
/// truncate, whenever the value does not fit in 64 bits.
pub fn narrow_to_u64(x: u128) -> (r: Option<u64>)
    ensures
        x <= u64::MAX ==> r == Some(x as u64),
        x > u64::MAX ==> r is None,
{
    if x <= u64::MAX as u128 {
        Some(x as u64)
    } else {
        None
    }
}

/// The product of two native-width quantities always fits in the wide
/// width, so the defensive overflow check on such a product never fires.
pub proof fn lemma_u64_product_fits_wide(a: u64, b: u64)
    ensures
        a * b <= u128::MAX,
{
    lemma_mul_upper_bound(a as int, u64::MAX as int, b as int, u64::MAX as int);
}

} // verus!
