//! Concrete engine scenarios: exact quotes, rounding direction, each
//! error kind, and agreement with the wide-precision oracle.

use swap_engine::engine::{secure_swap, vulnerable_swap};
use swap_engine::error::SwapError;
use swap_engine::oracle::oracle_quote;

#[test]
fn normal_swap_exact_quote() {
    // 1000 in against a 10^9 / 10^9 pool buys 999: the exact quotient is
    // just below 1000 and truncation rounds it down, in the pool's favor.
    let r = secure_swap(1000, 900, 1_000_000_000, 1_000_000_000);
    assert_eq!(r, Ok((999, 1_000_001_000, 999_999_001)));
    let (amount_out, _, _) = r.unwrap();
    assert!(amount_out >= 900);
    assert!(amount_out < 1000);
}

#[test]
fn wide_precision_survives_huge_operands() {
    // The native-width numerator wraps here; the engine must either agree
    // with the oracle exactly or fail, never return the wrapped value.
    let amount_in = u64::MAX / 4;
    let reserve_x = u64::MAX / 2;
    let reserve_y = 1000;

    let oracle = oracle_quote(amount_in, reserve_x, reserve_y);
    assert_eq!(oracle, 333);

    let secure = secure_swap(amount_in, 0, reserve_x, reserve_y).unwrap();
    assert_eq!(secure.0, 333);
    assert_eq!(secure.1, reserve_x + amount_in);
    assert_eq!(secure.2, reserve_y - 333);

    // The naive formula wraps its numerator and prices the trade at 1.
    let vulnerable = vulnerable_swap(amount_in, reserve_x, reserve_y).unwrap();
    assert_eq!(vulnerable.0, 1);
    assert_ne!(vulnerable.0, secure.0);
}

#[test]
fn oversized_trade_stays_solvent() {
    // A deposit dwarfing both reserves cannot extract more than the pool
    // holds: the quote saturates just below the output reserve.
    let r = secure_swap(1_000_000_000, 0, 100, 100);
    assert_eq!(r, Ok((99, 1_000_000_100, 1)));
    let (amount_out, _, _) = r.unwrap();
    assert!(amount_out <= 100);
}

#[test]
fn zero_amount_is_rejected() {
    assert_eq!(secure_swap(0, 0, 1, 1), Err(SwapError::InvalidAmount));
    assert_eq!(secure_swap(0, 0, u64::MAX, u64::MAX), Err(SwapError::InvalidAmount));
    assert_eq!(secure_swap(0, 500, 1_000_000, 2_000_000), Err(SwapError::InvalidAmount));
}

#[test]
fn slippage_bound_is_strict() {
    // The quote is 999: a minimum of 999 is acceptable, 1000 is not.
    let ok = secure_swap(1000, 999, 1_000_000_000, 1_000_000_000);
    assert!(ok.is_ok());
    let rejected = secure_swap(1000, 1000, 1_000_000_000, 1_000_000_000);
    assert_eq!(rejected, Err(SwapError::SlippageExceeded));
}

#[test]
fn reserve_update_overflow_is_reported() {
    // The quote itself is fine, but the input-side reserve cannot absorb
    // the deposit within 64 bits.
    let r = secure_swap(u64::MAX, 0, u64::MAX, 1000);
    assert_eq!(r, Err(SwapError::MathOverflow));
}

#[test]
fn division_truncates_toward_zero() {
    // 3 in against 7/10 divides evenly; against 8/10 the exact quotient
    // is 30/11 and the trader receives 2, never 3.
    assert_eq!(secure_swap(3, 0, 7, 10).unwrap().0, 3);
    assert_eq!(secure_swap(3, 0, 8, 10).unwrap().0, 2);
}

#[test]
fn engine_agrees_with_oracle() {
    let cases: Vec<(u64, u64, u64)> = vec![
        (1, 1, 1),
        (1000, 1_000_000_000, 1_000_000_000),
        (u64::MAX / 4, u64::MAX / 2, 1000),
        (u64::MAX, 1, u64::MAX),
        (12345, 99999, 54321),
    ];
    for (amount_in, reserve_x, reserve_y) in cases {
        let oracle = oracle_quote(amount_in, reserve_x, reserve_y);
        match secure_swap(amount_in, 0, reserve_x, reserve_y) {
            Ok((amount_out, _, _)) => assert_eq!(amount_out as u128, oracle),
            Err(_) => {}
        }
    }
}

#[test]
fn error_kinds_are_distinct() {
    // Underflow is reported apart from overflow, though the solvency
    // check fires first on every reachable input.
    assert_ne!(SwapError::MathUnderflow, SwapError::MathOverflow);
    assert_ne!(SwapError::InvalidAmount, SwapError::SlippageExceeded);
    assert_ne!(SwapError::InsufficientReserves, SwapError::SlippageExceeded);
}
