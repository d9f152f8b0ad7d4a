//! Pool lifecycle: initialization, the fee on the input side, both swap
//! directions, and the promise that a failed swap changes nothing.

use swap_engine::error::SwapError;
use swap_engine::pool::{ReservePool, SwapRequest};

#[test]
fn initialization_rejects_empty_side_and_oversized_fee() {
    assert!(ReservePool::initialize(0, 1000, 30).is_err());
    assert!(ReservePool::initialize(1000, 0, 30).is_err());
    assert!(ReservePool::initialize(0, 0, 30).is_err());
    assert!(ReservePool::initialize(1000, 1000, 10000).is_err());
    assert!(ReservePool::initialize(1000, 1000, u16::MAX).is_err());
    assert!(ReservePool::initialize(1, 1, 0).is_ok());
    assert!(ReservePool::initialize(1000, 1000, 9999).is_ok());
}

#[test]
fn initialization_records_the_arguments() {
    let pool = ReservePool::initialize(123, 456, 30).unwrap();
    assert_eq!(pool.reserve_x(), 123);
    assert_eq!(pool.reserve_y(), 456);
    assert_eq!(pool.fee_bps(), 30);
}

#[test]
fn fee_is_charged_on_the_input_side() {
    // A 30 bps fee withholds 3 of the 1000 deposited: 997 price the
    // trade (buying 996), while the full 1000 is credited to the pool.
    let mut pool = ReservePool::initialize(1_000_000_000, 1_000_000_000, 30).unwrap();
    let res = pool.swap_x_for_y(SwapRequest { amount_in: 1000, min_out: 0 }).unwrap();
    assert_eq!(res.amount_out, 996);
    assert_eq!(res.new_reserve_x, 1_000_001_000);
    assert_eq!(res.new_reserve_y, 999_999_004);
    assert_eq!(pool.reserve_x(), 1_000_001_000);
    assert_eq!(pool.reserve_y(), 999_999_004);
}

#[test]
fn feeless_pool_matches_the_engine() {
    let mut pool = ReservePool::initialize(1_000_000_000, 1_000_000_000, 0).unwrap();
    let res = pool.swap_x_for_y(SwapRequest { amount_in: 1000, min_out: 900 }).unwrap();
    assert_eq!(res.amount_out, 999);
    assert_eq!(res.new_reserve_x, 1_000_001_000);
    assert_eq!(res.new_reserve_y, 999_999_001);
}

#[test]
fn swap_directions_are_symmetric() {
    let mut east = ReservePool::initialize(3_000_000, 5_000_000, 25).unwrap();
    let mut west = ReservePool::initialize(5_000_000, 3_000_000, 25).unwrap();
    let res_east = east.swap_x_for_y(SwapRequest { amount_in: 40_000, min_out: 0 }).unwrap();
    let res_west = west.swap_y_for_x(SwapRequest { amount_in: 40_000, min_out: 0 }).unwrap();
    assert_eq!(res_east.amount_out, res_west.amount_out);
    assert_eq!(res_east.new_reserve_x, res_west.new_reserve_y);
    assert_eq!(res_east.new_reserve_y, res_west.new_reserve_x);
}

#[test]
fn failed_swap_leaves_the_pool_unchanged() {
    let mut pool = ReservePool::initialize(1_000_000_000, 1_000_000_000, 30).unwrap();

    let slippage = pool.swap_x_for_y(SwapRequest { amount_in: 1000, min_out: 1000 });
    assert_eq!(slippage, Err(SwapError::SlippageExceeded));
    assert_eq!(pool.reserve_x(), 1_000_000_000);
    assert_eq!(pool.reserve_y(), 1_000_000_000);

    let invalid = pool.swap_x_for_y(SwapRequest { amount_in: 0, min_out: 0 });
    assert_eq!(invalid, Err(SwapError::InvalidAmount));
    assert_eq!(pool.reserve_x(), 1_000_000_000);
    assert_eq!(pool.reserve_y(), 1_000_000_000);
}

#[test]
fn drained_pool_rejects_trades() {
    let mut pool = ReservePool::initialize(1000, 1000, 30).unwrap();
    pool.apply(0, 1000);
    let r = pool.swap_x_for_y(SwapRequest { amount_in: 10, min_out: 0 });
    assert_eq!(r, Err(SwapError::InsufficientReserves));
    let r = pool.swap_y_for_x(SwapRequest { amount_in: 10, min_out: 0 });
    assert_eq!(r, Err(SwapError::InsufficientReserves));
}

#[test]
fn apply_overwrites_both_reserves() {
    let mut pool = ReservePool::initialize(10, 20, 5).unwrap();
    pool.apply(777, 888);
    assert_eq!(pool.reserve_x(), 777);
    assert_eq!(pool.reserve_y(), 888);
    assert_eq!(pool.fee_bps(), 5);
}

#[test]
fn successful_swaps_keep_both_reserves_positive() {
    let mut pool = ReservePool::initialize(100, 100, 0).unwrap();
    // An enormous deposit cannot drain the output side to zero: the
    // truncated quote stays strictly below the reserve it is paid from.
    let res = pool.swap_x_for_y(SwapRequest { amount_in: 1_000_000_000, min_out: 0 }).unwrap();
    assert_eq!(res.amount_out, 99);
    assert_eq!(res.new_reserve_y, 1);
    assert!(pool.reserve_x() > 0);
    assert!(pool.reserve_y() > 0);
}
