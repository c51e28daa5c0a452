use pamp::error::ContractError;
use pamp::math::{add_u128, add_u256, div_u256, mul_pct_u128, mul_ratio_u128, sub_u128, u256_to_u128, U256};
use pamp::state::models::{Pool, PoolReserves};

fn seeded_pool(base: u128, quote: u128, supply: u128, offset: u128, k: u128) -> Pool {
    Pool {
        reserves: PoolReserves { base, quote },
        offset,
        supply,
        k: U256 { hi: 0, lo: k },
    }
}

#[test]
fn buy_moves_quote_in_and_base_out() {
    let mut pool = seeded_pool(1_000_000, 1_000_000, 1_000_000, 1_000_000, 1_000_000_000_000);
    let out = pool.buy(1_000).expect("buy");
    assert_eq!(pool.reserves.quote, 1_001_000);
    assert_eq!(pool.reserves.base, 999_000);
    assert_eq!(out, 1_000);
}

#[test]
fn buy_then_sell_back_is_exact_on_a_fresh_pool() {
    let mut pool = seeded_pool(1_000_000, 1_000_000, 1_000_000, 1_000_000, 1_000_000_000_000);
    let out = pool.buy(1_000).expect("buy");
    let back = pool.sell(out).expect("sell");
    // No intermediate rounding loss here: paid 1_000, received 1_000 back.
    assert_eq!(back, 1_000);
    assert_eq!(pool.reserves.base, 1_000_000);
    assert_eq!(pool.reserves.quote, 1_000_000);
}

#[test]
fn round_trip_loses_to_rounding_on_a_drifted_pool() {
    // A pool whose realized product (7 * 13 = 91) has drifted below k.
    let mut pool = seeded_pool(7, 13, 10, 10, 100);
    let out = pool.buy(2).expect("buy");
    assert_eq!(out, 1);
    let back = pool.sell(out).expect("sell");
    // Paid 2 quote in, got only 1 back: rounding favors the pool.
    assert_eq!(back, 1);
    assert!(back <= 2);
}

#[test]
fn swap_zero_amount_yields_zero() {
    let mut pool = seeded_pool(1_000_000, 1_000_000, 1_000_000, 1_000_000, 1_000_000_000_000);
    assert_eq!(pool.swap(0, true).expect("buy 0"), 0);
    assert_eq!(pool.swap(0, false).expect("sell 0"), 0);
    assert_eq!(pool.reserves.base, 1_000_000);
    assert_eq!(pool.reserves.quote, 1_000_000);
}

#[test]
fn product_stays_at_or_below_k_across_trades() {
    let mut pool = seeded_pool(1_000_000, 1_000_000, 1_000_000, 1_000_000, 1_000_000_000_000);
    let mut bought: u128 = 0;
    for amount in [1u128, 37, 1_000, 12_345, 999] {
        bought += pool.buy(amount).expect("buy");
    }
    assert!(pool.reserves.base * pool.reserves.quote <= pool.k.lo);
    pool.sell(bought / 2).expect("sell");
    assert!(pool.reserves.base * pool.reserves.quote <= pool.k.lo);
    assert!(pool.reserves.base <= pool.supply);
}

#[test]
fn calc_quote_price_scales_by_decimals() {
    let pool = seeded_pool(1_000_000, 2_000_000, 1_000_000, 2_000_000, 2_000_000_000_000);
    assert_eq!(pool.calc_quote_price(6).expect("price"), 2_000_000);
    assert_eq!(pool.calc_quote_price(0).expect("price"), 2);
}

#[test]
fn calc_quote_price_fails_on_zero_base() {
    let pool = seeded_pool(0, 2_000_000, 1_000_000, 2_000_000, 2_000_000_000_000);
    let err = pool.calc_quote_price(6).unwrap_err();
    assert!(matches!(err, ContractError::InternalError { .. }));
}

#[test]
fn calc_quote_price_fails_on_oversized_decimals() {
    let pool = seeded_pool(1_000_000, 2_000_000, 1_000_000, 2_000_000, 2_000_000_000_000);
    let err = pool.calc_quote_price(39).unwrap_err();
    assert!(matches!(err, ContractError::InternalError { .. }));
}

#[test]
fn checked_adds_and_subs_fail_closed() {
    assert_eq!(add_u128(2, 3).expect("add"), 5);
    assert!(matches!(add_u128(u128::MAX, 1), Err(ContractError::InternalError { .. })));
    assert_eq!(sub_u128(5, 3).expect("sub"), 2);
    assert!(matches!(sub_u128(3, 5), Err(ContractError::InternalError { .. })));
}

#[test]
fn mul_ratio_widens_through_256_bits() {
    assert_eq!(mul_ratio_u128(6, 7, 2).expect("ratio"), 21);
    // The intermediate product exceeds 128 bits; the result floors back in.
    assert_eq!(
        mul_ratio_u128(u128::MAX, 4, 8).expect("ratio"),
        170_141_183_460_469_231_731_687_303_715_884_105_727u128,
    );
    assert!(matches!(mul_ratio_u128(1, 1, 0), Err(ContractError::InternalError { .. })));
    // The quotient itself does not fit back into 128 bits.
    assert!(matches!(mul_ratio_u128(u128::MAX, 4, 2), Err(ContractError::InternalError { .. })));
}

#[test]
fn mul_pct_is_parts_per_million() {
    assert_eq!(mul_pct_u128(500, 10_000).expect("pct"), 5);
    assert_eq!(mul_pct_u128(300, 10_000).expect("pct"), 3);
    assert_eq!(mul_pct_u128(1_000, 1_000_000).expect("pct"), 1_000);
    assert_eq!(mul_pct_u128(999, 0).expect("pct"), 0);
}

#[test]
fn wide_addition_carries_between_limbs() {
    let sum = add_u256(U256 { hi: 0, lo: u128::MAX }, 5).expect("add");
    assert_eq!(sum.hi, 1);
    assert_eq!(sum.lo, 4);
    let err = add_u256(U256 { hi: u128::MAX, lo: u128::MAX }, 1).unwrap_err();
    assert!(matches!(err, ContractError::InternalError { .. }));
}

#[test]
fn wide_division_floors() {
    let q = div_u256(&U256 { hi: 1, lo: 0 }, 2).expect("div");
    assert_eq!(q.hi, 0);
    assert_eq!(q.lo, 170_141_183_460_469_231_731_687_303_715_884_105_728u128);
    assert!(matches!(div_u256(&U256 { hi: 1, lo: 0 }, 0), Err(ContractError::InternalError { .. })));
    let narrow = u256_to_u128(&q).expect("narrow");
    assert_eq!(narrow, 1u128 << 127);
    assert!(matches!(u256_to_u128(&U256 { hi: 1, lo: 0 }), Err(ContractError::InternalError { .. })));
}
