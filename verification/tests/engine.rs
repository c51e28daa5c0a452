use pamp::error::ContractError;
use pamp::execute::buy::exec_buy;
use pamp::execute::claim::exec_claim;
use pamp::execute::sell::exec_sell;
use pamp::execute::swap::exec_swap;
use pamp::execute::Context;
use pamp::msg::{BuyParams, FeeInitArgs, InstantiateMsg, PoolAmount, PoolInitArgs, SellParams, SwapParams};
use pamp::state::init;
use pamp::state::models::{PoolAccount, PoolReserves};
use pamp::state::storage::{AccountEntry, Store};
use pamp::token::{Coin, Token};

fn pool_args(base: u128, quote: u128) -> PoolInitArgs {
    PoolInitArgs {
        symbol: "POOL".to_string(),
        name: "A pool".to_string(),
        description: None,
        image: None,
        reserves: PoolReserves { base, quote },
    }
}

fn fresh_market(n_pools: usize, pct_buy: u128, pct_sell: u128, pct_swap: u128) -> Store {
    let mut pools = Vec::new();
    for _ in 0..n_pools {
        pools.push(pool_args(1_000_000, 1_000_000));
    }
    let msg = InstantiateMsg {
        start: 0,
        stop: 1_000,
        quote_token: Token::Denom("uquote".to_string()),
        quote_decimals: 6,
        quote_symbol: "QUOTE".to_string(),
        operator: None,
        pools,
        fees: FeeInitArgs { manager: None, pct_swap, pct_buy, pct_sell },
    };
    let ctx = Context { sender: "alice".to_string(), funds: vec![], time: 0 };
    init(&ctx, msg).expect("init")
}

fn ctx_with_funds(sender: &str, amount: u128, time: u64) -> Context {
    Context {
        sender: sender.to_string(),
        funds: vec![Coin { denom: "uquote".to_string(), amount }],
        time,
    }
}

fn buy_one(store: &mut Store, sender: &str, pool_id: u8, amount: u128, time: u64) -> pamp::execute::BuyResponse {
    let ctx = ctx_with_funds(sender, amount, time);
    let params = BuyParams { amounts: vec![PoolAmount { pool_id, amount }], initiator: None };
    exec_buy(store, &ctx, params).expect("buy")
}

#[test]
fn init_creates_pools_with_sequential_ids() {
    let store = fresh_market(3, 0, 0, 0);
    assert_eq!(store.pools.len(), 3);
    assert_eq!(store.pool_infos.len(), 3);
    assert_eq!(store.pool_stats.len(), 3);
    assert_eq!(store.pools[0].supply, 1_000_000);
    assert_eq!(store.pools[0].offset, 1_000_000);
    assert_eq!(store.pools[0].k.hi, 0);
    assert_eq!(store.pools[0].k.lo, 1_000_000u128 * 1_000_000u128);
    assert_eq!(store.fee_manager_addr, "alice");
    assert_eq!(store.market_stats.num_traders, 0);
}

#[test]
fn init_rejects_too_many_pools() {
    let mut pools = Vec::new();
    for _ in 0..257 {
        pools.push(pool_args(10, 10));
    }
    let msg = InstantiateMsg {
        start: 0,
        stop: 1_000,
        quote_token: Token::Denom("uquote".to_string()),
        quote_decimals: 6,
        quote_symbol: "QUOTE".to_string(),
        operator: None,
        pools,
        fees: FeeInitArgs { manager: None, pct_swap: 0, pct_buy: 0, pct_sell: 0 },
    };
    let ctx = Context { sender: "alice".to_string(), funds: vec![], time: 0 };
    let err = init(&ctx, msg).unwrap_err();
    assert!(matches!(err, ContractError::ValidationError { .. }));
}

#[test]
fn buy_moves_reserves_and_credits_balance() {
    let mut store = fresh_market(1, 0, 0, 0);
    let resp = buy_one(&mut store, "bob", 0, 1_000, 100);
    assert_eq!(resp.fee_amount, 0);
    assert_eq!(resp.in_amount, 1_000);
    // floor(10^12 / 1_001_000) = 999_000, so 1_000 base leaves the pool.
    assert_eq!(resp.out_amount, 1_000);
    assert_eq!(store.pools[0].reserves.quote, 1_001_000);
    assert_eq!(store.pools[0].reserves.base, 999_000);
    assert_eq!(store.pool_accounts.len(), 1);
    assert_eq!(store.pool_accounts[0].owner, "bob");
    assert_eq!(store.pool_accounts[0].account.balance, 1_000);
    assert_eq!(store.pool_stats[0].num_buys, 1);
    assert_eq!(store.pool_stats[0].num_traders, 1);
    assert_eq!(store.market_stats.num_traders, 1);
}

#[test]
fn buy_batch_fee_conservation() {
    // 1% fee in parts-per-million is 10_000.
    let mut store = fresh_market(2, 10_000, 0, 0);
    let ctx = ctx_with_funds("bob", 800, 100);
    let params = BuyParams {
        amounts: vec![
            PoolAmount { pool_id: 0, amount: 500 },
            PoolAmount { pool_id: 1, amount: 300 },
        ],
        initiator: None,
    };
    let resp = exec_buy(&mut store, &ctx, params).expect("buy");
    // fee(pool0) = 5, fee(pool1) = 3, so total fee 8 and total net in 792.
    assert_eq!(resp.fee_amount, 8);
    assert_eq!(resp.in_amount, 792);
    assert_eq!(store.pool_stats[0].fees_collected, 5);
    assert_eq!(store.pool_stats[1].fees_collected, 3);
    assert_eq!(resp.fee_transfer.amount, 8);
    assert_eq!(resp.fee_transfer.recipient, "alice");
}

#[test]
fn buy_zero_total_is_rejected() {
    let mut store = fresh_market(1, 0, 0, 0);
    let ctx = ctx_with_funds("bob", 100, 100);
    let params = BuyParams { amounts: vec![PoolAmount { pool_id: 0, amount: 0 }], initiator: None };
    let err = exec_buy(&mut store, &ctx, params).unwrap_err();
    assert!(matches!(err, ContractError::ValidationError { .. }));
}

#[test]
fn buy_without_enough_funds_is_rejected() {
    let mut store = fresh_market(1, 0, 0, 0);
    let ctx = ctx_with_funds("bob", 999, 100);
    let params = BuyParams { amounts: vec![PoolAmount { pool_id: 0, amount: 1_000 }], initiator: None };
    let err = exec_buy(&mut store, &ctx, params).unwrap_err();
    assert!(matches!(err, ContractError::InsufficientFunds { .. }));
}

#[test]
fn buy_unknown_pool_is_not_found() {
    let mut store = fresh_market(1, 0, 0, 0);
    let ctx = ctx_with_funds("bob", 100, 100);
    let params = BuyParams { amounts: vec![PoolAmount { pool_id: 7, amount: 100 }], initiator: None };
    let err = exec_buy(&mut store, &ctx, params).unwrap_err();
    assert!(matches!(err, ContractError::Std { .. }));
}

#[test]
fn buy_initiator_requires_operator() {
    let mut store = fresh_market(1, 0, 0, 0);
    let ctx = ctx_with_funds("bob", 100, 100);
    let params = BuyParams {
        amounts: vec![PoolAmount { pool_id: 0, amount: 100 }],
        initiator: Some("carol".to_string()),
    };
    let err = exec_buy(&mut store, &ctx, params).unwrap_err();
    assert!(matches!(err, ContractError::NotAuthorized { .. }));
}

#[test]
fn buy_initiator_by_operator_books_to_initiator() {
    let mut store = fresh_market(1, 0, 0, 0);
    store.operator_addr = Some("bob".to_string());
    let ctx = ctx_with_funds("bob", 100, 100);
    let params = BuyParams {
        amounts: vec![PoolAmount { pool_id: 0, amount: 100 }],
        initiator: Some("carol".to_string()),
    };
    exec_buy(&mut store, &ctx, params).expect("buy");
    assert_eq!(store.pool_accounts[0].owner, "carol");
    assert_eq!(store.trader_infos[0].owner, "carol");
}

#[test]
fn sell_returns_quote_and_debits_balance() {
    let mut store = fresh_market(1, 0, 0, 0);
    buy_one(&mut store, "bob", 0, 1_000, 100);
    let ctx = ctx_with_funds("bob", 0, 200);
    let params = SellParams { amounts: vec![PoolAmount { pool_id: 0, amount: 1_000 }] };
    let resp = exec_sell(&mut store, &ctx, params).expect("sell");
    assert_eq!(resp.in_amount, 1_000);
    assert_eq!(resp.out_amount, 1_000);
    assert_eq!(resp.fee_amount, 0);
    assert_eq!(resp.payout.amount, 1_000);
    assert_eq!(resp.payout.recipient, "bob");
    assert_eq!(store.pools[0].reserves.base, 1_000_000);
    assert_eq!(store.pools[0].reserves.quote, 1_000_000);
    assert_eq!(store.pool_accounts[0].account.balance, 0);
    assert_eq!(store.pool_stats[0].num_sells, 1);
    // The sale is accumulated on bob's aggregate record.
    assert_eq!(store.trader_infos[0].info.stats.num_sells, 1);
    assert_eq!(store.trader_infos[0].info.stats.quote_amount_out, 1_000);
    assert_eq!(store.trader_infos[0].info.stats.num_buys, 1);
}

#[test]
fn sell_fee_is_charged_on_aggregate_output() {
    // 2% sell fee.
    let mut store = fresh_market(1, 0, 20_000, 0);
    buy_one(&mut store, "bob", 0, 1_000, 100);
    let ctx = ctx_with_funds("bob", 0, 200);
    let params = SellParams { amounts: vec![PoolAmount { pool_id: 0, amount: 1_000 }] };
    let resp = exec_sell(&mut store, &ctx, params).expect("sell");
    assert_eq!(resp.out_amount, 1_000);
    assert_eq!(resp.fee_amount, 20);
    assert_eq!(resp.payout.amount, 980);
    // The trader record accumulates the net payout, not the gross output.
    assert_eq!(store.trader_infos[0].info.stats.quote_amount_out, 980);
    assert_eq!(store.trader_infos[0].info.stats.num_sells, 1);
}

#[test]
fn sell_more_than_balance_fails_and_mutates_nothing() {
    let mut store = fresh_market(1, 0, 0, 0);
    buy_one(&mut store, "bob", 0, 1_000, 100);
    let base_before = store.pools[0].reserves.base;
    let quote_before = store.pools[0].reserves.quote;
    let ctx = ctx_with_funds("bob", 0, 200);
    let params = SellParams { amounts: vec![PoolAmount { pool_id: 0, amount: 1_001 }] };
    let err = exec_sell(&mut store, &ctx, params).unwrap_err();
    assert!(matches!(err, ContractError::InsufficientBalance { .. }));
    assert_eq!(store.pools[0].reserves.base, base_before);
    assert_eq!(store.pools[0].reserves.quote, quote_before);
    assert_eq!(store.pool_accounts[0].account.balance, 1_000);
    assert_eq!(store.pool_stats[0].num_sells, 0);
}

#[test]
fn sell_without_account_is_not_authorized() {
    let mut store = fresh_market(1, 0, 0, 0);
    let ctx = ctx_with_funds("carol", 0, 200);
    let params = SellParams { amounts: vec![PoolAmount { pool_id: 0, amount: 1 }] };
    let err = exec_sell(&mut store, &ctx, params).unwrap_err();
    assert!(matches!(err, ContractError::NotAuthorized { .. }));
}

#[test]
fn swap_reapportions_between_pools() {
    let mut store = fresh_market(2, 0, 0, 0);
    buy_one(&mut store, "bob", 0, 1_000, 100);
    let ctx = ctx_with_funds("bob", 0, 200);
    let params = SwapParams { from_pool: 0, to_pool: 1, from_amount: 1_000 };
    let resp = exec_swap(&mut store, &ctx, params).expect("swap");
    assert_eq!(resp.quote_amount, 1_000);
    assert_eq!(resp.fee_amount, 0);
    assert_eq!(resp.to_amount, 1_000);
    // The source pool is restored, the destination mirrors a 1_000 buy.
    assert_eq!(store.pools[0].reserves.base, 1_000_000);
    assert_eq!(store.pools[0].reserves.quote, 1_000_000);
    assert_eq!(store.pools[1].reserves.base, 999_000);
    assert_eq!(store.pools[1].reserves.quote, 1_001_000);
    // Balances moved from pool 0 to pool 1.
    assert_eq!(store.pool_accounts[0].account.balance, 0);
    assert_eq!(store.pool_accounts[1].account.balance, 1_000);
    assert_eq!(store.pool_accounts[1].pool_id, 1);
    // The ordered-pair aggregate was created.
    assert_eq!(store.swap_stats.len(), 1);
    assert_eq!(store.swap_stats[0].from_pool, 0);
    assert_eq!(store.swap_stats[0].to_pool, 1);
    assert_eq!(store.swap_stats[0].stats.n, 1);
    assert_eq!(store.swap_stats[0].stats.in_amount.lo, 1_000);
    assert_eq!(store.swap_stats[0].stats.out_amount.lo, 1_000);
}

#[test]
fn swap_fee_reduces_destination_amount() {
    // 50% swap fee in parts-per-million.
    let mut store = fresh_market(2, 0, 0, 500_000);
    buy_one(&mut store, "bob", 0, 1_000, 100);
    let ctx = ctx_with_funds("bob", 0, 200);
    let params = SwapParams { from_pool: 0, to_pool: 1, from_amount: 1_000 };
    let resp = exec_swap(&mut store, &ctx, params).expect("swap");
    assert_eq!(resp.quote_amount, 1_000);
    assert_eq!(resp.fee_amount, 500);
    // floor(10^12 / 1_000_500) = 999_500, so 500 base leaves pool 1.
    assert_eq!(resp.to_amount, 500);
    assert_eq!(resp.fee_transfer.amount, 500);
    assert_eq!(store.pool_stats[0].fees_collected, 500);
}

#[test]
fn swap_without_balance_fails() {
    let mut store = fresh_market(2, 0, 0, 0);
    buy_one(&mut store, "bob", 0, 1_000, 100);
    let ctx = ctx_with_funds("bob", 0, 200);
    let params = SwapParams { from_pool: 0, to_pool: 1, from_amount: 1_001 };
    let err = exec_swap(&mut store, &ctx, params).unwrap_err();
    assert!(matches!(err, ContractError::InsufficientBalance { .. }));
}

#[test]
fn claim_pays_pro_rata_share() {
    let mut store = fresh_market(2, 0, 0, 0);
    buy_one(&mut store, "bob", 0, 1_000, 100);
    let ctx = Context { sender: "bob".to_string(), funds: vec![], time: 2_000 };
    let resp = exec_claim(&mut store, &ctx, 0).expect("claim");
    // net_winnings = 1_001_000 - 1_000_000 = 1_000 across all pools;
    // pool_balance = 1_000_000 - 999_000 = 1_000; bob holds all of it.
    assert_eq!(resp.claim_amount, 1_000);
    assert_eq!(resp.transfer.amount, 1_000);
    assert_eq!(resp.transfer.recipient, "bob");
    assert_eq!(store.market_stats.amount_claimed, 1_000);
    assert_eq!(store.trader_infos[0].info.stats.amount_claimed, 1_000);
    assert_eq!(store.has_claimed.len(), 1);
}

#[test]
fn claim_splits_between_holders() {
    let mut store = fresh_market(1, 0, 0, 0);
    buy_one(&mut store, "bob", 0, 1_000, 100);
    buy_one(&mut store, "carol", 0, 3_000, 100);
    // Reserves: quote 1_004_000, base = floor(10^12/1_004_000) = 996_015.
    // bob holds 1_000, carol 2_985; pool_balance = 3_985; winnings 4_000.
    let ctx = Context { sender: "carol".to_string(), funds: vec![], time: 2_000 };
    let resp = exec_claim(&mut store, &ctx, 0).expect("claim");
    // floor(4_000 * 2_985 / 3_985) = floor(2996.2...) = 2_996.
    assert_eq!(resp.claim_amount, 2_996);
    let ctx2 = Context { sender: "bob".to_string(), funds: vec![], time: 2_000 };
    let resp2 = exec_claim(&mut store, &ctx2, 0).expect("claim bob");
    // floor(4_000 * 1_000 / 3_985) = floor(1003.7...) = 1_003.
    assert_eq!(resp2.claim_amount, 1_003);
    assert_eq!(store.market_stats.amount_claimed, 2_996 + 1_003);
}

#[test]
fn claim_before_close_is_not_authorized() {
    let mut store = fresh_market(1, 0, 0, 0);
    buy_one(&mut store, "bob", 0, 1_000, 100);
    let ctx = Context { sender: "bob".to_string(), funds: vec![], time: 999 };
    let err = exec_claim(&mut store, &ctx, 0).unwrap_err();
    assert!(matches!(err, ContractError::NotAuthorized { .. }));
    assert!(store.has_claimed.is_empty());
}

#[test]
fn claim_twice_is_not_authorized() {
    let mut store = fresh_market(1, 0, 0, 0);
    buy_one(&mut store, "bob", 0, 1_000, 100);
    let ctx = Context { sender: "bob".to_string(), funds: vec![], time: 2_000 };
    exec_claim(&mut store, &ctx, 0).expect("first claim");
    let claimed_total = store.market_stats.amount_claimed;
    let err = exec_claim(&mut store, &ctx, 0).unwrap_err();
    assert!(matches!(err, ContractError::NotAuthorized { .. }));
    assert_eq!(store.market_stats.amount_claimed, claimed_total);
}

#[test]
fn claim_without_balance_is_not_authorized() {
    let mut store = fresh_market(2, 0, 0, 0);
    buy_one(&mut store, "bob", 0, 1_000, 100);
    // carol never traded.
    let ctx = Context { sender: "carol".to_string(), funds: vec![], time: 2_000 };
    let err = exec_claim(&mut store, &ctx, 0).unwrap_err();
    assert!(matches!(err, ContractError::NotAuthorized { .. }));
}

#[test]
fn claim_with_undistributed_pool_is_internal_error() {
    let mut store = fresh_market(1, 0, 0, 0);
    // A balance recorded without any distribution from the pool, so
    // pool_balance = supply - base = 0: the division guard must fire.
    store.pool_accounts.push(AccountEntry {
        owner: "bob".to_string(),
        pool_id: 0,
        account: PoolAccount { balance: 5 },
    });
    let ctx = Context { sender: "bob".to_string(), funds: vec![], time: 2_000 };
    let err = exec_claim(&mut store, &ctx, 0).unwrap_err();
    assert!(matches!(err, ContractError::InternalError { .. }));
}

#[test]
fn reserves_product_never_exceeds_k() {
    let mut store = fresh_market(2, 10_000, 10_000, 10_000);
    buy_one(&mut store, "bob", 0, 12_345, 100);
    buy_one(&mut store, "carol", 0, 999, 100);
    let ctx = ctx_with_funds("bob", 0, 150);
    let params = SwapParams { from_pool: 0, to_pool: 1, from_amount: 777 };
    exec_swap(&mut store, &ctx, params).expect("swap");
    let sell_params = SellParams { amounts: vec![PoolAmount { pool_id: 0, amount: 1_000 }] };
    exec_sell(&mut store, &ctx, sell_params).expect("sell");
    for pool in &store.pools {
        let product = pool.reserves.base * pool.reserves.quote;
        assert_eq!(pool.k.hi, 0);
        assert!(product <= pool.k.lo);
        assert!(pool.reserves.base <= pool.supply);
    }
}

#[test]
fn failed_batch_leaves_store_untouched() {
    let mut store = fresh_market(1, 0, 0, 0);
    buy_one(&mut store, "bob", 0, 1_000, 100);
    let quote_before = store.pools[0].reserves.quote;
    let sells_before = store.pool_stats[0].num_sells;
    let ctx = ctx_with_funds("bob", 0, 200);
    // The first instruction alone would succeed; the second asks for more
    // than what is left after it, so the whole batch must fail and leave
    // every collection as it was.
    let params = SellParams {
        amounts: vec![
            PoolAmount { pool_id: 0, amount: 600 },
            PoolAmount { pool_id: 0, amount: 600 },
        ],
    };
    let err = exec_sell(&mut store, &ctx, params).unwrap_err();
    assert!(matches!(err, ContractError::InsufficientBalance { .. }));
    assert_eq!(store.pools[0].reserves.quote, quote_before);
    assert_eq!(store.pool_accounts[0].account.balance, 1_000);
    assert_eq!(store.pool_stats[0].num_sells, sells_before);
}

#[test]
fn claim_at_exactly_close_time_is_allowed() {
    let mut store = fresh_market(1, 0, 0, 0);
    buy_one(&mut store, "bob", 0, 1_000, 100);
    let ctx = Context { sender: "bob".to_string(), funds: vec![], time: 1_000 };
    let resp = exec_claim(&mut store, &ctx, 0).expect("claim at close");
    assert_eq!(resp.claim_amount, 1_000);
}

#[test]
fn buy_fee_above_whole_amount_fails_closed() {
    // A fee percentage above one whole (150%) makes the fee exceed the
    // instruction amount; the checked subtraction fails the call.
    let mut store = fresh_market(1, 1_500_000, 0, 0);
    let ctx = ctx_with_funds("bob", 100, 100);
    let params = BuyParams { amounts: vec![PoolAmount { pool_id: 0, amount: 100 }], initiator: None };
    let err = exec_buy(&mut store, &ctx, params).unwrap_err();
    assert!(matches!(err, ContractError::InternalError { .. }));
}

#[test]
fn swap_into_the_same_pool_is_rejected() {
    let mut store = fresh_market(1, 0, 0, 0);
    buy_one(&mut store, "bob", 0, 1_000, 100);
    let ctx = ctx_with_funds("bob", 0, 200);
    let params = SwapParams { from_pool: 0, to_pool: 0, from_amount: 1_000 };
    let err = exec_swap(&mut store, &ctx, params).unwrap_err();
    assert!(matches!(err, ContractError::ValidationError { .. }));
    assert_eq!(store.pools[0].reserves.base, 999_000);
    assert_eq!(store.pools[0].reserves.quote, 1_001_000);
    assert_eq!(store.pool_accounts[0].account.balance, 1_000);
}


#[test]
fn rebuying_after_draining_does_not_recount_the_trader() {
    let mut store = fresh_market(1, 0, 0, 0);
    buy_one(&mut store, "bob", 0, 1_000, 100);
    assert_eq!(store.pool_stats[0].num_traders, 1);
    // Drain the account completely, then buy again: the account already
    // exists, so bob is not a new trader of this pool.
    let ctx = ctx_with_funds("bob", 0, 150);
    let params = SellParams { amounts: vec![PoolAmount { pool_id: 0, amount: 1_000 }] };
    exec_sell(&mut store, &ctx, params).expect("sell");
    assert_eq!(store.pool_accounts[0].account.balance, 0);
    buy_one(&mut store, "bob", 0, 1_000, 200);
    assert_eq!(store.pool_stats[0].num_traders, 1);
    assert_eq!(store.pool_stats[0].num_buys, 2);
}

#[test]
fn sell_creates_a_trader_record_when_none_exists() {
    let mut store = fresh_market(1, 0, 0, 0);
    // A balance recorded without a prior buy, so no trader record exists.
    store.pool_accounts.push(AccountEntry {
        owner: "carol".to_string(),
        pool_id: 0,
        account: PoolAccount { balance: 5 },
    });
    let ctx = ctx_with_funds("carol", 0, 150);
    let params = SellParams { amounts: vec![PoolAmount { pool_id: 0, amount: 5 }] };
    let resp = exec_sell(&mut store, &ctx, params).expect("sell");
    assert_eq!(resp.out_amount, 5);
    assert_eq!(store.trader_infos.len(), 1);
    assert_eq!(store.trader_infos[0].owner, "carol");
    assert_eq!(store.trader_infos[0].info.stats.num_sells, 1);
    assert_eq!(store.trader_infos[0].info.stats.num_buys, 0);
    assert_eq!(store.trader_infos[0].info.stats.quote_amount_out, 5);
}
