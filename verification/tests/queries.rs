use pamp::error::ContractError;
use pamp::execute::buy::exec_buy;
use pamp::execute::Context;
use pamp::msg::{BuyParams, FeeInitArgs, InstantiateMsg, PoolAmount, PoolInitArgs};
use pamp::query::account::query_account;
use pamp::query::pools::query_pools;
use pamp::query::trader::query_trader;
use pamp::state::init;
use pamp::state::models::PoolReserves;
use pamp::state::storage::Store;
use pamp::token::{Coin, Token};

fn market_with_two_pools() -> Store {
    let msg = InstantiateMsg {
        start: 0,
        stop: 1_000,
        quote_token: Token::Denom("uquote".to_string()),
        quote_decimals: 6,
        quote_symbol: "QUOTE".to_string(),
        operator: None,
        pools: vec![
            PoolInitArgs {
                symbol: "AAA".to_string(),
                name: "First".to_string(),
                description: Some("first pool".to_string()),
                image: None,
                reserves: PoolReserves { base: 1_000_000, quote: 1_000_000 },
            },
            PoolInitArgs {
                symbol: "BBB".to_string(),
                name: "Second".to_string(),
                description: None,
                image: None,
                reserves: PoolReserves { base: 2_000_000, quote: 500_000 },
            },
        ],
        fees: FeeInitArgs { manager: None, pct_swap: 0, pct_buy: 0, pct_sell: 0 },
    };
    let ctx = Context { sender: "alice".to_string(), funds: vec![], time: 0 };
    init(&ctx, msg).expect("init")
}

fn buy(store: &mut Store, sender: &str, pool_id: u8, amount: u128) {
    let ctx = Context {
        sender: sender.to_string(),
        funds: vec![Coin { denom: "uquote".to_string(), amount }],
        time: 61,
    };
    let params = BuyParams { amounts: vec![PoolAmount { pool_id, amount }], initiator: None };
    exec_buy(store, &ctx, params).expect("buy");
}

#[test]
fn query_pools_lists_ids_metadata_and_winner() {
    let store = market_with_two_pools();
    let resp = query_pools(&store, 1);
    assert_eq!(resp.pools.len(), 2);
    assert_eq!(resp.pools[0].id, 0);
    assert_eq!(resp.pools[0].symbol, "AAA");
    assert_eq!(resp.pools[0].description.as_deref(), Some("first pool"));
    assert!(!resp.pools[0].winner);
    assert_eq!(resp.pools[1].id, 1);
    assert_eq!(resp.pools[1].symbol, "BBB");
    assert!(resp.pools[1].winner);
    assert_eq!(resp.pools[1].reserves.base, 2_000_000);
    assert_eq!(resp.pools[1].offset, 500_000);
    assert_eq!(resp.pools[1].supply, 2_000_000);
    assert_eq!(resp.stats.num_traders, 0);
}

#[test]
fn query_trader_reports_balances_and_stats() {
    let mut store = market_with_two_pools();
    buy(&mut store, "bob", 1, 500);
    buy(&mut store, "bob", 0, 1_000);
    let resp = query_trader(&store, &"bob".to_string()).expect("trader");
    assert_eq!(resp.stats.num_buys, 2);
    assert_eq!(resp.stats.quote_amount_in, 1_500);
    // Balances come back in pool-identifier order even though pool 1 was
    // bought first.
    assert_eq!(resp.balances.len(), 2);
    assert_eq!(resp.balances[0].pool, 0);
    assert_eq!(resp.balances[0].amount, 1_000);
    assert_eq!(resp.balances[1].pool, 1);
    // floor(10^12 / 500_500) = 1_998_001, so 1_999 base left pool 1.
    assert_eq!(resp.balances[1].amount, 1_999);
}

#[test]
fn query_trader_unknown_is_not_found() {
    let store = market_with_two_pools();
    let err = query_trader(&store, &"nobody".to_string()).unwrap_err();
    assert!(matches!(err, ContractError::Std { .. }));
}

#[test]
fn query_account_lists_only_existing_accounts() {
    let mut store = market_with_two_pools();
    buy(&mut store, "bob", 1, 500);
    let resp = query_account(&store, &"bob".to_string());
    assert_eq!(resp.balances.len(), 1);
    assert_eq!(resp.balances[0].pool, 1);
    assert_eq!(resp.balances[0].balance, 1_999);
    let empty = query_account(&store, &"nobody".to_string());
    assert!(empty.balances.is_empty());
}

#[test]
fn ohlc_bars_bucket_by_minute() {
    let mut store = market_with_two_pools();
    // Two trades inside the 60..120 bucket, one at 120 in the next.
    buy(&mut store, "bob", 0, 1_000);  // time 61
    let ctx = Context {
        sender: "bob".to_string(),
        funds: vec![Coin { denom: "uquote".to_string(), amount: 1_000 }],
        time: 119,
    };
    let params = BuyParams { amounts: vec![PoolAmount { pool_id: 0, amount: 1_000 }], initiator: None };
    exec_buy(&mut store, &ctx, params).expect("buy");
    let ctx2 = Context {
        sender: "bob".to_string(),
        funds: vec![Coin { denom: "uquote".to_string(), amount: 500 }],
        time: 120,
    };
    let params2 = BuyParams { amounts: vec![PoolAmount { pool_id: 0, amount: 500 }], initiator: None };
    exec_buy(&mut store, &ctx2, params2).expect("buy");

    assert_eq!(store.pool_ohlc_bars.len(), 2);
    let first = store.pool_ohlc_bars[0];
    assert_eq!(first.pool_id, 0);
    assert_eq!(first.bar.t, 60);
    assert_eq!(first.bar.n, 2);
    // Price after the first trade: floor(1_001_000 * 10^6 / 999_000).
    assert_eq!(first.bar.o, 1_002_002);
    assert_eq!(first.bar.l, 1_002_002);
    // Price after the second trade: floor(1_002_000 * 10^6 / 998_003).
    assert_eq!(first.bar.h, 1_004_004);
    assert_eq!(first.bar.c, 1_004_004);
    // Volume counts base handed out: 1_000 + 997.
    assert_eq!(first.bar.v, 1_997);
    let second = store.pool_ohlc_bars[1];
    assert_eq!(second.bar.t, 120);
    assert_eq!(second.bar.n, 1);
    assert_eq!(second.bar.o, second.bar.c);
}

#[test]
fn token_accessors_and_instructions() {
    let denom = Token::Denom("uquote".to_string());
    let contract = Token::Address("cw20contract".to_string());
    assert_eq!(denom.to_key(), "uquote");
    assert_eq!(contract.to_key(), "cw20contract");
    assert_eq!(denom.get_denom().as_deref(), Some("uquote"));
    assert!(denom.get_address().is_none());
    assert_eq!(contract.get_address().as_deref(), Some("cw20contract"));
    assert!(contract.get_denom().is_none());

    let funds = vec![
        Coin { denom: "uother".to_string(), amount: 10 },
        Coin { denom: "uquote".to_string(), amount: 100 },
    ];
    assert!(denom.has_in_funds(&funds, Some(100)));
    assert!(denom.has_in_funds(&funds, Some(50)));
    assert!(!denom.has_in_funds(&funds, Some(101)));
    assert!(denom.has_in_funds(&funds, None));
    assert!(!contract.has_in_funds(&funds, None));

    let t = denom.transfer(&"bob".to_string(), 42);
    assert_eq!(t.recipient, "bob");
    assert_eq!(t.amount, 42);
    assert!(matches!(t.token, Token::Denom(ref d) if d == "uquote"));

    let burn = contract.burn(7).expect("burn");
    assert_eq!(burn.contract, "cw20contract");
    assert_eq!(burn.amount, 7);
    assert!(matches!(denom.burn(7), Err(ContractError::NotImplemented { .. })));
}
