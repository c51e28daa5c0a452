//! Market state: the data model, the explicit store handle, and top-level
//! initialization.
pub mod models;
pub mod storage;
pub mod utils;

use vstd::prelude::*;

use crate::error::{ContractError, ErrorClass};
use crate::execute::Context;
use crate::math;
use crate::msg::{InstantiateMsg, PoolStats};
use crate::state::models::{MarketStats, Pool, PoolInfo, PoolReserves};
use crate::state::storage::{dup_opt_string, store_wf, Store, StoreS};

verus! {

/// A pool at genesis: reserves as supplied by the caller, the offset and
/// supply recording the initial quote and base reserve, and `k` fixed as
/// their product.
pub open spec fn spec_pool_genesis(r: PoolReserves) -> Pool {
    Pool {
        reserves: r,
        offset: r.quote,
        supply: r.base,
        k: math::spec_u256_of(r.base * r.quote),
    }
}

/// Zeroed per-pool counters.
pub open spec fn spec_zero_pool_stats() -> PoolStats {
    PoolStats {
        num_buys: 0,
        num_sells: 0,
        num_traders: 0,
        quote_amount_in: math::U256 { hi: 0, lo: 0 },
        quote_amount_out: math::U256 { hi: 0, lo: 0 },
        base_amount_in: math::U256 { hi: 0, lo: 0 },
        base_amount_out: math::U256 { hi: 0, lo: 0 },
        fees_collected: 0,
    }
}

/// What initialization yields: every pool created with a sequential
/// identifier starting at zero, configuration persisted, all counters
/// zeroed, the sender standing in for a missing fee manager. Supplying
/// more pools than there are identifiers is rejected.
pub open spec fn spec_init(msg: InstantiateMsg, sender: String) -> Result<StoreS, ErrorClass> {
    if msg.pools@.len() > 256 {
        Err(ErrorClass::Validation)
    } else {
        Ok(
            StoreS {
                quote_token: msg.quote_token,
                quote_decimals: msg.quote_decimals,
                quote_symbol: msg.quote_symbol,
                buy_fee_pct: msg.fees.pct_buy,
                sell_fee_pct: msg.fees.pct_sell,
                swap_fee_pct: msg.fees.pct_swap,
                fee_manager_addr: match msg.fees.manager {
                    Some(m) => m,
                    None => sender,
                },
                operator_addr: msg.operator,
                start_time: msg.start,
                stop_time: msg.stop,
                market_stats: MarketStats { amount_claimed: 0, num_traders: 0 },
                pools: Seq::new(
                    msg.pools@.len(),
                    |i: int| spec_pool_genesis(msg.pools@[i].reserves),
                ),
                pool_infos: Seq::new(
                    msg.pools@.len(),
                    |i: int|
                        PoolInfo {
                            symbol: msg.pools@[i].symbol,
                            name: msg.pools@[i].name,
                            description: msg.pools@[i].description,
                            image: msg.pools@[i].image,
                        },
                ),
                pool_stats: Seq::new(msg.pools@.len(), |i: int| spec_zero_pool_stats()),
                pool_accounts: Seq::empty(),
                trader_infos: Seq::empty(),
                swap_stats: Seq::empty(),
                pool_ohlc_bars: Seq::empty(),
                has_claimed: Seq::empty(),
            },
        )
    }
}

/// Top-level initialization of market state.
pub fn init(ctx: &Context, msg: InstantiateMsg) -> (r: Result<Store, ContractError>)
    ensures
        match spec_init(msg, ctx.sender) {
            Ok(ss) => r matches Ok(store) && store@ == ss && store_wf(store@),
            Err(k) => r matches Err(e) && e.class() == k,
        },
{
    let InstantiateMsg {
        start,
        stop,
        quote_token,
        quote_decimals,
        quote_symbol,
        operator,
        pools: pool_args,
        fees,
    } = msg;
    if pool_args.len() > 256 {
        return Err(ContractError::ValidationError {
            msg: "more pools than identifiers available".to_owned(),
        });
    }
    let n = pool_args.len();
    let mut pools: Vec<Pool> = Vec::new();
    let mut pool_infos: Vec<PoolInfo> = Vec::new();
    let mut pool_stats: Vec<PoolStats> = Vec::new();
    let mut i: usize = 0;
    while i < n
        invariant
            n == pool_args@.len(),
            i <= n,
            pool_args@ == msg.pools@,
            pools@.len() == i,
            pool_infos@.len() == i,
            pool_stats@.len() == i,
            forall|j: int| 0 <= j < i ==> pools@[j] == spec_pool_genesis(pool_args@[j].reserves),
            forall|j: int|
                0 <= j < i ==> pool_infos@[j] == (PoolInfo {
                    symbol: pool_args@[j].symbol,
                    name: pool_args@[j].name,
                    description: pool_args@[j].description,
                    image: pool_args@[j].image,
                }),
            forall|j: int| 0 <= j < i ==> pool_stats@[j] == spec_zero_pool_stats(),
            forall|j: int| 0 <= j < i ==> (#[trigger] pools@[j]).curve_wf(),
        decreases n - i,
    {
        let a = &pool_args[i];
        let k = math::mul_u256(a.reserves.base, a.reserves.quote);
        proof {
            k.lemma_limbs();
        }
        pools.push(
            Pool { reserves: a.reserves, offset: a.reserves.quote, supply: a.reserves.base, k },
        );
        pool_stats.push(
            PoolStats {
                num_buys: 0,
                num_sells: 0,
                num_traders: 0,
                quote_amount_in: math::U256 { hi: 0, lo: 0 },
                quote_amount_out: math::U256 { hi: 0, lo: 0 },
                base_amount_in: math::U256 { hi: 0, lo: 0 },
                base_amount_out: math::U256 { hi: 0, lo: 0 },
                fees_collected: 0,
            },
        );
        pool_infos.push(
            PoolInfo {
                symbol: a.symbol.clone(),
                name: a.name.clone(),
                description: dup_opt_string(&a.description),
                image: dup_opt_string(&a.image),
            },
        );
        i += 1;
    }
    let store = Store {
        quote_token,
        quote_decimals,
        quote_symbol,
        buy_fee_pct: fees.pct_buy,
        sell_fee_pct: fees.pct_sell,
        swap_fee_pct: fees.pct_swap,
        fee_manager_addr: match fees.manager {
            Some(m) => m,
            None => ctx.sender.clone(),
        },
        operator_addr: operator,
        start_time: start,
        stop_time: stop,
        market_stats: MarketStats { amount_claimed: 0, num_traders: 0 },
        pools,
        pool_infos,
        pool_stats,
        pool_accounts: Vec::new(),
        trader_infos: Vec::new(),
        swap_stats: Vec::new(),
        pool_ohlc_bars: Vec::new(),
        has_claimed: Vec::new(),
    };
    proof {
        let ss = spec_init(msg, ctx.sender)->Ok_0;
        assert(store@.pools =~= ss.pools);
        assert(store@.pool_infos =~= ss.pool_infos);
        assert(store@.pool_stats =~= ss.pool_stats);
        assert(store@ =~= ss);
    }
    Ok(store)
}

} // verus!
