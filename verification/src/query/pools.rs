//! Listing of every pool with its metadata, reserves and statistics.
use vstd::prelude::*;

use crate::msg::{PoolBizObject, PoolsResponse};
use crate::state::storage::{dup_opt_string, store_wf, PoolId, Store, StoreS};

verus! {

/// The listing row of pool `i`: its metadata, current reserves, genesis
/// data and statistics, and whether it is the designated winner.
pub open spec fn spec_pool_biz(s: StoreS, winning_pool_id: PoolId, i: int) -> PoolBizObject {
    PoolBizObject {
        id: i as u8,
        symbol: s.pool_infos[i].symbol,
        name: s.pool_infos[i].name,
        description: s.pool_infos[i].description,
        image: s.pool_infos[i].image,
        reserves: s.pools[i].reserves,
        winner: i == winning_pool_id as int,
        offset: s.pools[i].offset,
        supply: s.pools[i].supply,
        stats: s.pool_stats[i],
    }
}

/// List all pools in identifier order, with the global counters.
pub fn query_pools(store: &Store, winning_pool_id: PoolId) -> (r: PoolsResponse)
    requires
        store_wf(store@),
    ensures
        r.stats == store.market_stats,
        r.pools@.len() == store.pools@.len(),
        forall|i: int|
            0 <= i < r.pools@.len() ==> r.pools@[i] == spec_pool_biz(store@, winning_pool_id, i),
{
    let n = store.pools.len();
    let mut pools: Vec<PoolBizObject> = Vec::new();
    let mut i: usize = 0;
    while i < n
        invariant
            n == store.pools@.len(),
            i <= n,
            store_wf(store@),
            pools@.len() == i,
            forall|j: int| 0 <= j < i ==> pools@[j] == spec_pool_biz(store@, winning_pool_id, j),
        decreases n - i,
    {
        let info = &store.pool_infos[i];
        let pool = store.pools[i];
        pools.push(
            PoolBizObject {
                id: i as u8,
                symbol: info.symbol.clone(),
                name: info.name.clone(),
                description: dup_opt_string(&info.description),
                image: dup_opt_string(&info.image),
                reserves: pool.reserves,
                winner: i == winning_pool_id as usize,
                offset: pool.offset,
                supply: pool.supply,
                stats: store.pool_stats[i],
            },
        );
        i += 1;
    }
    PoolsResponse { pools, stats: store.market_stats }
}

} // verus!
