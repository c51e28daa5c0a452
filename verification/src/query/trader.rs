//! One trader's per-pool balances and aggregate statistics.
use vstd::prelude::*;

use crate::error::ContractError;
use crate::msg::{PoolBalance, TraderResponse};
use crate::state::storage::{
    account_balance, find_account, find_trader, has_trader, store_wf, trader_index, Store, StoreS,
};

verus! {

/// The balance rows of `owner`, in pool-identifier order, one row per
/// pool in which an account exists.
pub open spec fn spec_balances(s: StoreS, owner: Seq<char>, i: int) -> Seq<PoolBalance>
    decreases i,
{
    if i <= 0 {
        Seq::empty()
    } else {
        let pre = spec_balances(s, owner, i - 1);
        match account_balance(s.pool_accounts, (owner, (i - 1) as u8)) {
            Some(b) => pre.push(PoolBalance { pool: (i - 1) as u8, amount: b }),
            None => pre,
        }
    }
}

/// The trader's aggregate statistics and per-pool balances; a trader
/// without a record is not found.
pub fn query_trader(store: &Store, address: &String) -> (r: Result<TraderResponse, ContractError>)
    requires
        store_wf(store@),
    ensures
        match r {
            Ok(tr) => has_trader(store@.trader_infos, address@) && tr.stats
                == store@.trader_infos[trader_index(store@.trader_infos, address@)].info.stats
                && tr.balances@ == spec_balances(store@, address@, store@.pools.len() as int),
            Err(e) => !has_trader(store@.trader_infos, address@) && e is Std,
        },
{
    let info = match find_trader(&store.trader_infos, address) {
        Some(i) => store.trader_infos[i].info,
        None => {
            return Err(ContractError::Std { msg: "trader not found".to_owned() });
        },
    };
    let n = store.pools.len();
    let mut balances: Vec<PoolBalance> = Vec::new();
    let mut p: usize = 0;
    while p < n
        invariant
            n == store.pools@.len(),
            p <= n,
            store_wf(store@),
            balances@ == spec_balances(store@, address@, p as int),
        decreases n - p,
    {
        match find_account(&store.pool_accounts, address, p as u8) {
            Some(i) => {
                balances.push(
                    PoolBalance { pool: p as u8, amount: store.pool_accounts[i].account.balance },
                );
            },
            None => {},
        }
        p += 1;
    }
    Ok(TraderResponse { balances, stats: info.stats })
}

} // verus!
