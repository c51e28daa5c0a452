//! One account's per-pool balances, without trader statistics.
use vstd::prelude::*;

use crate::msg::{AccountResponse, PoolBalanceAppObject};
use crate::state::storage::{account_balance, find_account, store_wf, Store, StoreS};

verus! {

/// The balance rows of `owner`, in pool-identifier order.
pub open spec fn spec_account_balances(s: StoreS, owner: Seq<char>, i: int) -> Seq<
    PoolBalanceAppObject,
>
    decreases i,
{
    if i <= 0 {
        Seq::empty()
    } else {
        let pre = spec_account_balances(s, owner, i - 1);
        match account_balance(s.pool_accounts, (owner, (i - 1) as u8)) {
            Some(b) => pre.push(PoolBalanceAppObject { pool: (i - 1) as u8, balance: b }),
            None => pre,
        }
    }
}

/// Collect the account's balance in each pool where one exists.
pub fn query_account(store: &Store, address: &String) -> (r: AccountResponse)
    requires
        store_wf(store@),
    ensures
        r.balances@ == spec_account_balances(store@, address@, store@.pools.len() as int),
{
    let n = store.pools.len();
    let mut balances: Vec<PoolBalanceAppObject> = Vec::new();
    let mut p: usize = 0;
    while p < n
        invariant
            n == store.pools@.len(),
            p <= n,
            store_wf(store@),
            balances@ == spec_account_balances(store@, address@, p as int),
        decreases n - p,
    {
        match find_account(&store.pool_accounts, address, p as u8) {
            Some(i) => {
                balances.push(
                    PoolBalanceAppObject {
                        pool: p as u8,
                        balance: store.pool_accounts[i].account.balance,
                    },
                );
            },
            None => {},
        }
        p += 1;
    }
    AccountResponse { balances }
}

} // verus!
