//! Supply conservation: every unit of base that has left a pool is
//! recorded in exactly one ledger balance, so a pool's base reserve plus
//! the balances held against it always equals its genesis supply — and the
//! base reserve therefore never exceeds the supply.
use vstd::prelude::*;

use crate::execute::buy::{spec_buy_batch, spec_buy_instr, spec_exec_buy};
use crate::execute::claim::spec_exec_claim;
use crate::execute::sell::{spec_exec_sell, spec_sell_batch, spec_sell_instr};
use crate::execute::swap::spec_exec_swap;
use crate::math;
use crate::msg::{PoolAmount, SwapParams};
use crate::state::models::PoolAccount;
use crate::state::spec_init;
use crate::state::storage::{
    account_index, accounts_unique, acct_key, has_account, AccountEntry, PoolId, StoreS,
};
use crate::state::utils::spec_resolve_initiator;
use crate::token::Coin;

verus! {

/// What one ledger entry contributes to the balances held against `pid`.
pub open spec fn balance_contrib(e: AccountEntry, pid: PoolId) -> int {
    if e.pool_id == pid {
        e.account.balance as int
    } else {
        0
    }
}

/// The total balance held against pool `pid` across the whole ledger.
pub open spec fn sum_balances(s: Seq<AccountEntry>, pid: PoolId) -> int
    decreases s.len(),
{
    if s.len() == 0 {
        0
    } else {
        balance_contrib(s[0], pid) + sum_balances(s.drop_first(), pid)
    }
}

/// Every pool's distributed base is exactly the total of the balances
/// held against it.
pub open spec fn reserves_accounted(s: StoreS) -> bool {
    forall|p: int|
        0 <= p < s.pools.len() ==> (#[trigger] s.pools[p]).reserves.base + sum_balances(
            s.pool_accounts,
            p as u8,
        ) == s.pools[p].supply as int
}

/// What the conservation argument needs of a store: few enough pools for
/// their identifiers, a well-keyed ledger, and no balance held against a
/// pool that does not exist.
pub open spec fn ledger_wf(s: StoreS) -> bool {
    &&& s.pools.len() <= 256
    &&& s.pool_stats.len() == s.pools.len()
    &&& accounts_unique(s.pool_accounts)
    &&& forall|j: int|
        0 <= j < s.pool_accounts.len() ==> (#[trigger] s.pool_accounts[j]).pool_id < s.pools.len()
}

pub proof fn lemma_sum_nonneg(s: Seq<AccountEntry>, pid: PoolId)
    ensures
        sum_balances(s, pid) >= 0,
    decreases s.len(),
{
    if s.len() > 0 {
        lemma_sum_nonneg(s.drop_first(), pid);
    }
}

pub proof fn lemma_sum_push(s: Seq<AccountEntry>, e: AccountEntry, pid: PoolId)
    ensures
        sum_balances(s.push(e), pid) == sum_balances(s, pid) + balance_contrib(e, pid),
    decreases s.len(),
{
    if s.len() == 0 {
        assert(s.push(e)[0] == e);
        assert(s.push(e).drop_first() =~= Seq::<AccountEntry>::empty());
        assert(sum_balances(s.push(e), pid) == balance_contrib(s.push(e)[0], pid) + sum_balances(
            s.push(e).drop_first(),
            pid,
        ));
        assert(sum_balances(Seq::<AccountEntry>::empty(), pid) == 0);
    } else {
        assert(s.push(e)[0] == s[0]);
        assert(s.push(e).drop_first() =~= s.drop_first().push(e));
        assert(sum_balances(s.push(e), pid) == balance_contrib(s.push(e)[0], pid) + sum_balances(
            s.push(e).drop_first(),
            pid,
        ));
        lemma_sum_push(s.drop_first(), e, pid);
        assert(sum_balances(s, pid) == balance_contrib(s[0], pid) + sum_balances(
            s.drop_first(),
            pid,
        ));
    }
}

pub proof fn lemma_sum_update(s: Seq<AccountEntry>, i: int, e: AccountEntry, pid: PoolId)
    requires
        0 <= i < s.len(),
    ensures
        sum_balances(s.update(i, e), pid) == sum_balances(s, pid) - balance_contrib(s[i], pid)
            + balance_contrib(e, pid),
    decreases s.len(),
{
    if i == 0 {
        assert(s.update(0, e)[0] == e);
        assert(s.update(0, e).drop_first() =~= s.drop_first());
    } else {
        assert(s.update(i, e)[0] == s[0]);
        assert(s.update(i, e).drop_first() =~= s.drop_first().update(i - 1, e));
        lemma_sum_update(s.drop_first(), i - 1, e, pid);
    }
}

/// What a successful upsert does to the per-pool balance totals: the
/// touched pool's total moves by exactly the delta, every other pool's
/// total is unchanged, and the ledger stays well-keyed.
pub proof fn lemma_upsert_effect(
    s: Seq<AccountEntry>,
    owner: String,
    pool_id: PoolId,
    delta: u128,
    is_positive: bool,
    n: int,
)
    requires
        accounts_unique(s),
        PoolAccount::spec_upsert(s, owner, pool_id, delta, is_positive) is Ok,
        forall|j: int| 0 <= j < s.len() ==> (#[trigger] s[j]).pool_id < n,
        (pool_id as int) < n,
    ensures
        ({
            let s2 = PoolAccount::spec_upsert(s, owner, pool_id, delta, is_positive)->Ok_0.0;
            &&& accounts_unique(s2)
            &&& forall|j: int| 0 <= j < s2.len() ==> (#[trigger] s2[j]).pool_id < n
            &&& sum_balances(s2, pool_id) == sum_balances(s, pool_id) + (if is_positive {
                delta as int
            } else {
                -(delta as int)
            })
            &&& forall|p: PoolId|
                p != pool_id ==> #[trigger] sum_balances(s2, p) == sum_balances(s, p)
        }),
{
    let r = PoolAccount::spec_upsert(s, owner, pool_id, delta, is_positive)->Ok_0;
    let s2 = r.0;
    let key = (owner@, pool_id);
    if has_account(s, key) {
        let i = account_index(s, key);
        assert(0 <= i < s.len() && acct_key(s[i]) == key);
        let e2 = AccountEntry { account: r.1, ..s[i] };
        assert(s2 == s.update(i, e2));
        assert forall|p: PoolId| #[trigger] sum_balances(s2, p) == sum_balances(s, p)
            - balance_contrib(s[i], p) + balance_contrib(e2, p) by {
            lemma_sum_update(s, i, e2, p);
        }
        assert(s[i].pool_id == pool_id);
        assert forall|x: int, y: int| 0 <= x < y < s2.len() implies #[trigger] acct_key(s2[x])
            != #[trigger] acct_key(s2[y]) by {
            assert(acct_key(s[x]) != acct_key(s[y]));
            assert(acct_key(s2[x]) == acct_key(s[x]));
            assert(acct_key(s2[y]) == acct_key(s[y]));
        }
    } else if is_positive && delta == 0 {
        assert(s2 == s);
    } else {
        // A fresh account created by a nonzero credit.
        let e = AccountEntry { owner, pool_id, account: r.1 };
        assert(s2 == s.push(e));
        assert forall|p: PoolId| #[trigger] sum_balances(s2, p) == sum_balances(s, p)
            + balance_contrib(e, p) by {
            lemma_sum_push(s, e, p);
        }
        assert forall|x: int, y: int| 0 <= x < y < s2.len() implies #[trigger] acct_key(s2[x])
            != #[trigger] acct_key(s2[y]) by {
            if y < s2.len() - 1 {
                assert(acct_key(s[x]) != acct_key(s[y]));
            } else {
                assert(acct_key(s2[y]) == key);
                assert(acct_key(s2[x]) == acct_key(s[x]));
            }
        }
    }
}

/// One buy instruction keeps every pool accounted: the bought base moves
/// from the pool's reserve into the buyer's balance.
pub proof fn lemma_buy_instr_accounting(
    s: StoreS,
    buyer: String,
    time: u64,
    pa: PoolAmount,
    fee_acc: u128,
    in_acc: u128,
    out_acc: u128,
)
    requires
        ledger_wf(s),
        reserves_accounted(s),
        spec_buy_instr(s, buyer, time, pa, fee_acc, in_acc, out_acc) is Ok,
    ensures
        ({
            let s2 = spec_buy_instr(s, buyer, time, pa, fee_acc, in_acc, out_acc)->Ok_0.0;
            ledger_wf(s2) && reserves_accounted(s2) && s2.pools.len() == s.pools.len()
        }),
{
    let s2 = spec_buy_instr(s, buyer, time, pa, fee_acc, in_acc, out_acc)->Ok_0.0;
    let pid = pa.pool_id;
    let pool = s.pools[pid as int];
    let fee = math::spec_mul_ratio(pa.amount, s.buy_fee_pct, math::FEE_DENOM)->Some_0;
    let net = (pa.amount - fee) as u128;
    let st = pool.spec_swap(net, true)->Some_0;
    lemma_upsert_effect(s.pool_accounts, buyer, pid, st.1, true, s.pools.len() as int);
    assert(st.0.reserves.base as int == pool.reserves.base - st.1);
    assert(st.0.supply == pool.supply);
    assert forall|p: int| 0 <= p < s2.pools.len() implies (#[trigger] s2.pools[p]).reserves.base
        + sum_balances(s2.pool_accounts, p as u8) == s2.pools[p].supply as int by {
        assert((p as u8) as int == p);
        if p == pid as int {
            assert(s2.pools[p] == st.0);
        } else {
            assert(s2.pools[p] == s.pools[p]);
            assert(sum_balances(s2.pool_accounts, p as u8) == sum_balances(
                s.pool_accounts,
                p as u8,
            ));
        }
    }
}

/// A whole buy batch keeps every pool accounted.
pub proof fn lemma_buy_batch_accounting(
    s: StoreS,
    buyer: String,
    time: u64,
    amounts: Seq<PoolAmount>,
    i: int,
    fee_acc: u128,
    in_acc: u128,
    out_acc: u128,
)
    requires
        ledger_wf(s),
        reserves_accounted(s),
        spec_buy_batch(s, buyer, time, amounts, i, fee_acc, in_acc, out_acc) is Ok,
    ensures
        ({
            let s2 = spec_buy_batch(s, buyer, time, amounts, i, fee_acc, in_acc, out_acc)->Ok_0.0;
            ledger_wf(s2) && reserves_accounted(s2) && s2.pools.len() == s.pools.len()
        }),
    decreases amounts.len() - i,
{
    if i < amounts.len() {
        let step = spec_buy_instr(s, buyer, time, amounts[i], fee_acc, in_acc, out_acc)->Ok_0;
        lemma_buy_instr_accounting(s, buyer, time, amounts[i], fee_acc, in_acc, out_acc);
        lemma_buy_batch_accounting(step.0, buyer, time, amounts, i + 1, step.1, step.2, step.3);
    }
}

/// Supply conservation through a buy: each pool's base reserve plus the
/// balances held against it still equals its supply, so no base reserve
/// exceeds its supply.
pub proof fn lemma_exec_buy_accounting(
    s: StoreS,
    sender: String,
    funds: Seq<Coin>,
    time: u64,
    amounts: Seq<PoolAmount>,
    initiator: Option<String>,
)
    requires
        ledger_wf(s),
        reserves_accounted(s),
        spec_exec_buy(s, sender, funds, time, amounts, initiator) is Ok,
    ensures
        ({
            let s2 = spec_exec_buy(s, sender, funds, time, amounts, initiator)->Ok_0.0;
            ledger_wf(s2) && reserves_accounted(s2) && forall|p: int|
                0 <= p < s2.pools.len() ==> (#[trigger] s2.pools[p]).reserves.base
                    <= s2.pools[p].supply
        }),
{
    let s2 = spec_exec_buy(s, sender, funds, time, amounts, initiator)->Ok_0.0;
    let buyer = spec_resolve_initiator(s.operator_addr, sender, initiator)->Ok_0;
    lemma_buy_batch_accounting(s, buyer, time, amounts, 0, 0, 0, 0);
    assert forall|p: int| 0 <= p < s2.pools.len() implies (#[trigger] s2.pools[p]).reserves.base
        <= s2.pools[p].supply by {
        lemma_sum_nonneg(s2.pool_accounts, p as u8);
    }
}

/// One sell instruction keeps every pool accounted: the debited balance
/// returns to the pool's base reserve.
pub proof fn lemma_sell_instr_accounting(
    s: StoreS,
    seller: String,
    pa: PoolAmount,
    in_acc: u128,
    out_acc: u128,
)
    requires
        ledger_wf(s),
        reserves_accounted(s),
        spec_sell_instr(s, seller, pa, in_acc, out_acc) is Ok,
    ensures
        ({
            let s2 = spec_sell_instr(s, seller, pa, in_acc, out_acc)->Ok_0.0;
            ledger_wf(s2) && reserves_accounted(s2) && s2.pools.len() == s.pools.len()
        }),
{
    let s2 = spec_sell_instr(s, seller, pa, in_acc, out_acc)->Ok_0.0;
    let pid = pa.pool_id;
    let pool = s.pools[pid as int];
    let st = pool.spec_swap(pa.amount, false)->Some_0;
    lemma_upsert_effect(s.pool_accounts, seller, pid, pa.amount, false, s.pools.len() as int);
    assert(st.0.reserves.base as int == pool.reserves.base + pa.amount);
    assert(st.0.supply == pool.supply);
    assert forall|p: int| 0 <= p < s2.pools.len() implies (#[trigger] s2.pools[p]).reserves.base
        + sum_balances(s2.pool_accounts, p as u8) == s2.pools[p].supply as int by {
        assert((p as u8) as int == p);
        if p == pid as int {
            assert(s2.pools[p] == st.0);
        } else {
            assert(s2.pools[p] == s.pools[p]);
            assert(sum_balances(s2.pool_accounts, p as u8) == sum_balances(
                s.pool_accounts,
                p as u8,
            ));
        }
    }
}

/// A whole sell batch keeps every pool accounted.
pub proof fn lemma_sell_batch_accounting(
    s: StoreS,
    seller: String,
    amounts: Seq<PoolAmount>,
    i: int,
    in_acc: u128,
    out_acc: u128,
)
    requires
        ledger_wf(s),
        reserves_accounted(s),
        spec_sell_batch(s, seller, amounts, i, in_acc, out_acc) is Ok,
    ensures
        ({
            let s2 = spec_sell_batch(s, seller, amounts, i, in_acc, out_acc)->Ok_0.0;
            ledger_wf(s2) && reserves_accounted(s2) && s2.pools.len() == s.pools.len()
        }),
    decreases amounts.len() - i,
{
    if i < amounts.len() {
        let step = spec_sell_instr(s, seller, amounts[i], in_acc, out_acc)->Ok_0;
        lemma_sell_instr_accounting(s, seller, amounts[i], in_acc, out_acc);
        lemma_sell_batch_accounting(step.0, seller, amounts, i + 1, step.1, step.2);
    }
}

/// Supply conservation through a sell. In particular, a sell can never
/// push a pool's base reserve above its supply: the debit that precedes
/// the curve call limits what can be sold back to what was bought.
pub proof fn lemma_exec_sell_accounting(
    s: StoreS,
    seller: String,
    amounts: Seq<PoolAmount>,
)
    requires
        ledger_wf(s),
        reserves_accounted(s),
        spec_exec_sell(s, seller, amounts) is Ok,
    ensures
        ({
            let s2 = spec_exec_sell(s, seller, amounts)->Ok_0.0;
            ledger_wf(s2) && reserves_accounted(s2) && forall|p: int|
                0 <= p < s2.pools.len() ==> (#[trigger] s2.pools[p]).reserves.base
                    <= s2.pools[p].supply
        }),
{
    let s2 = spec_exec_sell(s, seller, amounts)->Ok_0.0;
    lemma_sell_batch_accounting(s, seller, amounts, 0, 0, 0);
    assert forall|p: int| 0 <= p < s2.pools.len() implies (#[trigger] s2.pools[p]).reserves.base
        <= s2.pools[p].supply by {
        lemma_sum_nonneg(s2.pool_accounts, p as u8);
    }
}

/// Supply conservation through a swap: the debited base returns to the
/// source pool, the bought base moves out of the destination pool into
/// the trader's balance. (A successful swap is always between two
/// distinct pools: a pool cannot be reallocated into itself.)
pub proof fn lemma_exec_swap_accounting(s: StoreS, sender: String, time: u64, params: SwapParams)
    requires
        ledger_wf(s),
        reserves_accounted(s),
        spec_exec_swap(s, sender, time, params) is Ok,
    ensures
        ({
            let s2 = spec_exec_swap(s, sender, time, params)->Ok_0.0;
            ledger_wf(s2) && reserves_accounted(s2) && forall|p: int|
                0 <= p < s2.pools.len() ==> (#[trigger] s2.pools[p]).reserves.base
                    <= s2.pools[p].supply
        }),
{
    let s2 = spec_exec_swap(s, sender, time, params)->Ok_0.0;
    let from_id = params.from_pool;
    let to_id = params.to_pool;
    assert(from_id != to_id);
    let fp = s.pools[from_id as int];
    let tp = s.pools[to_id as int];
    let fst = fp.spec_swap(params.from_amount, false)->Some_0;
    let fee = math::spec_mul_ratio(fst.1, s.swap_fee_pct, math::FEE_DENOM)->Some_0;
    let tst = tp.spec_swap((fst.1 - fee) as u128, true)->Some_0;
    lemma_upsert_effect(
        s.pool_accounts,
        sender,
        from_id,
        params.from_amount,
        false,
        s.pools.len() as int,
    );
    let d = PoolAccount::spec_upsert(s.pool_accounts, sender, from_id, params.from_amount, false)->Ok_0;
    lemma_upsert_effect(d.0, sender, to_id, tst.1, true, s.pools.len() as int);
    assert(fst.0.reserves.base as int == fp.reserves.base + params.from_amount);
    assert(fst.0.supply == fp.supply);
    assert(tst.0.reserves.base as int == tp.reserves.base - tst.1);
    assert(tst.0.supply == tp.supply);
    assert forall|p: int| 0 <= p < s2.pools.len() implies (#[trigger] s2.pools[p]).reserves.base
        + sum_balances(s2.pool_accounts, p as u8) == s2.pools[p].supply as int by {
        assert((p as u8) as int == p);
        if p == from_id as int {
            assert(s2.pools[p] == fst.0);
            assert(sum_balances(d.0, p as u8) == sum_balances(s.pool_accounts, p as u8) - (
            params.from_amount as int));
            assert(sum_balances(s2.pool_accounts, p as u8) == sum_balances(d.0, p as u8));
        } else if p == to_id as int {
            assert(s2.pools[p] == tst.0);
            assert(sum_balances(d.0, p as u8) == sum_balances(s.pool_accounts, p as u8));
            assert(sum_balances(s2.pool_accounts, p as u8) == sum_balances(d.0, p as u8) + (
            tst.1 as int));
        } else {
            assert(s2.pools[p] == s.pools[p]);
            assert(sum_balances(d.0, p as u8) == sum_balances(s.pool_accounts, p as u8));
            assert(sum_balances(s2.pool_accounts, p as u8) == sum_balances(d.0, p as u8));
        }
    }
    assert forall|p: int| 0 <= p < s2.pools.len() implies (#[trigger] s2.pools[p]).reserves.base
        <= s2.pools[p].supply by {
        lemma_sum_nonneg(s2.pool_accounts, p as u8);
    }
}

/// A claim touches neither reserves nor balances, so conservation carries
/// over unchanged.
pub proof fn lemma_exec_claim_accounting(
    s: StoreS,
    sender: String,
    time: u64,
    winning_pool_id: PoolId,
)
    requires
        ledger_wf(s),
        reserves_accounted(s),
        spec_exec_claim(s, sender, time, winning_pool_id) is Ok,
    ensures
        ({
            let s2 = spec_exec_claim(s, sender, time, winning_pool_id)->Ok_0.0;
            ledger_wf(s2) && reserves_accounted(s2)
        }),
{
}

/// A fresh market is accounted: every pool still holds its whole supply
/// and the ledger is empty.
pub proof fn lemma_init_accounting(msg: crate::msg::InstantiateMsg, sender: String)
    requires
        spec_init(msg, sender) is Ok,
    ensures
        ({
            let s = spec_init(msg, sender)->Ok_0;
            ledger_wf(s) && reserves_accounted(s)
        }),
{
}

} // verus!
