//! Post-close settlement: a one-shot, pro-rata claim against the net quote
//! value accumulated across all pools, paid to holders of the designated
//! winning pool.
//!
//! The winning pool is chosen by an external adjudicator and handed in as a
//! parameter. The claimed flag is part of the committed result: when any
//! later step fails the whole store is left untouched, so a failed claim
//! can be retried and a successful one can never be replayed.
use vstd::prelude::*;

use crate::error::{ContractError, ErrorClass};
use crate::execute::{ClaimResponse, Context};
use crate::math;
use crate::state::models::{MarketStats, Pool};
use crate::state::storage::{
    account_balance, claimed_contains, claimed_key, dup_traders, find_account, has_claimed_flag,
    spec_trader_record_claim, store_wf, trader_record_claim, PoolId, Store, StoreS,
};
use crate::token::TransferMsg;

verus! {

/// The fold over all pools that settlement runs: `net` accumulates each
/// pool's quote reserve beyond its initial seed, and `bal` picks up
/// `supply - base` of the winning pool. Any underflow or overflow fails
/// the whole claim.
pub open spec fn spec_tally(
    pools: Seq<Pool>,
    winning_pool_id: PoolId,
    i: int,
    net: u128,
    bal: u128,
) -> Result<(u128, u128), ErrorClass>
    decreases pools.len() - i,
{
    if i >= pools.len() {
        Ok((net, bal))
    } else {
        let p = pools[i];
        if p.offset > p.reserves.quote {
            Err(ErrorClass::Internal)
        } else if net + (p.reserves.quote - p.offset) > u128::MAX {
            Err(ErrorClass::Internal)
        } else {
            let net2 = (net + p.reserves.quote - p.offset) as u128;
            if i == winning_pool_id as int {
                if p.reserves.base > p.supply {
                    Err(ErrorClass::Internal)
                } else {
                    spec_tally(
                        pools,
                        winning_pool_id,
                        i + 1,
                        net2,
                        (p.supply - p.reserves.base) as u128,
                    )
                }
            } else {
                spec_tally(pools, winning_pool_id, i + 1, net2, bal)
            }
        }
    }
}

/// What a claim by `sender` at `time` yields, with `winning_pool_id`
/// designated by the external adjudicator.
///
/// Checked in order: the close time must have been reached; the sender
/// must not have claimed before; the sender must hold a nonzero balance in
/// the winning pool. The payout is
/// `floor(net_winnings * balance / pool_balance)`; a winning pool that has
/// distributed nothing (`pool_balance == 0`) fails with an internal error
/// rather than dividing by zero.
pub open spec fn spec_exec_claim(
    s: StoreS,
    sender: String,
    time: u64,
    winning_pool_id: PoolId,
) -> Result<(StoreS, ClaimResponse), ErrorClass> {
    if time < s.stop_time {
        Err(ErrorClass::NotAuthorized)
    } else if has_claimed_flag(s.has_claimed, sender@) {
        Err(ErrorClass::NotAuthorized)
    } else {
        match account_balance(s.pool_accounts, (sender@, winning_pool_id)) {
            None => Err(ErrorClass::NotAuthorized),
            Some(bal) => if bal == 0 {
                Err(ErrorClass::NotAuthorized)
            } else {
                match spec_tally(s.pools, winning_pool_id, 0, 0, 0) {
                    Err(k) => Err(k),
                    Ok(t) => match math::spec_mul_ratio(t.0, bal, t.1) {
                        None => Err(ErrorClass::Internal),
                        Some(claim_amount) => match spec_trader_record_claim(
                            s.trader_infos,
                            sender,
                            claim_amount,
                        ) {
                            Err(k) => Err(k),
                            Ok(tr) => if s.market_stats.amount_claimed + claim_amount
                                > u128::MAX {
                                Err(ErrorClass::Internal)
                            } else {
                                Ok(
                                    (
                                        StoreS {
                                            trader_infos: tr.0,
                                            market_stats: MarketStats {
                                                amount_claimed: (s.market_stats.amount_claimed
                                                    + claim_amount) as u128,
                                                num_traders: s.market_stats.num_traders,
                                            },
                                            has_claimed: s.has_claimed.push(sender),
                                            ..s
                                        },
                                        ClaimResponse {
                                            claim_amount,
                                            transfer: TransferMsg {
                                                token: s.quote_token,
                                                recipient: sender,
                                                amount: claim_amount,
                                            },
                                        },
                                    ),
                                )
                            },
                        },
                    },
                }
            },
        }
    }
}

/// Settle the sender's share of the winning pool, once.
pub fn exec_claim(store: &mut Store, ctx: &Context, winning_pool_id: PoolId) -> (r: Result<
    ClaimResponse,
    ContractError,
>)
    requires
        store_wf(old(store)@),
    ensures
        store_wf(final(store)@),
        match spec_exec_claim(old(store)@, ctx.sender, ctx.time, winning_pool_id) {
            Ok(pr) => r matches Ok(resp) && resp == pr.1 && final(store)@ == pr.0,
            Err(k) => r matches Err(e) && e.class() == k && *final(store) == *old(store),
        },
{
    // Ensure that the pool close time has been reached.
    if ctx.time < store.stop_time {
        return Err(ContractError::NotAuthorized {
            msg: "the pool is still actively trading".to_owned(),
        });
    }
    // Ensure the sender has not already claimed.
    if claimed_contains(&store.has_claimed, &ctx.sender) {
        return Err(ContractError::NotAuthorized { msg: "already claimed".to_owned() });
    }
    // Ensure the sender holds a nonzero balance in the winning pool.
    let balance: u128 = match find_account(&store.pool_accounts, &ctx.sender, winning_pool_id) {
        Some(i) => store.pool_accounts[i].account.balance,
        None => {
            return Err(ContractError::NotAuthorized { msg: "nothing to claim".to_owned() });
        },
    };
    if balance == 0 {
        return Err(ContractError::NotAuthorized { msg: "nothing to claim".to_owned() });
    }
    // Net quote winnings across all pools, and the winning pool's
    // distributed base balance.
    let mut net_winnings: u128 = 0;
    let mut pool_balance: u128 = 0;
    let n = store.pools.len();
    let mut i: usize = 0;
    while i < n
        invariant
            n == store.pools@.len(),
            i <= n,
            *store == *old(store),
            store_wf(store@),
            ctx.time >= store@.stop_time,
            !has_claimed_flag(store@.has_claimed, ctx.sender@),
            account_balance(store@.pool_accounts, (ctx.sender@, winning_pool_id)) == Some(balance),
            balance > 0,
            spec_tally(store.pools@, winning_pool_id, i as int, net_winnings, pool_balance)
                == spec_tally(store.pools@, winning_pool_id, 0, 0, 0),
        decreases n - i,
    {
        let p = store.pools[i];
        let gain = math::sub_u128(p.reserves.quote, p.offset)?;
        net_winnings = math::add_u128(net_winnings, gain)?;
        if i == winning_pool_id as usize {
            pool_balance = math::sub_u128(p.supply, p.reserves.base)?;
        }
        i += 1;
    }
    // The sender's pro-rata share; a zero pool balance is refused.
    let claim_amount = math::mul_ratio_u128(net_winnings, balance, pool_balance)?;
    // Record the payout on the trader and globally, then set the flag.
    let mut traders2 = dup_traders(&store.trader_infos);
    let _info = trader_record_claim(&mut traders2, &ctx.sender, claim_amount)?;
    let new_total = math::add_u128(store.market_stats.amount_claimed, claim_amount)?;
    store.trader_infos = traders2;
    store.market_stats.amount_claimed = new_total;
    store.has_claimed.push(ctx.sender.clone());
    let resp = ClaimResponse {
        claim_amount,
        transfer: store.quote_token.transfer(&ctx.sender, claim_amount),
    };
    proof {
        let s1 = old(store)@;
        let s2 = store@;
        assert forall|x: int, y: int| 0 <= x < y < s2.has_claimed.len()
            implies #[trigger] claimed_key(s2.has_claimed[x]) != #[trigger] claimed_key(
            s2.has_claimed[y],
        ) by {
            if y < s2.has_claimed.len() - 1 {
                assert(claimed_key(s1.has_claimed[x]) != claimed_key(s1.has_claimed[y]));
            } else {
                assert(claimed_key(s2.has_claimed[y]) == ctx.sender@);
                assert(claimed_key(s2.has_claimed[x]) == claimed_key(s1.has_claimed[x]));
            }
        }
        let pr = spec_exec_claim(s1, ctx.sender, ctx.time, winning_pool_id)->Ok_0;
        assert(s2 =~= pr.0);
    }
    Ok(resp)
}

/// Claim gating: before the close time every claim fails as not
/// authorized, whatever the sender's balances.
pub proof fn lemma_claim_gated(s: StoreS, sender: String, time: u64, winning_pool_id: PoolId)
    requires
        time < s.stop_time,
    ensures
        spec_exec_claim(s, sender, time, winning_pool_id) == Err::<
            (StoreS, ClaimResponse),
            ErrorClass,
        >(ErrorClass::NotAuthorized),
{
}

/// Claim idempotence: after a successful claim, a second claim by the same
/// trader fails as not authorized, whatever the time or designated winner
/// of the second call.
pub proof fn lemma_claim_idempotent(
    s: StoreS,
    sender: String,
    time: u64,
    winning_pool_id: PoolId,
    time2: u64,
    winning_pool_id2: PoolId,
)
    requires
        spec_exec_claim(s, sender, time, winning_pool_id) is Ok,
    ensures
        spec_exec_claim(
            spec_exec_claim(s, sender, time, winning_pool_id)->Ok_0.0,
            sender,
            time2,
            winning_pool_id2,
        ) == Err::<(StoreS, ClaimResponse), ErrorClass>(ErrorClass::NotAuthorized),
{
    let s2 = spec_exec_claim(s, sender, time, winning_pool_id)->Ok_0.0;
    let flags = s2.has_claimed;
    assert(claimed_key(flags[flags.len() - 1]) == sender@);
    assert(has_claimed_flag(flags, sender@));
}

/// Division-by-zero guard: when the winning pool has distributed nothing,
/// a claim that passes every authorization check still fails with an
/// internal error instead of dividing by zero.
pub proof fn lemma_claim_division_guard(s: StoreS, sender: String, time: u64, winning_pool_id: PoolId)
    requires
        time >= s.stop_time,
        !has_claimed_flag(s.has_claimed, sender@),
        account_balance(s.pool_accounts, (sender@, winning_pool_id)) matches Some(b) && b > 0,
        spec_tally(s.pools, winning_pool_id, 0, 0, 0) matches Ok(t) && t.1 == 0,
    ensures
        spec_exec_claim(s, sender, time, winning_pool_id) == Err::<
            (StoreS, ClaimResponse),
            ErrorClass,
        >(ErrorClass::Internal),
{
}

} // verus!
