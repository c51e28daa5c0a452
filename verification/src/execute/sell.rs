//! Sell: a batch of per-pool debits traded back through the curve.
//!
//! For each instruction the trader's per-pool balance is debited first —
//! the debit precedes the curve call — and the curve then releases quote.
//! The fee is computed once on the aggregate output of the whole batch,
//! and the seller is paid the aggregate net of that fee; this is
//! intentionally asymmetric with buy's fee-on-input-per-instruction
//! policy. The sale is accumulated on the seller's aggregate record: one
//! more sell, and the net payout added to the quote taken out.
use vstd::prelude::*;

use crate::error::{ContractError, ErrorClass};
use crate::execute::{Context, SellResponse};
use crate::math;
use crate::msg::{PoolAmount, PoolStats, SellParams};
use crate::state::models::{Pool, PoolAccount};
use crate::state::storage::{
    accounts_unique, copy_vec, dup_accounts, dup_traders, spec_trader_record_sell, store_wf,
    trader_record_sell, Store, StoreS,
};
use crate::token::TransferMsg;

verus! {

/// The partial store a sell batch threads along: only the pools, the
/// per-pool statistics and the account ledger change.
pub open spec fn sell_state(
    base: StoreS,
    pools: Seq<Pool>,
    pool_stats: Seq<PoolStats>,
    pool_accounts: Seq<crate::state::storage::AccountEntry>,
) -> StoreS {
    StoreS { pools, pool_stats, pool_accounts, ..base }
}

/// One sell instruction: debit the (seller, pool) balance by the amount —
/// refusing a missing account or a debit beyond the recorded balance —
/// then trade the amount through the curve and book the statistics.
pub open spec fn spec_sell_instr(
    s: StoreS,
    seller: String,
    pa: PoolAmount,
    in_acc: u128,
    out_acc: u128,
) -> Result<(StoreS, u128, u128), ErrorClass> {
    match PoolAccount::spec_upsert(s.pool_accounts, seller, pa.pool_id, pa.amount, false) {
        Err(k) => Err(k),
        Ok(ac) => if pa.pool_id as int >= s.pools.len() {
            Err(ErrorClass::Std)
        } else {
            let pool = s.pools[pa.pool_id as int];
            match pool.spec_swap(pa.amount, false) {
                None => Err(ErrorClass::Internal),
                Some(st) => if pa.pool_id as int >= s.pool_stats.len() {
                    Err(ErrorClass::NotAuthorized)
                } else {
                    let ps = s.pool_stats[pa.pool_id as int];
                    if ps.quote_amount_out.as_int() + st.1 > math::u256_max()
                        || ps.base_amount_in.as_int() + pa.amount > math::u256_max()
                        || ps.num_sells + 1 > u32::MAX {
                        Err(ErrorClass::Internal)
                    } else {
                        let ps2 = PoolStats {
                            quote_amount_out: math::spec_u256_sum(ps.quote_amount_out, st.1),
                            base_amount_in: math::spec_u256_sum(ps.base_amount_in, pa.amount),
                            num_sells: (ps.num_sells + 1) as u32,
                            ..ps
                        };
                        if in_acc + pa.amount > u128::MAX || out_acc + st.1 > u128::MAX {
                            Err(ErrorClass::Internal)
                        } else {
                            Ok(
                                (
                                    StoreS {
                                        pools: s.pools.update(pa.pool_id as int, st.0),
                                        pool_stats: s.pool_stats.update(pa.pool_id as int, ps2),
                                        pool_accounts: ac.0,
                                        ..s
                                    },
                                    (in_acc + pa.amount) as u128,
                                    (out_acc + st.1) as u128,
                                ),
                            )
                        }
                    }
                },
            }
        },
    }
}

/// The left-to-right fold of a sell batch from instruction `i` on.
pub open spec fn spec_sell_batch(
    s: StoreS,
    seller: String,
    amounts: Seq<PoolAmount>,
    i: int,
    in_acc: u128,
    out_acc: u128,
) -> Result<(StoreS, u128, u128), ErrorClass>
    decreases amounts.len() - i,
{
    if i >= amounts.len() {
        Ok((s, in_acc, out_acc))
    } else {
        match spec_sell_instr(s, seller, amounts[i], in_acc, out_acc) {
            Err(k) => Err(k),
            Ok(step) => spec_sell_batch(step.0, seller, amounts, i + 1, step.1, step.2),
        }
    }
}

/// What a sell batch by `seller` yields: the folded store, a payout of
/// the aggregate output net of `floor(total_out * sell_fee_pct / 10^6)`,
/// and the seller's aggregate record grown by one sell and that payout.
pub open spec fn spec_exec_sell(s: StoreS, seller: String, amounts: Seq<PoolAmount>) -> Result<
    (StoreS, SellResponse),
    ErrorClass,
> {
    match spec_sell_batch(s, seller, amounts, 0, 0, 0) {
        Err(k) => Err(k),
        Ok(folded) => match math::spec_mul_ratio(folded.2, s.sell_fee_pct, math::FEE_DENOM) {
            None => Err(ErrorClass::Internal),
            Some(fee) => if fee > folded.2 {
                Err(ErrorClass::Internal)
            } else {
                match spec_trader_record_sell(
                    folded.0.trader_infos,
                    seller,
                    (folded.2 - fee) as u128,
                ) {
                    Err(k) => Err(k),
                    Ok(tr) => Ok(
                        (
                            StoreS { trader_infos: tr.0, ..folded.0 },
                            SellResponse {
                                fee_amount: fee,
                                in_amount: folded.1,
                                out_amount: folded.2,
                                payout: TransferMsg {
                                    token: s.quote_token,
                                    recipient: seller,
                                    amount: (folded.2 - fee) as u128,
                                },
                            },
                        ),
                    ),
                }
            },
        },
    }
}

/// Sell a batch of (pool, amount) instructions back through the curves.
pub fn exec_sell(store: &mut Store, ctx: &Context, params: SellParams) -> (r: Result<
    SellResponse,
    ContractError,
>)
    requires
        store_wf(old(store)@),
    ensures
        store_wf(final(store)@),
        match spec_exec_sell(old(store)@, ctx.sender, params.amounts@) {
            Ok(pr) => r matches Ok(resp) && resp == pr.1 && final(store)@ == pr.0,
            Err(k) => r matches Err(e) && e.class() == k && *final(store) == *old(store),
        },
{
    let mut pools = copy_vec(&store.pools);
    let mut pool_stats = copy_vec(&store.pool_stats);
    let mut accounts = dup_accounts(&store.pool_accounts);
    let mut total_in_amount: u128 = 0;
    let mut total_out_amount: u128 = 0;
    let n = params.amounts.len();
    let mut idx: usize = 0;
    while idx < n
        invariant
            n == params.amounts@.len(),
            idx <= n,
            *store == *old(store),
            store_wf(store@),
            accounts_unique(accounts@),
            pools@.len() == store.pools@.len(),
            pool_stats@.len() == store.pool_stats@.len(),
            forall|p: int| 0 <= p < pools@.len() ==> (#[trigger] pools@[p]).curve_wf(),
            forall|j: int| 0 <= j < accounts@.len() ==> (#[trigger] accounts@[j]).pool_id
                < pools@.len(),
            spec_sell_batch(
                sell_state(store@, pools@, pool_stats@, accounts@),
                ctx.sender,
                params.amounts@,
                idx as int,
                total_in_amount,
                total_out_amount,
            ) == spec_sell_batch(store@, ctx.sender, params.amounts@, 0, 0, 0),
        decreases n - idx,
    {
        let ghost pools0 = pools@;
        let ghost stats0 = pool_stats@;
        let ghost accounts0 = accounts@;
        let ghost in0 = total_in_amount;
        let ghost out0 = total_out_amount;
        let pa = params.amounts[idx];

        // Debit the seller's balance first: a failure here cannot leave a
        // balance inconsistent with reserves.
        let _account = PoolAccount::upsert(&mut accounts, &ctx.sender, pa.pool_id, pa.amount, false)?;
        let mut pool = Pool::load(&pools, pa.pool_id)?;
        let ghost pool_before = pool;
        let out_amount = pool.sell(pa.amount)?;
        pools[pa.pool_id as usize] = pool;

        if (pa.pool_id as usize) >= pool_stats.len() {
            return Err(ContractError::NotAuthorized {
                msg: "could not load stats for pool".to_owned(),
            });
        }
        let ps = pool_stats[pa.pool_id as usize];
        let qo = math::add_u256(ps.quote_amount_out, out_amount)?;
        let bi = math::add_u256(ps.base_amount_in, pa.amount)?;
        let ns = math::add_u32(ps.num_sells, 1)?;
        pool_stats[pa.pool_id as usize] = PoolStats {
            quote_amount_out: qo,
            base_amount_in: bi,
            num_sells: ns,
            ..ps
        };
        total_in_amount = math::add_u128(total_in_amount, pa.amount)?;
        total_out_amount = math::add_u128(total_out_amount, out_amount)?;
        proof {
            pool_before.lemma_swap_preserves_curve(pa.amount, false);
            let prev = sell_state(store@, pools0, stats0, accounts0);
            let next = sell_state(store@, pools@, pool_stats@, accounts@);
            let step = spec_sell_instr(prev, ctx.sender, pa, in0, out0);
            assert(next =~= step->Ok_0.0);
        }
        idx += 1;
    }
    let fee_amount = math::mul_pct_u128(total_out_amount, store.sell_fee_pct)?;
    let total_out_amount_post_fee = math::sub_u128(total_out_amount, fee_amount)?;
    // Accumulate the sale on the seller's aggregate record.
    let mut traders2 = dup_traders(&store.trader_infos);
    let _trader = trader_record_sell(&mut traders2, &ctx.sender, total_out_amount_post_fee)?;
    store.pools = pools;
    store.pool_stats = pool_stats;
    store.pool_accounts = accounts;
    store.trader_infos = traders2;
    let resp = SellResponse {
        fee_amount,
        in_amount: total_in_amount,
        out_amount: total_out_amount,
        payout: store.quote_token.transfer(&ctx.sender, total_out_amount_post_fee),
    };
    proof {
        let pr = spec_exec_sell(old(store)@, ctx.sender, params.amounts@)->Ok_0;
        assert(store@ =~= pr.0);
    }
    Ok(resp)
}

/// Sell balance guard: a batch whose first instruction asks for more than
/// the recorded (seller, pool) balance fails with an insufficient-balance
/// error — and by `exec_sell`'s contract such a failure leaves the store
/// untouched.
pub proof fn lemma_sell_balance_guard(s: StoreS, seller: String, amounts: Seq<PoolAmount>)
    requires
        amounts.len() >= 1,
        match crate::state::storage::account_balance(
            s.pool_accounts,
            (seller@, amounts[0].pool_id),
        ) {
            Some(b) => b < amounts[0].amount,
            None => false,
        },
    ensures
        spec_exec_sell(s, seller, amounts) == Err::<(StoreS, SellResponse), ErrorClass>(
            ErrorClass::InsufficientBalance,
        ),
{
    lemma_sell_balance_guard_at(s, seller, amounts, 0, s, 0, 0);
}

/// Sell balance guard, at any batch position: whenever the fold has
/// reached instruction `i` in state `si` and the seller's recorded
/// balance there is below the requested amount, the whole sell fails with
/// an insufficient-balance error — and by `exec_sell`'s contract such a
/// failure leaves the store untouched.
pub proof fn lemma_sell_balance_guard_at(
    s: StoreS,
    seller: String,
    amounts: Seq<PoolAmount>,
    i: int,
    si: StoreS,
    in_acc: u128,
    out_acc: u128,
)
    requires
        0 <= i < amounts.len(),
        spec_sell_batch(si, seller, amounts, i, in_acc, out_acc) == spec_sell_batch(
            s,
            seller,
            amounts,
            0,
            0,
            0,
        ),
        match crate::state::storage::account_balance(
            si.pool_accounts,
            (seller@, amounts[i].pool_id),
        ) {
            Some(b) => b < amounts[i].amount,
            None => false,
        },
    ensures
        spec_exec_sell(s, seller, amounts) == Err::<(StoreS, SellResponse), ErrorClass>(
            ErrorClass::InsufficientBalance,
        ),
{
    assert(spec_sell_instr(si, seller, amounts[i], in_acc, out_acc) == Err::<
        (StoreS, u128, u128),
        ErrorClass,
    >(ErrorClass::InsufficientBalance));
}

} // verus!
