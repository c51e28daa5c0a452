//! Buy: a batch of (pool, amount) instructions paid in quote tokens.
//!
//! Each instruction is charged `floor(amount * buy_fee_pct / 10^6)` on its
//! input; the net amount is traded through the curve, the output credited
//! to the buyer's per-pool balance, and the statistics and OHLC history
//! booked. The fees of all instructions are summed into one transfer to
//! the fee collector.
use vstd::prelude::*;

use crate::error::{ContractError, ErrorClass};
use crate::execute::{BuyResponse, Context};
use crate::math;
use crate::msg::{BuyParams, PoolAmount, PoolStats};
use crate::state::models::{MarketStats, OhlcBar, Pool, PoolAccount};
use crate::state::storage::{
    accounts_unique, copy_vec, dup_accounts, dup_traders, find_account, has_account, ohlc_unique,
    spec_trader_record_buy, store_wf, trader_record_buy, AccountEntry, OhlcEntry, Store, StoreS,
};
use crate::state::utils::{resolve_initiator, spec_resolve_initiator};
use crate::token::TransferMsg;

verus! {

/// The checked sum of the requested amounts, from instruction `i` on.
pub open spec fn spec_total(amounts: Seq<PoolAmount>, i: int, acc: u128) -> Option<u128>
    decreases amounts.len() - i,
{
    if i >= amounts.len() {
        Some(acc)
    } else if acc + amounts[i].amount > u128::MAX {
        None
    } else {
        spec_total(amounts, i + 1, (acc + amounts[i].amount) as u128)
    }
}

/// The partial store a buy batch threads along.
pub open spec fn buy_state(
    base: StoreS,
    pools: Seq<Pool>,
    pool_stats: Seq<PoolStats>,
    pool_accounts: Seq<AccountEntry>,
    pool_ohlc_bars: Seq<OhlcEntry>,
) -> StoreS {
    StoreS { pools, pool_stats, pool_accounts, pool_ohlc_bars, ..base }
}

/// One buy instruction: fee on the input, the net amount through the
/// curve, the output credited to the buyer, statistics and the OHLC bar
/// booked at the post-trade price.
pub open spec fn spec_buy_instr(
    s: StoreS,
    buyer: String,
    time: u64,
    pa: PoolAmount,
    fee_acc: u128,
    in_acc: u128,
    out_acc: u128,
) -> Result<(StoreS, u128, u128, u128), ErrorClass> {
    if pa.pool_id as int >= s.pools.len() {
        Err(ErrorClass::Std)
    } else {
        let pool = s.pools[pa.pool_id as int];
        match math::spec_mul_ratio(pa.amount, s.buy_fee_pct, math::FEE_DENOM) {
            None => Err(ErrorClass::Internal),
            Some(fee) => if fee > pa.amount {
                Err(ErrorClass::Internal)
            } else {
                let net = (pa.amount - fee) as u128;
                match pool.spec_swap(net, true) {
                    None => Err(ErrorClass::Internal),
                    Some(st) => match PoolAccount::spec_upsert(
                        s.pool_accounts,
                        buyer,
                        pa.pool_id,
                        st.1,
                        true,
                    ) {
                        Err(k) => Err(k),
                        Ok(ac) => if fee_acc + fee > u128::MAX || in_acc + net > u128::MAX
                            || out_acc + st.1 > u128::MAX {
                            Err(ErrorClass::Internal)
                        } else {
                            match st.0.spec_quote_price(s.quote_decimals) {
                                None => Err(ErrorClass::Internal),
                                Some(price) => if pa.pool_id as int >= s.pool_stats.len() {
                                    Err(ErrorClass::NotAuthorized)
                                } else {
                                    let ps = s.pool_stats[pa.pool_id as int];
                                    // The buyer's first-ever nonzero credit
                                    // in this pool: accounts are created
                                    // exactly on such a credit, so none may
                                    // have existed before this one.
                                    let first = st.1 > 0 && !has_account(
                                        s.pool_accounts,
                                        (buyer@, pa.pool_id),
                                    );
                                    if ps.quote_amount_in.as_int() + net > math::u256_max()
                                        || ps.base_amount_out.as_int() + st.1 > math::u256_max()
                                        || ps.fees_collected + fee > u128::MAX || ps.num_buys + 1
                                        > u32::MAX || (first && ps.num_traders + 1 > u32::MAX) {
                                        Err(ErrorClass::Internal)
                                    } else {
                                        let ps2 = PoolStats {
                                            quote_amount_in: math::spec_u256_sum(
                                                ps.quote_amount_in,
                                                net,
                                            ),
                                            base_amount_out: math::spec_u256_sum(
                                                ps.base_amount_out,
                                                st.1,
                                            ),
                                            fees_collected: (ps.fees_collected + fee) as u128,
                                            num_buys: (ps.num_buys + 1) as u32,
                                            num_traders: if first {
                                                (ps.num_traders + 1) as u32
                                            } else {
                                                ps.num_traders
                                            },
                                            ..ps
                                        };
                                        match OhlcBar::spec_upsert(
                                            s.pool_ohlc_bars,
                                            pa.pool_id,
                                            time,
                                            price,
                                            st.1,
                                        ) {
                                            Err(k) => Err(k),
                                            Ok(br) => Ok(
                                                (
                                                    StoreS {
                                                        pools: s.pools.update(
                                                            pa.pool_id as int,
                                                            st.0,
                                                        ),
                                                        pool_stats: s.pool_stats.update(
                                                            pa.pool_id as int,
                                                            ps2,
                                                        ),
                                                        pool_accounts: ac.0,
                                                        pool_ohlc_bars: br.0,
                                                        ..s
                                                    },
                                                    (fee_acc + fee) as u128,
                                                    (in_acc + net) as u128,
                                                    (out_acc + st.1) as u128,
                                                ),
                                            ),
                                        }
                                    }
                                },
                            }
                        },
                    },
                }
            },
        }
    }
}

/// The left-to-right fold of a buy batch from instruction `i` on.
pub open spec fn spec_buy_batch(
    s: StoreS,
    buyer: String,
    time: u64,
    amounts: Seq<PoolAmount>,
    i: int,
    fee_acc: u128,
    in_acc: u128,
    out_acc: u128,
) -> Result<(StoreS, u128, u128, u128), ErrorClass>
    decreases amounts.len() - i,
{
    if i >= amounts.len() {
        Ok((s, fee_acc, in_acc, out_acc))
    } else {
        match spec_buy_instr(s, buyer, time, amounts[i], fee_acc, in_acc, out_acc) {
            Err(k) => Err(k),
            Ok(step) => spec_buy_batch(step.0, buyer, time, amounts, i + 1, step.1, step.2, step.3),
        }
    }
}

/// What a buy batch yields. The buyer is the sender, or a named initiator
/// when the sender is the registered operator; a batch summing to zero is
/// rejected, and the attached funds must cover the summed amounts. After
/// the fold, the buyer's aggregate record grows, and the first-ever buy
/// of a trader bumps the global trader count.
pub open spec fn spec_exec_buy(
    s: StoreS,
    sender: String,
    funds: Seq<crate::token::Coin>,
    time: u64,
    amounts: Seq<PoolAmount>,
    initiator: Option<String>,
) -> Result<(StoreS, BuyResponse), ErrorClass> {
    match spec_resolve_initiator(s.operator_addr, sender, initiator) {
        Err(k) => Err(k),
        Ok(buyer) => match spec_total(amounts, 0, 0) {
            None => Err(ErrorClass::Internal),
            Some(total) => if total == 0 {
                Err(ErrorClass::Validation)
            } else if !s.quote_token.spec_has_in_funds(funds, Some(total)) {
                Err(ErrorClass::InsufficientFunds)
            } else {
                match spec_buy_batch(s, buyer, time, amounts, 0, 0, 0, 0) {
                    Err(k) => Err(k),
                    Ok(folded) => match spec_trader_record_buy(
                        folded.0.trader_infos,
                        buyer,
                        folded.2,
                    ) {
                        Err(k) => Err(k),
                        Ok(tr) => {
                            let resp = BuyResponse {
                                fee_amount: folded.1,
                                in_amount: folded.2,
                                out_amount: folded.3,
                                fee_transfer: TransferMsg {
                                    token: s.quote_token,
                                    recipient: s.fee_manager_addr,
                                    amount: folded.1,
                                },
                            };
                            if tr.1.stats.num_buys == 1 {
                                if s.market_stats.num_traders + 1 > u32::MAX {
                                    Err(ErrorClass::Internal)
                                } else {
                                    Ok(
                                        (
                                            StoreS {
                                                trader_infos: tr.0,
                                                market_stats: MarketStats {
                                                    num_traders: (s.market_stats.num_traders
                                                        + 1) as u32,
                                                    amount_claimed: s.market_stats.amount_claimed,
                                                },
                                                ..folded.0
                                            },
                                            resp,
                                        ),
                                    )
                                }
                            } else {
                                Ok((StoreS { trader_infos: tr.0, ..folded.0 }, resp))
                            }
                        },
                    },
                }
            },
        },
    }
}

/// Buy into a batch of pools with attached quote funds.
pub fn exec_buy(store: &mut Store, ctx: &Context, params: BuyParams) -> (r: Result<
    BuyResponse,
    ContractError,
>)
    requires
        store_wf(old(store)@),
    ensures
        store_wf(final(store)@),
        match spec_exec_buy(
            old(store)@,
            ctx.sender,
            ctx.funds@,
            ctx.time,
            params.amounts@,
            params.initiator,
        ) {
            Ok(pr) => r matches Ok(resp) && resp == pr.1 && final(store)@ == pr.0,
            Err(k) => r matches Err(e) && e.class() == k && *final(store) == *old(store),
        },
{
    let BuyParams { amounts, initiator } = params;
    let ghost init0 = initiator;
    let buyer = resolve_initiator(&store.operator_addr, &ctx.sender, initiator)?;

    // Total quote amount swapping in.
    let mut total_requested: u128 = 0;
    let n = amounts.len();
    let mut i: usize = 0;
    while i < n
        invariant
            n == amounts@.len(),
            i <= n,
            *store == *old(store),
            store_wf(store@),
            amounts@ == params.amounts@,
            init0 == params.initiator,
            spec_resolve_initiator(store@.operator_addr, ctx.sender, init0) == Ok::<
                String,
                ErrorClass,
            >(buyer),
            spec_total(amounts@, i as int, total_requested) == spec_total(amounts@, 0, 0),
        decreases n - i,
    {
        total_requested = math::add_u128(total_requested, amounts[i].amount)?;
        i += 1;
    }
    if total_requested == 0 {
        return Err(ContractError::ValidationError { msg: "cannot buy 0 amount".to_owned() });
    }
    if !store.quote_token.has_in_funds(&ctx.funds, Some(total_requested)) {
        return Err(ContractError::InsufficientFunds { msg: "insufficient funds".to_owned() });
    }

    let mut pools = copy_vec(&store.pools);
    let mut pool_stats = copy_vec(&store.pool_stats);
    let mut accounts = dup_accounts(&store.pool_accounts);
    let mut bars = copy_vec(&store.pool_ohlc_bars);
    let mut total_fee_amount: u128 = 0;
    let mut total_in_amount: u128 = 0;
    let mut total_out_amount: u128 = 0;
    let mut idx: usize = 0;
    while idx < n
        invariant
            n == amounts@.len(),
            idx <= n,
            *store == *old(store),
            amounts@ == params.amounts@,
            init0 == params.initiator,
            store_wf(store@),
            accounts_unique(accounts@),
            ohlc_unique(bars@),
            pools@.len() == store.pools@.len(),
            pool_stats@.len() == store.pool_stats@.len(),
            forall|p: int| 0 <= p < pools@.len() ==> (#[trigger] pools@[p]).curve_wf(),
            forall|j: int| 0 <= j < accounts@.len() ==> (#[trigger] accounts@[j]).pool_id
                < pools@.len(),
            spec_resolve_initiator(store@.operator_addr, ctx.sender, init0) == Ok::<
                String,
                ErrorClass,
            >(buyer),
            spec_total(amounts@, 0, 0) == Some(total_requested),
            total_requested != 0,
            store@.quote_token.spec_has_in_funds(ctx.funds@, Some(total_requested)),
            spec_buy_batch(
                buy_state(store@, pools@, pool_stats@, accounts@, bars@),
                buyer,
                ctx.time,
                amounts@,
                idx as int,
                total_fee_amount,
                total_in_amount,
                total_out_amount,
            ) == spec_buy_batch(store@, buyer, ctx.time, amounts@, 0, 0, 0, 0),
        decreases n - idx,
    {
        let ghost pools0 = pools@;
        let ghost stats0 = pool_stats@;
        let ghost accounts0 = accounts@;
        let ghost bars0 = bars@;
        let ghost fee0 = total_fee_amount;
        let ghost in0 = total_in_amount;
        let ghost out0 = total_out_amount;
        let pa = amounts[idx];

        let mut pool = Pool::load(&pools, pa.pool_id)?;
        let ghost pool_before = pool;
        let fee_amount = math::mul_pct_u128(pa.amount, store.buy_fee_pct)?;
        let in_amount_post_fee = math::sub_u128(pa.amount, fee_amount)?;

        // Swap in quote tokens.
        let out_amount = pool.buy(in_amount_post_fee)?;

        // Update or create the buyer's account for this pool.
        let had_account = find_account(&accounts, &buyer, pa.pool_id).is_some();
        let _account = PoolAccount::upsert(&mut accounts, &buyer, pa.pool_id, out_amount, true)?;

        // Aggregate running totals.
        total_fee_amount = math::add_u128(total_fee_amount, fee_amount)?;
        total_in_amount = math::add_u128(total_in_amount, in_amount_post_fee)?;
        total_out_amount = math::add_u128(total_out_amount, out_amount)?;

        pools[pa.pool_id as usize] = pool;
        let price = pool.calc_quote_price(store.quote_decimals)?;

        // Update the statistics of this pool.
        if (pa.pool_id as usize) >= pool_stats.len() {
            return Err(ContractError::NotAuthorized {
                msg: "could not load stats for pool".to_owned(),
            });
        }
        let ps = pool_stats[pa.pool_id as usize];
        let qi = math::add_u256(ps.quote_amount_in, in_amount_post_fee)?;
        let bo = math::add_u256(ps.base_amount_out, out_amount)?;
        let fc = math::add_u128(ps.fees_collected, fee_amount)?;
        let nb = math::add_u32(ps.num_buys, 1)?;
        let first = out_amount > 0 && !had_account;
        let nt = if first {
            math::add_u32(ps.num_traders, 1)?
        } else {
            ps.num_traders
        };
        pool_stats[pa.pool_id as usize] = PoolStats {
            quote_amount_in: qi,
            base_amount_out: bo,
            fees_collected: fc,
            num_buys: nb,
            num_traders: nt,
            ..ps
        };

        // Update or add the historical trading bar.
        OhlcBar::upsert(&mut bars, pa.pool_id, ctx.time, price, out_amount)?;

        proof {
            pool_before.lemma_swap_preserves_curve(in_amount_post_fee, true);
            let prev = buy_state(store@, pools0, stats0, accounts0, bars0);
            let next = buy_state(store@, pools@, pool_stats@, accounts@, bars@);
            let step = spec_buy_instr(prev, buyer, ctx.time, pa, fee0, in0, out0);
            assert(next =~= step->Ok_0.0);
        }
        idx += 1;
    }

    // Upsert the buyer's aggregate record.
    let mut traders2 = dup_traders(&store.trader_infos);
    let trader = trader_record_buy(&mut traders2, &buyer, total_in_amount)?;

    // Increment the global trader count on a first-ever buy.
    let mut mstats = store.market_stats;
    if trader.stats.num_buys == 1 {
        let ntr = math::add_u32(mstats.num_traders, 1)?;
        mstats = MarketStats { num_traders: ntr, amount_claimed: mstats.amount_claimed };
    }

    store.pools = pools;
    store.pool_stats = pool_stats;
    store.pool_accounts = accounts;
    store.pool_ohlc_bars = bars;
    store.trader_infos = traders2;
    store.market_stats = mstats;
    let resp = BuyResponse {
        fee_amount: total_fee_amount,
        in_amount: total_in_amount,
        out_amount: total_out_amount,
        fee_transfer: store.quote_token.transfer(&store.fee_manager_addr, total_fee_amount),
    };
    proof {
        let pr = spec_exec_buy(
            old(store)@,
            ctx.sender,
            ctx.funds@,
            ctx.time,
            amounts@,
            init0,
        )->Ok_0;
        assert(store@ =~= pr.0);
    }
    Ok(resp)
}

} // verus!
