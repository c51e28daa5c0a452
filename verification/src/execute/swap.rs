//! Swap: reapportioning buy-in between two pools, distinct from buy and
//! sell, which trade quote tokens in and out of the market.
//!
//! The instruction's amount is base withdrawn from the source pool; the
//! intermediate quote value is charged the swap fee, and the remainder is
//! traded into the destination pool. Both balances move, both pools'
//! statistics and OHLC bars are booked, and the fee is forwarded.
use vstd::prelude::*;

use crate::error::{ContractError, ErrorClass};
use crate::execute::{Context, SwapResponse};
use crate::math;
use crate::msg::{PoolStats, SwapParams};
use crate::state::models::{OhlcBar, Pool, PoolAccount};
use crate::state::storage::{
    copy_vec, dup_accounts, spec_swap_stats_record, store_wf, swap_stats_record, Store, StoreS,
};
use crate::token::TransferMsg;

verus! {

/// What one pool-to-pool reallocation yields. Reallocating a pool into
/// itself is rejected: the two reserve updates would race on one pool.
pub open spec fn spec_exec_swap(
    s: StoreS,
    sender: String,
    time: u64,
    params: SwapParams,
) -> Result<(StoreS, SwapResponse), ErrorClass> {
    let from_id = params.from_pool;
    let to_id = params.to_pool;
    if from_id == to_id {
        Err(ErrorClass::Validation)
    } else if from_id as int >= s.pools.len() {
        Err(ErrorClass::Std)
    } else if to_id as int >= s.pools.len() {
        Err(ErrorClass::Std)
    } else {
        let fp = s.pools[from_id as int];
        let tp = s.pools[to_id as int];
        match fp.spec_swap(params.from_amount, false) {
            None => Err(ErrorClass::Internal),
            Some(fst) => match math::spec_mul_ratio(fst.1, s.swap_fee_pct, math::FEE_DENOM) {
                None => Err(ErrorClass::Internal),
                Some(fee) => if fee > fst.1 {
                    Err(ErrorClass::Internal)
                } else {
                    match tp.spec_swap((fst.1 - fee) as u128, true) {
                        None => Err(ErrorClass::Internal),
                        Some(tst) => match PoolAccount::spec_upsert(
                            s.pool_accounts,
                            sender,
                            from_id,
                            params.from_amount,
                            false,
                        ) {
                            Err(k) => Err(k),
                            Ok(d) => match PoolAccount::spec_upsert(
                                d.0,
                                sender,
                                to_id,
                                tst.1,
                                true,
                            ) {
                                Err(k) => Err(k),
                                Ok(c) => if from_id as int >= s.pool_stats.len() {
                                    Err(ErrorClass::NotAuthorized)
                                } else {
                                    let ps = s.pool_stats[from_id as int];
                                    if ps.fees_collected + fee > u128::MAX {
                                        Err(ErrorClass::Internal)
                                    } else {
                                        let stats2 = s.pool_stats.update(
                                            from_id as int,
                                            PoolStats {
                                                fees_collected: (ps.fees_collected + fee) as u128,
                                                ..ps
                                            },
                                        );
                                        match spec_swap_stats_record(
                                            s.swap_stats,
                                            from_id,
                                            to_id,
                                            params.from_amount,
                                            tst.1,
                                        ) {
                                            Err(k) => Err(k),
                                            Ok(ss2) => match fst.0.spec_quote_price(
                                                s.quote_decimals,
                                            ) {
                                                None => Err(ErrorClass::Internal),
                                                Some(price_from) => match OhlcBar::spec_upsert(
                                                    s.pool_ohlc_bars,
                                                    from_id,
                                                    time,
                                                    price_from,
                                                    params.from_amount,
                                                ) {
                                                    Err(k) => Err(k),
                                                    Ok(b1) => match tst.0.spec_quote_price(
                                                        s.quote_decimals,
                                                    ) {
                                                        None => Err(ErrorClass::Internal),
                                                        Some(price_to) => match OhlcBar::spec_upsert(
                                                            b1.0,
                                                            to_id,
                                                            time,
                                                            price_to,
                                                            tst.1,
                                                        ) {
                                                            Err(k) => Err(k),
                                                            Ok(b2) => Ok(
                                                                (
                                                                    StoreS {
                                                                        pools: s.pools.update(
                                                                            from_id as int,
                                                                            fst.0,
                                                                        ).update(
                                                                            to_id as int,
                                                                            tst.0,
                                                                        ),
                                                                        pool_stats: stats2,
                                                                        pool_accounts: c.0,
                                                                        swap_stats: ss2,
                                                                        pool_ohlc_bars: b2.0,
                                                                        ..s
                                                                    },
                                                                    SwapResponse {
                                                                        quote_amount: fst.1,
                                                                        fee_amount: fee,
                                                                        from_pool_id: from_id,
                                                                        from_amount: params.from_amount,
                                                                        to_pool_id: to_id,
                                                                        to_amount: tst.1,
                                                                        from_pool_reserve: fst.0.reserves.base,
                                                                        to_pool_reserve: tst.0.reserves.base,
                                                                        fee_transfer: TransferMsg {
                                                                            token: s.quote_token,
                                                                            recipient: s.fee_manager_addr,
                                                                            amount: fee,
                                                                        },
                                                                    },
                                                                ),
                                                            ),
                                                        },
                                                    },
                                                },
                                            },
                                        }
                                    }
                                },
                            },
                        },
                    }
                },
            },
        }
    }
}

/// Reapportion `from_amount` of buy-in from one pool into another.
pub fn exec_swap(store: &mut Store, ctx: &Context, params: SwapParams) -> (r: Result<
    SwapResponse,
    ContractError,
>)
    requires
        store_wf(old(store)@),
    ensures
        store_wf(final(store)@),
        match spec_exec_swap(old(store)@, ctx.sender, ctx.time, params) {
            Ok(pr) => r matches Ok(resp) && resp == pr.1 && final(store)@ == pr.0,
            Err(k) => r matches Err(e) && e.class() == k && *final(store) == *old(store),
        },
{
    let from_pool_id = params.from_pool;
    let to_pool_id = params.to_pool;
    let from_amount = params.from_amount;

    if from_pool_id == to_pool_id {
        return Err(ContractError::ValidationError {
            msg: "cannot swap a pool into itself".to_owned(),
        });
    }
    let mut from_pool = Pool::load(&store.pools, from_pool_id)?;
    let mut to_pool = Pool::load(&store.pools, to_pool_id)?;
    let ghost from_before = from_pool;
    let ghost to_before = to_pool;

    let quote_amount = from_pool.swap(from_amount, false)?;
    let fee_amount = math::mul_ratio_u128(quote_amount, store.swap_fee_pct, math::FEE_DENOM)?;
    let net_quote = math::sub_u128(quote_amount, fee_amount)?;
    let to_amount = to_pool.swap(net_quote, true)?;

    let mut accounts = dup_accounts(&store.pool_accounts);
    let _debited = PoolAccount::upsert(&mut accounts, &ctx.sender, from_pool_id, from_amount, false)?;
    let _credited = PoolAccount::upsert(&mut accounts, &ctx.sender, to_pool_id, to_amount, true)?;

    let mut pools = copy_vec(&store.pools);
    pools[from_pool_id as usize] = from_pool;
    pools[to_pool_id as usize] = to_pool;

    let mut pool_stats = copy_vec(&store.pool_stats);
    if (from_pool_id as usize) >= pool_stats.len() {
        return Err(ContractError::NotAuthorized {
            msg: "could not load stats for pool".to_owned(),
        });
    }
    let ps = pool_stats[from_pool_id as usize];
    let fc = math::add_u128(ps.fees_collected, fee_amount)?;
    pool_stats[from_pool_id as usize] = PoolStats { fees_collected: fc, ..ps };

    let mut swap_stats = copy_vec(&store.swap_stats);
    swap_stats_record(&mut swap_stats, from_pool_id, to_pool_id, from_amount, to_amount)?;

    // Update or add both pools' historical trading bars at their
    // post-trade prices.
    let mut bars = copy_vec(&store.pool_ohlc_bars);
    let price_from = from_pool.calc_quote_price(store.quote_decimals)?;
    OhlcBar::upsert(&mut bars, from_pool_id, ctx.time, price_from, from_amount)?;
    let price_to = to_pool.calc_quote_price(store.quote_decimals)?;
    OhlcBar::upsert(&mut bars, to_pool_id, ctx.time, price_to, to_amount)?;

    store.pools = pools;
    store.pool_stats = pool_stats;
    store.pool_accounts = accounts;
    store.swap_stats = swap_stats;
    store.pool_ohlc_bars = bars;
    let resp = SwapResponse {
        quote_amount,
        fee_amount,
        from_pool_id,
        from_amount,
        to_pool_id,
        to_amount,
        from_pool_reserve: from_pool.reserves.base,
        to_pool_reserve: to_pool.reserves.base,
        fee_transfer: store.quote_token.transfer(&store.fee_manager_addr, fee_amount),
    };
    proof {
        from_before.lemma_swap_preserves_curve(from_amount, false);
        to_before.lemma_swap_preserves_curve(net_quote, true);
        let pr = spec_exec_swap(old(store)@, ctx.sender, ctx.time, params)->Ok_0;
        assert(store@ =~= pr.0);
    }
    Ok(resp)
}

} // verus!
