//! The trade and settlement operations.
pub mod buy;
pub mod claim;
pub mod sell;
pub mod swap;

use vstd::prelude::*;

use crate::state::storage::PoolId;
use crate::token::{Coin, TransferMsg};

verus! {

/// What a request carries besides its parameters: the sender, the funds
/// attached to the request, and the current block time in seconds.
#[derive(Debug)]
pub struct Context {
    pub sender: String,
    pub funds: Vec<Coin>,
    pub time: u64,
}

/// Outcome of a buy batch: the summed fee, net input and output, and the
/// single instruction that forwards the summed fee to the fee collector.
#[derive(Debug)]
pub struct BuyResponse {
    pub fee_amount: u128,
    pub in_amount: u128,
    pub out_amount: u128,
    pub fee_transfer: TransferMsg,
}

/// Outcome of a sell batch: the fee on the aggregate output, the summed
/// input and output, and the instruction paying the seller the net amount.
#[derive(Debug)]
pub struct SellResponse {
    pub fee_amount: u128,
    pub in_amount: u128,
    pub out_amount: u128,
    pub payout: TransferMsg,
}

/// Outcome of a pool-to-pool reallocation.
#[derive(Debug)]
pub struct SwapResponse {
    pub quote_amount: u128,
    pub fee_amount: u128,
    pub from_pool_id: PoolId,
    pub from_amount: u128,
    pub to_pool_id: PoolId,
    pub to_amount: u128,
    pub from_pool_reserve: u128,
    pub to_pool_reserve: u128,
    pub fee_transfer: TransferMsg,
}

/// Outcome of a settlement claim.
#[derive(Debug)]
pub struct ClaimResponse {
    pub claim_amount: u128,
    pub transfer: TransferMsg,
}

} // verus!
