//! Request parameters and response shapes of the engine's operations, in
//! plain values; the host owns their wire encoding.
use vstd::prelude::*;

use crate::math::U256;
use crate::state::models::{Config, MarketStats, PoolReserves, TraderStats};
use crate::state::storage::PoolId;
use crate::token::Token;

verus! {

#[derive(Debug)]
pub struct PoolInitArgs {
    pub symbol: String,
    pub name: String,
    pub description: Option<String>,
    pub image: Option<String>,
    pub reserves: PoolReserves,
}

#[derive(Debug)]
pub struct FeeInitArgs {
    pub manager: Option<String>,
    pub pct_swap: u128,
    pub pct_buy: u128,
    pub pct_sell: u128,
}

#[derive(Debug)]
pub struct InstantiateMsg {
    /// Opening time, in seconds.
    pub start: u64,
    /// Closing time, in seconds; claims are allowed from here on.
    pub stop: u64,
    pub quote_token: Token,
    pub quote_decimals: u8,
    pub quote_symbol: String,
    pub operator: Option<String>,
    pub pools: Vec<PoolInitArgs>,
    pub fees: FeeInitArgs,
}

#[derive(Debug)]
pub enum ExecuteMsg {
    Buy(BuyParams),
    Sell(SellParams),
    Swap(SwapParams),
    Claim {},
}

#[derive(Debug)]
pub enum QueryMsg {
    Config {},
    Pools {},
    Trader { address: String },
}

#[derive(Debug)]
pub struct MigrateMsg {}

#[derive(Debug)]
pub struct SwapParams {
    pub to_pool: PoolId,
    pub from_pool: PoolId,
    pub from_amount: u128,
}

#[derive(Clone, Copy, Debug, PartialEq, Eq, Structural)]
pub struct PoolAmount {
    pub pool_id: PoolId,
    pub amount: u128,
}

#[derive(Debug)]
pub struct SellParams {
    pub amounts: Vec<PoolAmount>,
}

#[derive(Debug)]
pub struct BuyParams {
    pub amounts: Vec<PoolAmount>,
    /// Only the registered operator may name a buyer other than the sender.
    pub initiator: Option<String>,
}

#[derive(Debug)]
pub struct ConfigResponse(pub Config);

/// Monotonically non-decreasing per-pool counters, updated atomically with
/// the corresponding trade; the volume counters are 256 bits wide so they
/// cannot realistically overflow.
#[derive(Clone, Copy, Debug, PartialEq, Eq, Structural)]
pub struct PoolStats {
    pub num_buys: u32,
    pub num_sells: u32,
    pub num_traders: u32,
    pub quote_amount_in: U256,
    pub quote_amount_out: U256,
    pub base_amount_in: U256,
    pub base_amount_out: U256,
    pub fees_collected: u128,
}

/// Aggregate volume for one ordered (from, to) pool pair.
#[derive(Clone, Copy, Debug, PartialEq, Eq, Structural)]
pub struct SwapStats {
    pub n: u32,
    pub in_amount: U256,
    pub out_amount: U256,
}

#[derive(Debug)]
pub struct PoolBizObject {
    pub id: PoolId,
    pub symbol: String,
    pub name: String,
    pub description: Option<String>,
    pub image: Option<String>,
    pub reserves: PoolReserves,
    pub winner: bool,
    pub offset: u128,
    pub supply: u128,
    pub stats: PoolStats,
}

#[derive(Debug)]
pub struct PoolsResponse {
    pub pools: Vec<PoolBizObject>,
    pub stats: MarketStats,
}

#[derive(Clone, Copy, Debug, PartialEq, Eq, Structural)]
pub struct PoolBalance {
    pub pool: PoolId,
    pub amount: u128,
}

#[derive(Debug)]
pub struct TraderResponse {
    pub balances: Vec<PoolBalance>,
    pub stats: TraderStats,
}

/// One balance row of an account listing.
#[derive(Clone, Copy, Debug, PartialEq, Eq, Structural)]
pub struct PoolBalanceAppObject {
    pub pool: PoolId,
    pub balance: u128,
}

#[derive(Debug)]
pub struct AccountResponse {
    pub balances: Vec<PoolBalanceAppObject>,
}

} // verus!
