//! A multi-pool constant-product trading engine: independent reserve pools
//! holding a base and a quote asset, buy/sell/swap trades with protocol fees,
//! minute-bucketed OHLC aggregation, and a one-shot pro-rata settlement once
//! trading closes.
//!
//! All state lives in an explicit [`state::storage::Store`] handle that is
//! threaded through every operation; the surrounding execution environment is
//! responsible for persisting a returned store and for discarding it when an
//! operation fails.
pub mod accounting;
pub mod error;
pub mod execute;
pub mod math;
pub mod msg;
pub mod query;
pub mod state;
pub mod token;
