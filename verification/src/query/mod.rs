//! Read-only views over the store: no side effects.
pub mod account;
pub mod pools;
pub mod trader;
