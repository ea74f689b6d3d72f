//! Accounting core of a constant-product liquidity pool.
//!
//! The crate keeps the per-pool ledger (fee accumulators, liquidity-provider
//! supply, feature switches), the fee-tier configurations, the fee split of a
//! trade and a fixed-capacity oracle of time-weighted cumulative prices.
//! Every function is a synchronous computation over values handed in by the
//! caller; moving tokens and authenticating callers is left to the host.

pub mod address;
pub mod errors;
pub mod math;
pub mod fees;
pub mod config;
pub mod registry;
pub mod status;
pub mod oracle;
pub mod pool;
pub mod swap;
pub mod initialize;
