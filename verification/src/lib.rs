//! Core logic of a daily token-reward pool.
//!
//! Users claim a fixed reward from a shared pool at most once per 86400-second
//! day bucket, and donors can top the pool up. The persistent state is two
//! small records: one per pool (aggregate counters plus the controlling
//! authority) and one per user (last claim day and lifetime claim count).
//! Account resolution, signature checks and the actual movement of tokens are
//! the hosting environment's business; this crate verifies the decisions and
//! the bookkeeping the program itself performs.

pub mod day;
pub mod handlers;
pub mod registry;
pub mod state;
