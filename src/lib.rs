//! Load generation for a rollup network: a rolling-deadline rate limiter,
//! per-account nonce and balance bookkeeping, bounded random transaction
//! synthesis, the provider error taxonomy and the simulation state machine.

pub mod throttler;
pub mod config;
pub mod provider;
pub mod amount;
pub mod types;
pub mod random;
pub mod registry;
pub mod transaction;
pub mod engine;
