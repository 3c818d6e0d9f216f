//! Verified core of a maker-only market-making engine for a single spot
//! instrument on a central-limit-order-book venue.
//!
//! All prices, quantities and notionals are fixed-point integers: one unit is
//! 10^-12 of the respective currency. Instants are milliseconds. The venue
//! adapters (transport, signing, JSON) live outside this crate and exchange
//! plain values with it.

pub mod engine;
pub mod events;
pub mod execution;
pub mod kraken;
pub mod market;
pub mod risk;
pub mod scenario;
pub mod scheduling;
pub mod signals;
pub mod strategy;
pub mod types;
pub mod units;
