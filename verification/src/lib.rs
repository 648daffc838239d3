//! Low-latency algorithmic hedging core for energy derivatives.
//!
//! The library keeps every quantity in fixed-point integer form so that all
//! arithmetic is exact and verifiable:
//!
//! - prices carry an implicit scale of 10^4 (one unit = 0.0001 currency),
//! - positions and volumes carry a scale of 10^2,
//! - ratios, statistics and adjustment factors carry a scale of 10^4.
//!
//! Front ends that prefer floating point convert at the boundary.

use vstd::prelude::*;

pub mod clock;
pub mod config;
pub mod delta;
pub mod engine;
pub mod fixed;
pub mod mean_reversion;
pub mod metrics;
pub mod mvhr;
pub mod network;
pub mod orderbook;
pub mod queue;
pub mod spark_spread;
pub mod stats;
pub mod strategy;
pub mod tick;

verus! {

/// Error kinds of the library.
///
/// Construction-time configuration errors are fatal to the engine instance;
/// hot-path operations never fail.
#[derive(Debug)]
pub enum Error {
    /// Invalid configuration (ratio, threshold or position limit).
    Config(String),
    /// Market-data feed failure.
    MarketData(String),
    /// Degenerate statistics.
    Calculation(String),
    /// Invalid internal state.
    InvalidState(String),
    /// Network failure.
    Network(String),
}

impl Error {
    /// The human-readable text carried by the error.
    pub fn message(&self) -> (r: &String)
        ensures
            r == match self {
                Error::Config(m) => m,
                Error::MarketData(m) => m,
                Error::Calculation(m) => m,
                Error::InvalidState(m) => m,
                Error::Network(m) => m,
            },
    {
        match self {
            Error::Config(m) => m,
            Error::MarketData(m) => m,
            Error::Calculation(m) => m,
            Error::InvalidState(m) => m,
            Error::Network(m) => m,
        }
    }
}

} // verus!
