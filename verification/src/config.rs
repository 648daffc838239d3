//! Hedge engine configuration and recommendation types.
//!
//! Scales at the type boundary: positions and quantities carry scale 10^2,
//! prices scale 10^4, ratios and adjustment factors scale 10^4.

use vstd::prelude::*;

use crate::Error;
use crate::tick::Side;

verus! {

/// Largest position magnitude the engine accepts, fixed-point scale 10^2
/// (10^11 MWh): keeps every scaled product inside an `i64`.
pub const POSITION_LIMIT_FP: i64 = 10_000_000_000_000;

/// Largest hedge-ratio magnitude the engine accepts, fixed-point scale 10^4
/// (a ratio of 10^4).
pub const RATIO_LIMIT_FP: i64 = 100_000_000;

/// Largest hedge-position magnitude the accumulator accepts, fixed-point
/// scale 10^2: the bound the scaled product of the two limits above reaches.
pub const HEDGE_LIMIT_FP: i64 = 100_000_000_000_000_000;

/// Largest statistics window (in observations or hours) the strategies
/// accept.
pub const WINDOW_LIMIT: usize = 100_000;

/// Largest price magnitude the statistics accept, fixed-point scale 10^4
/// (10^4 currency units): observations outside this range make a window
/// degenerate.
pub const PRICE_ABS_LIMIT_FP: i64 = 100_000_000;

/// Hedge urgency level.
#[derive(Debug, Clone, Copy, PartialEq, Eq, Structural)]
pub enum Urgency {
    /// Normal priority.
    Normal,
    /// High priority (large delta).
    High,
    /// Emergency (risk limit breach).
    Emergency,
}

/// Why a recommendation was made, with the figures that drove it.
#[derive(Debug, Clone, Copy)]
pub enum HedgeReason {
    /// Delta hedge against the physical position.
    Delta {
        /// Physical position, scale 10^2.
        position_fp: i64,
        /// Target hedge, scale 10^2.
        target_fp: i64,
        /// Hedge position before the recommendation, scale 10^2.
        current_hedge_fp: i64,
        /// Signed delta, scale 10^2.
        delta_fp: i64,
        /// Ratio contributed by the MVHR overlay, scale 10^4, when enabled.
        mvhr_ratio_fp: Option<i64>,
        /// Scaling applied by the mean-reversion overlay, scale 10^4, when
        /// enabled.
        mr_adjustment_fp: Option<i64>,
    },
    /// Spark spread: sell power.
    SparkPower {
        /// Best bid used, scale 10^4.
        price_fp: i64,
        /// Spread at decision time, scale 10^4.
        spread_fp: i64,
    },
    /// Spark spread: buy gas.
    SparkGas {
        /// Best ask used, scale 10^4.
        price_fp: i64,
        /// Gas cost per MWh of electricity, scale 10^4.
        cost_per_mwh_fp: i64,
    },
    /// Spark spread: buy CO2 allowances.
    SparkCo2 {
        /// Best ask used, scale 10^4.
        price_fp: i64,
        /// CO2 cost per MWh of electricity, scale 10^4.
        cost_per_mwh_fp: i64,
    },
    /// Weighted combination of several strategies.
    Composite {
        /// How many strategies contributed.
        strategies: usize,
    },
}

/// Hedge recommendation from a strategy.
#[derive(Debug, Clone, Copy)]
pub struct HedgeRecommendation {
    /// Quantity to hedge (MWh or lots), scale 10^2.
    pub quantity_fp: i64,
    /// Target price, scale 10^4.
    pub price_fp: i64,
    /// Side (buy at the ask or sell at the bid).
    pub side: Side,
    /// Urgency level.
    pub urgency: Urgency,
    /// Reason for the hedge.
    pub reason: HedgeReason,
    /// Timestamp when the recommendation was made.
    pub timestamp_ns: u64,
}

impl HedgeRecommendation {
    /// Create a new hedge recommendation.
    pub fn new(
        quantity_fp: i64,
        price_fp: i64,
        side: Side,
        urgency: Urgency,
        reason: HedgeReason,
        timestamp_ns: u64,
    ) -> (r: HedgeRecommendation)
        ensures
            r.quantity_fp == quantity_fp,
            r.price_fp == price_fp,
            r.side == side,
            r.urgency == urgency,
            r.reason == reason,
            r.timestamp_ns == timestamp_ns,
    {
        HedgeRecommendation { quantity_fp, price_fp, side, urgency, reason, timestamp_ns }
    }
}

/// Hedge engine configuration.
#[derive(Debug, Clone, Copy)]
pub struct HedgeConfig {
    /// Initial position (MWh, negative = short), scale 10^2.
    pub initial_position_fp: i64,
    /// Default hedge ratio, scale 10^4 (11250 = 1.125).
    pub default_hedge_ratio_fp: i64,
    /// Rehedge threshold in basis points (500 = rehedge when the delta
    /// exceeds 5% of the current hedge).
    pub rehedge_threshold_bps: i64,
    /// Maximum position size (MWh), scale 10^2.
    pub max_position_fp: i64,
    /// Enable MVHR calculation.
    pub enable_mvhr: bool,
    /// Enable mean reversion.
    pub enable_mean_reversion: bool,
    /// Look-back window for statistics (hours).
    pub statistics_window_hours: usize,
}

impl HedgeConfig {
    /// A configuration is valid when the ratio is positive, the threshold
    /// non-negative, the position limit positive, and every magnitude within
    /// the machine bounds the fixed-point arithmetic needs.
    pub open spec fn valid(self) -> bool {
        &&& 0 < self.default_hedge_ratio_fp <= RATIO_LIMIT_FP
        &&& self.rehedge_threshold_bps >= 0
        &&& self.max_position_fp > 0
        &&& -POSITION_LIMIT_FP <= self.initial_position_fp <= POSITION_LIMIT_FP
        &&& self.statistics_window_hours <= WINDOW_LIMIT
    }

    /// Create a simple configuration: the given position and ratio, the
    /// defaults for everything else.
    pub fn simple(position_fp: i64, ratio_fp: i64) -> (c: HedgeConfig)
        ensures
            c.initial_position_fp == position_fp,
            c.default_hedge_ratio_fp == ratio_fp,
            c.rehedge_threshold_bps == 500,
            c.max_position_fp == 10_000_000,
            c.enable_mvhr == true,
            c.enable_mean_reversion == false,
            c.statistics_window_hours == 720,
    {
        HedgeConfig { initial_position_fp: position_fp, default_hedge_ratio_fp: ratio_fp, ..Self::default() }
    }

    /// Validate the configuration: `Ok` exactly when `valid` holds, and a
    /// `Config` error naming the first offending field otherwise.
    pub fn validate(&self) -> (r: Result<(), Error>)
        ensures
            r is Ok <==> self.valid(),
            r matches Err(e) ==> e is Config,
    {
        if self.default_hedge_ratio_fp <= 0 || self.default_hedge_ratio_fp > RATIO_LIMIT_FP {
            return Err(Error::Config("Hedge ratio must be positive".to_owned()));
        }
        if self.rehedge_threshold_bps < 0 {
            return Err(Error::Config("Rehedge threshold must be non-negative".to_owned()));
        }
        if self.max_position_fp <= 0 {
            return Err(Error::Config("Max position must be positive".to_owned()));
        }
        if self.initial_position_fp < -POSITION_LIMIT_FP
            || self.initial_position_fp > POSITION_LIMIT_FP {
            return Err(Error::Config("Initial position out of range".to_owned()));
        }
        if self.statistics_window_hours > WINDOW_LIMIT {
            return Err(Error::Config("Statistics window out of range".to_owned()));
        }
        Ok(())
    }
}

impl Default for HedgeConfig {
    /// The default configuration: flat position, ratio 1.0, 500 bps
    /// threshold, 100 000 MWh position limit, MVHR on, mean reversion off,
    /// a 30-day (720 h) statistics window.
    fn default() -> (c: HedgeConfig)
        ensures
            c.initial_position_fp == 0,
            c.default_hedge_ratio_fp == 10_000,
            c.rehedge_threshold_bps == 500,
            c.max_position_fp == 10_000_000,
            c.enable_mvhr == true,
            c.enable_mean_reversion == false,
            c.statistics_window_hours == 720,
            c.valid(),
    {
        HedgeConfig {
            initial_position_fp: 0,
            default_hedge_ratio_fp: 10_000,
            rehedge_threshold_bps: 500,
            max_position_fp: 10_000_000,
            enable_mvhr: true,
            enable_mean_reversion: false,
            statistics_window_hours: 720,
        }
    }
}

} // verus!
