//! Spark-spread hedging for gas-fired power generation.
//!
//! The spark spread is the theoretical gross margin of a gas-fired plant:
//!
//! ```text
//! spread = power - gas / heat_rate - co2 * emission_factor
//! ```
//!
//! Fixed-point scales: prices, spreads, heat rate and emission factor carry
//! scale 10^4; capacities, volumes and hedge positions carry scale 10^2.

use vstd::prelude::*;

use crate::clock::get_timestamp_ns;
use crate::config::HedgeReason;
use crate::config::HedgeRecommendation;
use crate::config::PRICE_ABS_LIMIT_FP;
use crate::config::Urgency;
use crate::fixed::abs;
use crate::fixed::tdiv;
use crate::fixed::tdiv_i128;
use crate::orderbook::OrderBook;
use crate::tick::Side;

verus! {

/// Largest plant capacity accepted, scale 10^2 (10^7 MW).
pub const CAPACITY_LIMIT_FP: i64 = 1_000_000_000;

/// Heat-rate bounds, scale 10^4: between 0.1 and 100 MWh gas per MWh
/// electricity.
pub const HEAT_RATE_MIN_FP: i64 = 1_000;

/// Upper heat-rate bound, scale 10^4.
pub const HEAT_RATE_MAX_FP: i64 = 1_000_000;

/// Largest emission factor accepted, scale 10^4 (10 tons CO2 per MWh gas).
pub const EMISSION_LIMIT_FP: i64 = 100_000;

/// Largest target-spread magnitude accepted, scale 10^4.
pub const TARGET_LIMIT_FP: i64 = 1_000_000_000;

/// Largest spread magnitude that can arise from in-range prices, scale
/// 10^4; the average-spread field stays within it.
pub const SPREAD_LIMIT_FP: i64 = 4_000_000_000;

/// Largest hedge-position magnitude per leg, scale 10^2 (10^12 MWh).
pub const SPARK_HEDGE_LIMIT_FP: i64 = 100_000_000_000_000;

/// Longest hedging horizon accepted, in hours (one year).
pub const HOURS_LIMIT: u64 = 8_784;

/// The spark spread for given prices and plant constants, scale 10^4.
pub open spec fn spec_spread(power: int, gas: int, co2: int, heat_rate: int, emission: int)
    -> int {
    power - tdiv(gas * 10000, heat_rate) - tdiv(co2 * emission, 10000)
}

/// One step of the exponential moving average with alpha = 0.05:
/// `avg * 0.95 + s * 0.05`, truncated.
pub open spec fn spec_ema(avg: int, s: int) -> int {
    tdiv(avg * 95 + s * 5, 100)
}

/// Spark spread hedging strategy for a gas-fired power plant.
///
/// Hedges when the spread exceeds the target threshold: sell power, buy gas
/// and buy CO2 allowances for the chosen horizon.
pub struct SparkSpreadHedge {
    /// Plant capacity (MW), scale 10^2.
    pub capacity_mw_fp: i64,
    /// Heat rate (MWh gas per MWh electricity), scale 10^4.  Typical CCGT:
    /// 1.8-2.2; open-cycle: 2.5-3.5.
    pub heat_rate_fp: i64,
    /// CO2 emission factor (tons per MWh gas), scale 10^4.  Natural gas:
    /// about 0.202.
    pub emission_factor_fp: i64,
    /// Target spark spread threshold, scale 10^4; hedge only above it.
    pub target_spread_fp: i64,
    /// Current power hedge (MWh, negative = sold), scale 10^2.
    pub power_hedge_fp: i64,
    /// Current gas hedge (MWh, positive = bought), scale 10^2.
    pub gas_hedge_fp: i64,
    /// Current CO2 hedge (tons, positive = bought), scale 10^2.
    pub co2_hedge_fp: i64,
    /// Exponential moving average of the spread, scale 10^4.
    pub avg_spread_fp: i64,
    /// Rehedge threshold in basis points.
    pub rehedge_threshold_bps: i64,
}

impl SparkSpreadHedge {
    /// Plant constants and state within the fixed-point bounds.
    pub open spec fn wf(self) -> bool {
        &&& 0 <= self.capacity_mw_fp <= CAPACITY_LIMIT_FP
        &&& HEAT_RATE_MIN_FP <= self.heat_rate_fp <= HEAT_RATE_MAX_FP
        &&& 0 <= self.emission_factor_fp <= EMISSION_LIMIT_FP
        &&& -TARGET_LIMIT_FP <= self.target_spread_fp <= TARGET_LIMIT_FP
        &&& -SPARK_HEDGE_LIMIT_FP <= self.power_hedge_fp <= SPARK_HEDGE_LIMIT_FP
        &&& -SPARK_HEDGE_LIMIT_FP <= self.gas_hedge_fp <= SPARK_HEDGE_LIMIT_FP
        &&& -SPARK_HEDGE_LIMIT_FP <= self.co2_hedge_fp <= SPARK_HEDGE_LIMIT_FP
        &&& -SPREAD_LIMIT_FP <= self.avg_spread_fp <= SPREAD_LIMIT_FP
        &&& self.rehedge_threshold_bps >= 0
    }

    /// The spread this plant sees at the given prices, scale 10^4.
    pub open spec fn spec_spread_at(self, power: int, gas: int, co2: int) -> int {
        spec_spread(power, gas, co2, self.heat_rate_fp as int, self.emission_factor_fp as int)
    }

    /// The power volume hedged over `hours` hours, scale 10^2.
    pub open spec fn spec_power_volume(self, hours: int) -> int {
        self.capacity_mw_fp * hours
    }

    /// The gas volume for that power volume, scale 10^2.
    pub open spec fn spec_gas_volume(self, hours: int) -> int {
        tdiv(self.spec_power_volume(hours) * self.heat_rate_fp, 10000)
    }

    /// The CO2 volume for that gas volume, scale 10^2.
    pub open spec fn spec_co2_volume(self, hours: int) -> int {
        tdiv(self.spec_gas_volume(hours) * self.emission_factor_fp, 10000)
    }

    /// Create a new spark spread strategy with no hedges on and the average
    /// spread seeded at the target.
    pub fn new(
        capacity_mw_fp: i64,
        heat_rate_fp: i64,
        emission_factor_fp: i64,
        target_spread_fp: i64,
    ) -> (h: SparkSpreadHedge)
        requires
            0 <= capacity_mw_fp <= CAPACITY_LIMIT_FP,
            HEAT_RATE_MIN_FP <= heat_rate_fp <= HEAT_RATE_MAX_FP,
            0 <= emission_factor_fp <= EMISSION_LIMIT_FP,
            -TARGET_LIMIT_FP <= target_spread_fp <= TARGET_LIMIT_FP,
        ensures
            h.wf(),
            h.capacity_mw_fp == capacity_mw_fp,
            h.heat_rate_fp == heat_rate_fp,
            h.emission_factor_fp == emission_factor_fp,
            h.target_spread_fp == target_spread_fp,
            h.power_hedge_fp == 0,
            h.gas_hedge_fp == 0,
            h.co2_hedge_fp == 0,
            h.avg_spread_fp == target_spread_fp,
            h.rehedge_threshold_bps == 500,
    {
        SparkSpreadHedge {
            capacity_mw_fp,
            heat_rate_fp,
            emission_factor_fp,
            target_spread_fp,
            power_hedge_fp: 0,
            gas_hedge_fp: 0,
            co2_hedge_fp: 0,
            avg_spread_fp: target_spread_fp,
            rehedge_threshold_bps: 500,
        }
    }

    /// The spark spread at the given prices, scale 10^4:
    /// `power - gas / heat_rate - co2 * emission_factor`.
    pub fn calculate_spread(&self, power_price_fp: i64, gas_price_fp: i64, co2_price_fp: i64)
        -> (r: i64)
        requires
            self.wf(),
            -PRICE_ABS_LIMIT_FP <= power_price_fp <= PRICE_ABS_LIMIT_FP,
            -PRICE_ABS_LIMIT_FP <= gas_price_fp <= PRICE_ABS_LIMIT_FP,
            -PRICE_ABS_LIMIT_FP <= co2_price_fp <= PRICE_ABS_LIMIT_FP,
        ensures
            r == self.spec_spread_at(power_price_fp as int, gas_price_fp as int, co2_price_fp as int),
            -SPREAD_LIMIT_FP < r < SPREAD_LIMIT_FP,
    {
        proof {
            self.lemma_spread_in_range(
                power_price_fp as int,
                gas_price_fp as int,
                co2_price_fp as int,
            );
        }
        let gas_cost: i128 = tdiv_i128(gas_price_fp as i128 * 10000, self.heat_rate_fp as i128);
        let co2_cost: i128 = tdiv_i128(
            co2_price_fp as i128 * self.emission_factor_fp as i128,
            10000,
        );
        (power_price_fp as i128 - gas_cost - co2_cost) as i64
    }

    /// The spread of in-range prices stays strictly inside the spread
    /// bound, and each cost term inside 10^12.
    proof fn lemma_spread_in_range(self, power: int, gas: int, co2: int)
        requires
            self.wf(),
            -PRICE_ABS_LIMIT_FP <= power <= PRICE_ABS_LIMIT_FP,
            -PRICE_ABS_LIMIT_FP <= gas <= PRICE_ABS_LIMIT_FP,
            -PRICE_ABS_LIMIT_FP <= co2 <= PRICE_ABS_LIMIT_FP,
        ensures
            abs(tdiv(gas * 10000, self.heat_rate_fp as int)) <= 1_000_000_000,
            abs(tdiv(co2 * self.emission_factor_fp as int, 10000)) <= 1_000_000_000,
            -SPREAD_LIMIT_FP < self.spec_spread_at(power, gas, co2) < SPREAD_LIMIT_FP,
    {
        assert(abs(gas * 10000) <= 1_000_000_000_000) by (nonlinear_arith)
            requires
                -PRICE_ABS_LIMIT_FP <= gas <= PRICE_ABS_LIMIT_FP,
                PRICE_ABS_LIMIT_FP == 100_000_000i64,
        ;
        crate::fixed::lemma_tdiv_abs_le(gas * 10000, self.heat_rate_fp as int, 1_000_000_000_000);
        vstd::arithmetic::div_mod::lemma_div_is_ordered_by_denominator(
            1_000_000_000_000,
            1000,
            self.heat_rate_fp as int,
        );
        assert(abs(co2 * self.emission_factor_fp as int) <= 10_000_000_000_000)
            by (nonlinear_arith)
            requires
                -PRICE_ABS_LIMIT_FP <= co2 <= PRICE_ABS_LIMIT_FP,
                0 <= self.emission_factor_fp <= EMISSION_LIMIT_FP,
                PRICE_ABS_LIMIT_FP == 100_000_000i64,
                EMISSION_LIMIT_FP == 100_000i64,
        ;
        crate::fixed::lemma_tdiv_abs_le(
            co2 * self.emission_factor_fp as int,
            10000,
            10_000_000_000_000,
        );
    }

    /// The per-MWh cost breakdown at the given gas and CO2 prices.
    pub fn calculate_costs_breakdown(&self, gas_price_fp: i64, co2_price_fp: i64) -> (r:
        CostsBreakdown)
        requires
            self.wf(),
            -PRICE_ABS_LIMIT_FP <= gas_price_fp <= PRICE_ABS_LIMIT_FP,
            -PRICE_ABS_LIMIT_FP <= co2_price_fp <= PRICE_ABS_LIMIT_FP,
        ensures
            r.gas_cost_per_mwh_fp == tdiv(gas_price_fp * 10000, self.heat_rate_fp as int),
            r.co2_cost_per_mwh_fp == tdiv(
                co2_price_fp * self.emission_factor_fp as int,
                10000,
            ),
            r.total_cost_per_mwh_fp == r.gas_cost_per_mwh_fp + r.co2_cost_per_mwh_fp,
            r.gas_volume_per_mwh_fp == self.heat_rate_fp,
            r.co2_volume_per_mwh_fp == tdiv(
                self.heat_rate_fp * self.emission_factor_fp as int,
                10000,
            ),
    {
        proof {
            self.lemma_spread_in_range(0, gas_price_fp as int, co2_price_fp as int);
            assert(0 <= self.heat_rate_fp as int * self.emission_factor_fp as int
                <= 100_000_000_000) by (nonlinear_arith)
                requires
                    0 < self.heat_rate_fp <= HEAT_RATE_MAX_FP,
                    0 <= self.emission_factor_fp <= EMISSION_LIMIT_FP,
                    HEAT_RATE_MAX_FP == 1_000_000i64,
                    EMISSION_LIMIT_FP == 100_000i64,
            ;
            vstd::arithmetic::div_mod::lemma_div_basics_4(
                self.heat_rate_fp as int * self.emission_factor_fp as int,
                10000,
            );
            vstd::arithmetic::div_mod::lemma_div_is_ordered(
                self.heat_rate_fp as int * self.emission_factor_fp as int,
                100_000_000_000,
                10000,
            );
        }
        let gas_cost: i128 = tdiv_i128(gas_price_fp as i128 * 10000, self.heat_rate_fp as i128);
        let co2_cost: i128 = tdiv_i128(
            co2_price_fp as i128 * self.emission_factor_fp as i128,
            10000,
        );
        let co2_per_mwh: i128 = tdiv_i128(
            self.heat_rate_fp as i128 * self.emission_factor_fp as i128,
            10000,
        );
        CostsBreakdown {
            gas_cost_per_mwh_fp: gas_cost as i64,
            co2_cost_per_mwh_fp: co2_cost as i64,
            total_cost_per_mwh_fp: (gas_cost + co2_cost) as i64,
            gas_volume_per_mwh_fp: self.heat_rate_fp,
            co2_volume_per_mwh_fp: co2_per_mwh as i64,
        }
    }

    /// Whether a spread is profitable: strictly above the target.
    pub fn is_profitable(&self, spread_fp: i64) -> (r: bool)
        ensures
            r == (spread_fp > self.target_spread_fp),
    {
        spread_fp > self.target_spread_fp
    }

    /// The hedge volumes for `hours` hours of operation, scale 10^2:
    /// power (MWh), gas (MWh) and CO2 (tons).
    pub fn calculate_hedge_volumes(&self, hours: u64) -> (r: (i64, i64, i64))
        requires
            self.wf(),
            hours <= HOURS_LIMIT,
        ensures
            r.0 == self.spec_power_volume(hours as int),
            r.1 == self.spec_gas_volume(hours as int),
            r.2 == self.spec_co2_volume(hours as int),
            0 <= r.0 <= 10_000_000_000_000,
            0 <= r.1 <= 1_000_000_000_000_000,
            0 <= r.2 <= 10_000_000_000_000_000,
    {
        proof {
            self.lemma_volumes_in_range(hours as int);
        }
        let power: i128 = self.capacity_mw_fp as i128 * hours as i128;
        let gas: i128 = tdiv_i128(power * self.heat_rate_fp as i128, 10000);
        let co2: i128 = tdiv_i128(gas * self.emission_factor_fp as i128, 10000);
        (power as i64, gas as i64, co2 as i64)
    }

    /// The hedge volumes of an in-range horizon are non-negative and fit
    /// the hedge-position bound.
    proof fn lemma_volumes_in_range(self, hours: int)
        requires
            self.wf(),
            0 <= hours <= HOURS_LIMIT,
        ensures
            0 <= self.spec_power_volume(hours) <= 10_000_000_000_000,
            0 <= self.spec_gas_volume(hours) <= 1_000_000_000_000_000,
            0 <= self.spec_co2_volume(hours) <= 10_000_000_000_000_000,
            self.spec_gas_volume(hours) * self.emission_factor_fp as int
                <= 100_000_000_000_000_000_000,
            self.spec_power_volume(hours) * self.heat_rate_fp as int
                <= 10_000_000_000_000_000_000,
    {
        let power = self.spec_power_volume(hours);
        assert(0 <= power <= 10_000_000_000_000) by (nonlinear_arith)
            requires
                0 <= self.capacity_mw_fp <= CAPACITY_LIMIT_FP,
                0 <= hours <= HOURS_LIMIT,
                power == self.capacity_mw_fp * hours,
                CAPACITY_LIMIT_FP == 1_000_000_000i64,
                HOURS_LIMIT == 8784u64,
        ;
        assert(0 <= power * self.heat_rate_fp as int <= 10_000_000_000_000_000_000)
            by (nonlinear_arith)
            requires
                0 <= power <= 10_000_000_000_000,
                0 < self.heat_rate_fp <= HEAT_RATE_MAX_FP,
                HEAT_RATE_MAX_FP == 1_000_000i64,
        ;
        vstd::arithmetic::div_mod::lemma_div_basics_4(power * self.heat_rate_fp as int, 10000);
        vstd::arithmetic::div_mod::lemma_div_is_ordered(
            power * self.heat_rate_fp as int,
            10_000_000_000_000_000_000,
            10000,
        );
        let gas = self.spec_gas_volume(hours);
        assert(0 <= gas * self.emission_factor_fp as int <= 100_000_000_000_000_000_000)
            by (nonlinear_arith)
            requires
                0 <= gas <= 1_000_000_000_000_000,
                0 <= self.emission_factor_fp <= EMISSION_LIMIT_FP,
                EMISSION_LIMIT_FP == 100_000i64,
        ;
        vstd::arithmetic::div_mod::lemma_div_basics_4(gas * self.emission_factor_fp as int, 10000);
        vstd::arithmetic::div_mod::lemma_div_is_ordered(
            gas * self.emission_factor_fp as int,
            100_000_000_000_000_000_000,
            10000,
        );
    }

    /// Fold one spread observation into the exponential moving average
    /// (alpha = 0.05).
    pub fn update_avg_spread(&mut self, current_spread_fp: i64)
        requires
            old(self).wf(),
            -SPREAD_LIMIT_FP <= current_spread_fp <= SPREAD_LIMIT_FP,
        ensures
            final(self).wf(),
            final(self).avg_spread_fp == spec_ema(
                old(self).avg_spread_fp as int,
                current_spread_fp as int,
            ),
            *final(self) == (SparkSpreadHedge {
                avg_spread_fp: final(self).avg_spread_fp,
                ..*old(self)
            }),
    {
        proof {
            assert(abs(
                self.avg_spread_fp as int * 95 + current_spread_fp as int * 5,
            ) <= 400_000_000_000) by (nonlinear_arith)
                requires
                    -SPREAD_LIMIT_FP <= self.avg_spread_fp <= SPREAD_LIMIT_FP,
                    -SPREAD_LIMIT_FP <= current_spread_fp <= SPREAD_LIMIT_FP,
                    SPREAD_LIMIT_FP == 4_000_000_000i64,
            ;
            crate::fixed::lemma_tdiv_abs_le(
                self.avg_spread_fp as int * 95 + current_spread_fp as int * 5,
                100,
                400_000_000_000,
            );
        }
        let num: i128 = self.avg_spread_fp as i128 * 95 + current_spread_fp as i128 * 5;
        let avg: i128 = tdiv_i128(num, 100);
        self.avg_spread_fp = avg as i64;
    }

    /// Get the three-leg recommendation for `hours_ahead` hours: sell power
    /// at the best bid, buy gas and CO2 at the best asks.
    ///
    /// `None` when a top-of-book price is outside the supported range, when
    /// the spread does not beat the target, or when a power hedge is already
    /// on and the change stays below the rehedge threshold.  The average
    /// spread is updated whenever the prices are in range.
    pub fn get_recommendations(
        &mut self,
        power_orderbook: &OrderBook,
        gas_orderbook: &OrderBook,
        co2_orderbook: &OrderBook,
        hours_ahead: u64,
    ) -> (r: Option<SparkSpreadRecommendations>)
        requires
            old(self).wf(),
            power_orderbook.wf(),
            gas_orderbook.wf(),
            co2_orderbook.wf(),
            hours_ahead <= HOURS_LIMIT,
        ensures
            final(self).wf(),
            ({
                let power_bid = power_orderbook@.bids[0] as int;
                let gas_ask = gas_orderbook@.asks[0] as int;
                let co2_ask = co2_orderbook@.asks[0] as int;
                let prices_ok = power_bid <= PRICE_ABS_LIMIT_FP && gas_ask <= PRICE_ABS_LIMIT_FP
                    && co2_ask <= PRICE_ABS_LIMIT_FP;
                let spread = old(self).spec_spread_at(power_bid, gas_ask, co2_ask);
                let power_volume = old(self).spec_power_volume(hours_ahead as int);
                let hedge = old(self).power_hedge_fp as int;
                let gate_ok = hedge == 0 || abs(power_volume - abs(hedge)) * 10000
                    >= old(self).rehedge_threshold_bps * abs(hedge);
                &&& final(self).avg_spread_fp == (if prices_ok {
                    spec_ema(old(self).avg_spread_fp as int, spread)
                } else {
                    old(self).avg_spread_fp as int
                })
                &&& *final(self) == (SparkSpreadHedge {
                    avg_spread_fp: final(self).avg_spread_fp,
                    ..*old(self)
                })
                &&& (r is Some <==> prices_ok && spread > old(self).target_spread_fp && gate_ok)
                &&& r is Some ==> {
                    let recs = r->Some_0;
                    &&& recs.spread_fp == spread
                    &&& recs.avg_spread_fp == final(self).avg_spread_fp
                    &&& recs.power.quantity_fp == power_volume
                    &&& recs.power.price_fp == power_bid
                    &&& recs.power.side == Side::Bid
                    &&& recs.gas.quantity_fp == old(self).spec_gas_volume(hours_ahead as int)
                    &&& recs.gas.price_fp == gas_ask
                    &&& recs.gas.side == Side::Ask
                    &&& recs.co2.quantity_fp == old(self).spec_co2_volume(hours_ahead as int)
                    &&& recs.co2.price_fp == co2_ask
                    &&& recs.co2.side == Side::Ask
                    &&& recs.power.urgency == recs.gas.urgency
                    &&& recs.gas.urgency == recs.co2.urgency
                    &&& recs.power.timestamp_ns == recs.gas.timestamp_ns
                    &&& recs.gas.timestamp_ns == recs.co2.timestamp_ns
                    &&& recs.power.urgency == (if spread - final(self).avg_spread_fp > 100_000 {
                        Urgency::High
                    } else {
                        Urgency::Normal
                    })
                    &&& recs.costs.gas_cost_per_mwh_fp == tdiv(
                        gas_ask * 10000,
                        old(self).heat_rate_fp as int,
                    )
                    &&& recs.costs.co2_cost_per_mwh_fp == tdiv(
                        co2_ask * old(self).emission_factor_fp as int,
                        10000,
                    )
                    &&& recs.profit_per_mwh_fp == spread - old(self).target_spread_fp
                    &&& recs.total_profit_fp == tdiv(
                        (spread - old(self).target_spread_fp) * power_volume,
                        10000,
                    )
                }
            }),
    {
        let (power_bid, _) = power_orderbook.best_bid();
        let (gas_ask, _) = gas_orderbook.best_ask();
        let (co2_ask, _) = co2_orderbook.best_ask();

        if power_bid > PRICE_ABS_LIMIT_FP || gas_ask > PRICE_ABS_LIMIT_FP || co2_ask
            > PRICE_ABS_LIMIT_FP {
            return None;
        }

        let spread: i64 = self.calculate_spread(power_bid, gas_ask, co2_ask);
        self.update_avg_spread(spread);

        if !self.is_profitable(spread) {
            return None;
        }

        let (power_volume, gas_volume, co2_volume): (i64, i64, i64) = self.calculate_hedge_volumes(
            hours_ahead,
        );

        let current_power_hedge: i64 = self.power_hedge_fp;
        if current_power_hedge != 0 {
            let hedge_abs: i64 = if current_power_hedge >= 0 {
                current_power_hedge
            } else {
                -current_power_hedge
            };
            let delta_power: i64 = power_volume - hedge_abs;
            let delta_abs: i64 = if delta_power >= 0 {
                delta_power
            } else {
                -delta_power
            };
            proof {
                assert((self.rehedge_threshold_bps as int) * (hedge_abs as int)
                    < 0x4000_0000_0000_0000_0000_0000_0000_0000) by (nonlinear_arith)
                    requires
                        0 <= self.rehedge_threshold_bps <= i64::MAX,
                        0 <= hedge_abs <= i64::MAX,
                ;
            }
            if (delta_abs as i128) * 10000 < (self.rehedge_threshold_bps as i128) * (
            hedge_abs as i128) {
                return None;
            }
        }

        let costs: CostsBreakdown = self.calculate_costs_breakdown(gas_ask, co2_ask);

        let avg_spread: i64 = self.avg_spread_fp;
        let spread_premium: i64 = spread - avg_spread;
        let urgency: Urgency = if spread_premium > 100_000 {
            Urgency::High
        } else {
            Urgency::Normal
        };

        let timestamp: u64 = get_timestamp_ns();

        let power_rec = HedgeRecommendation::new(
            power_volume,
            power_bid,
            Side::Bid,
            urgency,
            HedgeReason::SparkPower { price_fp: power_bid, spread_fp: spread },
            timestamp,
        );
        let gas_rec = HedgeRecommendation::new(
            gas_volume,
            gas_ask,
            Side::Ask,
            urgency,
            HedgeReason::SparkGas {
                price_fp: gas_ask,
                cost_per_mwh_fp: costs.gas_cost_per_mwh_fp,
            },
            timestamp,
        );
        let co2_rec = HedgeRecommendation::new(
            co2_volume,
            co2_ask,
            Side::Ask,
            urgency,
            HedgeReason::SparkCo2 {
                price_fp: co2_ask,
                cost_per_mwh_fp: costs.co2_cost_per_mwh_fp,
            },
            timestamp,
        );

        proof {
            assert(abs((spread - self.target_spread_fp) as int * power_volume as int)
                <= 50_000_000_000_000_000_000_000) by (nonlinear_arith)
                requires
                    -SPREAD_LIMIT_FP < spread < SPREAD_LIMIT_FP,
                    -TARGET_LIMIT_FP <= self.target_spread_fp <= TARGET_LIMIT_FP,
                    0 <= power_volume <= 10_000_000_000_000i64,
                    SPREAD_LIMIT_FP == 4_000_000_000i64,
                    TARGET_LIMIT_FP == 1_000_000_000i64,
            ;
            crate::fixed::lemma_tdiv_abs_le(
                (spread - self.target_spread_fp) as int * power_volume as int,
                10000,
                50_000_000_000_000_000_000_000,
            );
        }
        let profit_per_mwh: i64 = spread - self.target_spread_fp;
        let total_profit: i128 = tdiv_i128(
            (profit_per_mwh as i128) * (power_volume as i128),
            10000,
        );

        Some(
            SparkSpreadRecommendations {
                spread_fp: spread,
                avg_spread_fp: avg_spread,
                power: power_rec,
                gas: gas_rec,
                co2: co2_rec,
                costs,
                profit_per_mwh_fp: profit_per_mwh,
                total_profit_fp: total_profit as i64,
            },
        )
    }

    /// Execute the three-leg hedge: power is sold (position decreases), gas
    /// and CO2 are bought (positions increase).
    pub fn execute_hedge(&mut self, power_volume_fp: i64, gas_volume_fp: i64, co2_volume_fp: i64)
        requires
            old(self).wf(),
            power_volume_fp >= 0,
            gas_volume_fp >= 0,
            co2_volume_fp >= 0,
            old(self).power_hedge_fp - power_volume_fp >= -SPARK_HEDGE_LIMIT_FP,
            old(self).gas_hedge_fp + gas_volume_fp <= SPARK_HEDGE_LIMIT_FP,
            old(self).co2_hedge_fp + co2_volume_fp <= SPARK_HEDGE_LIMIT_FP,
        ensures
            final(self).wf(),
            final(self).power_hedge_fp == old(self).power_hedge_fp - power_volume_fp,
            final(self).gas_hedge_fp == old(self).gas_hedge_fp + gas_volume_fp,
            final(self).co2_hedge_fp == old(self).co2_hedge_fp + co2_volume_fp,
            final(self).avg_spread_fp == old(self).avg_spread_fp,
            final(self).capacity_mw_fp == old(self).capacity_mw_fp,
            final(self).heat_rate_fp == old(self).heat_rate_fp,
            final(self).emission_factor_fp == old(self).emission_factor_fp,
            final(self).target_spread_fp == old(self).target_spread_fp,
            final(self).rehedge_threshold_bps == old(self).rehedge_threshold_bps,
    {
        self.power_hedge_fp = self.power_hedge_fp - power_volume_fp;
        self.gas_hedge_fp = self.gas_hedge_fp + gas_volume_fp;
        self.co2_hedge_fp = self.co2_hedge_fp + co2_volume_fp;
    }

    /// The current hedge positions, scale 10^2.
    pub fn get_positions(&self) -> (r: SparkSpreadPositions)
        ensures
            r.power_mw_fp == self.power_hedge_fp,
            r.gas_mwh_fp == self.gas_hedge_fp,
            r.co2_tons_fp == self.co2_hedge_fp,
    {
        SparkSpreadPositions {
            power_mw_fp: self.power_hedge_fp,
            gas_mwh_fp: self.gas_hedge_fp,
            co2_tons_fp: self.co2_hedge_fp,
        }
    }

    /// Mark-to-market P&L of the current positions at the given prices,
    /// scale 10^2: `-pos_power * power - pos_gas * gas - pos_co2 * co2`
    /// (positions already carry their sign).
    pub fn calculate_pnl(&self, power_price_fp: i64, gas_price_fp: i64, co2_price_fp: i64) -> (r:
        i64)
        requires
            self.wf(),
            -PRICE_ABS_LIMIT_FP <= power_price_fp <= PRICE_ABS_LIMIT_FP,
            -PRICE_ABS_LIMIT_FP <= gas_price_fp <= PRICE_ABS_LIMIT_FP,
            -PRICE_ABS_LIMIT_FP <= co2_price_fp <= PRICE_ABS_LIMIT_FP,
        ensures
            r == tdiv(
                -(self.power_hedge_fp as int * power_price_fp as int) - self.gas_hedge_fp as int
                    * gas_price_fp as int - self.co2_hedge_fp as int * co2_price_fp as int,
                10000,
            ),
    {
        proof {
            assert(abs(
                -(self.power_hedge_fp as int * power_price_fp as int) - self.gas_hedge_fp as int
                    * gas_price_fp as int - self.co2_hedge_fp as int * co2_price_fp as int,
            ) <= 30_000_000_000_000_000_000_000) by (nonlinear_arith)
                requires
                    -SPARK_HEDGE_LIMIT_FP <= self.power_hedge_fp <= SPARK_HEDGE_LIMIT_FP,
                    -SPARK_HEDGE_LIMIT_FP <= self.gas_hedge_fp <= SPARK_HEDGE_LIMIT_FP,
                    -SPARK_HEDGE_LIMIT_FP <= self.co2_hedge_fp <= SPARK_HEDGE_LIMIT_FP,
                    -PRICE_ABS_LIMIT_FP <= power_price_fp <= PRICE_ABS_LIMIT_FP,
                    -PRICE_ABS_LIMIT_FP <= gas_price_fp <= PRICE_ABS_LIMIT_FP,
                    -PRICE_ABS_LIMIT_FP <= co2_price_fp <= PRICE_ABS_LIMIT_FP,
                    SPARK_HEDGE_LIMIT_FP == 100_000_000_000_000i64,
                    PRICE_ABS_LIMIT_FP == 100_000_000i64,
            ;
            crate::fixed::lemma_tdiv_abs_le(
                -(self.power_hedge_fp as int * power_price_fp as int) - self.gas_hedge_fp as int
                    * gas_price_fp as int - self.co2_hedge_fp as int * co2_price_fp as int,
                10000,
                30_000_000_000_000_000_000_000,
            );
        }
        proof {
            assert(abs(self.power_hedge_fp as int * power_price_fp as int)
                <= 10_000_000_000_000_000_000_000 && abs(
                self.gas_hedge_fp as int * gas_price_fp as int,
            ) <= 10_000_000_000_000_000_000_000 && abs(
                self.co2_hedge_fp as int * co2_price_fp as int,
            ) <= 10_000_000_000_000_000_000_000) by (nonlinear_arith)
                requires
                    -SPARK_HEDGE_LIMIT_FP <= self.power_hedge_fp <= SPARK_HEDGE_LIMIT_FP,
                    -SPARK_HEDGE_LIMIT_FP <= self.gas_hedge_fp <= SPARK_HEDGE_LIMIT_FP,
                    -SPARK_HEDGE_LIMIT_FP <= self.co2_hedge_fp <= SPARK_HEDGE_LIMIT_FP,
                    -PRICE_ABS_LIMIT_FP <= power_price_fp <= PRICE_ABS_LIMIT_FP,
                    -PRICE_ABS_LIMIT_FP <= gas_price_fp <= PRICE_ABS_LIMIT_FP,
                    -PRICE_ABS_LIMIT_FP <= co2_price_fp <= PRICE_ABS_LIMIT_FP,
                    SPARK_HEDGE_LIMIT_FP == 100_000_000_000_000i64,
                    PRICE_ABS_LIMIT_FP == 100_000_000i64,
            ;
        }
        let num: i128 = -(self.power_hedge_fp as i128 * power_price_fp as i128)
            - self.gas_hedge_fp as i128 * gas_price_fp as i128 - self.co2_hedge_fp as i128
            * co2_price_fp as i128;
        let pnl: i128 = tdiv_i128(num, 10000);
        pnl as i64
    }
}

/// Costs breakdown for the spark spread calculation; scale 10^4 throughout.
#[derive(Debug, Clone, Copy)]
pub struct CostsBreakdown {
    /// Gas cost per MWh of electricity.
    pub gas_cost_per_mwh_fp: i64,
    /// CO2 cost per MWh of electricity.
    pub co2_cost_per_mwh_fp: i64,
    /// Total cost per MWh of electricity.
    pub total_cost_per_mwh_fp: i64,
    /// Gas volume needed per MWh of electricity (the heat rate).
    pub gas_volume_per_mwh_fp: i64,
    /// CO2 emissions per MWh of electricity.
    pub co2_volume_per_mwh_fp: i64,
}

/// Complete spark spread hedge recommendations.
#[derive(Debug, Clone, Copy)]
pub struct SparkSpreadRecommendations {
    /// Current spark spread, scale 10^4.
    pub spread_fp: i64,
    /// Average spread after this observation, scale 10^4.
    pub avg_spread_fp: i64,
    /// Power hedge recommendation (sell).
    pub power: HedgeRecommendation,
    /// Gas hedge recommendation (buy).
    pub gas: HedgeRecommendation,
    /// CO2 hedge recommendation (buy).
    pub co2: HedgeRecommendation,
    /// Cost breakdown.
    pub costs: CostsBreakdown,
    /// Profit above target per MWh, scale 10^4.
    pub profit_per_mwh_fp: i64,
    /// Total expected profit, scale 10^2.
    pub total_profit_fp: i64,
}

/// Current hedge positions, scale 10^2.
#[derive(Debug, Clone, Copy)]
pub struct SparkSpreadPositions {
    /// Power position (MWh, negative = sold).
    pub power_mw_fp: i64,
    /// Gas position (MWh, positive = bought).
    pub gas_mwh_fp: i64,
    /// CO2 position (tons, positive = bought).
    pub co2_tons_fp: i64,
}

} // verus!
