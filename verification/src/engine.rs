//! The hedging engine: routes ticks into the order books and strategy
//! windows, and composes the delta hedge with the MVHR and mean-reversion
//! overlays into a single recommendation.

use vstd::prelude::*;

use crate::clock::get_timestamp_ns;
use crate::config::HEDGE_LIMIT_FP;
use crate::config::HedgeConfig;
use crate::config::HedgeReason;
use crate::config::HedgeRecommendation;
use crate::config::PRICE_ABS_LIMIT_FP;
use crate::delta::DeltaHedge;
use crate::fixed::abs;
use crate::fixed::tdiv;
use crate::mean_reversion::MeanReversionHedge;
use crate::mean_reversion::spec_adjust_factor;
use crate::mean_reversion::spec_z_score;
use crate::metrics::Metrics;
use crate::metrics::spec_recorded_tick;
use crate::mvhr::MVHRStrategy;
use crate::orderbook::BookView;
use crate::orderbook::OrderBook;
use crate::orderbook::spec_update_ask;
use crate::orderbook::spec_update_bid;
use crate::tick::MarketTick;
use crate::tick::Side;
use crate::Error;

verus! {

/// A sliding window after one append: grows until `w` entries, then drops
/// the oldest.
pub open spec fn slide_window(s: Seq<i64>, w: int, v: i64) -> Seq<i64> {
    if s.len() < w {
        s.push(v)
    } else {
        s.push(v).drop_first()
    }
}

/// Both top-of-book sides of a book are populated.
pub open spec fn both_sides_populated(b: BookView) -> bool {
    b.bids[0] > 0 && b.asks[0] > 0
}

/// The spot book after a tick: changed only by a spot (instrument 1) tick,
/// at level 0 on the tick's side.
pub open spec fn spec_spot_after(pre: BookView, tick: MarketTick) -> BookView {
    if tick.symbol_id == 1 {
        if tick.side == 0 {
            spec_update_bid(pre, 0, tick.price, tick.quantity as u64, tick.timestamp_ns)
        } else {
            spec_update_ask(pre, 0, tick.price, tick.quantity as u64, tick.timestamp_ns)
        }
    } else {
        pre
    }
}

/// The futures book after a tick: changed only by a futures (instrument 2)
/// tick, at level 0 on the tick's side.
pub open spec fn spec_futures_after(pre: BookView, tick: MarketTick) -> BookView {
    if tick.symbol_id == 2 {
        if tick.side == 0 {
            spec_update_bid(pre, 0, tick.price, tick.quantity as u64, tick.timestamp_ns)
        } else {
            spec_update_ask(pre, 0, tick.price, tick.quantity as u64, tick.timestamp_ns)
        }
    } else {
        pre
    }
}

/// Main hedging engine.
///
/// Owns the books and the strategies; the instrument topology is fixed:
/// 1 = spot, 2 = futures.  Unknown instruments are dropped.
pub struct HedgeEngine {
    /// Spot order book (instrument 1).
    pub spot_orderbook: OrderBook,
    /// Futures order book (instrument 2).
    pub futures_orderbook: OrderBook,
    /// Delta hedging strategy.
    pub delta_hedge: DeltaHedge,
    /// MVHR strategy, when enabled.
    pub mvhr_strategy: Option<MVHRStrategy>,
    /// Mean reversion strategy, when enabled.
    pub mean_reversion: Option<MeanReversionHedge>,
    /// Performance metrics.
    pub metrics: Metrics,
}

impl HedgeEngine {
    /// Every component well-formed, with the fixed instrument ids.
    pub open spec fn wf(self) -> bool {
        &&& self.spot_orderbook.wf()
        &&& self.spot_orderbook@.symbol_id == 1
        &&& self.futures_orderbook.wf()
        &&& self.futures_orderbook@.symbol_id == 2
        &&& self.delta_hedge.wf()
        &&& (self.mvhr_strategy matches Some(m) ==> m.wf())
        &&& (self.mean_reversion matches Some(m) ==> m.wf())
        &&& self.metrics.wf()
    }

    /// Create a new hedge engine from a validated configuration: `Ok`
    /// exactly when the configuration is valid.
    pub fn new(config: HedgeConfig) -> (r: Result<HedgeEngine, Error>)
        ensures
            r is Ok <==> config.valid(),
            r matches Err(e) ==> e is Config,
            r matches Ok(e) ==> {
                &&& e.wf()
                &&& e.delta_hedge.position_fp == config.initial_position_fp
                &&& e.delta_hedge.hedge_ratio_fp == config.default_hedge_ratio_fp
                &&& e.delta_hedge.hedge_position_fp == 0
                &&& e.delta_hedge.threshold_bps == config.rehedge_threshold_bps
                &&& e.spot_orderbook@.sequence == 0
                &&& e.futures_orderbook@.sequence == 0
                &&& (e.mvhr_strategy is Some <==> config.enable_mvhr)
                &&& (e.mean_reversion is Some <==> config.enable_mean_reversion)
                &&& (e.mvhr_strategy matches Some(m) ==> m.window_size
                    == config.statistics_window_hours && m.cached_ratio_fp == 10000
                    && m.spot_prices@ == Seq::<i64>::empty())
                &&& (e.mean_reversion matches Some(m) ==> m.window_size
                    == config.statistics_window_hours && m.kappa_fp == 2000 && m.z_threshold_fp
                    == 20000 && m.hedge_strength_fp == 7000 && m.price_history@ == Seq::<
                    i64,
                >::empty())
                &&& e.metrics.ticks_processed == 0
            },
    {
        match config.validate() {
            Ok(()) => {},
            Err(e) => {
                return Err(e);
            },
        }

        let delta_hedge = DeltaHedge::new(
            config.initial_position_fp,
            config.default_hedge_ratio_fp,
            config.rehedge_threshold_bps,
        );

        let mvhr_strategy: Option<MVHRStrategy> = if config.enable_mvhr {
            // Recalculate every 24 hours.
            Some(MVHRStrategy::new(config.statistics_window_hours, 24))
        } else {
            None
        };

        let mean_reversion: Option<MeanReversionHedge> = if config.enable_mean_reversion {
            // Kappa 0.20 for energy markets, z-threshold 2.0, strength 0.70.
            Some(MeanReversionHedge::new(config.statistics_window_hours, 2000, 20000, 7000))
        } else {
            None
        };

        Ok(
            HedgeEngine {
                spot_orderbook: OrderBook::new(1),
                futures_orderbook: OrderBook::new(2),
                delta_hedge,
                mvhr_strategy,
                mean_reversion,
                metrics: Metrics::new(),
            },
        )
    }

    /// Process one incoming market data tick (hot path): route it to the
    /// matching book at level 0, feed the strategy windows, and record the
    /// processing latency.
    ///
    /// A spot tick feeds the mean-reversion window; a futures tick samples
    /// both mid prices into the MVHR window, but only when both books have
    /// both top-of-book sides populated (a half-empty mid would poison the
    /// statistics).
    pub fn on_tick(&mut self, tick: MarketTick)
        requires
            old(self).wf(),
            tick.wf(),
            old(self).spot_orderbook@.sequence < u64::MAX,
            old(self).futures_orderbook@.sequence < u64::MAX,
        ensures
            final(self).wf(),
            final(self).spot_orderbook@ == spec_spot_after(old(self).spot_orderbook@, tick),
            final(self).futures_orderbook@ == spec_futures_after(
                old(self).futures_orderbook@,
                tick,
            ),
            final(self).delta_hedge == old(self).delta_hedge,
            (final(self).mean_reversion is Some) == (old(self).mean_reversion is Some),
            (final(self).mvhr_strategy is Some) == (old(self).mvhr_strategy is Some),
            old(self).mean_reversion matches Some(pre_mr) ==> {
                let post_mr = final(self).mean_reversion.unwrap();
                &&& (tick.symbol_id == 1 ==> post_mr.price_history@ == slide_window(
                    pre_mr.price_history@,
                    pre_mr.window_size as int,
                    tick.price,
                ))
                &&& (tick.symbol_id != 1 ==> post_mr.price_history@ == pre_mr.price_history@)
                &&& post_mr.mean_price_fp == pre_mr.mean_price_fp
                &&& post_mr.std_dev_fp == pre_mr.std_dev_fp
                &&& post_mr.kappa_fp == pre_mr.kappa_fp
                &&& post_mr.z_threshold_fp == pre_mr.z_threshold_fp
                &&& post_mr.window_size == pre_mr.window_size
                &&& post_mr.hedge_strength_fp == pre_mr.hedge_strength_fp
            },
            old(self).mvhr_strategy matches Some(pre_m) ==> {
                let post_m = final(self).mvhr_strategy.unwrap();
                let spot_view = spec_spot_after(old(self).spot_orderbook@, tick);
                let fut_view = spec_futures_after(old(self).futures_orderbook@, tick);
                let sample = tick.symbol_id == 2 && both_sides_populated(spot_view)
                    && both_sides_populated(fut_view);
                &&& (sample ==> post_m.spot_prices@ == slide_window(
                    pre_m.spot_prices@,
                    pre_m.window_size as int,
                    (spot_view.spec_mid_price() as i64),
                ) && post_m.futures_prices@ == slide_window(
                    pre_m.futures_prices@,
                    pre_m.window_size as int,
                    (fut_view.spec_mid_price() as i64),
                ))
                &&& (!sample ==> post_m.spot_prices@ == pre_m.spot_prices@
                    && post_m.futures_prices@ == pre_m.futures_prices@)
                &&& post_m.cached_ratio_fp == pre_m.cached_ratio_fp
                &&& post_m.window_size == pre_m.window_size
                &&& post_m.recalc_interval_ns == pre_m.recalc_interval_ns
            },
            exists|lat: u64| spec_recorded_tick(old(self).metrics, final(self).metrics, lat),
    {
        let start_ns: u64 = get_timestamp_ns();

        if tick.symbol_id == 1 {
            // Spot market.
            if tick.is_bid() {
                self.spot_orderbook.update_bid(
                    0,
                    tick.price,
                    tick.quantity as u64,
                    tick.timestamp_ns,
                );
            } else {
                self.spot_orderbook.update_ask(
                    0,
                    tick.price,
                    tick.quantity as u64,
                    tick.timestamp_ns,
                );
            }
            match &mut self.mean_reversion {
                Some(mr) => {
                    mr.add_price(tick.price);
                },
                None => {},
            }
        } else if tick.symbol_id == 2 {
            // Futures market.
            if tick.is_bid() {
                self.futures_orderbook.update_bid(
                    0,
                    tick.price,
                    tick.quantity as u64,
                    tick.timestamp_ns,
                );
            } else {
                self.futures_orderbook.update_ask(
                    0,
                    tick.price,
                    tick.quantity as u64,
                    tick.timestamp_ns,
                );
            }
            let (spot_bid, _) = self.spot_orderbook.best_bid();
            let (spot_ask, _) = self.spot_orderbook.best_ask();
            let (fut_bid, _) = self.futures_orderbook.best_bid();
            let (fut_ask, _) = self.futures_orderbook.best_ask();
            if spot_bid > 0 && spot_ask > 0 && fut_bid > 0 && fut_ask > 0 {
                let spot_mid: i64 = self.spot_orderbook.mid_price();
                let futures_mid: i64 = self.futures_orderbook.mid_price();
                match &mut self.mvhr_strategy {
                    Some(mvhr) => {
                        mvhr.add_observation(spot_mid, futures_mid);
                    },
                    None => {},
                }
            }
        }

        let end_ns: u64 = get_timestamp_ns();
        let latency: u64 = end_ns.saturating_sub(start_ns);
        self.metrics.record_tick_latency(latency);
        proof {
            assert(spec_recorded_tick(old(self).metrics, self.metrics, latency));
        }
    }

    /// Get a hedge recommendation (cold path): the delta hedge against the
    /// futures book, with the MVHR ratio written back into the hedger and
    /// the mean-reversion factor scaling the quantity, when those overlays
    /// are enabled.
    ///
    /// Always `Ok`; `Ok(None)` exactly when the rehedge gate does not fire.
    pub fn get_hedge_recommendation(&mut self) -> (r: Result<
        Option<HedgeRecommendation>,
        Error,
    >)
        requires
            old(self).wf(),
        ensures
            final(self).wf(),
            final(self).spot_orderbook == old(self).spot_orderbook,
            final(self).futures_orderbook == old(self).futures_orderbook,
            final(self).metrics == old(self).metrics,
            final(self).mean_reversion == old(self).mean_reversion,
            final(self).mvhr_strategy == old(self).mvhr_strategy,
            final(self).delta_hedge.position_fp == old(self).delta_hedge.position_fp,
            final(self).delta_hedge.hedge_position_fp == old(self).delta_hedge.hedge_position_fp,
            final(self).delta_hedge.threshold_bps == old(self).delta_hedge.threshold_bps,
            old(self).mvhr_strategy matches Some(m) ==> (old(
                self,
            ).delta_hedge.spec_rehedge_fires() ==> final(self).delta_hedge.hedge_ratio_fp
                == m.cached_ratio_fp),
            !(old(self).mvhr_strategy is Some && old(self).delta_hedge.spec_rehedge_fires())
                ==> final(self).delta_hedge.hedge_ratio_fp == old(self).delta_hedge.hedge_ratio_fp,
            r matches Ok(opt) && {
                &&& (opt is Some <==> old(self).delta_hedge.spec_rehedge_fires())
                &&& opt matches Some(rec) ==> {
                    let delta = old(self).delta_hedge.spec_delta();
                    let base = abs(delta);
                    let mid = old(self).spot_orderbook@.spec_mid_price();
                    let mr_applies = old(self).mean_reversion is Some && -PRICE_ABS_LIMIT_FP
                        <= mid <= PRICE_ABS_LIMIT_FP;
                    let factor = ({
                        let mr = old(self).mean_reversion.unwrap();
                        spec_adjust_factor(
                            abs(
                                spec_z_score(mid, mr.mean_price_fp as int, mr.std_dev_fp as int),
                            ),
                            mr.z_threshold_fp as int,
                            mr.hedge_strength_fp as int,
                        )
                    });
                    &&& rec.quantity_fp == (if mr_applies {
                        tdiv(base * factor, 10000)
                    } else {
                        base
                    })
                    &&& rec.side == (if delta > 0 {
                        Side::Ask
                    } else {
                        Side::Bid
                    })
                    &&& rec.price_fp == (if delta > 0 {
                        old(self).futures_orderbook@.asks[0]
                    } else {
                        old(self).futures_orderbook@.bids[0]
                    })
                    &&& rec.urgency == (if abs(delta) * 10 > abs(
                        old(self).delta_hedge.position_fp as int,
                    ) {
                        crate::config::Urgency::High
                    } else {
                        crate::config::Urgency::Normal
                    })
                    &&& rec.reason matches HedgeReason::Delta {
                        position_fp,
                        delta_fp,
                        mvhr_ratio_fp,
                        mr_adjustment_fp,
                        ..
                    } && position_fp == old(self).delta_hedge.position_fp && delta_fp == delta && (
                    mvhr_ratio_fp == (if old(self).mvhr_strategy is Some {
                        Some(old(self).mvhr_strategy.unwrap().cached_ratio_fp)
                    } else {
                        None::<i64>
                    })) && (mr_adjustment_fp == (if mr_applies {
                        Some((factor as i64))
                    } else {
                        None::<i64>
                    }))
                }
            },
    {
        let recommendation: Option<HedgeRecommendation> = self.delta_hedge.get_recommendation(
            &self.futures_orderbook,
        );

        let mut rec: HedgeRecommendation = match recommendation {
            Some(rec) => rec,
            None => {
                return Ok(None);
            },
        };

        match &self.mvhr_strategy {
            Some(mvhr) => {
                let optimal_ratio: i64 = mvhr.get_hedge_ratio();
                self.delta_hedge.update_hedge_ratio(optimal_ratio);
                rec.reason = match rec.reason {
                    HedgeReason::Delta {
                        position_fp,
                        target_fp,
                        current_hedge_fp,
                        delta_fp,
                        mr_adjustment_fp,
                        ..
                    } => HedgeReason::Delta {
                        position_fp,
                        target_fp,
                        current_hedge_fp,
                        delta_fp,
                        mvhr_ratio_fp: Some(optimal_ratio),
                        mr_adjustment_fp,
                    },
                    other => other,
                };
            },
            None => {},
        }

        let mid: i64 = self.spot_orderbook.mid_price();
        if mid >= -PRICE_ABS_LIMIT_FP && mid <= PRICE_ABS_LIMIT_FP {
            match &self.mean_reversion {
                Some(mr) => {
                    match mr.should_adjust_hedge(mid) {
                        Some(adjustment) => {
                            proof {
                                assert(0 <= adjustment <= 10000);
                                assert(abs(rec.quantity_fp as int * adjustment as int)
                                    <= 2 * (HEDGE_LIMIT_FP as int) * 10000) by (nonlinear_arith)
                                    requires
                                        0 <= rec.quantity_fp <= 2 * HEDGE_LIMIT_FP as int,
                                        0 <= adjustment <= 10000,
                                ;
                                crate::fixed::lemma_tdiv_abs_le(
                                    rec.quantity_fp as int * adjustment as int,
                                    10000,
                                    2 * (HEDGE_LIMIT_FP as int) * 10000,
                                );
                                vstd::arithmetic::div_mod::lemma_div_multiples_vanish(
                                    2 * (HEDGE_LIMIT_FP as int),
                                    10000,
                                );
                            }
                            rec.quantity_fp = crate::fixed::mul_div_i64(
                                rec.quantity_fp,
                                adjustment,
                                10000,
                            );
                            rec.reason = match rec.reason {
                                HedgeReason::Delta {
                                    position_fp,
                                    target_fp,
                                    current_hedge_fp,
                                    delta_fp,
                                    mvhr_ratio_fp,
                                    ..
                                } => HedgeReason::Delta {
                                    position_fp,
                                    target_fp,
                                    current_hedge_fp,
                                    delta_fp,
                                    mvhr_ratio_fp,
                                    mr_adjustment_fp: Some(adjustment),
                                },
                                other => other,
                            };
                        },
                        None => {},
                    }
                },
                None => {},
            }
        }

        Ok(Some(rec))
    }

    /// Execute a hedge recommendation: advance the hedge accumulator and
    /// record the execution in the metrics.  Never fails.
    pub fn execute_hedge(&mut self, recommendation: &HedgeRecommendation) -> (r: Result<
        (),
        Error,
    >)
        requires
            old(self).wf(),
            recommendation.quantity_fp >= 0,
            -HEDGE_LIMIT_FP <= old(self).delta_hedge.hedge_position_fp + (
            if recommendation.side == Side::Ask {
                recommendation.quantity_fp as int
            } else {
                -recommendation.quantity_fp as int
            }) <= HEDGE_LIMIT_FP,
        ensures
            final(self).wf(),
            r is Ok,
            final(self).delta_hedge.hedge_position_fp == old(self).delta_hedge.hedge_position_fp
                + (if recommendation.side == Side::Ask {
                recommendation.quantity_fp as int
            } else {
                -recommendation.quantity_fp as int
            }),
            final(self).delta_hedge.position_fp == old(self).delta_hedge.position_fp,
            final(self).delta_hedge.hedge_ratio_fp == old(self).delta_hedge.hedge_ratio_fp,
            final(self).metrics.hedges_executed == old(self).metrics.hedges_executed.saturating_add(
                1,
            ),
            final(self).metrics.total_hedge_volume_fp == (
            if old(self).metrics.total_hedge_volume_fp + recommendation.quantity_fp <= i64::MAX {
                old(self).metrics.total_hedge_volume_fp + recommendation.quantity_fp
            } else {
                i64::MAX as int
            }),
            final(self).metrics.ticks_processed == old(self).metrics.ticks_processed,
            final(self).metrics.total_tick_latency_ns == old(self).metrics.total_tick_latency_ns,
            final(self).metrics.min_tick_latency_ns == old(self).metrics.min_tick_latency_ns,
            final(self).metrics.max_tick_latency_ns == old(self).metrics.max_tick_latency_ns,
            final(self).metrics.latency_histogram == old(self).metrics.latency_histogram,
            final(self).spot_orderbook == old(self).spot_orderbook,
            final(self).futures_orderbook == old(self).futures_orderbook,
            final(self).mvhr_strategy == old(self).mvhr_strategy,
            final(self).mean_reversion == old(self).mean_reversion,
    {
        self.delta_hedge.execute_hedge(recommendation.quantity_fp, recommendation.side);
        self.metrics.record_hedge_execution(recommendation.quantity_fp);
        Ok(())
    }

    /// The current physical position, scale 10^2.
    pub fn get_position(&self) -> (r: i64)
        ensures
            r == self.delta_hedge.position_fp,
    {
        self.delta_hedge.get_position()
    }

    /// The current hedge position, scale 10^2.
    pub fn get_hedge_position(&self) -> (r: i64)
        ensures
            r == self.delta_hedge.hedge_position_fp,
    {
        self.delta_hedge.get_hedge_position()
    }

    /// The engine's metrics.
    pub fn get_metrics(&self) -> (r: &Metrics)
        ensures
            r == self.metrics,
    {
        &self.metrics
    }

    /// The spot order book.
    pub fn spot_orderbook(&self) -> (r: &OrderBook)
        ensures
            r == self.spot_orderbook,
    {
        &self.spot_orderbook
    }

    /// The futures order book.
    pub fn futures_orderbook(&self) -> (r: &OrderBook)
        ensures
            r == self.futures_orderbook,
    {
        &self.futures_orderbook
    }
}

} // verus!
