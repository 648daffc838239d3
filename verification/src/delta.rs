//! Delta hedging: a fixed-point position/hedge accumulator with a
//! basis-point rehedge gate.
//!
//! The hedge position is meant to carry the opposite sign of the physical
//! position; a correctly computed delta drives it there.
//!
//! ```text
//! Physical position: -10,000 MWh (short), ratio 1.125
//! Target hedge:      +11,250 MWh (long - opposite direction)
//! Action: BUY 11,250 MWh futures (Side::Ask)
//! ```

use vstd::prelude::*;

use crate::clock::get_timestamp_ns;
use crate::config::HEDGE_LIMIT_FP;
use crate::config::HedgeReason;
use crate::config::HedgeRecommendation;
use crate::config::POSITION_LIMIT_FP;
use crate::config::RATIO_LIMIT_FP;
use crate::config::Urgency;
use crate::fixed::abs;
use crate::fixed::lemma_tdiv_abs_le;
use crate::fixed::tdiv;
use crate::fixed::tdiv_i128;
use crate::orderbook::OrderBook;
use crate::tick::Side;

verus! {

/// Simple delta hedging strategy.
///
/// Fixed-point scales: `position_fp` and `hedge_position_fp` carry scale
/// 10^2, `hedge_ratio_fp` scale 10^4; `threshold_bps` is in basis points.
pub struct DeltaHedge {
    /// Current physical position, scale 10^2.
    pub position_fp: i64,
    /// Target hedge ratio, scale 10^4.
    pub hedge_ratio_fp: i64,
    /// Current hedge position, scale 10^2; carries the opposite sign of
    /// `position_fp` when deltas are computed correctly.
    pub hedge_position_fp: i64,
    /// Rehedge threshold in basis points.
    pub threshold_bps: i64,
}

/// The target hedge for a position and ratio: `-position * ratio`, rescaled
/// back to position units (both operands fixed-point).
pub open spec fn spec_target_hedge(position_fp: int, ratio_fp: int) -> int {
    tdiv(-position_fp * ratio_fp, 10000)
}

impl DeltaHedge {
    /// Magnitudes bounded so that every scaled product fits an `i64`, and a
    /// non-negative threshold.
    pub open spec fn wf(self) -> bool {
        &&& -POSITION_LIMIT_FP <= self.position_fp <= POSITION_LIMIT_FP
        &&& -RATIO_LIMIT_FP <= self.hedge_ratio_fp <= RATIO_LIMIT_FP
        &&& -HEDGE_LIMIT_FP <= self.hedge_position_fp <= HEDGE_LIMIT_FP
        &&& self.threshold_bps >= 0
    }

    /// The signed delta this state calls for: target hedge minus current
    /// hedge, scale 10^2.
    pub open spec fn spec_delta(self) -> int {
        spec_target_hedge(self.position_fp as int, self.hedge_ratio_fp as int)
            - self.hedge_position_fp
    }

    /// Whether the rehedge gate fires: with no current hedge, any non-zero
    /// delta; otherwise, when the delta exceeds `threshold_bps` basis points
    /// of the current hedge.
    pub open spec fn spec_rehedge_fires(self) -> bool {
        if self.hedge_position_fp == 0 {
            self.spec_delta() != 0
        } else {
            abs(self.spec_delta()) * 10000 > self.threshold_bps * abs(
                self.hedge_position_fp as int,
            )
        }
    }

    /// Create a new delta hedging strategy with no hedge on.
    pub fn new(initial_position_fp: i64, hedge_ratio_fp: i64, threshold_bps: i64) -> (h:
        DeltaHedge)
        requires
            -POSITION_LIMIT_FP <= initial_position_fp <= POSITION_LIMIT_FP,
            -RATIO_LIMIT_FP <= hedge_ratio_fp <= RATIO_LIMIT_FP,
            threshold_bps >= 0,
        ensures
            h.position_fp == initial_position_fp,
            h.hedge_ratio_fp == hedge_ratio_fp,
            h.hedge_position_fp == 0,
            h.threshold_bps == threshold_bps,
            h.wf(),
    {
        DeltaHedge {
            position_fp: initial_position_fp,
            hedge_ratio_fp,
            hedge_position_fp: 0,
            threshold_bps,
        }
    }

    /// Replace the physical position.
    pub fn update_position(&mut self, new_position_fp: i64)
        requires
            old(self).wf(),
            -POSITION_LIMIT_FP <= new_position_fp <= POSITION_LIMIT_FP,
        ensures
            final(self).wf(),
            final(self).position_fp == new_position_fp,
            final(self).hedge_ratio_fp == old(self).hedge_ratio_fp,
            final(self).hedge_position_fp == old(self).hedge_position_fp,
            final(self).threshold_bps == old(self).threshold_bps,
    {
        self.position_fp = new_position_fp;
    }

    /// Replace the hedge ratio.
    pub fn update_hedge_ratio(&mut self, new_ratio_fp: i64)
        requires
            old(self).wf(),
            -RATIO_LIMIT_FP <= new_ratio_fp <= RATIO_LIMIT_FP,
        ensures
            final(self).wf(),
            final(self).hedge_ratio_fp == new_ratio_fp,
            final(self).position_fp == old(self).position_fp,
            final(self).hedge_position_fp == old(self).hedge_position_fp,
            final(self).threshold_bps == old(self).threshold_bps,
    {
        self.hedge_ratio_fp = new_ratio_fp;
    }

    /// The current physical position, scale 10^2.
    pub fn get_position(&self) -> (r: i64)
        ensures
            r == self.position_fp,
    {
        self.position_fp
    }

    /// The current hedge position, scale 10^2.
    pub fn get_hedge_position(&self) -> (r: i64)
        ensures
            r == self.hedge_position_fp,
    {
        self.hedge_position_fp
    }

    /// Calculate the required hedge delta, scale 10^2.
    ///
    /// Returns the signed delta exactly when the rehedge gate fires:
    /// positive means buy (increase the long hedge), negative means sell.
    pub fn calculate_hedge_delta(&self) -> (r: Option<i64>)
        requires
            self.wf(),
        ensures
            self.spec_rehedge_fires() ==> r == Some((self.spec_delta() as i64)),
            !self.spec_rehedge_fires() ==> r is None,
            -(2 * HEDGE_LIMIT_FP as int) <= self.spec_delta() <= 2 * HEDGE_LIMIT_FP as int,
    {
        proof {
            self.lemma_delta_in_range();
        }
        let target: i128 = tdiv_i128(
            -(self.position_fp as i128) * (self.hedge_ratio_fp as i128),
            10000,
        );
        let delta128: i128 = target - self.hedge_position_fp as i128;
        let delta: i64 = delta128 as i64;

        if self.hedge_position_fp != 0 {
            let delta_abs: i64 = if delta >= 0 {
                delta
            } else {
                -delta
            };
            let hedge_abs: i64 = if self.hedge_position_fp >= 0 {
                self.hedge_position_fp
            } else {
                -self.hedge_position_fp
            };
            proof {
                assert((self.threshold_bps as int) * (hedge_abs as int)
                    < 0x4000_0000_0000_0000_0000_0000_0000_0000) by (nonlinear_arith)
                    requires
                        0 <= self.threshold_bps <= i64::MAX,
                        0 <= hedge_abs <= HEDGE_LIMIT_FP,
                ;
            }
            if (delta_abs as i128) * 10000 > (self.threshold_bps as i128) * (hedge_abs as i128) {
                Some(delta)
            } else {
                None
            }
        } else {
            if delta != 0 {
                Some(delta)
            } else {
                None
            }
        }
    }

    /// The computed delta fits well inside an `i64`.
    proof fn lemma_delta_in_range(self)
        requires
            self.wf(),
        ensures
            -(2 * HEDGE_LIMIT_FP as int) <= self.spec_delta() <= 2 * HEDGE_LIMIT_FP as int,
            abs(spec_target_hedge(self.position_fp as int, self.hedge_ratio_fp as int))
                <= HEDGE_LIMIT_FP as int,
    {
        let p = self.position_fp as int;
        let q = self.hedge_ratio_fp as int;
        assert(abs(-p * q) <= POSITION_LIMIT_FP as int * RATIO_LIMIT_FP as int)
            by (nonlinear_arith)
            requires
                -POSITION_LIMIT_FP <= p <= POSITION_LIMIT_FP,
                -RATIO_LIMIT_FP <= q <= RATIO_LIMIT_FP,
        ;
        lemma_tdiv_abs_le(-p * q, 10000, POSITION_LIMIT_FP as int * RATIO_LIMIT_FP as int);
    }

    /// Get a hedge recommendation against the given (futures) book: `Some`
    /// exactly when the rehedge gate fires, priced off the side the delta
    /// points at, with urgency High when the delta exceeds 10% of the
    /// physical position.
    pub fn get_recommendation(&self, orderbook: &OrderBook) -> (r: Option<HedgeRecommendation>)
        requires
            self.wf(),
            orderbook.wf(),
        ensures
            r is Some <==> self.spec_rehedge_fires(),
            r is Some ==> {
                let rec = r->Some_0;
                let delta = self.spec_delta();
                &&& rec.quantity_fp == abs(delta)
                &&& 0 <= rec.quantity_fp <= 2 * HEDGE_LIMIT_FP as int
                &&& rec.side == (if delta > 0 { Side::Ask } else { Side::Bid })
                &&& rec.price_fp == (if delta > 0 {
                    orderbook@.asks[0]
                } else {
                    orderbook@.bids[0]
                })
                &&& rec.urgency == (if abs(delta) * 10 > abs(self.position_fp as int) {
                    Urgency::High
                } else {
                    Urgency::Normal
                })
                &&& rec.reason matches HedgeReason::Delta {
                    position_fp,
                    target_fp,
                    current_hedge_fp,
                    delta_fp,
                    mvhr_ratio_fp,
                    mr_adjustment_fp,
                } && position_fp == self.position_fp && target_fp == spec_target_hedge(
                    self.position_fp as int,
                    self.hedge_ratio_fp as int,
                ) && current_hedge_fp == self.hedge_position_fp && delta_fp == delta
                    && mvhr_ratio_fp is None && mr_adjustment_fp is None
            },
    {
        proof {
            self.lemma_delta_in_range();
        }
        let delta: i64 = match self.calculate_hedge_delta() {
            Some(d) => d,
            None => {
                return None;
            },
        };

        let (side, price_fp): (Side, i64) = if delta > 0 {
            let (ask_price, _) = orderbook.best_ask();
            (Side::Ask, ask_price)
        } else {
            let (bid_price, _) = orderbook.best_bid();
            (Side::Bid, bid_price)
        };

        let delta_abs: i64 = if delta >= 0 {
            delta
        } else {
            -delta
        };
        let position_abs: i64 = if self.position_fp >= 0 {
            self.position_fp
        } else {
            -self.position_fp
        };
        let urgency: Urgency = if (delta_abs as i128) * 10 > position_abs as i128 {
            Urgency::High
        } else {
            Urgency::Normal
        };

        let target: i128 = tdiv_i128(
            -(self.position_fp as i128) * (self.hedge_ratio_fp as i128),
            10000,
        );

        Some(
            HedgeRecommendation::new(
                delta_abs,
                price_fp,
                side,
                urgency,
                HedgeReason::Delta {
                    position_fp: self.position_fp,
                    target_fp: target as i64,
                    current_hedge_fp: self.hedge_position_fp,
                    delta_fp: delta,
                    mvhr_ratio_fp: None,
                    mr_adjustment_fp: None,
                },
                get_timestamp_ns(),
            ),
        )
    }

    /// Execute a hedge: add the quantity to the hedge position, positive for
    /// a buy (`Side::Ask`), negative for a sell (`Side::Bid`).
    ///
    /// ```text
    /// Physical: -10,000 MWh (short); BUY 11,250 MWh (Side::Ask)
    /// Result: hedge_position = +11,250 MWh; net = +1,250 MWh
    /// ```
    pub fn execute_hedge(&mut self, quantity_fp: i64, side: Side)
        requires
            old(self).wf(),
            quantity_fp >= 0,
            -HEDGE_LIMIT_FP <= old(self).hedge_position_fp + (if side == Side::Ask {
                quantity_fp as int
            } else {
                -quantity_fp as int
            }) <= HEDGE_LIMIT_FP,
        ensures
            final(self).wf(),
            final(self).hedge_position_fp == old(self).hedge_position_fp + (
            if side == Side::Ask {
                quantity_fp as int
            } else {
                -quantity_fp as int
            }),
            final(self).position_fp == old(self).position_fp,
            final(self).hedge_ratio_fp == old(self).hedge_ratio_fp,
            final(self).threshold_bps == old(self).threshold_bps,
    {
        let signed: i128 = match side {
            Side::Ask => quantity_fp as i128,
            Side::Bid => -(quantity_fp as i128),
        };
        let updated: i128 = self.hedge_position_fp as i128 + signed;
        self.hedge_position_fp = updated as i64;
    }
}

/// For a short position, a positive ratio and no current hedge, the computed
/// delta equals `-position * ratio / 10^4`, it is never negative, and it is
/// strictly positive (a buy) as soon as the scaled product reaches one
/// position unit.
pub proof fn lemma_short_position_delta(h: DeltaHedge)
    requires
        h.wf(),
        h.position_fp < 0,
        h.hedge_ratio_fp > 0,
        h.hedge_position_fp == 0,
    ensures
        h.spec_delta() == tdiv(-h.position_fp as int * h.hedge_ratio_fp as int, 10000),
        h.spec_delta() >= 0,
        -h.position_fp as int * h.hedge_ratio_fp as int >= 10000 ==> h.spec_delta() > 0,
{
    let p = h.position_fp as int;
    let q = h.hedge_ratio_fp as int;
    assert(-p * q > 0) by (nonlinear_arith)
        requires
            p < 0,
            q > 0,
    ;
    assert(tdiv(-p * q, 10000) >= 0) by {
        vstd::arithmetic::div_mod::lemma_div_basics_4(-p * q, 10000);
    }
    if -p * q >= 10000 {
        assert((-p * q) / 10000 >= 10000int / 10000) by {
            vstd::arithmetic::div_mod::lemma_div_is_ordered(10000, -p * q, 10000);
        }
    }
}

/// Executing the full recommended quantity on the recommended side drives
/// the hedge position exactly to the target hedge, so the net exposure
/// afterwards is `position + target`: the residual the hedge ratio calls
/// for, not the raw position.
pub proof fn lemma_full_execution_reaches_target(h: DeltaHedge)
    requires
        h.wf(),
    ensures
        ({
            let delta = h.spec_delta();
            let signed = if delta > 0 {
                abs(delta)
            } else {
                -abs(delta)
            };
            h.hedge_position_fp + signed == spec_target_hedge(
                h.position_fp as int,
                h.hedge_ratio_fp as int,
            )
        }),
{
}

/// The threshold gate in product form: with a hedge on, a rehedge fires
/// exactly when `|delta| * 10^4` exceeds `threshold_bps * |hedge|`.
pub proof fn lemma_threshold_gate(h: DeltaHedge)
    requires
        h.hedge_position_fp != 0,
    ensures
        h.spec_rehedge_fires() <==> abs(h.spec_delta()) * 10000 > h.threshold_bps * abs(
            h.hedge_position_fp as int,
        ),
{
}

} // verus!
