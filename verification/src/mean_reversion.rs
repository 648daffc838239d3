//! Mean-reversion hedging based on an Ornstein-Uhlenbeck view of prices:
//! `dS = kappa (mu - S) dt + sigma dW`.
//!
//! A sliding window of prices yields a cached mean and standard deviation;
//! the z-score of the current price against them scales the hedge quantity
//! down when a strong deviation is expected to revert.
//!
//! Fixed-point scales: prices, mean, standard deviation, kappa, z-scores,
//! thresholds and adjustment factors all carry scale 10^4.

use std::collections::VecDeque;

use vstd::prelude::*;

use crate::clock::get_timestamp_ns;
use crate::config::PRICE_ABS_LIMIT_FP;
use crate::config::RATIO_LIMIT_FP;
use crate::config::WINDOW_LIMIT;
use crate::fixed::abs;
use crate::fixed::isqrt_u64;
use crate::fixed::lemma_sum_take_step;
use crate::fixed::mul_div_i64;
use crate::fixed::sum_seq;
use crate::fixed::tdiv;
use crate::fixed::tdiv_i128;
use crate::stats::all_bounded;
use crate::stats::centered;
use crate::stats::mean_of;
use crate::stats::seq_int;
use crate::stats::var_of;

verus! {

/// ln(2) scaled by 10^8, truncated.
pub const LN2_E8: i64 = 69_314_718;

/// The z-score of a price against a cached mean and standard deviation
/// (all scale 10^4); zero when the standard deviation is zero.
pub open spec fn spec_z_score(price: int, mean: int, std: int) -> int {
    if std == 0 {
        0
    } else {
        tdiv((price - mean) * 10000, std)
    }
}

/// The hedge adjustment factor (scale 10^4) for an absolute z-score:
/// full hedge within the threshold, then 0.7, 0.5 and 0.3 of the strength
/// as the deviation grows past the threshold, 2.0 and 3.0.
pub open spec fn spec_adjust_factor(z_abs: int, z_threshold: int, strength: int) -> int {
    if z_abs <= z_threshold {
        10000
    } else if z_abs <= 20000 {
        tdiv(7000 * strength, 10000)
    } else if z_abs <= 30000 {
        tdiv(5000 * strength, 10000)
    } else {
        tdiv(3000 * strength, 10000)
    }
}

/// Mean reversion hedging strategy.
pub struct MeanReversionHedge {
    /// Sliding window of observed prices, scale 10^4.
    pub price_history: VecDeque<i64>,
    /// Cached mean price, scale 10^4.
    pub mean_price_fp: i64,
    /// Cached standard deviation, scale 10^4.
    pub std_dev_fp: i64,
    /// Mean-reversion speed kappa, scale 10^4.
    pub kappa_fp: i64,
    /// Timestamp of the last statistics calculation, nanoseconds.
    pub last_calc_ns: u64,
    /// Z-score threshold for scaling the hedge, scale 10^4.
    pub z_threshold_fp: i64,
    /// Window size (number of observations kept).
    pub window_size: usize,
    /// Hedge strength factor in [0, 10^4].
    pub hedge_strength_fp: i64,
}

impl MeanReversionHedge {
    /// Well-formedness: the window is bounded, the history never exceeds it,
    /// parameters are in range, and cached statistics stay within the bounds
    /// `calculate_statistics` establishes.
    pub open spec fn wf(self) -> bool {
        &&& self.window_size <= WINDOW_LIMIT
        &&& self.price_history.len() <= self.window_size
        &&& 0 <= self.kappa_fp <= RATIO_LIMIT_FP
        &&& self.z_threshold_fp >= 0
        &&& 0 <= self.hedge_strength_fp <= 10000
        &&& -PRICE_ABS_LIMIT_FP <= self.mean_price_fp <= PRICE_ABS_LIMIT_FP
        &&& 0 <= self.std_dev_fp <= 300_000_000
    }

    /// Create a new mean reversion strategy with empty statistics.
    pub fn new(window_size: usize, kappa_fp: i64, z_threshold_fp: i64, hedge_strength_fp: i64)
        -> (h: MeanReversionHedge)
        requires
            window_size <= WINDOW_LIMIT,
            0 <= kappa_fp <= RATIO_LIMIT_FP,
            z_threshold_fp >= 0,
            0 <= hedge_strength_fp <= 10000,
        ensures
            h.wf(),
            h.price_history@ == Seq::<i64>::empty(),
            h.mean_price_fp == 0,
            h.std_dev_fp == 0,
            h.kappa_fp == kappa_fp,
            h.z_threshold_fp == z_threshold_fp,
            h.window_size == window_size,
            h.hedge_strength_fp == hedge_strength_fp,
    {
        let h = MeanReversionHedge {
            price_history: VecDeque::new(),
            mean_price_fp: 0,
            std_dev_fp: 0,
            kappa_fp,
            last_calc_ns: 0,
            z_threshold_fp,
            window_size,
            hedge_strength_fp,
        };
        proof {
            assert(h.price_history@ =~= Seq::<i64>::empty());
        }
        h
    }

    /// Append a price observation, dropping the oldest when the window is
    /// full.
    pub fn add_price(&mut self, price_fp: i64)
        requires
            old(self).wf(),
        ensures
            final(self).wf(),
            old(self).price_history.len() < old(self).window_size ==> final(self).price_history@
                == old(self).price_history@.push(price_fp),
            old(self).price_history.len() == old(self).window_size
                ==> final(self).price_history@ == old(self).price_history@.push(
                price_fp,
            ).drop_first(),
            final(self).mean_price_fp == old(self).mean_price_fp,
            final(self).std_dev_fp == old(self).std_dev_fp,
            final(self).kappa_fp == old(self).kappa_fp,
            final(self).z_threshold_fp == old(self).z_threshold_fp,
            final(self).window_size == old(self).window_size,
            final(self).hedge_strength_fp == old(self).hedge_strength_fp,
    {
        self.price_history.push_back(price_fp);
        if self.price_history.len() > self.window_size {
            self.price_history.pop_front();
        }
    }

    /// Calculate and cache the window statistics (cold path).
    ///
    /// Returns `Some((mean, std))` exactly when the window holds at least 30
    /// prices and all of them are within the supported range; the mean is
    /// the truncated window mean and `std` the integer square root of the
    /// truncated sample variance.
    pub fn calculate_statistics(&mut self) -> (r: Option<(i64, i64)>)
        requires
            old(self).wf(),
        ensures
            final(self).wf(),
            final(self).price_history@ == old(self).price_history@,
            final(self).kappa_fp == old(self).kappa_fp,
            final(self).z_threshold_fp == old(self).z_threshold_fp,
            final(self).window_size == old(self).window_size,
            final(self).hedge_strength_fp == old(self).hedge_strength_fp,
            r is Some <==> old(self).price_history.len() >= 30 && all_bounded(
                old(self).price_history@,
                PRICE_ABS_LIMIT_FP as int,
            ),
            r is None ==> final(self).mean_price_fp == old(self).mean_price_fp
                && final(self).std_dev_fp == old(self).std_dev_fp,
            r is Some ==> {
                let s = seq_int(old(self).price_history@);
                let mean = mean_of(s);
                let var = var_of(s);
                &&& final(self).mean_price_fp == mean
                &&& final(self).std_dev_fp == crate::fixed::sqrt_floor(var)
                &&& r == Some((final(self).mean_price_fp, final(self).std_dev_fp))
            },
    {
        let n: usize = self.price_history.len();
        if n < 30 {
            return None;
        }

        let ghost s: Seq<int> = seq_int(self.price_history@);

        // Reject windows with out-of-range observations: their statistics
        // are degenerate for the fixed-point ranges this engine supports.
        let mut i: usize = 0;
        while i < n
            invariant
                self == old(self),
                old(self).wf(),
                n == self.price_history.len(),
                i <= n,
                forall|j: int|
                    0 <= j < i ==> -PRICE_ABS_LIMIT_FP <= #[trigger] self.price_history@[j]
                        <= PRICE_ABS_LIMIT_FP,
            decreases n - i,
        {
            let p: i64 = self.price_history[i];
            if p < -PRICE_ABS_LIMIT_FP || p > PRICE_ABS_LIMIT_FP {
                return None;
            }
            i = i + 1;
        }

        // Window mean.
        let mut sum: i128 = 0;
        let mut i: usize = 0;
        while i < n
            invariant
                self == old(self),
                s == seq_int(self.price_history@),
                n == self.price_history.len(),
                all_bounded(self.price_history@, PRICE_ABS_LIMIT_FP as int),
                i <= n,
                sum == sum_seq(s.take(i as int)),
                -(i as int) * (PRICE_ABS_LIMIT_FP as int) <= sum <= (i as int) * (
                PRICE_ABS_LIMIT_FP as int),
            decreases n - i,
        {
            let p: i64 = self.price_history[i];
            proof {
                lemma_sum_take_step(s, i as int);
                assert(s[i as int] == self.price_history@[i as int]);
            }
            sum = sum + p as i128;
            i = i + 1;
        }
        proof {
            assert(s.take(n as int) =~= s);
        }
        let mean128: i128 = tdiv_i128(sum, n as i128);
        proof {
            crate::fixed::lemma_tdiv_abs_le(
                sum as int,
                n as int,
                (n as int) * (PRICE_ABS_LIMIT_FP as int),
            );
            vstd::arithmetic::div_mod::lemma_div_multiples_vanish(
                PRICE_ABS_LIMIT_FP as int,
                n as int,
            );
        }
        let mean: i64 = mean128 as i64;

        // Truncated sample variance of the window.
        let ghost c: Seq<int> = centered(s, mean as int);
        let ghost sq: Seq<int> = Seq::new(c.len(), |j: int| c[j] * c[j]);
        let mut acc: i128 = 0;
        let mut i: usize = 0;
        while i < n
            invariant
                self == old(self),
                s == seq_int(self.price_history@),
                c == centered(s, mean as int),
                sq == Seq::new(c.len(), |j: int| c[j] * c[j]),
                n == self.price_history.len(),
                all_bounded(self.price_history@, PRICE_ABS_LIMIT_FP as int),
                -PRICE_ABS_LIMIT_FP <= mean <= PRICE_ABS_LIMIT_FP,
                i <= n,
                acc == sum_seq(sq.take(i as int)),
                0 <= acc <= (i as int) * 40_000_000_000_000_000,
            decreases n - i,
        {
            let p: i64 = self.price_history[i];
            let d: i128 = p as i128 - mean as i128;
            proof {
                lemma_sum_take_step(sq, i as int);
                assert(s[i as int] == self.price_history@[i as int]);
                assert(c[i as int] == s[i as int] - mean as int);
                assert(sq[i as int] == c[i as int] * c[i as int]);
                assert(0 <= (d as int) * (d as int) <= 40_000_000_000_000_000)
                    by (nonlinear_arith)
                    requires
                        -200_000_000 <= d <= 200_000_000,
                ;
            }
            acc = acc + d * d;
            i = i + 1;
        }
        proof {
            assert(sq.take(n as int) =~= sq);
        }
        let var128: i128 = tdiv_i128(acc, n as i128 - 1);
        proof {
            assert(acc as int <= (n as int - 1) * 80_000_000_000_000_000);
            vstd::arithmetic::div_mod::lemma_div_is_ordered(
                acc as int,
                (n as int - 1) * 80_000_000_000_000_000,
                n as int - 1,
            );
            vstd::arithmetic::div_mod::lemma_div_multiples_vanish(
                80_000_000_000_000_000,
                n as int - 1,
            );
            vstd::arithmetic::div_mod::lemma_div_basics_4(acc as int, n as int - 1);
        }
        let var: u64 = var128 as u64;
        let std: u64 = isqrt_u64(var);
        proof {
            assert(std <= 300_000_000) by (nonlinear_arith)
                requires
                    (std as int) * (std as int) <= 80_000_000_000_000_000,
            ;
            assert(Seq::new(c.len(), |j: int| c[j] * c[j]) =~= sq);
        }

        self.mean_price_fp = mean;
        self.std_dev_fp = std as i64;
        self.last_calc_ns = get_timestamp_ns();
        Some((mean, std as i64))
    }

    /// Z-score of a price against the cached statistics (hot path), scale
    /// 10^4; zero when no spread has been established.
    pub fn calculate_z_score(&self, current_price_fp: i64) -> (r: i64)
        requires
            self.wf(),
            -PRICE_ABS_LIMIT_FP <= current_price_fp <= PRICE_ABS_LIMIT_FP,
        ensures
            r == spec_z_score(
                current_price_fp as int,
                self.mean_price_fp as int,
                self.std_dev_fp as int,
            ),
    {
        if self.std_dev_fp == 0 {
            return 0;
        }
        let num: i128 = (current_price_fp as i128 - self.mean_price_fp as i128) * 10000;
        let q: i128 = tdiv_i128(num, self.std_dev_fp as i128);
        proof {
            crate::fixed::lemma_tdiv_abs_le(
                num as int,
                self.std_dev_fp as int,
                2_000_000_000_000,
            );
            vstd::arithmetic::div_mod::lemma_div_is_ordered_by_denominator(
                2_000_000_000_000,
                1,
                self.std_dev_fp as int,
            );
        }
        q as i64
    }

    /// The factor (scale 10^4) by which the caller should scale its hedge
    /// quantity at the given price: the full hedge inside the z-threshold,
    /// and a reduced fraction of the strength as the deviation grows
    /// (extreme deviations are expected to revert).
    pub fn should_adjust_hedge(&self, current_price_fp: i64) -> (r: Option<i64>)
        requires
            self.wf(),
            -PRICE_ABS_LIMIT_FP <= current_price_fp <= PRICE_ABS_LIMIT_FP,
        ensures
            r matches Some(f) && f as int == spec_adjust_factor(
                abs(
                    spec_z_score(
                        current_price_fp as int,
                        self.mean_price_fp as int,
                        self.std_dev_fp as int,
                    ),
                ),
                self.z_threshold_fp as int,
                self.hedge_strength_fp as int,
            ),
    {
        let z: i64 = self.calculate_z_score(current_price_fp);
        let z_abs: i64 = if z >= 0 {
            z
        } else {
            -z
        };
        if z_abs <= self.z_threshold_fp {
            Some(10000)
        } else if z_abs <= 20000 {
            Some(mul_div_i64(7000, self.hedge_strength_fp, 10000))
        } else if z_abs <= 30000 {
            Some(mul_div_i64(5000, self.hedge_strength_fp, 10000))
        } else {
            Some(mul_div_i64(3000, self.hedge_strength_fp, 10000))
        }
    }

    /// Half-life of mean reversion in days, scale 10^4: `ln 2 / kappa`;
    /// `None` when kappa is zero (no reversion, infinite half-life).
    pub fn half_life_days(&self) -> (r: Option<i64>)
        requires
            self.wf(),
        ensures
            self.kappa_fp == 0 ==> r is None,
            self.kappa_fp != 0 ==> r == Some((tdiv(LN2_E8 as int, self.kappa_fp as int) as i64)),
    {
        if self.kappa_fp == 0 {
            return None;
        }
        let h: u64 = (LN2_E8 as u64) / (self.kappa_fp as u64);
        proof {
            vstd::arithmetic::div_mod::lemma_div_is_ordered_by_denominator(
                LN2_E8 as int,
                1,
                self.kappa_fp as int,
            );
        }
        Some(h as i64)
    }

    /// Snapshot of the cached statistics.
    pub fn get_statistics(&self) -> (r: MeanReversionStats)
        requires
            self.wf(),
        ensures
            r.mean_price_fp == self.mean_price_fp,
            r.std_dev_fp == self.std_dev_fp,
            r.kappa_fp == self.kappa_fp,
            self.kappa_fp == 0 ==> r.half_life_days_fp is None,
            self.kappa_fp != 0 ==> r.half_life_days_fp == Some(
                (tdiv(LN2_E8 as int, self.kappa_fp as int) as i64),
            ),
            r.observations == self.price_history.len(),
    {
        MeanReversionStats {
            mean_price_fp: self.mean_price_fp,
            std_dev_fp: self.std_dev_fp,
            kappa_fp: self.kappa_fp,
            half_life_days_fp: self.half_life_days(),
            observations: self.price_history.len(),
        }
    }
}

/// Mean reversion statistics snapshot; scales as on the strategy.
#[derive(Debug, Clone, Copy)]
pub struct MeanReversionStats {
    /// Cached mean price, scale 10^4.
    pub mean_price_fp: i64,
    /// Cached standard deviation, scale 10^4.
    pub std_dev_fp: i64,
    /// Mean-reversion speed, scale 10^4.
    pub kappa_fp: i64,
    /// Half-life in days, scale 10^4; `None` when kappa is zero.
    pub half_life_days_fp: Option<i64>,
    /// Number of observations in the window.
    pub observations: usize,
}

/// The half-life inverts kappa exactly up to truncation:
/// `kappa * half_life <= ln2 * 10^8 < kappa * (half_life + 1)`.
pub proof fn lemma_half_life_kappa(kappa: int)
    requires
        kappa > 0,
    ensures
        kappa * tdiv(LN2_E8 as int, kappa) <= LN2_E8 as int,
        (LN2_E8 as int) < kappa * (tdiv(LN2_E8 as int, kappa) + 1),
{
    let h = tdiv(LN2_E8 as int, kappa);
    vstd::arithmetic::div_mod::lemma_fundamental_div_mod(LN2_E8 as int, kappa);
    vstd::arithmetic::div_mod::lemma_mod_bound(LN2_E8 as int, kappa);
    assert(kappa * h + (LN2_E8 as int) % kappa == LN2_E8 as int);
    assert(kappa * (h + 1) == kappa * h + kappa) by (nonlinear_arith);
}

/// On a constant window the statistics collapse: the mean is the price
/// itself, the variance is zero, the z-score at that price is exactly zero,
/// and the adjustment factor is exactly 1.0 (scale 10^4).
pub proof fn lemma_constant_window(prices: Seq<i64>, p: i64, z_threshold: int, strength: int)
    requires
        prices.len() >= 2,
        forall|i: int| 0 <= i < prices.len() ==> #[trigger] prices[i] == p,
        z_threshold >= 0,
    ensures
        mean_of(seq_int(prices)) == p as int,
        var_of(seq_int(prices)) == 0,
        spec_z_score(p as int, p as int, 0) == 0,
        spec_adjust_factor(0, z_threshold, strength) == 10000,
{
    let s = seq_int(prices);
    assert forall|i: int| 0 <= i < s.len() implies #[trigger] s[i] == p as int by {
        assert(prices[i] == p);
    }
    crate::stats::lemma_constant_stats(s, p as int);
}

} // verus!
