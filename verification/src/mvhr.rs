//! Minimum-Variance Hedge Ratio: `h* = Cov(dS, dF) / Var(dF)` over a
//! sliding window of paired (spot, futures) price observations.
//!
//! Per-step returns are fixed-point with scale 10^8; prices, the cached
//! ratio and correlations carry scale 10^4.

use std::collections::VecDeque;

use vstd::prelude::*;

use crate::clock::get_timestamp_ns;
use crate::config::PRICE_ABS_LIMIT_FP;
use crate::config::WINDOW_LIMIT;
use crate::fixed::abs;
use crate::fixed::clamp;
use crate::fixed::isqrt_u128;
use crate::fixed::lemma_sum_take_step;
use crate::fixed::lemma_tdiv_abs_le;
use crate::fixed::mul_div_i64;
use crate::fixed::sqrt_floor;
use crate::fixed::sum_seq;
use crate::fixed::tdiv;
use crate::fixed::tdiv_i128;
use crate::stats::all_positive_bounded;
use crate::stats::centered;
use crate::stats::cov_of;
use crate::stats::var_of;

verus! {

/// Scale of per-step returns: 10^8.
pub const RETURN_SCALE: i64 = 100_000_000;

/// Smallest futures-return variance the ratio calculation accepts: the
/// degenerate-statistics threshold of 10^-10 at the squared return scale
/// 10^16.
pub const VAR_EPSILON_FP: i128 = 1_000_000;

/// The per-step returns of a positive price series, scale 10^8:
/// `r_i = (p_{i+1} - p_i) * 10^8 / p_i`.
pub open spec fn spec_returns(prices: Seq<i64>) -> Seq<int> {
    Seq::new((prices.len() - 1) as nat, |i: int| tdiv(
        (prices[i + 1] as int - prices[i] as int) * RETURN_SCALE,
        prices[i] as int,
    ))
}

/// Both windows are long enough and hold only positive, in-range prices.
pub open spec fn windows_ok(spot: Seq<i64>, fut: Seq<i64>) -> bool {
    &&& spot.len() >= 3
    &&& fut.len() == spot.len()
    &&& all_positive_bounded(spot, PRICE_ABS_LIMIT_FP as int)
    &&& all_positive_bounded(fut, PRICE_ABS_LIMIT_FP as int)
}

/// Sample covariance of the two return series.
pub open spec fn spec_cov(spot: Seq<i64>, fut: Seq<i64>) -> int {
    cov_of(spec_returns(spot), spec_returns(fut))
}

/// Sample variance of the spot return series.
pub open spec fn spec_var_s(spot: Seq<i64>) -> int {
    var_of(spec_returns(spot))
}

/// Sample variance of the futures return series.
pub open spec fn spec_var_f(fut: Seq<i64>) -> int {
    var_of(spec_returns(fut))
}

/// The optimal hedge ratio, scale 10^4: `cov * 10^4 / var`.
pub open spec fn spec_optimal_ratio(spot: Seq<i64>, fut: Seq<i64>) -> int {
    tdiv(spec_cov(spot, fut) * 10000, spec_var_f(fut))
}

/// Everything `calculate_optimal_ratio` needs to succeed: valid windows, a
/// futures-return variance at least `VAR_EPSILON_FP` (below it the
/// statistics are degenerate), and a ratio within the sanity clamp of 5.0
/// either way.
pub open spec fn spec_calc_ok(spot: Seq<i64>, fut: Seq<i64>) -> bool {
    &&& windows_ok(spot, fut)
    &&& spec_var_f(fut) >= VAR_EPSILON_FP
    &&& abs(spec_optimal_ratio(spot, fut)) <= 50000
}

/// The Pearson correlation of the two return series, scale 10^4, clamped
/// into [-10^4, 10^4]; zero when either variance vanishes.
pub open spec fn spec_correlation(spot: Seq<i64>, fut: Seq<i64>) -> int {
    let cov = spec_cov(spot, fut);
    let vs = spec_var_s(spot);
    let vf = spec_var_f(fut);
    if vs > 0 && vf > 0 {
        clamp(tdiv(cov * 10000, sqrt_floor(vs) * sqrt_floor(vf)), -10000, 10000)
    } else {
        0
    }
}

/// Second moments of the paired return series, fixed-point.
struct Moments {
    /// Sample covariance, return scale squared.
    cov: i128,
    /// Sample variance of spot returns.
    var_s: i128,
    /// Sample variance of futures returns.
    var_f: i128,
}

/// MVHR (Minimum Variance Hedge Ratio) strategy.
pub struct MVHRStrategy {
    /// Historical spot prices, scale 10^4.
    pub spot_prices: VecDeque<i64>,
    /// Historical futures prices, scale 10^4.
    pub futures_prices: VecDeque<i64>,
    /// Cached optimal ratio, scale 10^4.
    pub cached_ratio_fp: i64,
    /// Last calculation timestamp (nanoseconds).
    pub last_calc_ns: u64,
    /// Window size (number of observations).
    pub window_size: usize,
    /// Recalculation interval (nanoseconds).
    pub recalc_interval_ns: u64,
}

/// MVHR statistics for monitoring.
#[derive(Debug, Clone, Copy)]
pub struct MVHRStatistics {
    /// Cached hedge ratio, scale 10^4.
    pub hedge_ratio_fp: i64,
    /// Pearson correlation of returns, scale 10^4, in [-10^4, 10^4].
    pub correlation_fp: i64,
    /// Number of paired observations in the window.
    pub observations: usize,
    /// Volatility (standard deviation) of spot returns, scale 10^8.
    pub spot_volatility_fp: i64,
    /// Volatility (standard deviation) of futures returns, scale 10^8.
    pub futures_volatility_fp: i64,
}

impl MVHRStrategy {
    /// Well-formedness: the two windows always have equal length within the
    /// bounded window size, and the cached ratio stays within the 5.0 clamp.
    pub open spec fn wf(self) -> bool {
        &&& self.window_size <= WINDOW_LIMIT
        &&& self.spot_prices.len() == self.futures_prices.len()
        &&& self.spot_prices.len() <= self.window_size
        &&& -50000 <= self.cached_ratio_fp <= 50000
    }

    /// Create a new MVHR strategy with the default ratio 1.0 cached.
    pub fn new(window_hours: usize, recalc_hours: usize) -> (h: MVHRStrategy)
        requires
            window_hours <= WINDOW_LIMIT,
            recalc_hours <= 5000,
        ensures
            h.wf(),
            h.spot_prices@ == Seq::<i64>::empty(),
            h.futures_prices@ == Seq::<i64>::empty(),
            h.cached_ratio_fp == 10000,
            h.window_size == window_hours,
            h.recalc_interval_ns == recalc_hours * 3_600_000_000_000,
    {
        let h = MVHRStrategy {
            spot_prices: VecDeque::new(),
            futures_prices: VecDeque::new(),
            cached_ratio_fp: 10000,
            last_calc_ns: 0,
            window_size: window_hours,
            recalc_interval_ns: (recalc_hours as u64) * 3_600_000_000_000,
        };
        proof {
            assert(h.spot_prices@ =~= Seq::<i64>::empty());
            assert(h.futures_prices@ =~= Seq::<i64>::empty());
        }
        h
    }

    /// Append a paired observation, dropping the oldest pair from both
    /// windows jointly when the window is full: the two series always have
    /// equal length.
    pub fn add_observation(&mut self, spot_price_fp: i64, futures_price_fp: i64)
        requires
            old(self).wf(),
        ensures
            final(self).wf(),
            old(self).spot_prices.len() < old(self).window_size ==> final(self).spot_prices@
                == old(self).spot_prices@.push(spot_price_fp) && final(self).futures_prices@
                == old(self).futures_prices@.push(futures_price_fp),
            old(self).spot_prices.len() == old(self).window_size ==> final(self).spot_prices@
                == old(self).spot_prices@.push(spot_price_fp).drop_first()
                && final(self).futures_prices@ == old(self).futures_prices@.push(
                futures_price_fp,
            ).drop_first(),
            final(self).cached_ratio_fp == old(self).cached_ratio_fp,
            final(self).last_calc_ns == old(self).last_calc_ns,
            final(self).window_size == old(self).window_size,
            final(self).recalc_interval_ns == old(self).recalc_interval_ns,
    {
        self.spot_prices.push_back(spot_price_fp);
        self.futures_prices.push_back(futures_price_fp);
        if self.spot_prices.len() > self.window_size {
            self.spot_prices.pop_front();
            self.futures_prices.pop_front();
        }
    }

    /// Compute the second moments of the two return series; `None` exactly
    /// when the windows are too short or hold a non-positive or out-of-range
    /// price.
    fn compute_moments(&self) -> (r: Option<Moments>)
        requires
            self.wf(),
        ensures
            r is Some <==> windows_ok(self.spot_prices@, self.futures_prices@),
            r is Some ==> {
                let m = r->Some_0;
                &&& m.cov == spec_cov(self.spot_prices@, self.futures_prices@)
                &&& m.var_s == spec_var_s(self.spot_prices@)
                &&& m.var_f == spec_var_f(self.futures_prices@)
                &&& -COV_BOUND <= m.cov <= COV_BOUND
                &&& 0 <= m.var_s <= COV_BOUND
                &&& 0 <= m.var_f <= COV_BOUND
            },
    {
        let n: usize = self.spot_prices.len();
        if n < 3 {
            return None;
        }

        // Gate: every price strictly positive and within the supported
        // range, else the return computation is degenerate.
        let mut i: usize = 0;
        while i < n
            invariant
                self.wf(),
                n == self.spot_prices.len(),
                n == self.futures_prices.len(),
                i <= n,
                forall|j: int|
                    0 <= j < i ==> 0 < #[trigger] self.spot_prices@[j] <= PRICE_ABS_LIMIT_FP,
                forall|j: int|
                    0 <= j < i ==> 0 < #[trigger] self.futures_prices@[j] <= PRICE_ABS_LIMIT_FP,
            decreases n - i,
        {
            let s: i64 = self.spot_prices[i];
            let f: i64 = self.futures_prices[i];
            if s <= 0 || s > PRICE_ABS_LIMIT_FP || f <= 0 || f > PRICE_ABS_LIMIT_FP {
                return None;
            }
            i = i + 1;
        }

        let ghost rs: Seq<int> = spec_returns(self.spot_prices@);
        let ghost rf: Seq<int> = spec_returns(self.futures_prices@);

        // Per-step returns of both series, scale 10^8.
        let m: usize = n - 1;
        let mut rs_v: Vec<i64> = Vec::new();
        let mut rf_v: Vec<i64> = Vec::new();
        let mut i: usize = 0;
        while i < m
            invariant
                self.wf(),
                n == self.spot_prices.len(),
                n == self.futures_prices.len(),
                3 <= n,
                m == n - 1,
                all_positive_bounded(self.spot_prices@, PRICE_ABS_LIMIT_FP as int),
                all_positive_bounded(self.futures_prices@, PRICE_ABS_LIMIT_FP as int),
                rs == spec_returns(self.spot_prices@),
                rf == spec_returns(self.futures_prices@),
                i <= m,
                rs_v.len() == i,
                rf_v.len() == i,
                forall|j: int|
                    0 <= j < i ==> #[trigger] rs_v@[j] as int == rs[j] && -RETURN_BOUND <= rs_v@[j]
                        <= RETURN_BOUND,
                forall|j: int|
                    0 <= j < i ==> #[trigger] rf_v@[j] as int == rf[j] && -RETURN_BOUND <= rf_v@[j]
                        <= RETURN_BOUND,
            decreases m - i,
        {
            let s0: i64 = self.spot_prices[i];
            let s1: i64 = self.spot_prices[i + 1];
            let f0: i64 = self.futures_prices[i];
            let f1: i64 = self.futures_prices[i + 1];
            proof {
                lemma_return_bounded(s0 as int, s1 as int);
                lemma_return_bounded(f0 as int, f1 as int);
            }
            let r_s: i64 = mul_div_i64(s1 - s0, RETURN_SCALE, s0);
            let r_f: i64 = mul_div_i64(f1 - f0, RETURN_SCALE, f0);
            rs_v.push(r_s);
            rf_v.push(r_f);
            i = i + 1;
        }

        // Means of the two return series.
        let mut sum_s: i128 = 0;
        let mut sum_f: i128 = 0;
        let mut i: usize = 0;
        while i < m
            invariant
                3 <= n <= WINDOW_LIMIT,
                m == n - 1,
                rs.len() == m,
                rf.len() == m,
                rs_v.len() == m,
                rf_v.len() == m,
                forall|j: int|
                    0 <= j < m ==> #[trigger] rs_v@[j] as int == rs[j] && -RETURN_BOUND <= rs_v@[j]
                        <= RETURN_BOUND,
                forall|j: int|
                    0 <= j < m ==> #[trigger] rf_v@[j] as int == rf[j] && -RETURN_BOUND <= rf_v@[j]
                        <= RETURN_BOUND,
                i <= m,
                sum_s == sum_seq(rs.take(i as int)),
                sum_f == sum_seq(rf.take(i as int)),
                -(i as int) * (RETURN_BOUND as int) <= sum_s <= (i as int) * (RETURN_BOUND as int),
                -(i as int) * (RETURN_BOUND as int) <= sum_f <= (i as int) * (RETURN_BOUND as int),
            decreases m - i,
        {
            proof {
                lemma_sum_take_step(rs, i as int);
                lemma_sum_take_step(rf, i as int);
            }
            sum_s = sum_s + rs_v[i] as i128;
            sum_f = sum_f + rf_v[i] as i128;
            i = i + 1;
        }
        proof {
            assert(rs.take(m as int) =~= rs);
            assert(rf.take(m as int) =~= rf);
        }
        let mean_s: i128 = tdiv_i128(sum_s, m as i128);
        let mean_f: i128 = tdiv_i128(sum_f, m as i128);
        proof {
            lemma_tdiv_abs_le(sum_s as int, m as int, (m as int) * (RETURN_BOUND as int));
            lemma_tdiv_abs_le(sum_f as int, m as int, (m as int) * (RETURN_BOUND as int));
            vstd::arithmetic::div_mod::lemma_div_multiples_vanish(RETURN_BOUND as int, m as int);
        }

        // Centered second moments.
        let ghost cs: Seq<int> = centered(rs, mean_s as int);
        let ghost cf: Seq<int> = centered(rf, mean_f as int);
        let ghost cross: Seq<int> = Seq::new(cs.len(), |j: int| cs[j] * cf[j]);
        let ghost sqs: Seq<int> = Seq::new(cs.len(), |j: int| cs[j] * cs[j]);
        let ghost sqf: Seq<int> = Seq::new(cf.len(), |j: int| cf[j] * cf[j]);
        let mut acc_cov: i128 = 0;
        let mut acc_vs: i128 = 0;
        let mut acc_vf: i128 = 0;
        let mut i: usize = 0;
        while i < m
            invariant
                3 <= n <= WINDOW_LIMIT,
                m == n - 1,
                rs.len() == m,
                rf.len() == m,
                rs_v.len() == m,
                rf_v.len() == m,
                forall|j: int|
                    0 <= j < m ==> #[trigger] rs_v@[j] as int == rs[j] && -RETURN_BOUND <= rs_v@[j]
                        <= RETURN_BOUND,
                forall|j: int|
                    0 <= j < m ==> #[trigger] rf_v@[j] as int == rf[j] && -RETURN_BOUND <= rf_v@[j]
                        <= RETURN_BOUND,
                -RETURN_BOUND <= mean_s <= RETURN_BOUND,
                -RETURN_BOUND <= mean_f <= RETURN_BOUND,
                cs == centered(rs, mean_s as int),
                cf == centered(rf, mean_f as int),
                cross == Seq::new(cs.len(), |j: int| cs[j] * cf[j]),
                sqs == Seq::new(cs.len(), |j: int| cs[j] * cs[j]),
                sqf == Seq::new(cf.len(), |j: int| cf[j] * cf[j]),
                i <= m,
                acc_cov == sum_seq(cross.take(i as int)),
                acc_vs == sum_seq(sqs.take(i as int)),
                acc_vf == sum_seq(sqf.take(i as int)),
                -(i as int) * PROD_BOUND <= acc_cov <= (i as int) * PROD_BOUND,
                0 <= acc_vs <= (i as int) * PROD_BOUND,
                0 <= acc_vf <= (i as int) * PROD_BOUND,
            decreases m - i,
        {
            let ds: i128 = rs_v[i] as i128 - mean_s;
            let df: i128 = rf_v[i] as i128 - mean_f;
            proof {
                lemma_sum_take_step(cross, i as int);
                lemma_sum_take_step(sqs, i as int);
                lemma_sum_take_step(sqf, i as int);
                assert(cs[i as int] == rs[i as int] - mean_s as int);
                assert(cf[i as int] == rf[i as int] - mean_f as int);
                assert(cross[i as int] == cs[i as int] * cf[i as int]);
                assert(sqs[i as int] == cs[i as int] * cs[i as int]);
                assert(sqf[i as int] == cf[i as int] * cf[i as int]);
                assert(-PROD_BOUND <= (ds as int) * (df as int) <= PROD_BOUND
                    && 0 <= (ds as int) * (ds as int) <= PROD_BOUND && 0 <= (df as int) * (
                df as int) <= PROD_BOUND) by (nonlinear_arith)
                    requires
                        -2 * RETURN_BOUND <= ds <= 2 * RETURN_BOUND,
                        -2 * RETURN_BOUND <= df <= 2 * RETURN_BOUND,
                        PROD_BOUND == 4 * (RETURN_BOUND as int) * (RETURN_BOUND as int),
                ;
            }
            acc_cov = acc_cov + ds * df;
            acc_vs = acc_vs + ds * ds;
            acc_vf = acc_vf + df * df;
            i = i + 1;
        }
        proof {
            assert(cross.take(m as int) =~= cross);
            assert(sqs.take(m as int) =~= sqs);
            assert(sqf.take(m as int) =~= sqf);
        }

        let cov: i128 = tdiv_i128(acc_cov, m as i128 - 1);
        let var_s: i128 = tdiv_i128(acc_vs, m as i128 - 1);
        let var_f: i128 = tdiv_i128(acc_vf, m as i128 - 1);
        proof {
            let d = m as int - 1;
            assert((m as int) * (PROD_BOUND as int) <= d * (2 * PROD_BOUND as int))
                by (nonlinear_arith)
                requires
                    m >= 2,
                    d == m as int - 1,
                    PROD_BOUND >= 0,
            ;
            assert(abs(acc_cov as int) <= d * (2 * PROD_BOUND));
            assert(abs(acc_vs as int) <= d * (2 * PROD_BOUND));
            assert(abs(acc_vf as int) <= d * (2 * PROD_BOUND));
            lemma_tdiv_abs_le(acc_cov as int, d, d * (2 * PROD_BOUND));
            lemma_tdiv_abs_le(acc_vs as int, d, d * (2 * PROD_BOUND));
            lemma_tdiv_abs_le(acc_vf as int, d, d * (2 * PROD_BOUND));
            vstd::arithmetic::div_mod::lemma_div_multiples_vanish(2 * PROD_BOUND, d);
            vstd::arithmetic::div_mod::lemma_div_basics_4(acc_vs as int, d);
            vstd::arithmetic::div_mod::lemma_div_basics_4(acc_vf as int, d);
            assert(Seq::new(cs.len(), |j: int| cs[j] * cf[j]) =~= cross);
            assert(Seq::new(cs.len(), |j: int| cs[j] * cs[j]) =~= sqs);
            assert(Seq::new(cf.len(), |j: int| cf[j] * cf[j]) =~= sqf);
        }
        Some(Moments { cov, var_s, var_f })
    }

    /// Calculate the optimal hedge ratio `h* = cov / var` over the window
    /// and cache it (scale 10^4).
    ///
    /// Returns `Some` exactly when the window holds at least 3 in-range
    /// observations, the futures variance reaches `VAR_EPSILON_FP`, and the
    /// ratio passes the sanity clamp `|h*| <= 5`; only then is the cache
    /// updated.
    pub fn calculate_optimal_ratio(&mut self) -> (r: Option<i64>)
        requires
            old(self).wf(),
        ensures
            final(self).wf(),
            final(self).spot_prices@ == old(self).spot_prices@,
            final(self).futures_prices@ == old(self).futures_prices@,
            final(self).window_size == old(self).window_size,
            final(self).recalc_interval_ns == old(self).recalc_interval_ns,
            r is Some <==> spec_calc_ok(old(self).spot_prices@, old(self).futures_prices@),
            r is Some ==> {
                let ratio = spec_optimal_ratio(old(self).spot_prices@, old(self).futures_prices@);
                &&& r == Some((ratio as i64))
                &&& final(self).cached_ratio_fp == ratio
            },
            r is None ==> final(self).cached_ratio_fp == old(self).cached_ratio_fp
                && final(self).last_calc_ns == old(self).last_calc_ns,
    {
        let moments: Option<Moments> = self.compute_moments();
        let m: Moments = match moments {
            Some(m) => m,
            None => {
                return None;
            },
        };
        if m.var_f < VAR_EPSILON_FP {
            return None;
        }
        proof {
            assert(m.cov * 10000 <= COV_BOUND * 10000 && -COV_BOUND * 10000 <= m.cov * 10000) by (nonlinear_arith)
                requires
                    -COV_BOUND <= m.cov <= COV_BOUND,
            ;
        }
        let ratio128: i128 = tdiv_i128((m.cov) * 10000, m.var_f);
        if ratio128 > 50000 || ratio128 < -50000 {
            return None;
        }
        let ratio: i64 = ratio128 as i64;
        self.cached_ratio_fp = ratio;
        self.last_calc_ns = get_timestamp_ns();
        Some(ratio)
    }

    /// The cached hedge ratio (fast), scale 10^4; 1.0 before the first
    /// successful calculation.
    pub fn get_hedge_ratio(&self) -> (r: i64)
        ensures
            r == self.cached_ratio_fp,
    {
        self.cached_ratio_fp
    }

    /// Whether a recalculation is due at the given clock reading: the time
    /// elapsed since the last successful calculation exceeds the
    /// recalculation interval (a clock behind the last calculation counts
    /// as no elapsed time).
    pub fn needs_recalculation_at(&self, now_ns: u64) -> (r: bool)
        ensures
            r == (now_ns.saturating_sub(self.last_calc_ns) > self.recalc_interval_ns),
    {
        now_ns.saturating_sub(self.last_calc_ns) > self.recalc_interval_ns
    }

    /// Whether the recalculation interval has elapsed since the last
    /// successful calculation, read off the clock: the clock value is
    /// arbitrary, and `needs_recalculation_at` decides from it.
    pub fn needs_recalculation(&self) -> bool {
        self.needs_recalculation_at(get_timestamp_ns())
    }

    /// Statistics over the current window: the cached ratio, the Pearson
    /// correlation of returns (clamped into [-1, 1], scale 10^4), the
    /// observation count, and both return volatilities (scale 10^8).
    ///
    /// `None` exactly when the windows are too short or hold an out-of-range
    /// price.
    pub fn get_statistics(&self) -> (r: Option<MVHRStatistics>)
        requires
            self.wf(),
        ensures
            r is Some <==> windows_ok(self.spot_prices@, self.futures_prices@),
            r is Some ==> {
                let st = r->Some_0;
                &&& st.hedge_ratio_fp == self.cached_ratio_fp
                &&& st.correlation_fp == spec_correlation(
                    self.spot_prices@,
                    self.futures_prices@,
                )
                &&& st.observations == self.spot_prices.len()
                &&& st.spot_volatility_fp == sqrt_floor(spec_var_s(self.spot_prices@))
                &&& st.futures_volatility_fp == sqrt_floor(spec_var_f(self.futures_prices@))
            },
    {
        let moments: Option<Moments> = self.compute_moments();
        let m: Moments = match moments {
            Some(m) => m,
            None => {
                return None;
            },
        };
        let ss: u128 = isqrt_u128(m.var_s as u128);
        let sf: u128 = isqrt_u128(m.var_f as u128);
        proof {
            assert(ss <= 30_000_000_000_000_000 && sf <= 30_000_000_000_000_000)
                by (nonlinear_arith)
                requires
                    (ss as int) * (ss as int) <= COV_BOUND,
                    (sf as int) * (sf as int) <= COV_BOUND,
                    COV_BOUND == 800_000_000_000_000_000_000_000_000_000_000i128,
            ;
        }

        let correlation: i64 = if m.var_s > 0 && m.var_f > 0 {
            proof {
                assert(ss >= 1 && sf >= 1) by (nonlinear_arith)
                    requires
                        m.var_s >= 1,
                        m.var_f >= 1,
                        (m.var_s as int) < (ss as int + 1) * (ss as int + 1),
                        (m.var_f as int) < (sf as int + 1) * (sf as int + 1),
                        ss >= 0,
                        sf >= 0,
                ;
                assert(1 <= (ss as int) * (sf as int)
                    <= 900_000_000_000_000_000_000_000_000_000_000int) by (nonlinear_arith)
                    requires
                        1 <= ss <= 30_000_000_000_000_000u128,
                        1 <= sf <= 30_000_000_000_000_000u128,
                ;
                assert(-COV_BOUND * 10000 <= m.cov * 10000 <= COV_BOUND * 10000)
                    by (nonlinear_arith)
                    requires
                        -COV_BOUND <= m.cov <= COV_BOUND,
                ;
            }
            let denom: i128 = (ss as i128) * (sf as i128);
            let c: i128 = tdiv_i128((m.cov) * 10000, denom);
            if c > 10000 {
                10000
            } else if c < -10000 {
                -10000
            } else {
                c as i64
            }
        } else {
            0
        };

        Some(
            MVHRStatistics {
                hedge_ratio_fp: self.cached_ratio_fp,
                correlation_fp: correlation,
                observations: self.spot_prices.len(),
                spot_volatility_fp: ss as i64,
                futures_volatility_fp: sf as i64,
            },
        )
    }
}

/// Largest magnitude of a per-step return (scale 10^8) of in-range positive
/// prices: 10^16.
pub const RETURN_BOUND: i64 = 10_000_000_000_000_000;

/// Largest magnitude of a product of two centered returns: 4 * 10^32.
pub const PROD_BOUND: i128 = 400_000_000_000_000_000_000_000_000_000_000;

/// Largest magnitude of a sample covariance or variance of returns:
/// 8 * 10^32.
pub const COV_BOUND: i128 = 800_000_000_000_000_000_000_000_000_000_000;

/// A per-step return of two in-range positive prices has magnitude at most
/// `RETURN_BOUND`.
proof fn lemma_return_bounded(p0: int, p1: int)
    requires
        0 < p0 <= PRICE_ABS_LIMIT_FP,
        0 < p1 <= PRICE_ABS_LIMIT_FP,
    ensures
        abs(tdiv((p1 - p0) * RETURN_SCALE, p0)) <= RETURN_BOUND,
{
    assert(abs((p1 - p0) * RETURN_SCALE) <= RETURN_BOUND) by (nonlinear_arith)
        requires
            0 < p0 <= PRICE_ABS_LIMIT_FP,
            0 < p1 <= PRICE_ABS_LIMIT_FP,
            PRICE_ABS_LIMIT_FP == 100_000_000i64,
            RETURN_SCALE == 100_000_000i64,
            RETURN_BOUND == 10_000_000_000_000_000i64,
    ;
    lemma_tdiv_abs_le((p1 - p0) * RETURN_SCALE, p0, RETURN_BOUND as int);
    vstd::arithmetic::div_mod::lemma_div_is_ordered_by_denominator(RETURN_BOUND as int, 1, p0);
}

/// A flat futures window (all prices equal) has all-zero returns, hence
/// zero variance: the ratio calculation returns "none".
pub proof fn lemma_flat_futures_zero_variance(fut: Seq<i64>, p: i64)
    requires
        fut.len() >= 3,
        forall|i: int| 0 <= i < fut.len() ==> #[trigger] fut[i] == p,
        p > 0,
    ensures
        spec_var_f(fut) == 0,
{
    let rf = spec_returns(fut);
    assert forall|i: int| 0 <= i < rf.len() implies #[trigger] rf[i] == 0 by {
        assert(fut[i] == p);
        assert(fut[i + 1] == p);
        assert(rf[i] == tdiv(0 * RETURN_SCALE, p as int));
        assert(0 * RETURN_SCALE == 0) by (nonlinear_arith);
        vstd::arithmetic::div_mod::lemma_div_basics_1(p as int);
    }
    crate::stats::lemma_zero_stats(rf);
}

/// A negative covariance with positive variance gives a non-positive ratio,
/// and a strictly negative one as soon as the scaled covariance magnitude
/// reaches the variance.
pub proof fn lemma_negative_correlation_ratio(spot: Seq<i64>, fut: Seq<i64>)
    requires
        spec_cov(spot, fut) < 0,
        spec_var_f(fut) > 0,
    ensures
        spec_optimal_ratio(spot, fut) <= 0,
        -spec_cov(spot, fut) * 10000 >= spec_var_f(fut) ==> spec_optimal_ratio(spot, fut) < 0,
{
    let cov = spec_cov(spot, fut);
    let var = spec_var_f(fut);
    assert(cov * 10000 < 0) by (nonlinear_arith)
        requires
            cov < 0,
    ;
    assert(-(cov * 10000) == (-cov) * 10000) by (nonlinear_arith);
    vstd::arithmetic::div_mod::lemma_div_basics_4(-(cov * 10000), var);
    if -cov * 10000 >= var {
        assert((-(cov * 10000)) / var >= var / var) by {
            vstd::arithmetic::div_mod::lemma_div_is_ordered(var, -(cov * 10000), var);
        }
        assert(var / var == 1) by {
            vstd::arithmetic::div_mod::lemma_div_multiples_vanish(1, var);
        }
    }
}

} // verus!
