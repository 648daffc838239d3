//! Strategy composition: the weighted average that merges the quantities
//! several strategies recommend.
//!
//! The trait-object plumbing that collects recommendations lives outside
//! the verified core; this module holds the arithmetic it feeds.

use vstd::prelude::*;

use crate::config::HEDGE_LIMIT_FP;
use crate::fixed::sum_seq;
use crate::fixed::lemma_sum_take_step;
use crate::fixed::tdiv;
use crate::fixed::tdiv_i128;
use crate::stats::seq_int;

verus! {

/// Largest strategy weight accepted, scale 10^4 (a weight of 100).
pub const WEIGHT_LIMIT_FP: i64 = 1_000_000;

/// The weighted sum of quantities: `sum q_i * w_i`.
pub open spec fn spec_weighted_sum(quantities: Seq<int>, weights: Seq<int>) -> int {
    sum_seq(Seq::new(quantities.len(), |i: int| quantities[i] * weights[i]))
}

/// The weighted average of the quantities, truncated:
/// `sum(q_i * w_i) / sum(w_i)`.
pub open spec fn spec_weighted_average(quantities: Seq<int>, weights: Seq<int>) -> int {
    tdiv(spec_weighted_sum(quantities, weights), sum_seq(weights))
}

/// Combine the quantities that several strategies recommended into one, by
/// weighted average.  `None` when no strategy contributed or all weights
/// are zero.
pub fn combine_weighted(quantities: &Vec<i64>, weights: &Vec<i64>) -> (r: Option<i64>)
    requires
        quantities.len() == weights.len(),
        quantities.len() <= 1_000_000,
        forall|i: int| 0 <= i < quantities.len() ==> 0 <= #[trigger] quantities@[i] <= 2
            * HEDGE_LIMIT_FP,
        forall|i: int| 0 <= i < weights.len() ==> 0 <= #[trigger] weights@[i] <= WEIGHT_LIMIT_FP,
    ensures
        r is Some <==> sum_seq(seq_int(weights@)) > 0,
        r matches Some(avg) ==> avg == spec_weighted_average(seq_int(quantities@), seq_int(weights@)),
    {
        let n: usize = quantities.len();
        let ghost qs: Seq<int> = seq_int(quantities@);
        let ghost ws: Seq<int> = seq_int(weights@);
        let ghost prods: Seq<int> = Seq::new(qs.len(), |i: int| qs[i] * ws[i]);

        let mut total_quantity: i128 = 0;
        let mut total_weight: i128 = 0;
        let mut i: usize = 0;
        while i < n
            invariant
                n == quantities.len(),
                n == weights.len(),
                n <= 1_000_000,
                qs == seq_int(quantities@),
                ws == seq_int(weights@),
                prods == Seq::new(qs.len(), |j: int| qs[j] * ws[j]),
                forall|j: int| 0 <= j < n ==> 0 <= #[trigger] quantities@[j] <= 2
                    * HEDGE_LIMIT_FP,
                forall|j: int| 0 <= j < n ==> 0 <= #[trigger] weights@[j] <= WEIGHT_LIMIT_FP,
                i <= n,
                total_quantity == sum_seq(prods.take(i as int)),
                total_weight == sum_seq(ws.take(i as int)),
                0 <= total_quantity <= (i as int) * 200_000_000_000_000_000_000_000,
                0 <= total_weight <= (i as int) * (WEIGHT_LIMIT_FP as int),
            decreases n - i,
        {
            let q: i64 = quantities[i];
            let w: i64 = weights[i];
            proof {
                lemma_sum_take_step(prods, i as int);
                lemma_sum_take_step(ws, i as int);
                assert(prods[i as int] == qs[i as int] * ws[i as int]);
                assert(0 <= (q as int) * (w as int) <= 200_000_000_000_000_000_000_000)
                    by (nonlinear_arith)
                    requires
                        0 <= q <= 2 * HEDGE_LIMIT_FP,
                        0 <= w <= WEIGHT_LIMIT_FP,
                        HEDGE_LIMIT_FP == 100_000_000_000_000_000i64,
                        WEIGHT_LIMIT_FP == 1_000_000i64,
                ;
            }
            total_quantity = total_quantity + (q as i128) * (w as i128);
            total_weight = total_weight + w as i128;
            i = i + 1;
        }
        proof {
            assert(prods.take(n as int) =~= prods);
            assert(ws.take(n as int) =~= ws);
            assert(Seq::new(qs.len(), |j: int| qs[j] * ws[j]) =~= prods);
        }

        if total_weight <= 0 {
            return None;
        }

        let avg: i128 = tdiv_i128(total_quantity, total_weight);
        proof {
            lemma_weighted_average_bounded(qs, ws, 2 * HEDGE_LIMIT_FP as int);
        }
        Some(avg as i64)
    }

/// A weighted average of quantities in `[0, bound]` with non-negative
/// weights stays within `[0, bound]`.
proof fn lemma_weighted_average_bounded(qs: Seq<int>, ws: Seq<int>, bound: int)
    requires
        qs.len() == ws.len(),
        bound >= 0,
        forall|i: int| 0 <= i < qs.len() ==> 0 <= #[trigger] qs[i] <= bound,
        forall|i: int| 0 <= i < ws.len() ==> 0 <= #[trigger] ws[i],
        sum_seq(ws) > 0,
    ensures
        0 <= spec_weighted_average(qs, ws) <= bound,
{
    lemma_weighted_sum_bounded(qs, ws, bound);
    let num = spec_weighted_sum(qs, ws);
    let den = sum_seq(ws);
    vstd::arithmetic::div_mod::lemma_div_basics_4(num, den);
    vstd::arithmetic::div_mod::lemma_div_is_ordered(num, bound * den, den);
    vstd::arithmetic::div_mod::lemma_div_multiples_vanish(bound, den);
}

/// The weighted sum of bounded quantities is between 0 and
/// `bound * sum(weights)`.
proof fn lemma_weighted_sum_bounded(qs: Seq<int>, ws: Seq<int>, bound: int)
    requires
        qs.len() == ws.len(),
        bound >= 0,
        forall|i: int| 0 <= i < qs.len() ==> 0 <= #[trigger] qs[i] <= bound,
        forall|i: int| 0 <= i < ws.len() ==> 0 <= #[trigger] ws[i],
    ensures
        0 <= spec_weighted_sum(qs, ws) <= bound * sum_seq(ws),
    decreases qs.len(),
{
    let prods = Seq::new(qs.len(), |i: int| qs[i] * ws[i]);
    if qs.len() == 0 {
        assert(bound * sum_seq(ws) == 0) by (nonlinear_arith)
            requires
                sum_seq(ws) == 0,
        ;
    } else {
        let qs1 = qs.drop_last();
        let ws1 = ws.drop_last();
        lemma_weighted_sum_bounded(qs1, ws1, bound);
        let prods1 = Seq::new(qs1.len(), |i: int| qs1[i] * ws1[i]);
        assert(prods.drop_last() =~= prods1);
        let q = qs.last();
        let w = ws.last();
        assert(prods.last() == q * w);
        assert(0 <= q * w <= bound * w) by (nonlinear_arith)
            requires
                0 <= q <= bound,
                0 <= w,
        ;
        assert(ws1 =~= ws.drop_last());
        assert(sum_seq(ws) == sum_seq(ws1) + w);
        assert(bound * (sum_seq(ws1) + w) == bound * sum_seq(ws1) + bound * w)
            by (nonlinear_arith);
        assert(sum_seq(ws1) >= 0) by {
            lemma_weights_sum_nonneg(ws1);
        }
    }
}

/// A sum of non-negative values is non-negative.
proof fn lemma_weights_sum_nonneg(ws: Seq<int>)
    requires
        forall|i: int| 0 <= i < ws.len() ==> 0 <= #[trigger] ws[i],
    ensures
        sum_seq(ws) >= 0,
    decreases ws.len(),
{
    if ws.len() > 0 {
        lemma_weights_sum_nonneg(ws.drop_last());
    }
}

} // verus!
