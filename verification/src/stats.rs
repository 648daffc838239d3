//! Shared spec-level statistics over integer sequences: truncated means,
//! centered deviations, sums of squares and cross products.

use vstd::prelude::*;

use crate::fixed::sum_seq;
use crate::fixed::lemma_sum_constant;
use crate::fixed::lemma_sum_zero;
use crate::fixed::tdiv;

verus! {

/// A sequence of `i64` values as mathematical integers.
pub open spec fn seq_int(s: Seq<i64>) -> Seq<int> {
    Seq::new(s.len(), |i: int| s[i] as int)
}

/// The truncated mean of a non-empty sequence.
pub open spec fn mean_of(s: Seq<int>) -> int
    recommends
        s.len() > 0,
{
    tdiv(sum_seq(s), s.len() as int)
}

/// Each element with `m` subtracted.
pub open spec fn centered(s: Seq<int>, m: int) -> Seq<int> {
    Seq::new(s.len(), |i: int| s[i] - m)
}

/// The sum of squares of a sequence.
pub open spec fn sq_sum(s: Seq<int>) -> int {
    sum_seq(Seq::new(s.len(), |i: int| s[i] * s[i]))
}

/// The sum of pairwise products of two sequences of equal length.
pub open spec fn cross_sum(a: Seq<int>, b: Seq<int>) -> int
    recommends
        a.len() == b.len(),
{
    sum_seq(Seq::new(a.len(), |i: int| a[i] * b[i]))
}

/// The truncated sample variance (denominator `len - 1`) of a sequence with
/// at least two elements.
pub open spec fn var_of(s: Seq<int>) -> int
    recommends
        s.len() >= 2,
{
    tdiv(sq_sum(centered(s, mean_of(s))), s.len() - 1)
}

/// The truncated sample covariance (denominator `len - 1`) of two sequences
/// of equal length at least two.
pub open spec fn cov_of(a: Seq<int>, b: Seq<int>) -> int
    recommends
        a.len() == b.len(),
        a.len() >= 2,
{
    tdiv(cross_sum(centered(a, mean_of(a)), centered(b, mean_of(b))), a.len() - 1)
}

/// Every element lies within `[-limit, limit]`.
pub open spec fn all_bounded(s: Seq<i64>, limit: int) -> bool {
    forall|i: int| 0 <= i < s.len() ==> -limit <= #[trigger] s[i] <= limit
}

/// Every element is strictly positive and at most `limit`.
pub open spec fn all_positive_bounded(s: Seq<i64>, limit: int) -> bool {
    forall|i: int| 0 <= i < s.len() ==> 0 < #[trigger] s[i] <= limit
}

/// A constant sequence has its value as mean and zero variance.
pub proof fn lemma_constant_stats(s: Seq<int>, v: int)
    requires
        s.len() >= 2,
        forall|i: int| 0 <= i < s.len() ==> #[trigger] s[i] == v,
    ensures
        mean_of(s) == v,
        var_of(s) == 0,
{
    let n = s.len() as int;
    lemma_sum_constant(s, v);
    assert(mean_of(s) == v) by {
        if v >= 0 {
            assert(n * v >= 0) by (nonlinear_arith)
                requires
                    n >= 2,
                    v >= 0,
            ;
            assert((v * n) / n == v) by {
                vstd::arithmetic::div_mod::lemma_div_multiples_vanish(v, n);
            }
            assert(n * v == v * n) by (nonlinear_arith);
        } else {
            assert(n * v < 0) by (nonlinear_arith)
                requires
                    n >= 2,
                    v < 0,
            ;
            assert(((-v) * n) / n == -v) by {
                vstd::arithmetic::div_mod::lemma_div_multiples_vanish(-v, n);
            }
            assert(-(n * v) == (-v) * n) by (nonlinear_arith);
        }
    }
    let c = centered(s, v);
    let sq = Seq::new(c.len(), |i: int| c[i] * c[i]);
    assert forall|i: int| 0 <= i < sq.len() implies #[trigger] sq[i] == 0 by {
        assert(c[i] == s[i] - v);
        assert(s[i] == v);
    }
    lemma_sum_zero(sq);
    assert(var_of(s) == tdiv(0, n - 1));
}

/// A sequence of zeros has zero mean and zero variance.
pub proof fn lemma_zero_stats(s: Seq<int>)
    requires
        s.len() >= 2,
        forall|i: int| 0 <= i < s.len() ==> #[trigger] s[i] == 0,
    ensures
        mean_of(s) == 0,
        var_of(s) == 0,
{
    lemma_constant_stats(s, 0);
}

} // verus!
