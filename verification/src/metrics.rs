//! Performance metrics: counters, running latency aggregates and a bucketed
//! latency histogram for percentiles.
//!
//! Counters and sums saturate at their type's maximum instead of wrapping.

use vstd::prelude::*;

use crate::fixed::lemma_sum_take_step;
use crate::fixed::sum_seq;
use crate::fixed::tdiv;

verus! {

/// The fixed histogram bucket boundaries, in nanoseconds: 100 ns steps to
/// 1 us, 1 us steps to 10 us, 10 us steps to 100 us.
pub open spec fn spec_boundaries() -> Seq<u64> {
    seq![
        100u64,
        200,
        300,
        400,
        500,
        600,
        700,
        800,
        900,
        1000,
        2000,
        3000,
        4000,
        5000,
        6000,
        7000,
        8000,
        9000,
        10000,
        20000,
        30000,
        40000,
        50000,
        60000,
        70000,
        80000,
        90000,
        100000,
    ]
}

/// The bucket a latency falls into: the first boundary it is below, or the
/// overflow bucket past the last boundary.
pub open spec fn spec_bucket_index(bs: Seq<u64>, latency_ns: u64) -> int
    decreases bs.len(),
{
    if bs.len() == 0 {
        0
    } else if latency_ns < bs[0] {
        0
    } else {
        1 + spec_bucket_index(bs.drop_first(), latency_ns)
    }
}

/// The sum of the first `n` bucket counts.
pub open spec fn spec_cumsum(b: Seq<usize>, n: int) -> int {
    sum_seq(Seq::new(n as nat, |i: int| b[i] as int))
}

/// The first index whose running total reaches `target`, scanning from `i`
/// with `acc` already accumulated; -1 when the total never reaches it.
pub open spec fn spec_first_reach(b: Seq<usize>, target: int, i: int, acc: int) -> int
    decreases b.len() - i,
{
    if i < 0 || i >= b.len() {
        -1
    } else if acc + b[i] >= target {
        i
    } else {
        spec_first_reach(b, target, i + 1, acc + b[i])
    }
}

/// The percentile read off a histogram: the boundary of the first bucket
/// whose cumulative count reaches `total * p_bps / 10^4` (half the first
/// boundary for the first bucket, the last boundary for the overflow
/// bucket); 0 for an empty histogram.
pub open spec fn spec_percentile(b: Seq<usize>, p_bps: u64) -> int {
    let bs = spec_boundaries();
    let total = spec_cumsum(b, b.len() as int);
    if total == 0 {
        0
    } else {
        let target = tdiv(total * p_bps, 10000);
        let i = spec_first_reach(b, target, 0, 0);
        if i < 0 {
            0
        } else if i == 0 {
            bs[0] as int / 2
        } else if i < bs.len() {
            bs[i] as int
        } else {
            bs[bs.len() - 1] as int
        }
    }
}

/// Latency histogram for percentile calculation.
pub struct LatencyHistogram {
    /// Bucket counts: one per boundary, plus the overflow bucket.
    pub buckets: Vec<usize>,
    /// Upper boundaries of the buckets, in nanoseconds.
    pub bucket_boundaries: Vec<u64>,
}

impl LatencyHistogram {
    /// The boundaries are the fixed ladder and there is one bucket more
    /// than there are boundaries.
    pub open spec fn wf(self) -> bool {
        &&& self.bucket_boundaries@ == spec_boundaries()
        &&& self.buckets.len() == spec_boundaries().len() + 1
    }

    /// Create an empty histogram over the fixed boundary ladder.
    pub fn new() -> (h: LatencyHistogram)
        ensures
            h.wf(),
            forall|i: int| 0 <= i < h.buckets.len() ==> #[trigger] h.buckets@[i] == 0,
    {
        let mut boundaries: Vec<u64> = Vec::new();
        let mut i: u64 = 1;
        while i <= 10
            invariant
                1 <= i <= 11,
                boundaries@.len() == i - 1,
                forall|j: int| 0 <= j < i - 1 ==> #[trigger] boundaries@[j] == (j + 1) * 100,
            decreases 11 - i,
        {
            boundaries.push(i * 100);
            i = i + 1;
        }
        let mut i: u64 = 2;
        while i <= 10
            invariant
                2 <= i <= 11,
                boundaries@.len() == 10 + i - 2,
                forall|j: int| 0 <= j < 10 ==> #[trigger] boundaries@[j] == (j + 1) * 100,
                forall|j: int| 10 <= j < 10 + i - 2 ==> #[trigger] boundaries@[j] == (j - 8) * 1000,
            decreases 11 - i,
        {
            boundaries.push(i * 1000);
            i = i + 1;
        }
        let mut i: u64 = 2;
        while i <= 10
            invariant
                2 <= i <= 11,
                boundaries@.len() == 19 + i - 2,
                forall|j: int| 0 <= j < 10 ==> #[trigger] boundaries@[j] == (j + 1) * 100,
                forall|j: int| 10 <= j < 19 ==> #[trigger] boundaries@[j] == (j - 8) * 1000,
                forall|j: int| 19 <= j < 19 + i - 2 ==> #[trigger] boundaries@[j] == (j - 17)
                    * 10000,
            decreases 11 - i,
        {
            boundaries.push(i * 10000);
            i = i + 1;
        }
        proof {
            assert(boundaries@ =~= spec_boundaries());
        }
        let mut buckets: Vec<usize> = Vec::new();
        let mut i: usize = 0;
        while i < 29
            invariant
                i <= 29,
                buckets.len() == i,
                forall|j: int| 0 <= j < i ==> #[trigger] buckets@[j] == 0,
            decreases 29 - i,
        {
            buckets.push(0);
            i = i + 1;
        }
        LatencyHistogram { buckets, bucket_boundaries: boundaries }
    }

    /// Record one latency into its bucket; the count saturates.
    pub fn record(&mut self, latency_ns: u64)
        requires
            old(self).wf(),
        ensures
            final(self).wf(),
            final(self).buckets@ == old(self).buckets@.update(
                spec_bucket_index(spec_boundaries(), latency_ns),
                old(self).buckets@[spec_bucket_index(spec_boundaries(), latency_ns)].saturating_add(
                    1,
                ),
            ),
    {
        let n: usize = self.bucket_boundaries.len();
        let mut i: usize = 0;
        while i < n
            invariant
                self == old(self),
                old(self).wf(),
                n == self.bucket_boundaries.len(),
                i <= n,
                forall|j: int| 0 <= j < i ==> latency_ns >= #[trigger] self.bucket_boundaries@[j],
            decreases n - i,
        {
            if latency_ns < self.bucket_boundaries[i] {
                proof {
                    lemma_bucket_index_first(spec_boundaries(), latency_ns, i as int);
                }
                let c: usize = self.buckets[i];
                self.buckets[i] = c.saturating_add(1);
                return ;
            }
            i = i + 1;
        }
        proof {
            lemma_bucket_index_first(spec_boundaries(), latency_ns, n as int);
        }
        let c: usize = self.buckets[n];
        self.buckets[n] = c.saturating_add(1);
    }

    /// The latency percentile for `p_bps` basis points (5000 = the median).
    pub fn percentile(&self, p_bps: u64) -> (r: u64)
        requires
            self.wf(),
            p_bps <= 10000,
        ensures
            r == spec_percentile(self.buckets@, p_bps),
    {
        let n: usize = self.buckets.len();
        let ghost b: Seq<usize> = self.buckets@;

        let mut total: u128 = 0;
        let mut i: usize = 0;
        while i < n
            invariant
                self.wf(),
                b == self.buckets@,
                n == self.buckets.len(),
                i <= n,
                total == spec_cumsum(b, i as int),
                total <= (i as int) * 18_446_744_073_709_551_615,
            decreases n - i,
        {
            let ghost counts: Seq<int> = Seq::new(n as nat, |j: int| b[j] as int);
            proof {
                assert(Seq::new(i as nat + 1, |j: int| b[j] as int) =~= counts.take(i + 1));
                assert(Seq::new(i as nat, |j: int| b[j] as int) =~= counts.take(i as int));
                lemma_sum_take_step(counts, i as int);
            }
            total = total + self.buckets[i] as u128;
            i = i + 1;
        }
        if total == 0 {
            return 0;
        }

        proof {
            assert((total as int) * (p_bps as int) <= (total as int) * 10000) by (nonlinear_arith)
                requires
                    p_bps <= 10000,
                    total >= 0,
            ;
            assert((total as int) * 10000 <= 0x1_0000_0000_0000_0000_0000 * 10000)
                by (nonlinear_arith)
                requires
                    total <= 0x1_0000_0000_0000_0000_0000u128,
            ;
            vstd::arithmetic::div_mod::lemma_div_basics_4((total as int) * (p_bps as int), 10000);
            vstd::arithmetic::div_mod::lemma_div_is_ordered(
                (total as int) * (p_bps as int),
                (total as int) * 10000,
                10000,
            );
            vstd::arithmetic::div_mod::lemma_div_multiples_vanish(total as int, 10000);
        }
        let target: u128 = (total * (p_bps as u128)) / 10000;

        let mut cumsum: u128 = 0;
        let mut i: usize = 0;
        while i < n
            invariant
                self.wf(),
                b == self.buckets@,
                n == self.buckets.len(),
                i <= n,
                cumsum == spec_cumsum(b, i as int),
                cumsum <= total,
                total != 0,
                total == spec_cumsum(b, n as int),
                total <= (n as int) * 18_446_744_073_709_551_615,
                target == tdiv(spec_cumsum(b, n as int) * p_bps, 10000),
                target <= total,
                spec_first_reach(b, target as int, 0, 0) == spec_first_reach(
                    b,
                    target as int,
                    i as int,
                    cumsum as int,
                ),
            decreases n - i,
        {
            let ghost acc0: int = cumsum as int;
            let ghost counts: Seq<int> = Seq::new(n as nat, |j: int| b[j] as int);
            proof {
                assert(Seq::new(i as nat + 1, |j: int| b[j] as int) =~= counts.take(i + 1));
                assert(Seq::new(i as nat, |j: int| b[j] as int) =~= counts.take(i as int));
                lemma_sum_take_step(counts, i as int);
                lemma_cumsum_le_total(b, i as int + 1, n as int);
            }
            cumsum = cumsum + self.buckets[i] as u128;
            if cumsum >= target {
                proof {
                    assert(spec_first_reach(b, target as int, i as int, acc0) == i as int);
                }
                if i == 0 {
                    return self.bucket_boundaries[0] / 2;
                } else if i < self.bucket_boundaries.len() {
                    return self.bucket_boundaries[i];
                } else {
                    let m: usize = self.bucket_boundaries.len();
                    return self.bucket_boundaries[m - 1];
                }
            }
            proof {
                assert(spec_first_reach(b, target as int, i as int, acc0) == spec_first_reach(
                    b,
                    target as int,
                    i as int + 1,
                    acc0 + b[i as int],
                ));
            }
            i = i + 1;
        }
        0
    }
}

/// If no bucket before `i` holds the latency and bucket `i` does (or `i` is
/// past the end), then `i` is the bucket index.
proof fn lemma_bucket_index_first(bs: Seq<u64>, latency_ns: u64, i: int)
    requires
        0 <= i <= bs.len(),
        forall|j: int| 0 <= j < i ==> latency_ns >= #[trigger] bs[j],
        i < bs.len() ==> latency_ns < bs[i],
    ensures
        spec_bucket_index(bs, latency_ns) == i,
    decreases bs.len(),
{
    if bs.len() > 0 {
        if i == 0 {
        } else {
            assert(latency_ns >= bs[0]);
            lemma_bucket_index_first(bs.drop_first(), latency_ns, i - 1);
        }
    }
}

/// Prefix sums of bucket counts never exceed the total.
proof fn lemma_cumsum_le_total(b: Seq<usize>, i: int, n: int)
    requires
        0 <= i <= n <= b.len(),
    ensures
        spec_cumsum(b, i) <= spec_cumsum(b, n),
        spec_cumsum(b, i) >= 0,
    decreases n - i,
{
    if i < n {
        let counts_next = Seq::new((i + 1) as nat, |j: int| b[j] as int);
        assert(counts_next.drop_last() =~= Seq::new(i as nat, |j: int| b[j] as int));
        lemma_cumsum_le_total(b, i + 1, n);
    }
    lemma_cumsum_nonneg(b, i);
}

/// Prefix sums of bucket counts are non-negative.
proof fn lemma_cumsum_nonneg(b: Seq<usize>, i: int)
    requires
        0 <= i <= b.len(),
    ensures
        spec_cumsum(b, i) >= 0,
    decreases i,
{
    if i > 0 {
        let counts = Seq::new(i as nat, |j: int| b[j] as int);
        assert(counts.drop_last() =~= Seq::new((i - 1) as nat, |j: int| b[j] as int));
        lemma_cumsum_nonneg(b, i - 1);
    }
}

/// Performance metrics.
pub struct Metrics {
    /// Total ticks processed.
    pub ticks_processed: usize,
    /// Total hedges executed.
    pub hedges_executed: usize,
    /// Sum of tick processing latencies (for the average).
    pub total_tick_latency_ns: u64,
    /// Minimum tick latency seen; `u64::MAX` until the first record.
    pub min_tick_latency_ns: u64,
    /// Maximum tick latency seen.
    pub max_tick_latency_ns: u64,
    /// Total hedge volume (MWh), scale 10^2.
    pub total_hedge_volume_fp: i64,
    /// Latency histogram (nanoseconds).
    pub latency_histogram: LatencyHistogram,
}

/// The metrics value after one tick latency record: all counters saturate.
pub open spec fn spec_recorded_tick(pre: Metrics, post: Metrics, latency_ns: u64) -> bool {
    &&& post.ticks_processed == pre.ticks_processed.saturating_add(1)
    &&& post.total_tick_latency_ns == pre.total_tick_latency_ns.saturating_add(latency_ns)
    &&& post.min_tick_latency_ns == (if latency_ns < pre.min_tick_latency_ns {
        latency_ns
    } else {
        pre.min_tick_latency_ns
    })
    &&& post.max_tick_latency_ns == (if latency_ns > pre.max_tick_latency_ns {
        latency_ns
    } else {
        pre.max_tick_latency_ns
    })
    &&& post.hedges_executed == pre.hedges_executed
    &&& post.total_hedge_volume_fp == pre.total_hedge_volume_fp
    &&& post.latency_histogram.buckets@ == pre.latency_histogram.buckets@.update(
        spec_bucket_index(spec_boundaries(), latency_ns),
        pre.latency_histogram.buckets@[spec_bucket_index(
            spec_boundaries(),
            latency_ns,
        )].saturating_add(1),
    )
}

impl Metrics {
    /// The histogram is well-formed and the volume total non-negative.
    pub open spec fn wf(self) -> bool {
        &&& self.latency_histogram.wf()
        &&& self.total_hedge_volume_fp >= 0
    }

    /// Create fresh metrics: zero counters, the minimum at its sentinel.
    pub fn new() -> (m: Metrics)
        ensures
            m.wf(),
            m.ticks_processed == 0,
            m.hedges_executed == 0,
            m.total_tick_latency_ns == 0,
            m.min_tick_latency_ns == u64::MAX,
            m.max_tick_latency_ns == 0,
            m.total_hedge_volume_fp == 0,
            forall|i: int|
                0 <= i < m.latency_histogram.buckets.len()
                    ==> #[trigger] m.latency_histogram.buckets@[i] == 0,
    {
        Metrics {
            ticks_processed: 0,
            hedges_executed: 0,
            total_tick_latency_ns: 0,
            min_tick_latency_ns: u64::MAX,
            max_tick_latency_ns: 0,
            total_hedge_volume_fp: 0,
            latency_histogram: LatencyHistogram::new(),
        }
    }

    /// Record one tick-processing latency.
    pub fn record_tick_latency(&mut self, latency_ns: u64)
        requires
            old(self).wf(),
        ensures
            final(self).wf(),
            spec_recorded_tick(*old(self), *final(self), latency_ns),
    {
        self.ticks_processed = self.ticks_processed.saturating_add(1);
        self.total_tick_latency_ns = self.total_tick_latency_ns.saturating_add(latency_ns);
        if latency_ns < self.min_tick_latency_ns {
            self.min_tick_latency_ns = latency_ns;
        }
        if latency_ns > self.max_tick_latency_ns {
            self.max_tick_latency_ns = latency_ns;
        }
        self.latency_histogram.record(latency_ns);
    }

    /// Record one hedge execution of the given (signed) volume; the volume
    /// total accumulates magnitudes and saturates.
    pub fn record_hedge_execution(&mut self, volume_fp: i64)
        requires
            old(self).wf(),
            volume_fp > i64::MIN,
        ensures
            final(self).wf(),
            final(self).hedges_executed == old(self).hedges_executed.saturating_add(1),
            final(self).total_hedge_volume_fp == ({
                let v = if volume_fp >= 0 {
                    volume_fp as int
                } else {
                    -volume_fp as int
                };
                if old(self).total_hedge_volume_fp + v <= i64::MAX {
                    old(self).total_hedge_volume_fp + v
                } else {
                    i64::MAX as int
                }
            }),
            final(self).ticks_processed == old(self).ticks_processed,
            final(self).total_tick_latency_ns == old(self).total_tick_latency_ns,
            final(self).min_tick_latency_ns == old(self).min_tick_latency_ns,
            final(self).max_tick_latency_ns == old(self).max_tick_latency_ns,
            final(self).latency_histogram == old(self).latency_histogram,
    {
        self.hedges_executed = self.hedges_executed.saturating_add(1);
        let v: i64 = if volume_fp >= 0 {
            volume_fp
        } else {
            -volume_fp
        };
        let room: i64 = i64::MAX - self.total_hedge_volume_fp;
        self.total_hedge_volume_fp = if v <= room {
            self.total_hedge_volume_fp + v
        } else {
            i64::MAX
        };
    }

    /// Average tick latency in nanoseconds (0 before the first record).
    pub fn avg_tick_latency_ns(&self) -> (r: u64)
        ensures
            self.ticks_processed == 0 ==> r == 0,
            self.ticks_processed != 0 ==> r == self.total_tick_latency_ns as int
                / self.ticks_processed as int,
    {
        if self.ticks_processed == 0 {
            0
        } else {
            self.total_tick_latency_ns / (self.ticks_processed as u64)
        }
    }

    /// Minimum tick latency in nanoseconds (0 before the first record).
    pub fn min_tick_latency_ns(&self) -> (r: u64)
        ensures
            self.min_tick_latency_ns == u64::MAX ==> r == 0,
            self.min_tick_latency_ns != u64::MAX ==> r == self.min_tick_latency_ns,
    {
        if self.min_tick_latency_ns == u64::MAX {
            0
        } else {
            self.min_tick_latency_ns
        }
    }

    /// Maximum tick latency in nanoseconds.
    pub fn max_tick_latency_ns(&self) -> (r: u64)
        ensures
            r == self.max_tick_latency_ns,
    {
        self.max_tick_latency_ns
    }

    /// Total ticks processed.
    pub fn ticks_processed(&self) -> (r: usize)
        ensures
            r == self.ticks_processed,
    {
        self.ticks_processed
    }

    /// Total hedges executed.
    pub fn hedges_executed(&self) -> (r: usize)
        ensures
            r == self.hedges_executed,
    {
        self.hedges_executed
    }

    /// Total hedge volume, scale 10^2.
    pub fn total_hedge_volume(&self) -> (r: i64)
        ensures
            r == self.total_hedge_volume_fp,
    {
        self.total_hedge_volume_fp
    }

    /// Latency percentile for `p_bps` basis points.
    pub fn latency_percentile(&self, p_bps: u64) -> (r: u64)
        requires
            self.wf(),
            p_bps <= 10000,
        ensures
            r == spec_percentile(self.latency_histogram.buckets@, p_bps),
    {
        self.latency_histogram.percentile(p_bps)
    }

    /// Reset all metrics to their initial state.
    pub fn reset(&mut self)
        ensures
            final(self).wf(),
            final(self).ticks_processed == 0,
            final(self).hedges_executed == 0,
            final(self).total_tick_latency_ns == 0,
            final(self).min_tick_latency_ns == u64::MAX,
            final(self).max_tick_latency_ns == 0,
            final(self).total_hedge_volume_fp == 0,
    {
        *self = Metrics::new();
    }

    /// Summary statistics for display.
    pub fn summary(&self) -> (r: MetricsSummary)
        requires
            self.wf(),
        ensures
            r.ticks_processed == self.ticks_processed,
            r.hedges_executed == self.hedges_executed,
            self.ticks_processed != 0 ==> r.avg_latency_ns == self.total_tick_latency_ns as int
                / self.ticks_processed as int,
            self.min_tick_latency_ns != u64::MAX ==> r.min_latency_ns == self.min_tick_latency_ns,
            r.max_latency_ns == self.max_tick_latency_ns,
            r.p50_latency_ns == spec_percentile(self.latency_histogram.buckets@, 5000),
            r.p95_latency_ns == spec_percentile(self.latency_histogram.buckets@, 9500),
            r.p99_latency_ns == spec_percentile(self.latency_histogram.buckets@, 9900),
            r.total_hedge_volume_fp == self.total_hedge_volume_fp,
    {
        MetricsSummary {
            ticks_processed: self.ticks_processed,
            hedges_executed: self.hedges_executed,
            avg_latency_ns: self.avg_tick_latency_ns(),
            min_latency_ns: self.min_tick_latency_ns(),
            max_latency_ns: self.max_tick_latency_ns(),
            p50_latency_ns: self.latency_percentile(5000),
            p95_latency_ns: self.latency_percentile(9500),
            p99_latency_ns: self.latency_percentile(9900),
            total_hedge_volume_fp: self.total_hedge_volume_fp,
        }
    }
}

/// Metrics summary for display.
#[derive(Debug, Clone, Copy)]
pub struct MetricsSummary {
    /// Total ticks processed.
    pub ticks_processed: usize,
    /// Total hedges executed.
    pub hedges_executed: usize,
    /// Average tick latency, nanoseconds.
    pub avg_latency_ns: u64,
    /// Minimum tick latency, nanoseconds.
    pub min_latency_ns: u64,
    /// Maximum tick latency, nanoseconds.
    pub max_latency_ns: u64,
    /// Median tick latency, nanoseconds.
    pub p50_latency_ns: u64,
    /// 95th-percentile tick latency, nanoseconds.
    pub p95_latency_ns: u64,
    /// 99th-percentile tick latency, nanoseconds.
    pub p99_latency_ns: u64,
    /// Total hedge volume (MWh), scale 10^2.
    pub total_hedge_volume_fp: i64,
}

} // verus!
