//! Top-of-book order book: ten bid levels and ten ask levels per instrument.
//!
//! Prices are fixed-point with scale 10^4; a zero price marks an unpopulated
//! level.  The sequence counter increments by exactly one on every in-range
//! write and is untouched by out-of-range writes, which are silently dropped.

use vstd::prelude::*;

use crate::fixed::tdiv;
use crate::fixed::tdiv_i128;

verus! {

/// Number of price levels kept per side.
pub const BOOK_LEVELS: usize = 10;

/// Top-N order book for one instrument.
pub struct OrderBook {
    /// Top 10 bid prices (fixed-point, scale 10^4; 0 = unpopulated).
    pub bids: Vec<i64>,
    /// Top 10 ask prices (fixed-point, scale 10^4; 0 = unpopulated).
    pub asks: Vec<i64>,
    /// Bid sizes.
    pub bid_sizes: Vec<u64>,
    /// Ask sizes.
    pub ask_sizes: Vec<u64>,
    /// Timestamp of last update (nanoseconds).
    pub last_update_ns: u64,
    /// Monotonic sequence number.
    pub sequence: u64,
    /// Instrument identifier.
    pub symbol_id: u8,
}

/// The mathematical value of an order book.
#[verifier::ext_equal]
pub struct BookView {
    /// Bid prices, in ladder order.
    pub bids: Seq<i64>,
    /// Ask prices, in ladder order.
    pub asks: Seq<i64>,
    /// Bid sizes.
    pub bid_sizes: Seq<u64>,
    /// Ask sizes.
    pub ask_sizes: Seq<u64>,
    /// Timestamp of last update (nanoseconds).
    pub last_update_ns: u64,
    /// Monotonic sequence number.
    pub sequence: u64,
    /// Instrument identifier.
    pub symbol_id: u8,
}

impl View for OrderBook {
    type V = BookView;

    open spec fn view(&self) -> BookView {
        BookView {
            bids: self.bids@,
            asks: self.asks@,
            bid_sizes: self.bid_sizes@,
            ask_sizes: self.ask_sizes@,
            last_update_ns: self.last_update_ns,
            sequence: self.sequence,
            symbol_id: self.symbol_id,
        }
    }
}

/// One write against a book: side, level, price, size and timestamp.
#[derive(Debug, Copy, Clone)]
pub enum BookUpdate {
    /// A bid-side write.
    Bid { level: usize, price: i64, size: u64, timestamp_ns: u64 },
    /// An ask-side write.
    Ask { level: usize, price: i64, size: u64, timestamp_ns: u64 },
}

impl BookUpdate {
    /// An update is in range when its level exists in the ladder.
    pub open spec fn in_range(self) -> bool {
        match self {
            BookUpdate::Bid { level, .. } => level < BOOK_LEVELS,
            BookUpdate::Ask { level, .. } => level < BOOK_LEVELS,
        }
    }
}

/// The book value after a bid write; an out-of-range level leaves it
/// unchanged.
pub open spec fn spec_update_bid(
    b: BookView,
    level: usize,
    price: i64,
    size: u64,
    timestamp_ns: u64,
) -> BookView {
    if level < BOOK_LEVELS {
        (BookView {
            bids: b.bids.update(level as int, price),
            bid_sizes: b.bid_sizes.update(level as int, size),
            last_update_ns: timestamp_ns,
            sequence: (b.sequence + 1) as u64,
            ..b
        })
    } else {
        b
    }
}

/// The book value after an ask write; an out-of-range level leaves it
/// unchanged.
pub open spec fn spec_update_ask(
    b: BookView,
    level: usize,
    price: i64,
    size: u64,
    timestamp_ns: u64,
) -> BookView {
    if level < BOOK_LEVELS {
        (BookView {
            asks: b.asks.update(level as int, price),
            ask_sizes: b.ask_sizes.update(level as int, size),
            last_update_ns: timestamp_ns,
            sequence: (b.sequence + 1) as u64,
            ..b
        })
    } else {
        b
    }
}

/// The book value after one update of either side.
pub open spec fn apply_update(b: BookView, u: BookUpdate) -> BookView {
    match u {
        BookUpdate::Bid { level, price, size, timestamp_ns } => spec_update_bid(
            b,
            level,
            price,
            size,
            timestamp_ns,
        ),
        BookUpdate::Ask { level, price, size, timestamp_ns } => spec_update_ask(
            b,
            level,
            price,
            size,
            timestamp_ns,
        ),
    }
}

/// The book value after a sequence of updates, applied in order.
pub open spec fn apply_updates(b: BookView, us: Seq<BookUpdate>) -> BookView
    decreases us.len(),
{
    if us.len() == 0 {
        b
    } else {
        apply_update(apply_updates(b, us.drop_last()), us.last())
    }
}

/// How many updates of a sequence are in range (and hence succeed).
pub open spec fn in_range_count(us: Seq<BookUpdate>) -> int
    decreases us.len(),
{
    if us.len() == 0 {
        0int
    } else {
        in_range_count(us.drop_last()) + if us.last().in_range() {
            1int
        } else {
            0int
        }
    }
}

impl BookView {
    /// Structural well-formedness: both ladders hold exactly ten levels and
    /// every stored price is non-negative.
    pub open spec fn wf(self) -> bool {
        &&& self.bids.len() == BOOK_LEVELS
        &&& self.asks.len() == BOOK_LEVELS
        &&& self.bid_sizes.len() == BOOK_LEVELS
        &&& self.ask_sizes.len() == BOOK_LEVELS
        &&& forall|i: int| 0 <= i < BOOK_LEVELS ==> #[trigger] self.bids[i] >= 0
        &&& forall|i: int| 0 <= i < BOOK_LEVELS ==> #[trigger] self.asks[i] >= 0
    }

    /// The mid price: the truncated mean of the two top prices.
    pub open spec fn spec_mid_price(self) -> int {
        tdiv(self.bids[0] + self.asks[0], 2)
    }

    /// The spread in basis points; zero when the mid is not positive.
    pub open spec fn spec_spread_bps(self) -> int {
        let mid = self.spec_mid_price();
        if mid > 0 {
            tdiv((self.asks[0] - self.bids[0]) * 10000, mid)
        } else {
            0
        }
    }
}

impl OrderBook {
    /// Structural well-formedness of the book's value.
    pub open spec fn wf(self) -> bool {
        self@.wf()
    }

    /// Create a new, empty order book.
    pub fn new(symbol_id: u8) -> (b: OrderBook)
        ensures
            b.wf(),
            b@.sequence == 0,
            b@.last_update_ns == 0,
            b@.symbol_id == symbol_id,
            forall|i: int|
                0 <= i < BOOK_LEVELS ==> #[trigger] b@.bids[i] == 0 && b@.asks[i] == 0
                    && b@.bid_sizes[i] == 0 && b@.ask_sizes[i] == 0,
    {
        let mut bids: Vec<i64> = Vec::new();
        let mut asks: Vec<i64> = Vec::new();
        let mut bid_sizes: Vec<u64> = Vec::new();
        let mut ask_sizes: Vec<u64> = Vec::new();
        let mut i: usize = 0;
        while i < BOOK_LEVELS
            invariant
                i <= BOOK_LEVELS,
                bids.len() == i,
                asks.len() == i,
                bid_sizes.len() == i,
                ask_sizes.len() == i,
                forall|j: int| 0 <= j < i ==> #[trigger] bids@[j] == 0,
                forall|j: int| 0 <= j < i ==> #[trigger] asks@[j] == 0,
                forall|j: int| 0 <= j < i ==> #[trigger] bid_sizes@[j] == 0,
                forall|j: int| 0 <= j < i ==> #[trigger] ask_sizes@[j] == 0,
            decreases BOOK_LEVELS - i,
        {
            bids.push(0);
            asks.push(0);
            bid_sizes.push(0);
            ask_sizes.push(0);
            i += 1;
        }
        let b = OrderBook {
            bids,
            asks,
            bid_sizes,
            ask_sizes,
            last_update_ns: 0,
            sequence: 0,
            symbol_id,
        };
        proof {
            assert forall|i: int| 0 <= i < BOOK_LEVELS implies #[trigger] b@.bids[i] == 0
                && b@.asks[i] == 0 && b@.bid_sizes[i] == 0 && b@.ask_sizes[i] == 0 by {
                assert(b@.bids[i] == b.bids@[i]);
                assert(b@.asks[i] == b.asks@[i]);
                assert(b@.bid_sizes[i] == b.bid_sizes@[i]);
                assert(b@.ask_sizes[i] == b.ask_sizes@[i]);
            }
            assert forall|i: int| 0 <= i < BOOK_LEVELS implies #[trigger] b@.asks[i] >= 0 by {
                assert(b@.asks[i] == b.asks@[i]);
            }
            assert forall|i: int| 0 <= i < BOOK_LEVELS implies #[trigger] b@.bids[i] >= 0 by {
                assert(b@.bids[i] == b.bids@[i]);
            }
        }
        b
    }

    /// Write one bid level.  Out-of-range levels are silently dropped; an
    /// in-range write publishes price, size and timestamp and increments the
    /// sequence counter by exactly one.
    pub fn update_bid(&mut self, level: usize, price: i64, size: u64, timestamp_ns: u64)
        requires
            old(self).wf(),
            old(self)@.sequence < u64::MAX,
            price >= 0,
        ensures
            final(self).wf(),
            final(self)@ == spec_update_bid(old(self)@, level, price, size, timestamp_ns),
    {
        if level < BOOK_LEVELS {
            self.bids[level] = price;
            self.bid_sizes[level] = size;
            self.last_update_ns = timestamp_ns;
            self.sequence = self.sequence + 1;
            proof {
                assert(self@ =~= spec_update_bid(old(self)@, level, price, size, timestamp_ns));
            }
        } else {
            proof {
                assert(self@ =~= spec_update_bid(old(self)@, level, price, size, timestamp_ns));
            }
        }
    }

    /// Write one ask level; the same contract as `update_bid`, on the ask
    /// side.
    pub fn update_ask(&mut self, level: usize, price: i64, size: u64, timestamp_ns: u64)
        requires
            old(self).wf(),
            old(self)@.sequence < u64::MAX,
            price >= 0,
        ensures
            final(self).wf(),
            final(self)@ == spec_update_ask(old(self)@, level, price, size, timestamp_ns),
    {
        if level < BOOK_LEVELS {
            self.asks[level] = price;
            self.ask_sizes[level] = size;
            self.last_update_ns = timestamp_ns;
            self.sequence = self.sequence + 1;
            proof {
                assert(self@ =~= spec_update_ask(old(self)@, level, price, size, timestamp_ns));
            }
        } else {
            proof {
                assert(self@ =~= spec_update_ask(old(self)@, level, price, size, timestamp_ns));
            }
        }
    }

    /// Best bid: price (fixed-point, scale 10^4) and size at level 0.
    pub fn best_bid(&self) -> (r: (i64, u64))
        requires
            self.wf(),
        ensures
            r.0 == self@.bids[0],
            r.1 == self@.bid_sizes[0],
    {
        (self.bids[0], self.bid_sizes[0])
    }

    /// Best ask: price (fixed-point, scale 10^4) and size at level 0.
    pub fn best_ask(&self) -> (r: (i64, u64))
        requires
            self.wf(),
        ensures
            r.0 == self@.asks[0],
            r.1 == self@.ask_sizes[0],
    {
        (self.asks[0], self.ask_sizes[0])
    }

    /// Mid price (fixed-point, scale 10^4).  When one side is unpopulated
    /// this is half the populated side; callers that care must check the
    /// populated state themselves.
    pub fn mid_price(&self) -> (r: i64)
        requires
            self.wf(),
        ensures
            r == self@.spec_mid_price(),
    {
        let bid: i64 = self.bids[0];
        let ask: i64 = self.asks[0];
        let m: i128 = tdiv_i128(bid as i128 + ask as i128, 2);
        m as i64
    }

    /// Spread in whole basis points; 0 if the mid price is not positive.
    pub fn spread_bps(&self) -> (r: i64)
        requires
            self.wf(),
        ensures
            r == self@.spec_spread_bps(),
    {
        let bid: i64 = self.bids[0];
        let ask: i64 = self.asks[0];
        let mid: i128 = tdiv_i128(bid as i128 + ask as i128, 2);
        if mid > 0 {
            let num: i128 = (ask as i128 - bid as i128) * 10000;
            let q: i128 = tdiv_i128(num, mid);
            proof {
                lemma_spread_bps_bounded(self@.bids[0] as int, self@.asks[0] as int);
            }
            q as i64
        } else {
            0
        }
    }

    /// Snapshot up to `min(levels, 10)` populated bid levels, in ladder
    /// order; unpopulated levels (price 0) are omitted.
    pub fn get_bids(&self, levels: usize) -> (r: Vec<(i64, u64)>)
        requires
            self.wf(),
        ensures
            r@ == populated_levels(
                self@.bids,
                self@.bid_sizes,
                min_usize(levels, BOOK_LEVELS) as int,
            ),
    {
        let n: usize = if levels < BOOK_LEVELS {
            levels
        } else {
            BOOK_LEVELS
        };
        let mut result: Vec<(i64, u64)> = Vec::new();
        let mut i: usize = 0;
        proof {
            assert(result@ =~= populated_levels(self@.bids, self@.bid_sizes, 0));
        }
        while i < n
            invariant
                self.wf(),
                i <= n <= BOOK_LEVELS,
                result@ == populated_levels(self@.bids, self@.bid_sizes, i as int),
            decreases n - i,
        {
            let price: i64 = self.bids[i];
            let size: u64 = self.bid_sizes[i];
            if price > 0 {
                result.push((price, size));
            }
            proof {
                assert(result@ =~= populated_levels(self@.bids, self@.bid_sizes, i + 1));
            }
            i += 1;
        }
        result
    }

    /// Snapshot up to `min(levels, 10)` populated ask levels, in ladder
    /// order; unpopulated levels (price 0) are omitted.
    pub fn get_asks(&self, levels: usize) -> (r: Vec<(i64, u64)>)
        requires
            self.wf(),
        ensures
            r@ == populated_levels(
                self@.asks,
                self@.ask_sizes,
                min_usize(levels, BOOK_LEVELS) as int,
            ),
    {
        let n: usize = if levels < BOOK_LEVELS {
            levels
        } else {
            BOOK_LEVELS
        };
        let mut result: Vec<(i64, u64)> = Vec::new();
        let mut i: usize = 0;
        proof {
            assert(result@ =~= populated_levels(self@.asks, self@.ask_sizes, 0));
        }
        while i < n
            invariant
                self.wf(),
                i <= n <= BOOK_LEVELS,
                result@ == populated_levels(self@.asks, self@.ask_sizes, i as int),
            decreases n - i,
        {
            let price: i64 = self.asks[i];
            let size: u64 = self.ask_sizes[i];
            if price > 0 {
                result.push((price, size));
            }
            proof {
                assert(result@ =~= populated_levels(self@.asks, self@.ask_sizes, i + 1));
            }
            i += 1;
        }
        result
    }

    /// The current sequence number.
    pub fn sequence(&self) -> (r: u64)
        ensures
            r == self@.sequence,
    {
        self.sequence
    }

    /// The last update timestamp, in nanoseconds.
    pub fn last_update_ns(&self) -> (r: u64)
        ensures
            r == self@.last_update_ns,
    {
        self.last_update_ns
    }

    /// The instrument identifier.
    pub fn symbol_id(&self) -> (r: u8)
        ensures
            r == self@.symbol_id,
    {
        self.symbol_id
    }
}

/// The smaller of two `usize` values, as a spec value.
pub open spec fn min_usize(a: usize, b: usize) -> usize {
    if a < b {
        a
    } else {
        b
    }
}

/// The populated (price > 0) levels among the first `n`, in ladder order.
pub open spec fn populated_levels(prices: Seq<i64>, sizes: Seq<u64>, n: int) -> Seq<(i64, u64)>
    decreases n,
{
    if n <= 0 {
        Seq::empty()
    } else {
        populated_levels(prices, sizes, n - 1) + if prices[n - 1] > 0 {
            seq![(prices[n - 1], sizes[n - 1])]
        } else {
            Seq::empty()
        }
    }
}

/// With non-negative top prices and a positive mid, the spread in basis
/// points lies within [-30000, 30000], so it fits an `i64`.
proof fn lemma_spread_bps_bounded(bid: int, ask: int)
    requires
        bid >= 0,
        ask >= 0,
        tdiv(bid + ask, 2) > 0,
    ensures
        -30000 <= tdiv((ask - bid) * 10000, tdiv(bid + ask, 2)) <= 30000,
{
    let mid = tdiv(bid + ask, 2);
    let num = (ask - bid) * 10000;
    assert(ask - bid <= 2 * mid + 1 && bid - ask <= 2 * mid + 1) by {
        vstd::arithmetic::div_mod::lemma_fundamental_div_mod(bid + ask, 2);
    }
    assert((2 * mid + 1) * 10000 <= 30000 * mid) by (nonlinear_arith)
        requires
            mid >= 1,
    ;
    assert(30000 * mid / mid == 30000) by {
        vstd::arithmetic::div_mod::lemma_div_multiples_vanish(30000, mid);
    }
    if num >= 0 {
        assert((ask - bid) * 10000 <= (2 * mid + 1) * 10000) by (nonlinear_arith)
            requires
                ask - bid <= 2 * mid + 1,
        ;
        assert(num / mid <= 30000) by {
            vstd::arithmetic::div_mod::lemma_div_is_ordered(num, 30000 * mid, mid);
        }
        assert(num / mid >= 0) by {
            vstd::arithmetic::div_mod::lemma_div_basics_4(num, mid);
        }
    } else {
        let m = -num;
        assert(m == (bid - ask) * 10000) by (nonlinear_arith)
            requires
                m == -((ask - bid) * 10000),
        ;
        assert((bid - ask) * 10000 <= (2 * mid + 1) * 10000) by (nonlinear_arith)
            requires
                bid - ask <= 2 * mid + 1,
        ;
        assert(m / mid <= 30000) by {
            vstd::arithmetic::div_mod::lemma_div_is_ordered(m, 30000 * mid, mid);
        }
        assert(m / mid >= 0) by {
            vstd::arithmetic::div_mod::lemma_div_basics_4(m, mid);
        }
    }
}

/// After an in-range bid write at level 0, the best bid is exactly the
/// written price and size.
pub proof fn lemma_best_bid_after_update(b: BookView, price: i64, size: u64, timestamp_ns: u64)
    requires
        b.wf(),
    ensures
        spec_update_bid(b, 0, price, size, timestamp_ns).bids[0] == price,
        spec_update_bid(b, 0, price, size, timestamp_ns).bid_sizes[0] == size,
{
}

/// After an in-range ask write at level 0, the best ask is exactly the
/// written price and size.
pub proof fn lemma_best_ask_after_update(b: BookView, price: i64, size: u64, timestamp_ns: u64)
    requires
        b.wf(),
    ensures
        spec_update_ask(b, 0, price, size, timestamp_ns).asks[0] == price,
        spec_update_ask(b, 0, price, size, timestamp_ns).ask_sizes[0] == size,
{
}

/// An out-of-range write leaves the whole book unchanged: prices, sizes,
/// timestamp and the sequence counter.
pub proof fn lemma_out_of_range_write_is_dropped(
    b: BookView,
    level: usize,
    price: i64,
    size: u64,
    timestamp_ns: u64,
)
    requires
        level >= BOOK_LEVELS,
    ensures
        spec_update_bid(b, level, price, size, timestamp_ns) == b,
        spec_update_ask(b, level, price, size, timestamp_ns) == b,
{
}

/// The sequence counter counts successful writes: after any sequence of
/// updates it has advanced by exactly the number of in-range updates among
/// them.
pub proof fn lemma_sequence_counts_writes(b: BookView, us: Seq<BookUpdate>)
    requires
        b.sequence + in_range_count(us) <= u64::MAX,
    ensures
        apply_updates(b, us).sequence == b.sequence + in_range_count(us),
    decreases us.len(),
{
    if us.len() > 0 {
        lemma_in_range_count_bounds(us.drop_last());
        lemma_sequence_counts_writes(b, us.drop_last());
    }
}

/// The number of in-range updates lies between 0 and the length of the
/// sequence.
pub proof fn lemma_in_range_count_bounds(us: Seq<BookUpdate>)
    ensures
        0 <= in_range_count(us) <= us.len(),
    decreases us.len(),
{
    if us.len() > 0 {
        lemma_in_range_count_bounds(us.drop_last());
    }
}

} // verus!
