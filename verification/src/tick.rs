//! Compact market-data tick and its wire format.
//!
//! A tick is a fixed 32-byte little-endian record: timestamp (ns, u64),
//! price (i64, fixed-point, scale 10^4), quantity (u32, lots), side (u8,
//! 0 = bid, 1 = ask), instrument id (u8), and 6 bytes of padding.

use vstd::prelude::*;

verus! {

/// Market data side (bid or ask).
#[derive(Debug, Copy, Clone, PartialEq, Eq, Structural)]
pub enum Side {
    Bid,
    Ask,
}

/// The wire byte for a side: 0 for bid, 1 for ask.
pub open spec fn side_byte(s: Side) -> u8 {
    match s {
        Side::Bid => 0u8,
        Side::Ask => 1u8,
    }
}

impl Side {
    /// The wire byte for this side.
    pub fn to_byte(self) -> (r: u8)
        ensures
            r == side_byte(self),
    {
        match self {
            Side::Bid => 0,
            Side::Ask => 1,
        }
    }
}

/// Compact market data tick (32 bytes).
#[derive(Debug, Copy, Clone)]
pub struct MarketTick {
    /// Timestamp in nanoseconds (epoch).
    pub timestamp_ns: u64,
    /// Price, fixed-point with scale 10^4.
    pub price: i64,
    /// Quantity in lots.
    pub quantity: u32,
    /// Side (0 = bid, 1 = ask).
    pub side: u8,
    /// Instrument identifier.
    pub symbol_id: u8,
    /// Padding to align to 32 bytes.
    pub _padding: [u8; 6],
}

impl MarketTick {
    /// A well-formed tick carries a non-negative price and one of the two
    /// side bytes.
    pub open spec fn wf(self) -> bool {
        &&& self.price >= 0
        &&& (self.side == 0u8 || self.side == 1u8)
    }

    /// Create a BID tick.
    pub fn bid(timestamp_ns: u64, price: i64, quantity: u32, symbol_id: u8) -> (t: MarketTick)
        requires
            price >= 0,
        ensures
            t.timestamp_ns == timestamp_ns,
            t.price == price,
            t.quantity == quantity,
            t.side == 0u8,
            t.symbol_id == symbol_id,
            t.wf(),
    {
        MarketTick {
            timestamp_ns,
            price,
            quantity,
            side: 0,
            symbol_id,
            _padding: [0, 0, 0, 0, 0, 0],
        }
    }

    /// Create an ASK tick.
    pub fn ask(timestamp_ns: u64, price: i64, quantity: u32, symbol_id: u8) -> (t: MarketTick)
        requires
            price >= 0,
        ensures
            t.timestamp_ns == timestamp_ns,
            t.price == price,
            t.quantity == quantity,
            t.side == 1u8,
            t.symbol_id == symbol_id,
            t.wf(),
    {
        MarketTick {
            timestamp_ns,
            price,
            quantity,
            side: 1,
            symbol_id,
            _padding: [0, 0, 0, 0, 0, 0],
        }
    }

    /// Check if this is a BID.
    pub fn is_bid(&self) -> (r: bool)
        ensures
            r == (self.side == 0u8),
    {
        self.side == 0
    }

    /// Check if this is an ASK.
    pub fn is_ask(&self) -> (r: bool)
        ensures
            r == (self.side == 1u8),
    {
        self.side == 1
    }

    /// Latency in whole microseconds from this tick's timestamp to
    /// `current_ns`; zero when the clock reads earlier than the tick.
    pub fn latency_micros(&self, current_ns: u64) -> (r: u64)
        ensures
            current_ns >= self.timestamp_ns ==> r == (current_ns - self.timestamp_ns) / 1000,
            current_ns < self.timestamp_ns ==> r == 0,
    {
        (if current_ns >= self.timestamp_ns {
            current_ns - self.timestamp_ns
        } else {
            0
        }) / 1000
    }

    /// Decode one 32-byte little-endian wire record into a tick.
    ///
    /// `None` exactly when the record is malformed: a price past `i64::MAX`
    /// (prices are non-negative on the wire) or a side byte that is neither
    /// 0 nor 1.
    pub fn from_wire(bytes: &Vec<u8>) -> (r: Option<MarketTick>)
        requires
            bytes.len() == TICK_WIRE_BYTES,
        ensures
            r is Some <==> wire_u64(bytes@, 8) <= i64::MAX && (bytes@[20] == 0 || bytes@[20]
                == 1),
            r matches Some(t) ==> {
                &&& t.timestamp_ns == wire_u64(bytes@, 0)
                &&& t.price == wire_u64(bytes@, 8)
                &&& t.quantity == wire_u32(bytes@, 16)
                &&& t.side == bytes@[20]
                &&& t.symbol_id == bytes@[21]
                &&& t.wf()
            },
    {
        let timestamp_ns: u64 = read_u64_le(bytes, 0);
        let price_bits: u64 = read_u64_le(bytes, 8);
        let quantity: u32 = read_u32_le(bytes, 16);
        let side: u8 = bytes[20];
        let symbol_id: u8 = bytes[21];

        if price_bits > 0x7fff_ffff_ffff_ffff {
            return None;
        }
        if side != 0 && side != 1 {
            return None;
        }
        Some(
            MarketTick {
                timestamp_ns,
                price: price_bits as i64,
                quantity,
                side,
                symbol_id,
                _padding: [0, 0, 0, 0, 0, 0],
            },
        )
    }

    /// Encode this tick as a 32-byte little-endian wire record: the six
    /// explicit padding bytes and the four alignment bytes at the end are
    /// zero.
    pub fn to_wire(&self) -> (r: Vec<u8>)
        requires
            self.wf(),
        ensures
            r.len() == TICK_WIRE_BYTES,
            wire_u64(r@, 0) == self.timestamp_ns,
            wire_u64(r@, 8) == self.price,
            wire_u32(r@, 16) == self.quantity,
            r@[20] == self.side,
            r@[21] == self.symbol_id,
    {
        let mut out: Vec<u8> = Vec::new();
        push_u64_le(&mut out, self.timestamp_ns);
        push_u64_le(&mut out, self.price as u64);
        push_u32_le(&mut out, self.quantity);
        out.push(self.side);
        out.push(self.symbol_id);
        let mut i: usize = 0;
        while i < 10
            invariant
                i <= 10,
                out.len() == 22 + i,
                wire_u64(out@, 0) == self.timestamp_ns,
                wire_u64(out@, 8) == self.price,
                wire_u32(out@, 16) == self.quantity,
                out@[20] == self.side,
                out@[21] == self.symbol_id,
            decreases 10 - i,
        {
            out.push(0);
            i = i + 1;
        }
        out
    }
}

/// Size of the tick wire record, in bytes.
pub const TICK_WIRE_BYTES: usize = 32;

/// The little-endian value of 8 bytes starting at `off`.
pub open spec fn wire_u64(b: Seq<u8>, off: int) -> int {
    b[off] + b[off + 1] * 0x100 + b[off + 2] * 0x1_0000 + b[off + 3] * 0x100_0000 + b[off + 4]
        * 0x1_0000_0000 + b[off + 5] * 0x100_0000_0000 + b[off + 6] * 0x1_0000_0000_0000 + b[off
        + 7] * 0x100_0000_0000_0000
}

/// The little-endian value of 4 bytes starting at `off`.
pub open spec fn wire_u32(b: Seq<u8>, off: int) -> int {
    b[off] + b[off + 1] * 0x100 + b[off + 2] * 0x1_0000 + b[off + 3] * 0x100_0000
}

/// Read a little-endian `u64` out of the buffer.
fn read_u64_le(bytes: &Vec<u8>, off: usize) -> (r: u64)
    requires
        off + 8 <= bytes.len(),
    ensures
        r == wire_u64(bytes@, off as int),
{
    bytes[off] as u64 + bytes[off + 1] as u64 * 0x100 + bytes[off + 2] as u64 * 0x1_0000 + bytes[
        off + 3] as u64 * 0x100_0000 + bytes[off + 4] as u64 * 0x1_0000_0000 + bytes[off + 5] as u64
        * 0x100_0000_0000 + bytes[off + 6] as u64 * 0x1_0000_0000_0000 + bytes[off + 7] as u64
        * 0x100_0000_0000_0000
}

/// Read a little-endian `u32` out of the buffer.
fn read_u32_le(bytes: &Vec<u8>, off: usize) -> (r: u32)
    requires
        off + 4 <= bytes.len(),
    ensures
        r == wire_u32(bytes@, off as int),
{
    bytes[off] as u32 + bytes[off + 1] as u32 * 0x100 + bytes[off + 2] as u32 * 0x1_0000 + bytes[
        off + 3] as u32 * 0x100_0000
}

/// Append a `u64` to the buffer, little-endian.
fn push_u64_le(out: &mut Vec<u8>, v: u64)
    ensures
        final(out).len() == old(out).len() + 8,
        forall|k: int| 0 <= k < old(out).len() ==> final(out)@[k] == #[trigger] old(out)@[k],
        wire_u64(final(out)@, old(out).len() as int) == v,
{
    let b0: u8 = (v % 256) as u8;
    let r1: u64 = v / 256;
    let b1: u8 = (r1 % 256) as u8;
    let r2: u64 = r1 / 256;
    let b2: u8 = (r2 % 256) as u8;
    let r3: u64 = r2 / 256;
    let b3: u8 = (r3 % 256) as u8;
    let r4: u64 = r3 / 256;
    let b4: u8 = (r4 % 256) as u8;
    let r5: u64 = r4 / 256;
    let b5: u8 = (r5 % 256) as u8;
    let r6: u64 = r5 / 256;
    let b6: u8 = (r6 % 256) as u8;
    let r7: u64 = r6 / 256;
    let b7: u8 = (r7 % 256) as u8;
    proof {
        vstd::arithmetic::div_mod::lemma_fundamental_div_mod(v as int, 256);
        vstd::arithmetic::div_mod::lemma_fundamental_div_mod(r1 as int, 256);
        vstd::arithmetic::div_mod::lemma_fundamental_div_mod(r2 as int, 256);
        vstd::arithmetic::div_mod::lemma_fundamental_div_mod(r3 as int, 256);
        vstd::arithmetic::div_mod::lemma_fundamental_div_mod(r4 as int, 256);
        vstd::arithmetic::div_mod::lemma_fundamental_div_mod(r5 as int, 256);
        vstd::arithmetic::div_mod::lemma_fundamental_div_mod(r6 as int, 256);
        assert(r7 < 256);
    }
    out.push(b0);
    out.push(b1);
    out.push(b2);
    out.push(b3);
    out.push(b4);
    out.push(b5);
    out.push(b6);
    out.push(b7);
}

/// Append a `u32` to the buffer, little-endian.
fn push_u32_le(out: &mut Vec<u8>, v: u32)
    ensures
        final(out).len() == old(out).len() + 4,
        forall|k: int| 0 <= k < old(out).len() ==> final(out)@[k] == #[trigger] old(out)@[k],
        wire_u32(final(out)@, old(out).len() as int) == v,
{
    let b0: u8 = (v % 256) as u8;
    let r1: u32 = v / 256;
    let b1: u8 = (r1 % 256) as u8;
    let r2: u32 = r1 / 256;
    let b2: u8 = (r2 % 256) as u8;
    let r3: u32 = r2 / 256;
    let b3: u8 = (r3 % 256) as u8;
    proof {
        vstd::arithmetic::div_mod::lemma_fundamental_div_mod(v as int, 256);
        vstd::arithmetic::div_mod::lemma_fundamental_div_mod(r1 as int, 256);
        vstd::arithmetic::div_mod::lemma_fundamental_div_mod(r2 as int, 256);
        assert(r3 < 256);
    }
    out.push(b0);
    out.push(b1);
    out.push(b2);
    out.push(b3);
}

/// Encoding then decoding a well-formed tick is the identity: its wire
/// record parses back to exactly the same fields.
pub proof fn lemma_wire_round_trip(b: Seq<u8>, t: MarketTick)
    requires
        t.wf(),
        b.len() == TICK_WIRE_BYTES,
        wire_u64(b, 0) == t.timestamp_ns,
        wire_u64(b, 8) == t.price,
        wire_u32(b, 16) == t.quantity,
        b[20] == t.side,
        b[21] == t.symbol_id,
    ensures
        wire_u64(b, 8) <= i64::MAX,
        b[20] == 0 || b[20] == 1,
{
}

} // verus!
