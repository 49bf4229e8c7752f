//! Message framing: the fixed, contiguous byte layouts of the wire header
//! and of the trade and quote payload records. Field widths and order are
//! exact, multi-byte integers are little-endian, and there is no implicit
//! padding — a length check always precedes decoding.

use vstd::prelude::*;

verus! {

broadcast use vstd::array::group_array_axioms;

/// The magic marker every header starts with.
pub const MESSAGE_MAGIC: u32 = 0x4D524B54;

/// Size of the wire header, in bytes.
pub const HEADER_SIZE: usize = 24;

/// Size of a trade record on the wire (including its 7 tail padding
/// bytes), in bytes.
pub const TRADE_SIZE: usize = 48;

/// Size of a quote record on the wire (including its 8 tail padding
/// bytes), in bytes.
pub const QUOTE_SIZE: usize = 56;

/// Largest payload a valid header may announce, in bytes.
pub const MAX_PAYLOAD_SIZE: u32 = 10_000_000;

/// The little-endian u32 at offset `off`.
pub open spec fn le_u32_at(s: Seq<u8>, off: int) -> u32
    recommends
        0 <= off,
        off + 4 <= s.len(),
{
    ((s[off] as int) + (s[off + 1] as int) * 0x100 + (s[off + 2] as int) * 0x10000 + (s[off
        + 3] as int) * 0x1000000) as u32
}

/// The little-endian u64 at offset `off`.
pub open spec fn le_u64_at(s: Seq<u8>, off: int) -> u64
    recommends
        0 <= off,
        off + 8 <= s.len(),
{
    ((s[off] as int) + (s[off + 1] as int) * 0x100 + (s[off + 2] as int) * 0x10000 + (s[off
        + 3] as int) * 0x1000000 + (s[off + 4] as int) * 0x100000000 + (s[off + 5] as int)
        * 0x10000000000 + (s[off + 6] as int) * 0x1000000000000 + (s[off + 7] as int)
        * 0x100000000000000) as u64
}

/// The little-endian i64 at offset `off`: the u64 bit pattern read as
/// two's complement.
pub open spec fn le_i64_at(s: Seq<u8>, off: int) -> i64
    recommends
        0 <= off,
        off + 8 <= s.len(),
{
    le_u64_at(s, off) as i64
}

/// Fixed-layout wire header of every message.
#[derive(Clone, Copy, Debug, PartialEq, Eq, Structural)]
pub struct MessageHeader {
    pub magic: u32,
    pub msg_type: u8,
    pub version: u8,
    pub priority: u8,
    pub flags: u8,
    pub timestamp: u64,
    pub payload_size: u32,
    pub checksum: u32,
}

/// The header encoded in the first `HEADER_SIZE` bytes of `s`.
pub open spec fn header_of(s: Seq<u8>) -> MessageHeader
    recommends
        s.len() >= 24,
{
    MessageHeader {
        magic: le_u32_at(s, 0),
        msg_type: s[4],
        version: s[5],
        priority: s[6],
        flags: s[7],
        timestamp: le_u64_at(s, 8),
        payload_size: le_u32_at(s, 16),
        checksum: le_u32_at(s, 20),
    }
}

impl MessageHeader {
    /// Magic matches and the announced payload size is positive and at
    /// most `MAX_PAYLOAD_SIZE`. Deeper checks belong to the validators.
    pub open spec fn spec_valid(&self) -> bool {
        &&& self.magic == 0x4D524B54u32
        &&& self.payload_size > 0
        &&& self.payload_size <= 10_000_000u32
    }

    /// Checks magic and payload-size range only.
    pub fn is_valid(&self) -> (r: bool)
        ensures
            r == self.spec_valid(),
    {
        self.magic == MESSAGE_MAGIC && self.payload_size > 0 && self.payload_size
            <= MAX_PAYLOAD_SIZE
    }
}

/// Fixed-layout trade record: symbol, fixed-point price and quantity
/// (scale 1e8), timestamp, side, trade id.
#[derive(Clone, Copy, Debug, PartialEq, Eq)]
pub struct Trade {
    pub symbol: [u8; 8],
    pub price: i64,
    pub quantity: i64,
    pub timestamp: u64,
    pub side: u8,
    pub trade_id: u64,
}

/// The trade record encoded in the first `TRADE_SIZE` bytes of `s`
/// (offsets 41..48 are padding).
pub open spec fn trade_of(s: Seq<u8>) -> Trade
    recommends
        s.len() >= 48,
{
    Trade {
        symbol: [s[0], s[1], s[2], s[3], s[4], s[5], s[6], s[7]],
        price: le_i64_at(s, 8),
        quantity: le_i64_at(s, 16),
        timestamp: le_u64_at(s, 24),
        side: s[32],
        trade_id: le_u64_at(s, 33),
    }
}

/// Fixed-layout quote record: symbol, fixed-point bid and ask price and
/// quantity (scale 1e8), timestamp.
#[derive(Clone, Copy, Debug, PartialEq, Eq)]
pub struct Quote {
    pub symbol: [u8; 8],
    pub bid_price: i64,
    pub bid_quantity: i64,
    pub ask_price: i64,
    pub ask_quantity: i64,
    pub timestamp: u64,
}

/// The quote record encoded in the first `QUOTE_SIZE` bytes of `s`
/// (offsets 48..56 are padding).
pub open spec fn quote_of(s: Seq<u8>) -> Quote
    recommends
        s.len() >= 56,
{
    Quote {
        symbol: [s[0], s[1], s[2], s[3], s[4], s[5], s[6], s[7]],
        bid_price: le_i64_at(s, 8),
        bid_quantity: le_i64_at(s, 16),
        ask_price: le_i64_at(s, 24),
        ask_quantity: le_i64_at(s, 32),
        timestamp: le_u64_at(s, 40),
    }
}

/// The header depends only on the first `HEADER_SIZE` bytes: sequences
/// agreeing there decode to the same header.
pub proof fn lemma_header_prefix(a: Seq<u8>, b: Seq<u8>)
    requires
        a.len() >= 24,
        b.len() >= 24,
        forall|i: int| 0 <= i < 24 ==> a[i] == b[i],
    ensures
        header_of(a) == header_of(b),
{
}

/// Reads the little-endian u32 at `off`.
fn read_le_u32(bytes: &[u8], off: usize) -> (r: u32)
    requires
        off + 4 <= bytes@.len(),
    ensures
        r == le_u32_at(bytes@, off as int),
{
    (bytes[off] as u32) + (bytes[off + 1] as u32) * 0x100 + (bytes[off + 2] as u32) * 0x10000 + (
    bytes[off + 3] as u32) * 0x1000000
}

/// Reads the little-endian u64 at `off`.
fn read_le_u64(bytes: &[u8], off: usize) -> (r: u64)
    requires
        off + 8 <= bytes@.len(),
    ensures
        r == le_u64_at(bytes@, off as int),
{
    (bytes[off] as u64) + (bytes[off + 1] as u64) * 0x100 + (bytes[off + 2] as u64) * 0x10000 + (
    bytes[off + 3] as u64) * 0x1000000 + (bytes[off + 4] as u64) * 0x100000000 + (bytes[off
        + 5] as u64) * 0x10000000000 + (bytes[off + 6] as u64) * 0x1000000000000 + (bytes[off
        + 7] as u64) * 0x100000000000000
}

/// Reads the little-endian i64 at `off` (two's complement).
fn read_le_i64(bytes: &[u8], off: usize) -> (r: i64)
    requires
        off + 8 <= bytes@.len(),
    ensures
        r == le_i64_at(bytes@, off as int),
{
    #[verifier::truncate]
    (read_le_u64(bytes, off) as i64)
}

/// Reads the 8-byte symbol at `off`.
fn read_symbol(bytes: &[u8], off: usize) -> (r: [u8; 8])
    requires
        off + 8 <= bytes@.len(),
    ensures
        r@ =~= bytes@.subrange(off as int, off as int + 8),
{
    [
        bytes[off],
        bytes[off + 1],
        bytes[off + 2],
        bytes[off + 3],
        bytes[off + 4],
        bytes[off + 5],
        bytes[off + 6],
        bytes[off + 7],
    ]
}

/// Decodes the header at the front of `bytes`; the length must already
/// have been checked.
pub fn parse_header(bytes: &[u8]) -> (r: MessageHeader)
    requires
        bytes@.len() >= 24,
    ensures
        r == header_of(bytes@),
{
    MessageHeader {
        magic: read_le_u32(bytes, 0),
        msg_type: bytes[4],
        version: bytes[5],
        priority: bytes[6],
        flags: bytes[7],
        timestamp: read_le_u64(bytes, 8),
        payload_size: read_le_u32(bytes, 16),
        checksum: read_le_u32(bytes, 20),
    }
}

/// Decodes the trade record at the front of `payload`; the length must
/// already have been checked.
pub fn parse_trade(payload: &[u8]) -> (r: Trade)
    requires
        payload@.len() >= 48,
    ensures
        r == trade_of(payload@),
{
    let r = Trade {
        symbol: read_symbol(payload, 0),
        price: read_le_i64(payload, 8),
        quantity: read_le_i64(payload, 16),
        timestamp: read_le_u64(payload, 24),
        side: payload[32],
        trade_id: read_le_u64(payload, 33),
    };
    assert(r.symbol =~= trade_of(payload@).symbol);
    r
}

/// Decodes the quote record at the front of `payload`; the length must
/// already have been checked.
pub fn parse_quote(payload: &[u8]) -> (r: Quote)
    requires
        payload@.len() >= 56,
    ensures
        r == quote_of(payload@),
{
    let r = Quote {
        symbol: read_symbol(payload, 0),
        bid_price: read_le_i64(payload, 8),
        bid_quantity: read_le_i64(payload, 16),
        ask_price: read_le_i64(payload, 24),
        ask_quantity: read_le_i64(payload, 32),
        timestamp: read_le_u64(payload, 40),
    };
    assert(r.symbol =~= quote_of(payload@).symbol);
    r
}

} // verus!
