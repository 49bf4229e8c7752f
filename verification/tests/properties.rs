//! Tests of the library's stated properties: allocator alignment and
//! failure behavior, checksum corruption detection, temporal boundaries,
//! symbol policy exactness, composite validation end to end, and the
//! pipeline's counter and buffer-advance behavior.

use tensorwerk_nervous::arena::{ArenaError, ZeroCopyArena, ZeroCopyBuffer};
use tensorwerk_nervous::bounds::DataBounds;
use tensorwerk_nervous::checksum::ChecksumValidator;
use tensorwerk_nervous::composite::CompositeValidator;
use tensorwerk_nervous::errors::{SymbolIssue, ValidationError};
use tensorwerk_nervous::framing::{
    parse_header, parse_quote, parse_trade, MessageHeader, MESSAGE_MAGIC,
};
use tensorwerk_nervous::ingest::{IngestError, MarketDataIngestor};
use tensorwerk_nervous::symbol::SymbolValidator;
use tensorwerk_nervous::temporal::TemporalValidator;

fn trade_payload(symbol: &[u8; 8], price: i64, quantity: i64, timestamp: u64) -> Vec<u8> {
    let mut p = Vec::new();
    p.extend_from_slice(symbol);
    p.extend_from_slice(&price.to_le_bytes());
    p.extend_from_slice(&quantity.to_le_bytes());
    p.extend_from_slice(&timestamp.to_le_bytes());
    p.push(0); // side
    p.extend_from_slice(&1u64.to_le_bytes()); // trade_id
    p.resize(64, 0); // padding
    p
}

fn quote_payload(symbol: &[u8; 8], bid: i64, ask: i64, timestamp: u64) -> Vec<u8> {
    let mut p = Vec::new();
    p.extend_from_slice(symbol);
    p.extend_from_slice(&bid.to_le_bytes());
    p.extend_from_slice(&100_000_000i64.to_le_bytes()); // bid_quantity
    p.extend_from_slice(&ask.to_le_bytes());
    p.extend_from_slice(&100_000_000i64.to_le_bytes()); // ask_quantity
    p.extend_from_slice(&timestamp.to_le_bytes());
    p.resize(64, 0); // padding
    p
}

fn header_for(msg_type: u8, payload: &[u8]) -> MessageHeader {
    let checksum = ChecksumValidator::new().calculate(payload);
    MessageHeader {
        magic: MESSAGE_MAGIC,
        msg_type,
        version: 1,
        priority: 0,
        flags: 0,
        timestamp: 1_600_000_000_000_000_000,
        payload_size: payload.len() as u32,
        checksum,
    }
}

const TS: u64 = 1_600_000_000_000_000_000;

// ---------------------------------------------------------------- arena

#[test]
fn test_allocation_failure_leaves_used_unchanged() {
    let mut arena = ZeroCopyArena::new(1024).unwrap();
    arena.allocate(900).unwrap();
    assert_eq!(arena.used(), 960); // 900 rounded up to 64-byte alignment

    let result = arena.allocate(200);
    assert!(matches!(result, Err(ArenaError::ArenaExhausted)));
    assert_eq!(arena.used(), 960);
}

#[test]
fn test_allocations_consecutive_and_aligned() {
    let mut arena = ZeroCopyArena::new(4096).unwrap();
    let a = arena.allocate(1).unwrap();
    let b = arena.allocate(65).unwrap();
    let c = arena.allocate(64).unwrap();
    // Rounded lengths 64, 128, 64: regions never overlap.
    assert_eq!(a, 0);
    assert_eq!(b, 64);
    assert_eq!(c, 192);
    assert_eq!(arena.used(), 256);
}

#[test]
fn test_arena_capacity_rounding() {
    let arena = ZeroCopyArena::new(1000).unwrap();
    assert_eq!(arena.capacity(), 1024);
}

#[test]
fn test_buffer_len_and_is_empty() {
    let mut arena = ZeroCopyArena::new(1024).unwrap();
    let b = ZeroCopyBuffer::new(128, &mut arena).unwrap();
    assert_eq!(b.len(), 128);
    assert!(!b.is_empty());
    let e = ZeroCopyBuffer::new(0, &mut arena).unwrap();
    assert!(e.is_empty());
}

// -------------------------------------------------------------- framing

#[test]
fn test_parse_header_fields() {
    let mut bytes = Vec::new();
    bytes.extend_from_slice(&[0x54, 0x4B, 0x52, 0x4D]); // magic, little endian
    bytes.push(1); // msg_type
    bytes.push(2); // version
    bytes.push(3); // priority
    bytes.push(4); // flags
    bytes.extend_from_slice(&TS.to_le_bytes());
    bytes.extend_from_slice(&64u32.to_le_bytes());
    bytes.extend_from_slice(&0xDEADBEEFu32.to_le_bytes());

    let h = parse_header(&bytes);
    assert_eq!(h.magic, MESSAGE_MAGIC);
    assert_eq!(h.msg_type, 1);
    assert_eq!(h.version, 2);
    assert_eq!(h.priority, 3);
    assert_eq!(h.flags, 4);
    assert_eq!(h.timestamp, TS);
    assert_eq!(h.payload_size, 64);
    assert_eq!(h.checksum, 0xDEADBEEF);
    assert!(h.is_valid());
}

#[test]
fn test_header_validity_edges() {
    let mut h = MessageHeader {
        magic: MESSAGE_MAGIC,
        msg_type: 0,
        version: 1,
        priority: 0,
        flags: 0,
        timestamp: 0,
        payload_size: 10_000_000,
        checksum: 0,
    };
    assert!(h.is_valid());
    h.payload_size = 10_000_001;
    assert!(!h.is_valid());
    h.payload_size = 0;
    assert!(!h.is_valid());
    h.payload_size = 1;
    h.magic = 0x4D524B55;
    assert!(!h.is_valid());
}

#[test]
fn test_parse_trade_fields() {
    let p = trade_payload(b"BTCUSD\0\0", -1, 42, TS);
    let t = parse_trade(&p);
    assert_eq!(&t.symbol, b"BTCUSD\0\0");
    assert_eq!(t.price, -1);
    assert_eq!(t.quantity, 42);
    assert_eq!(t.timestamp, TS);
    assert_eq!(t.side, 0);
    assert_eq!(t.trade_id, 1);
}

#[test]
fn test_parse_quote_fields() {
    let p = quote_payload(b"ETHUSD\0\0", 5, 7, TS);
    let q = parse_quote(&p);
    assert_eq!(&q.symbol, b"ETHUSD\0\0");
    assert_eq!(q.bid_price, 5);
    assert_eq!(q.ask_price, 7);
    assert_eq!(q.bid_quantity, 100_000_000);
    assert_eq!(q.ask_quantity, 100_000_000);
    assert_eq!(q.timestamp, TS);
}

// ------------------------------------------------------------- temporal

#[test]
fn test_temporal_boundaries() {
    let sym = *b"BTCUSD\0\0";
    let mut v = TemporalValidator::with_tolerance_nanos(1000);

    // First observation always passes.
    assert!(v.validate_monotonic(&sym, 0, 10_000).is_ok());
    // Exactly last - tolerance: boundary inclusive.
    assert!(v.validate_monotonic(&sym, 0, 9_000).is_ok());

    // Reset to last = 10_000.
    v.forget_symbol(&sym, 0);
    assert!(v.validate_monotonic(&sym, 0, 10_000).is_ok());
    // One below the boundary fails, carrying both timestamps.
    match v.validate_monotonic(&sym, 0, 8_999) {
        Err(ValidationError::TemporalOrderViolation { prev, current }) => {
            assert_eq!(prev, 10_000);
            assert_eq!(current, 8_999);
        }
        _ => panic!("expected a temporal order violation"),
    }
    // The failed observation still overwrote "last" (= 8_999 now).
    assert!(v.validate_monotonic(&sym, 0, 9_100).is_ok());
    // Anything at or above "last" passes.
    assert!(v.validate_monotonic(&sym, 0, 9_100).is_ok());
    // A different source is a fresh stream.
    assert!(v.validate_monotonic(&sym, 1, 5).is_ok());
}

#[test]
fn test_forget_symbol_resets_stream() {
    let sym = *b"BTCUSD\0\0";
    let mut v = TemporalValidator::with_tolerance_nanos(0);
    assert!(v.validate_monotonic(&sym, 0, 1_000_000).is_ok());
    assert!(v.validate_monotonic(&sym, 0, 1).is_err());
    v.forget_symbol(&sym, 0);
    // After eviction the old timestamp is gone: first observation again.
    assert!(v.validate_monotonic(&sym, 0, 1).is_ok());
}

// --------------------------------------------------------------- symbol

#[test]
fn test_whitelist_exact_set() {
    let v = SymbolValidator::whitelist(vec!["BTCUSD".to_string(), "ETHUSD".to_string()]);
    assert!(v.validate(b"BTCUSD\0\0").is_ok());
    assert!(v.validate(b"ETHUSD\0\0").is_ok());
    // Syntactically valid but unknown.
    match v.validate(b"SOLUSD\0\0") {
        Err(ValidationError::InvalidSymbol(SymbolIssue::UnknownSymbol)) => {}
        _ => panic!("expected an unknown-symbol rejection"),
    }
    // Zero padding is part of the key: a longer symbol is a different one.
    assert!(v.validate(b"BTCUSDX\0").is_err());
}

#[test]
fn test_whitelist_truncates_to_eight_bytes() {
    let v = SymbolValidator::whitelist(vec!["ABCDEFGHIJ".to_string()]);
    assert!(v.validate(b"ABCDEFGH").is_ok());
}

#[test]
fn test_permissive_rejects_only_bad_characters() {
    let v = SymbolValidator::permissive();
    assert!(v.validate(b"ANYTHING").is_ok());
    assert!(v.validate(b"A-B_C12\0").is_ok());
    match v.validate(b"BTC$USD\0") {
        Err(ValidationError::InvalidSymbol(SymbolIssue::DisallowedByte(b))) => {
            assert_eq!(b, b'$');
        }
        _ => panic!("expected a disallowed-byte rejection"),
    }
}

#[test]
fn test_whitelist_reports_bad_byte_before_membership() {
    let v = SymbolValidator::whitelist(vec!["BTCUSD".to_string()]);
    match v.validate(b"BTC USD\0") {
        Err(ValidationError::InvalidSymbol(SymbolIssue::DisallowedByte(b))) => {
            assert_eq!(b, b' ');
        }
        _ => panic!("expected a disallowed-byte rejection"),
    }
}

// ------------------------------------------------------------ composite

#[test]
fn test_composite_valid_trade_message() {
    let mut v = CompositeValidator::new(DataBounds::crypto(), SymbolValidator::permissive());
    let payload = trade_payload(b"BTCUSD\0\0", 5_000_000_000_000, 100_000_000, TS);
    let header = header_for(0, &payload);
    assert!(v.validate_message(&header, &payload).is_ok());
}

#[test]
fn test_composite_flipped_byte_is_checksum_mismatch() {
    let mut v = CompositeValidator::new(DataBounds::crypto(), SymbolValidator::permissive());
    let mut payload = trade_payload(b"BTCUSD\0\0", 5_000_000_000_000, 100_000_000, TS);
    let header = header_for(0, &payload);
    payload[10] ^= 0x01;
    match v.validate_message(&header, &payload) {
        Err(ValidationError::ChecksumMismatch { expected, calculated }) => {
            assert_eq!(expected, header.checksum);
            assert_ne!(calculated, expected);
        }
        _ => panic!("expected a checksum mismatch"),
    }
}

#[test]
fn test_composite_quote_bid_not_below_ask() {
    let mut v = CompositeValidator::new(DataBounds::crypto(), SymbolValidator::permissive());
    // bid_price >= ask_price is rejected even with a valid checksum.
    let payload = quote_payload(b"ETHUSD\0\0", 5_000_000_000_000, 5_000_000_000_000, TS);
    let header = header_for(1, &payload);
    match v.validate_message(&header, &payload) {
        Err(ValidationError::InvalidSymbol(SymbolIssue::BidNotBelowAsk)) => {}
        _ => panic!("expected a bid/ask ordering rejection"),
    }
}

#[test]
fn test_composite_valid_quote_message() {
    let mut v = CompositeValidator::new(DataBounds::crypto(), SymbolValidator::permissive());
    let payload = quote_payload(b"ETHUSD\0\0", 4_999_000_000_000, 5_000_000_000_000, TS);
    let header = header_for(1, &payload);
    assert!(v.validate_message(&header, &payload).is_ok());
}

#[test]
fn test_composite_unknown_message_type() {
    let mut v = CompositeValidator::new(DataBounds::crypto(), SymbolValidator::permissive());
    let payload = trade_payload(b"BTCUSD\0\0", 5_000_000_000_000, 100_000_000, TS);
    let header = header_for(7, &payload);
    assert!(matches!(
        v.validate_message(&header, &payload),
        Err(ValidationError::UnknownMessageType(7))
    ));
}

#[test]
fn test_composite_header_timestamp_out_of_window() {
    let mut v = CompositeValidator::new(DataBounds::crypto(), SymbolValidator::permissive());
    let payload = trade_payload(b"BTCUSD\0\0", 5_000_000_000_000, 100_000_000, TS);
    let mut header = header_for(0, &payload);
    header.timestamp = 7;
    assert!(matches!(
        v.validate_message(&header, &payload),
        Err(ValidationError::InvalidTimestamp(7))
    ));
}

#[test]
fn test_composite_short_trade_payload_is_corrupted() {
    let mut v = CompositeValidator::new(DataBounds::crypto(), SymbolValidator::permissive());
    let payload = vec![0u8; 10];
    let header = header_for(0, &payload);
    assert!(matches!(
        v.validate_message(&header, &payload),
        Err(ValidationError::CorruptedFormat)
    ));
}

#[test]
fn test_composite_trade_price_out_of_bounds() {
    let mut v = CompositeValidator::new(DataBounds::crypto(), SymbolValidator::permissive());
    let payload = trade_payload(b"BTCUSD\0\0", 0, 100_000_000, TS);
    let header = header_for(0, &payload);
    match v.validate_message(&header, &payload) {
        Err(ValidationError::OutOfBounds { field, value }) => {
            assert_eq!(field, "price");
            assert_eq!(value, 0);
        }
        _ => panic!("expected an out-of-bounds price"),
    }
}

#[test]
fn test_composite_trade_temporal_violation() {
    let mut v = CompositeValidator::new(DataBounds::crypto(), SymbolValidator::permissive());
    // The composite validator's clock-skew tolerance is 1 ms.
    let p1 = trade_payload(b"BTCUSD\0\0", 5_000_000_000_000, 100_000_000, TS);
    let h1 = header_for(0, &p1);
    assert!(v.validate_message(&h1, &p1).is_ok());

    let p2 = trade_payload(b"BTCUSD\0\0", 5_000_000_000_000, 100_000_000, TS - 2_000_000);
    let h2 = header_for(0, &p2);
    match v.validate_message(&h2, &p2) {
        Err(ValidationError::TemporalOrderViolation { prev, current }) => {
            assert_eq!(prev, TS);
            assert_eq!(current, TS - 2_000_000);
        }
        _ => panic!("expected a temporal order violation"),
    }
}

#[test]
fn test_composite_types_two_and_three_skip_structure() {
    let mut v = CompositeValidator::new(DataBounds::crypto(), SymbolValidator::permissive());
    let payload = vec![1u8, 2, 3];
    let h2 = header_for(2, &payload);
    assert!(v.validate_message(&h2, &payload).is_ok());
    let h3 = header_for(3, &payload);
    assert!(v.validate_message(&h3, &payload).is_ok());
}

// ------------------------------------------------------------- pipeline

fn message_bytes(payload: &[u8]) -> bytes::BytesMut {
    let mut raw = bytes::BytesMut::with_capacity(24 + payload.len());
    raw.extend_from_slice(&[0x54, 0x4B, 0x52, 0x4D]);
    raw.extend_from_slice(&[0, 1, 0, 0]); // msg_type, version, priority, flags
    raw.extend_from_slice(&TS.to_le_bytes());
    raw.extend_from_slice(&(payload.len() as u32).to_le_bytes());
    raw.extend_from_slice(&0u32.to_le_bytes()); // checksum
    raw.extend_from_slice(payload);
    raw
}

#[test]
fn test_single_message_advances_buffer_exactly() {
    let mut ingestor = MarketDataIngestor::new(1024 * 1024, 100);
    let mut raw = message_bytes(&[42u8; 64]);
    raw.extend_from_slice(&[9, 9, 9]); // trailing bytes of the next message

    assert!(ingestor.process_raw_data(&mut raw).is_ok());

    // Advanced by exactly 24 + 64 bytes; the trailing bytes are untouched.
    assert_eq!(raw.len(), 3);
    assert_eq!(raw[0], 9);

    let stats = ingestor.stats();
    assert_eq!(stats.messages_received, 1);
    assert_eq!(stats.bytes_received, 88);
    assert_eq!(stats.parse_errors, 0);
}

#[test]
fn test_incomplete_header_leaves_buffer() {
    let mut ingestor = MarketDataIngestor::new(1024 * 1024, 100);
    let mut raw = bytes::BytesMut::with_capacity(16);
    raw.extend_from_slice(&[0x54, 0x4B, 0x52, 0x4D]);
    raw.extend_from_slice(&[0u8; 6]);

    assert!(matches!(
        ingestor.process_raw_data(&mut raw),
        Err(IngestError::Incomplete)
    ));
    assert_eq!(raw.len(), 10);
    assert_eq!(ingestor.stats().messages_received, 0);
    assert_eq!(ingestor.stats().parse_errors, 0);
}

#[test]
fn test_incomplete_payload_leaves_buffer() {
    let mut ingestor = MarketDataIngestor::new(1024 * 1024, 100);
    // A valid header announcing 64 payload bytes, but only 8 are there.
    let mut raw = message_bytes(&[42u8; 64]);
    raw.truncate(32);

    assert!(matches!(
        ingestor.process_raw_data(&mut raw),
        Err(IngestError::Incomplete)
    ));
    assert_eq!(raw.len(), 32);
}

#[test]
fn test_invalid_header_counts_and_keeps_buffer() {
    let mut ingestor = MarketDataIngestor::new(1024 * 1024, 100);
    let mut raw = message_bytes(&[42u8; 64]);
    raw[0] = 0x00; // break the magic

    assert!(matches!(
        ingestor.process_raw_data(&mut raw),
        Err(IngestError::InvalidHeader)
    ));
    // The buffer is not advanced, and the error is counted.
    assert_eq!(raw.len(), 88);
    assert_eq!(ingestor.stats().parse_errors, 1);
    assert_eq!(ingestor.stats().messages_received, 0);
}

#[test]
fn test_arena_exhaustion_fails_processing() {
    // A 64-byte arena cannot hold an 88-byte message.
    let mut ingestor = MarketDataIngestor::new(64, 10);
    let mut raw = message_bytes(&[42u8; 64]);

    assert!(matches!(
        ingestor.process_raw_data(&mut raw),
        Err(IngestError::Arena(ArenaError::ArenaExhausted))
    ));
    assert_eq!(raw.len(), 88);
    assert_eq!(ingestor.stats().messages_received, 0);
}

#[test]
fn test_queue_delivers_the_copied_message() {
    let mut ingestor = MarketDataIngestor::new(1024 * 1024, 100);
    let payload = [7u8; 64];
    let mut raw = message_bytes(&payload);
    let original: Vec<u8> = raw.to_vec();

    assert!(ingestor.process_raw_data(&mut raw).is_ok());

    let buffer = ingestor.next_buffer().expect("one buffer should be ready");
    assert_eq!(buffer.len(), 88);
    assert_eq!(buffer.as_slice(), &original[..]);
    assert!(ingestor.next_buffer().is_none());
}

#[test]
fn test_stats_snapshot_reports_arena() {
    let mut ingestor = MarketDataIngestor::new(2 * 1024 * 1024, 10);
    let stats = ingestor.stats();
    assert_eq!(stats.arena_capacity_mb, 2);
    assert_eq!(stats.arena_used_mb, 0);
    assert_eq!(stats.messages_per_second, 0);

    let mut raw = message_bytes(&[0u8; 64]);
    assert!(ingestor.process_raw_data(&mut raw).is_ok());
    assert_eq!(ingestor.stats().bytes_received, 88);
}
