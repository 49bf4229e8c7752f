//! Per-message validation: checksum first (so corrupted payloads surface
//! as checksum errors), then message-type, then timestamp bounds, then the
//! type-specific structural checks — trades additionally pass a temporal
//! monotonicity check keyed by (symbol, source 0); quotes do not.

use crate::bounds::DataBounds;
use crate::checksum::{crc32_of, ChecksumValidator};
use crate::errors::{SymbolIssue, ValidationError};
use crate::framing::{quote_of, trade_of, MessageHeader, Quote, Trade, QUOTE_SIZE, TRADE_SIZE};
use crate::symbol::{
    symbol_chars_ok, symbol_issue_matches, symbol_value, SymbolValidator,
};
use crate::temporal::{recorded_last, stream_key, temporal_accepts, TemporalValidator};
use vstd::prelude::*;

verus! {

/// The four recognized message-type codes.
pub open spec fn known_msg_type(t: u8) -> bool {
    t == 0 || t == 1 || t == 2 || t == 3
}

/// Whether a symbol passes the given symbol policy.
pub open spec fn symbol_passes(perm: bool, known: Set<u64>, s: Seq<u8>) -> bool {
    symbol_chars_ok(s) && (perm || known.contains(symbol_value(s)))
}

/// All structural checks a trade payload must pass, short of the temporal
/// one: length, symbol policy, price and quantity bounds.
pub open spec fn trade_structure_ok(
    bounds: DataBounds,
    perm: bool,
    known: Set<u64>,
    payload: Seq<u8>,
) -> bool {
    &&& payload.len() >= 48
    &&& symbol_passes(perm, known, trade_of(payload).symbol@)
    &&& bounds.price_in_range(trade_of(payload).price)
    &&& bounds.quantity_in_range(trade_of(payload).quantity)
}

/// Everything a trade payload must pass, the temporal check included.
pub open spec fn trade_passes(
    bounds: DataBounds,
    perm: bool,
    known: Set<u64>,
    last: Map<u128, u64>,
    tolerance: u64,
    payload: Seq<u8>,
) -> bool {
    &&& trade_structure_ok(bounds, perm, known, payload)
    &&& temporal_accepts(
        recorded_last(last, stream_key(trade_of(payload).symbol@, 0)),
        tolerance,
        trade_of(payload).timestamp,
    )
}

/// Everything a quote payload must pass: length, symbol policy, bid
/// strictly below ask, both prices in bounds. Quotes get no temporal check.
pub open spec fn quote_passes(
    bounds: DataBounds,
    perm: bool,
    known: Set<u64>,
    payload: Seq<u8>,
) -> bool {
    &&& payload.len() >= 56
    &&& symbol_passes(perm, known, quote_of(payload).symbol@)
    &&& quote_of(payload).bid_price < quote_of(payload).ask_price
    &&& bounds.price_in_range(quote_of(payload).bid_price)
    &&& bounds.price_in_range(quote_of(payload).ask_price)
}

/// Whether a whole message passes every stage of the composite validator.
pub open spec fn message_passes(
    bounds: DataBounds,
    perm: bool,
    known: Set<u64>,
    last: Map<u128, u64>,
    tolerance: u64,
    header: MessageHeader,
    payload: Seq<u8>,
) -> bool {
    &&& header.checksum == crc32_of(payload)
    &&& known_msg_type(header.msg_type)
    &&& bounds.timestamp_in_range(header.timestamp)
    &&& (header.msg_type == 0 ==> trade_passes(bounds, perm, known, last, tolerance, payload))
    &&& (header.msg_type == 1 ==> quote_passes(bounds, perm, known, payload))
}

/// Whether processing the message reaches the trade temporal check, which
/// records the trade's timestamp whatever its own outcome.
pub open spec fn reaches_temporal_check(
    bounds: DataBounds,
    perm: bool,
    known: Set<u64>,
    header: MessageHeader,
    payload: Seq<u8>,
) -> bool {
    &&& header.checksum == crc32_of(payload)
    &&& known_msg_type(header.msg_type)
    &&& bounds.timestamp_in_range(header.timestamp)
    &&& header.msg_type == 0
    &&& trade_structure_ok(bounds, perm, known, payload)
}

/// Composed per-message validator: checksum, bounds, temporal and symbol
/// validators applied in a fixed order with distinct failure semantics.
pub struct CompositeValidator {
    checksum: ChecksumValidator,
    bounds: DataBounds,
    temporal: TemporalValidator,
    symbol: SymbolValidator,
}

impl CompositeValidator {
    pub closed spec fn wf(&self) -> bool {
        self.checksum.wf()
    }

    pub closed spec fn bounds(&self) -> DataBounds {
        self.bounds
    }

    pub closed spec fn temporal_last(&self) -> Map<u128, u64> {
        self.temporal.last()
    }

    pub closed spec fn temporal_tolerance(&self) -> u64 {
        self.temporal.tolerance()
    }

    pub closed spec fn symbol_permissive(&self) -> bool {
        self.symbol.is_permissive()
    }

    pub closed spec fn symbol_known(&self) -> Set<u64> {
        self.symbol.known()
    }

    /// A validator over the given bounds and symbol policy, with a fresh
    /// temporal validator whose clock-skew tolerance is one millisecond.
    pub fn new(bounds: DataBounds, symbol_validator: SymbolValidator) -> (r: CompositeValidator)
        ensures
            r.wf(),
            r.bounds() == bounds,
            r.temporal_last() == Map::<u128, u64>::empty(),
            r.temporal_tolerance() == 1_000_000u64,
            r.symbol_permissive() == symbol_validator.is_permissive(),
            r.symbol_known() == symbol_validator.known(),
    {
        CompositeValidator {
            checksum: ChecksumValidator::new(),
            bounds,
            temporal: TemporalValidator::with_tolerance_nanos(1_000_000),
            symbol: symbol_validator,
        }
    }

    /// Validates one parsed message: checksum over the payload against the
    /// header's checksum field, message-type code, header timestamp bounds,
    /// then the type-specific structural checks. Succeeds exactly when
    /// every stage passes; the first failing stage names the error. A trade
    /// that reaches the temporal check records its timestamp, pass or fail.
    pub fn validate_message(&mut self, header: &MessageHeader, payload: &[u8]) -> (r: Result<
        (),
        ValidationError,
    >)
        requires
            old(self).wf(),
        ensures
            final(self).wf(),
            final(self).bounds() == old(self).bounds(),
            final(self).temporal_tolerance() == old(self).temporal_tolerance(),
            final(self).symbol_permissive() == old(self).symbol_permissive(),
            final(self).symbol_known() == old(self).symbol_known(),
            final(self).temporal_last() == (if reaches_temporal_check(
                old(self).bounds(),
                old(self).symbol_permissive(),
                old(self).symbol_known(),
                *header,
                payload@,
            ) {
                old(self).temporal_last().insert(
                    stream_key(trade_of(payload@).symbol@, 0),
                    trade_of(payload@).timestamp,
                )
            } else {
                old(self).temporal_last()
            }),
            r is Ok <==> message_passes(
                old(self).bounds(),
                old(self).symbol_permissive(),
                old(self).symbol_known(),
                old(self).temporal_last(),
                old(self).temporal_tolerance(),
                *header,
                payload@,
            ),
            match r {
                Ok(()) => true,
                Err(e) => Self::error_names_first_failure(
                    old(self).bounds(),
                    old(self).symbol_permissive(),
                    old(self).symbol_known(),
                    old(self).temporal_last(),
                    old(self).temporal_tolerance(),
                    *header,
                    payload@,
                    e,
                ),
            },
    {
        match self.checksum.validate(payload, header.checksum) {
            Ok(()) => {},
            Err(e) => {
                return Err(e);
            },
        }
        match header.msg_type {
            0 | 1 | 2 | 3 => {},
            t => {
                return Err(ValidationError::UnknownMessageType(t));
            },
        }
        match self.bounds.validate_timestamp(header.timestamp) {
            Ok(()) => {},
            Err(e) => {
                return Err(e);
            },
        }
        match header.msg_type {
            0 => self.validate_trade(payload),
            1 => self.validate_quote(payload),
            _ => Ok(()),
        }
    }

    /// Which error the first failing stage of `validate_message` reports,
    /// and with which diagnostic values.
    pub open spec fn error_names_first_failure(
        bounds: DataBounds,
        perm: bool,
        known: Set<u64>,
        last: Map<u128, u64>,
        tolerance: u64,
        header: MessageHeader,
        payload: Seq<u8>,
        e: ValidationError,
    ) -> bool {
        let crc_ok = header.checksum == crc32_of(payload);
        let type_ok = known_msg_type(header.msg_type);
        let ts_ok = bounds.timestamp_in_range(header.timestamp);
        if !crc_ok {
            e == ValidationError::ChecksumMismatch {
                expected: header.checksum,
                calculated: crc32_of(payload),
            }
        } else if !type_ok {
            e == ValidationError::UnknownMessageType(header.msg_type)
        } else if !ts_ok {
            e == ValidationError::InvalidTimestamp(header.timestamp)
        } else if header.msg_type == 0 {
            Self::trade_error(bounds, perm, known, last, tolerance, payload, e)
        } else if header.msg_type == 1 {
            Self::quote_error(bounds, perm, known, payload, e)
        } else {
            false
        }
    }

    /// Which error the first failing check of a trade payload reports.
    pub open spec fn trade_error(
        bounds: DataBounds,
        perm: bool,
        known: Set<u64>,
        last: Map<u128, u64>,
        tolerance: u64,
        payload: Seq<u8>,
        e: ValidationError,
    ) -> bool {
        let t = trade_of(payload);
        if payload.len() < 48 {
            e == ValidationError::CorruptedFormat
        } else if !symbol_passes(perm, known, t.symbol@) {
            e matches ValidationError::InvalidSymbol(issue) && symbol_issue_matches(
                perm,
                known,
                t.symbol@,
                issue,
            )
        } else if !bounds.price_in_range(t.price) {
            e matches ValidationError::OutOfBounds { field, value } && field@ == "price"@
                && value == t.price
        } else if !bounds.quantity_in_range(t.quantity) {
            e matches ValidationError::OutOfBounds { field, value } && field@ == "quantity"@
                && value == t.quantity
        } else {
            !temporal_accepts(
                recorded_last(last, stream_key(t.symbol@, 0)),
                tolerance,
                t.timestamp,
            ) && e == ValidationError::TemporalOrderViolation {
                prev: last[stream_key(t.symbol@, 0)],
                current: t.timestamp,
            }
        }
    }

    /// Which error the first failing check of a quote payload reports.
    pub open spec fn quote_error(
        bounds: DataBounds,
        perm: bool,
        known: Set<u64>,
        payload: Seq<u8>,
        e: ValidationError,
    ) -> bool {
        let q = quote_of(payload);
        if payload.len() < 56 {
            e == ValidationError::CorruptedFormat
        } else if !symbol_passes(perm, known, q.symbol@) {
            e matches ValidationError::InvalidSymbol(issue) && symbol_issue_matches(
                perm,
                known,
                q.symbol@,
                issue,
            )
        } else if q.bid_price >= q.ask_price {
            e == ValidationError::InvalidSymbol(SymbolIssue::BidNotBelowAsk)
        } else if !bounds.price_in_range(q.bid_price) {
            e matches ValidationError::OutOfBounds { field, value } && field@ == "bid_price"@
                && value == q.bid_price
        } else {
            &&& !bounds.price_in_range(q.ask_price)
            &&& (e matches ValidationError::OutOfBounds { field, value } && field@
                == "ask_price"@ && value == q.ask_price)
        }
    }

    /// Structural and temporal validation of a trade payload. Reaching the
    /// temporal check records the trade's timestamp, pass or fail.
    fn validate_trade(&mut self, payload: &[u8]) -> (r: Result<(), ValidationError>)
        requires
            old(self).wf(),
        ensures
            final(self).wf(),
            final(self).bounds() == old(self).bounds(),
            final(self).temporal_tolerance() == old(self).temporal_tolerance(),
            final(self).symbol_permissive() == old(self).symbol_permissive(),
            final(self).symbol_known() == old(self).symbol_known(),
            final(self).temporal_last() == (if trade_structure_ok(
                old(self).bounds(),
                old(self).symbol_permissive(),
                old(self).symbol_known(),
                payload@,
            ) {
                old(self).temporal_last().insert(
                    stream_key(trade_of(payload@).symbol@, 0),
                    trade_of(payload@).timestamp,
                )
            } else {
                old(self).temporal_last()
            }),
            r is Ok <==> trade_passes(
                old(self).bounds(),
                old(self).symbol_permissive(),
                old(self).symbol_known(),
                old(self).temporal_last(),
                old(self).temporal_tolerance(),
                payload@,
            ),
            match r {
                Ok(()) => true,
                Err(e) => Self::trade_error(
                    old(self).bounds(),
                    old(self).symbol_permissive(),
                    old(self).symbol_known(),
                    old(self).temporal_last(),
                    old(self).temporal_tolerance(),
                    payload@,
                    e,
                ),
            },
    {
        if payload.len() < TRADE_SIZE {
            return Err(ValidationError::CorruptedFormat);
        }
        let trade: Trade = crate::framing::parse_trade(payload);
        match self.symbol.validate(&trade.symbol) {
            Ok(()) => {},
            Err(e) => {
                return Err(e);
            },
        }
        match self.bounds.validate_price(trade.price, "price") {
            Ok(()) => {},
            Err(e) => {
                return Err(e);
            },
        }
        match self.bounds.validate_quantity(trade.quantity, "quantity") {
            Ok(()) => {},
            Err(e) => {
                return Err(e);
            },
        }
        self.temporal.validate_monotonic(&trade.symbol, 0, trade.timestamp)
    }

    /// Structural validation of a quote payload.
    fn validate_quote(&mut self, payload: &[u8]) -> (r: Result<(), ValidationError>)
        requires
            old(self).wf(),
        ensures
            final(self).wf(),
            *final(self) == *old(self),
            r is Ok <==> quote_passes(
                old(self).bounds(),
                old(self).symbol_permissive(),
                old(self).symbol_known(),
                payload@,
            ),
            match r {
                Ok(()) => true,
                Err(e) => Self::quote_error(
                    old(self).bounds(),
                    old(self).symbol_permissive(),
                    old(self).symbol_known(),
                    payload@,
                    e,
                ),
            },
    {
        if payload.len() < QUOTE_SIZE {
            return Err(ValidationError::CorruptedFormat);
        }
        let quote: Quote = crate::framing::parse_quote(payload);
        match self.symbol.validate(&quote.symbol) {
            Ok(()) => {},
            Err(e) => {
                return Err(e);
            },
        }
        if quote.bid_price >= quote.ask_price {
            return Err(ValidationError::InvalidSymbol(SymbolIssue::BidNotBelowAsk));
        }
        match self.bounds.validate_price(quote.bid_price, "bid_price") {
            Ok(()) => {},
            Err(e) => {
                return Err(e);
            },
        }
        match self.bounds.validate_price(quote.ask_price, "ask_price") {
            Ok(()) => {},
            Err(e) => {
                return Err(e);
            },
        }
        Ok(())
    }
}

} // verus!
