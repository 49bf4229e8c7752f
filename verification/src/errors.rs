//! The closed set of validation failures. Every variant carries structured
//! diagnostic context; no failure is reported as an opaque string.

use vstd::prelude::*;

verus! {

/// Why a symbol (or the quote carrying it) was rejected. Carried inside
/// [`ValidationError::InvalidSymbol`].
#[derive(Clone, Debug, PartialEq, Eq, Structural)]
pub enum SymbolIssue {
    /// The symbol holds a byte that is neither zero padding nor an ASCII
    /// alphanumeric, hyphen or underscore.
    DisallowedByte(u8),
    /// The symbol is well-formed but not in the configured whitelist.
    UnknownSymbol,
    /// A quote's bid price was not strictly below its ask price.
    BidNotBelowAsk,
}

/// Message-scoped validation failures: each is non-fatal to the stream and
/// carries the values needed to diagnose it.
#[derive(Clone, Debug, PartialEq, Eq)]
pub enum ValidationError {
    /// The checksum computed over the payload differs from the one the
    /// header announced.
    ChecksumMismatch { expected: u32, calculated: u32 },
    /// The header timestamp lies outside the configured calendar window.
    InvalidTimestamp(u64),
    /// A price or quantity lies outside its configured closed interval.
    /// `value` is fixed-point with scale 1e8; `field` names the offender.
    OutOfBounds { field: String, value: i64 },
    /// The header's message-type code is not one of the recognized codes.
    UnknownMessageType(u8),
    /// A trade's timestamp went backwards past the clock-skew tolerance.
    TemporalOrderViolation { prev: u64, current: u64 },
    /// The symbol failed the symbol policy, or a quote's prices were
    /// mis-ordered (see [`SymbolIssue`]).
    InvalidSymbol(SymbolIssue),
    /// The payload is too short to hold the record its type promises.
    CorruptedFormat,
}

} // verus!
