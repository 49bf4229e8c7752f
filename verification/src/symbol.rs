//! Symbol policy: either a whitelist of exact 8-byte, zero-padded symbol
//! keys, or a permissive mode that only checks the characters. Every
//! non-zero byte must be ASCII alphanumeric, hyphen or underscore.

use crate::errors::{SymbolIssue, ValidationError};
use std::collections::HashSet;
use vstd::prelude::*;
use vstd::utf8::encode_utf8;

verus! {

broadcast use vstd::std_specs::hash::group_hash_axioms;

/// The eight symbol bytes in little-endian place value, as one integer.
/// Two length-8 byte sequences get the same value only if they are equal
/// (see [`lemma_symbol_value_injective`]).
pub open spec fn symbol_value(s: Seq<u8>) -> u64
    recommends
        s.len() == 8,
{
    (((((((((((((((s[7] as int) * 256) + (s[6] as int)) * 256) + (s[5] as int)) * 256) + (
    s[4] as int)) * 256) + (s[3] as int)) * 256) + (s[2] as int)) * 256) + (s[1] as int)) * 256)
        + (s[0] as int)) as u64
}

/// Two distinct 8-byte symbols never collide in `symbol_value`: whitelist
/// membership is an exact byte match, zero padding included.
pub proof fn lemma_symbol_value_injective(a: Seq<u8>, b: Seq<u8>)
    requires
        a.len() == 8,
        b.len() == 8,
        symbol_value(a) == symbol_value(b),
    ensures
        a =~= b,
{
    let a0 = a[0];
    let a1 = a[1];
    let a2 = a[2];
    let a3 = a[3];
    let a4 = a[4];
    let a5 = a[5];
    let a6 = a[6];
    let a7 = a[7];
    let b0 = b[0];
    let b1 = b[1];
    let b2 = b[2];
    let b3 = b[3];
    let b4 = b[4];
    let b5 = b[5];
    let b6 = b[6];
    let b7 = b[7];
    assert(a0 == b0 && a1 == b1 && a2 == b2 && a3 == b3 && a4 == b4 && a5 == b5 && a6 == b6
        && a7 == b7) by (bit_vector)
        requires
            (((((((((((((((a7 as int) * 256) + (a6 as int)) * 256) + (a5 as int)) * 256) + (
            a4 as int)) * 256) + (a3 as int)) * 256) + (a2 as int)) * 256) + (a1 as int)) * 256)
                + (a0 as int)) as u64 == (((((((((((((((b7 as int) * 256) + (b6 as int)) * 256) + (
            b5 as int)) * 256) + (b4 as int)) * 256) + (b3 as int)) * 256) + (b2 as int)) * 256) + (
            b1 as int)) * 256) + (b0 as int)) as u64,
    ;
}

/// A byte a symbol may carry: zero padding, an ASCII digit or letter, a
/// hyphen, or an underscore.
pub open spec fn byte_allowed(b: u8) -> bool {
    ||| b == 0
    ||| 0x30 <= b <= 0x39
    ||| 0x41 <= b <= 0x5a
    ||| 0x61 <= b <= 0x7a
    ||| b == 0x2d
    ||| b == 0x5f
}

/// Every byte of the symbol is an allowed character.
pub open spec fn symbol_chars_ok(s: Seq<u8>) -> bool {
    forall|i: int| 0 <= i < s.len() ==> byte_allowed(#[trigger] s[i])
}

/// A byte sequence cut or zero-padded to exactly 8 bytes.
pub open spec fn pad8(s: Seq<u8>) -> Seq<u8> {
    Seq::new(8, |i: int| if i < s.len() { s[i] } else { 0u8 })
}

/// The whitelist key a configured symbol string contributes: its UTF-8
/// bytes, zero-padded to 8, in place value.
pub open spec fn whitelist_key(s: Seq<char>) -> u64 {
    symbol_value(pad8(encode_utf8(s)))
}

/// Whitelist membership is an exact byte match, zero padding included: the
/// key of an 8-byte symbol equals the key a configured string contributes
/// exactly when the symbol equals that string's padded bytes.
pub proof fn lemma_whitelist_key_exact(s: Seq<u8>, configured: Seq<char>)
    requires
        s.len() == 8,
    ensures
        symbol_value(s) == whitelist_key(configured) <==> s =~= pad8(encode_utf8(configured)),
{
    if symbol_value(s) == whitelist_key(configured) {
        lemma_symbol_value_injective(s, pad8(encode_utf8(configured)));
    }
}

/// The issue reported for a rejected symbol: the first disallowed byte in
/// scan order, or — for a well-formed symbol outside the whitelist — that
/// it is unknown.
pub open spec fn symbol_issue_matches(perm: bool, known: Set<u64>, s: Seq<u8>, issue: SymbolIssue) -> bool {
    ||| (issue matches SymbolIssue::DisallowedByte(b) && exists|i: int|
        {
            &&& 0 <= i < s.len()
            &&& #[trigger] s[i] == b
            &&& !byte_allowed(b)
            &&& forall|j: int| 0 <= j < i ==> byte_allowed(#[trigger] s[j])
        })
    ||| (issue == SymbolIssue::UnknownSymbol && symbol_chars_ok(s) && !perm && !known.contains(
        symbol_value(s),
    ))
}

/// Symbol validator: either a whitelist (explicit set of exact 8-byte,
/// zero-padded keys) or permissive (accepts any well-formed symbol).
pub struct SymbolValidator {
    known_symbols: HashSet<u64>,
    allow_unknown: bool,
}

impl SymbolValidator {
    /// The configured whitelist, as symbol keys.
    pub closed spec fn known(&self) -> Set<u64> {
        self.known_symbols@
    }

    /// Whether symbols outside the whitelist are accepted.
    pub closed spec fn is_permissive(&self) -> bool {
        self.allow_unknown
    }

    /// A validator accepting exactly the given symbols: each is cut or
    /// zero-padded to 8 bytes, and nothing outside the set passes.
    pub fn whitelist(symbols: Vec<String>) -> (r: SymbolValidator)
        ensures
            !r.is_permissive(),
            forall|k: u64|
                #[trigger] r.known().contains(k) <==> (exists|i: int|
                    0 <= i < symbols@.len() && k == whitelist_key(symbols@[i]@)),
    {
        let mut known: HashSet<u64> = HashSet::new();
        let mut idx: usize = 0;
        while idx < symbols.len()
            invariant
                idx <= symbols@.len(),
                forall|k: u64|
                    #[trigger] known@.contains(k) <==> (exists|i: int|
                        0 <= i < idx && k == whitelist_key(symbols@[i]@)),
            decreases symbols@.len() - idx,
        {
            let sym_bytes = symbols[idx].as_str().as_bytes();
            let key = padded_symbol_value(sym_bytes);
            assert(key == whitelist_key(symbols@[idx as int]@));
            known.insert(key);
            proof {
                assert forall|k: u64| #[trigger] known@.contains(k) implies (exists|i: int|
                    0 <= i < idx + 1 && k == whitelist_key(symbols@[i]@)) by {
                    if k == whitelist_key(symbols@[idx as int]@) {
                        assert(0 <= idx < idx + 1 && k == whitelist_key(
                            symbols@[idx as int]@,
                        ));
                    }
                }
                assert forall|k: u64|
                    (exists|i: int|
                        0 <= i < idx + 1 && k == whitelist_key(
                            symbols@[i]@,
                        )) implies #[trigger] known@.contains(k) by {
                    let i = choose|i: int| 0 <= i < idx + 1 && k == whitelist_key(symbols@[i]@);
                    if i < idx {
                        assert(exists|i: int| 0 <= i < idx && k == whitelist_key(symbols@[i]@));
                    }
                }
            }
            idx += 1;
        }
        SymbolValidator { known_symbols: known, allow_unknown: false }
    }

    /// A validator with no whitelist: only the character check applies.
    pub fn permissive() -> (r: SymbolValidator)
        ensures
            r.is_permissive(),
            r.known() == Set::<u64>::empty(),
    {
        SymbolValidator { known_symbols: HashSet::new(), allow_unknown: true }
    }

    /// Accepts exactly the symbols whose non-zero bytes are all allowed
    /// characters and which, in whitelist mode, match a configured key
    /// byte for byte. The first disallowed byte is reported.
    pub fn validate(&self, symbol: &[u8; 8]) -> (r: Result<(), ValidationError>)
        ensures
            r is Ok <==> symbol_chars_ok(symbol@) && (self.is_permissive()
                || self.known().contains(symbol_value(symbol@))),
            match r {
                Ok(()) => true,
                Err(e) => e matches ValidationError::InvalidSymbol(issue)
                    && symbol_issue_matches(
                    self.is_permissive(),
                    self.known(),
                    symbol@,
                    issue,
                ),
            },
    {
        let mut i: usize = 0;
        while i < 8
            invariant
                i <= 8,
                forall|j: int| 0 <= j < i ==> byte_allowed(#[trigger] symbol@[j]),
            decreases 8 - i,
        {
            let b = symbol[i];
            let ok = b == 0 || (b >= 0x30 && b <= 0x39) || (b >= 0x41 && b <= 0x5a) || (b >= 0x61
                && b <= 0x7a) || b == 0x2d || b == 0x5f;
            if !ok {
                return Err(ValidationError::InvalidSymbol(SymbolIssue::DisallowedByte(b)));
            }
            i += 1;
        }
        if !self.allow_unknown {
            let key = padded_symbol_value(symbol.as_slice());
            assert(pad8(symbol@) =~= symbol@);
            if !self.known_symbols.contains(&key) {
                return Err(ValidationError::InvalidSymbol(SymbolIssue::UnknownSymbol));
            }
        }
        Ok(())
    }
}

/// The place value of a byte slice cut or zero-padded to 8 bytes.
fn padded_symbol_value(bytes: &[u8]) -> (r: u64)
    ensures
        r == symbol_value(pad8(bytes@)),
{
    let b0 = if bytes.len() > 0 { bytes[0] } else { 0 };
    let b1 = if bytes.len() > 1 { bytes[1] } else { 0 };
    let b2 = if bytes.len() > 2 { bytes[2] } else { 0 };
    let b3 = if bytes.len() > 3 { bytes[3] } else { 0 };
    let b4 = if bytes.len() > 4 { bytes[4] } else { 0 };
    let b5 = if bytes.len() > 5 { bytes[5] } else { 0 };
    let b6 = if bytes.len() > 6 { bytes[6] } else { 0 };
    let b7 = if bytes.len() > 7 { bytes[7] } else { 0 };
    let v: u64 = (((((((b7 as u64) * 256 + (b6 as u64)) * 256 + (b5 as u64)) * 256 + (b4 as u64))
        * 256 + (b3 as u64)) * 256 + (b2 as u64)) * 256 + (b1 as u64)) * 256 + (b0 as u64);
    assert(v == symbol_value(pad8(bytes@)));
    v
}

} // verus!
