//! Table-driven CRC-32 (reflected, polynomial 0xEDB88320, initial value
//! all-ones, final complement) with proofs that the checksum is exact and
//! that no single-byte corruption leaves it unchanged.

use crate::errors::ValidationError;
use vstd::prelude::*;

verus! {

/// Reflected CRC-32 polynomial.
pub const POLYNOMIAL: u32 = 0xEDB88320;

/// One shift-and-conditionally-xor round of the bitwise CRC.
pub open spec fn crc_round(c: u32) -> u32 {
    if c & 1 != 0 {
        (c >> 1) ^ POLYNOMIAL
    } else {
        c >> 1
    }
}

/// Eight rounds: the effect of consuming one byte already xor-ed into the
/// low bits of the state.
pub open spec fn crc_rounds8(c: u32) -> u32 {
    crc_round(crc_round(crc_round(crc_round(crc_round(crc_round(crc_round(crc_round(c))))))))
}

/// Entry `i` of the 256-entry lookup table.
pub open spec fn crc_table_entry(i: u8) -> u32 {
    crc_rounds8(i as u32)
}

/// Table-driven state update for one input byte.
pub open spec fn crc_update(c: u32, b: u8) -> u32 {
    (c >> 8) ^ crc_table_entry(((c ^ (b as u32)) & 0xff) as u8)
}

/// CRC state after consuming `s[i..]` starting from state `c`.
pub open spec fn crc32_from(s: Seq<u8>, i: int, c: u32) -> u32
    decreases s.len() - i,
{
    if i < 0 || i >= s.len() {
        c
    } else {
        crc32_from(s, i + 1, crc_update(c, s[i]))
    }
}

/// The standard CRC-32 of a byte sequence: state starts all-ones, every
/// byte is folded in, and the result is complemented.
pub open spec fn crc32_of(s: Seq<u8>) -> u32 {
    !crc32_from(s, 0, 0xFFFFFFFFu32)
}

/// Validator holding the 256-entry lookup table, built once.
pub struct ChecksumValidator {
    table: Vec<u32>,
}

impl ChecksumValidator {
    /// The table holds exactly the 256 precomputed round results.
    pub closed spec fn wf(&self) -> bool {
        &&& self.table@.len() == 256
        &&& forall|k: int| 0 <= k < 256 ==> self.table@[k] == crc_table_entry(k as u8)
    }

    /// Builds the lookup table: entry `i` is `i` put through eight
    /// shift-and-conditionally-xor rounds.
    pub fn new() -> (r: ChecksumValidator)
        ensures
            r.wf(),
    {
        let mut table: Vec<u32> = Vec::new();
        let mut i: usize = 0;
        while i < 256
            invariant
                i <= 256,
                table@.len() == i,
                forall|k: int| 0 <= k < i ==> table@[k] == crc_table_entry(k as u8),
            decreases 256 - i,
        {
            let c0 = i as u32;
            let c1 = if c0 & 1 != 0 { (c0 >> 1) ^ POLYNOMIAL } else { c0 >> 1 };
            let c2 = if c1 & 1 != 0 { (c1 >> 1) ^ POLYNOMIAL } else { c1 >> 1 };
            let c3 = if c2 & 1 != 0 { (c2 >> 1) ^ POLYNOMIAL } else { c2 >> 1 };
            let c4 = if c3 & 1 != 0 { (c3 >> 1) ^ POLYNOMIAL } else { c3 >> 1 };
            let c5 = if c4 & 1 != 0 { (c4 >> 1) ^ POLYNOMIAL } else { c4 >> 1 };
            let c6 = if c5 & 1 != 0 { (c5 >> 1) ^ POLYNOMIAL } else { c5 >> 1 };
            let c7 = if c6 & 1 != 0 { (c6 >> 1) ^ POLYNOMIAL } else { c6 >> 1 };
            let c8 = if c7 & 1 != 0 { (c7 >> 1) ^ POLYNOMIAL } else { c7 >> 1 };
            assert(c8 == crc_rounds8(i as u32));
            assert(i as u32 == (i as u8) as u32);
            table.push(c8);
            i += 1;
        }
        ChecksumValidator { table }
    }

    /// The table-driven CRC-32 of `data`.
    pub fn calculate(&self, data: &[u8]) -> (r: u32)
        requires
            self.wf(),
        ensures
            r == crc32_of(data@),
    {
        let mut crc: u32 = 0xFFFFFFFF;
        let mut i: usize = 0;
        while i < data.len()
            invariant
                self.wf(),
                i <= data@.len(),
                crc32_from(data@, i as int, crc) == crc32_from(data@, 0, 0xFFFFFFFFu32),
            decreases data@.len() - i,
        {
            let byte = data[i];
            let ghost prev = crc;
            let masked = (crc ^ (byte as u32)) & 0xff;
            assert(masked < 256) by (bit_vector)
                requires
                    masked == (crc ^ (byte as u32)) & 0xff,
            ;
            let index = masked as usize;
            crc = (crc >> 8) ^ self.table[index];
            assert(crc == crc_update(prev, byte));
            i += 1;
        }
        !crc
    }

    /// Succeeds exactly when `expected` is the CRC-32 of `data`; on any
    /// mismatch fails with both the announced and the computed value.
    pub fn validate(&self, data: &[u8], expected: u32) -> (r: Result<(), ValidationError>)
        requires
            self.wf(),
        ensures
            r is Ok <==> expected == crc32_of(data@),
            r is Err ==> r == Result::<(), ValidationError>::Err(
                ValidationError::ChecksumMismatch { expected, calculated: crc32_of(data@) },
            ),
    {
        let calculated = self.calculate(data);
        if calculated != expected {
            return Err(ValidationError::ChecksumMismatch { expected, calculated });
        }
        Ok(())
    }
}

/// A single CRC round is injective: the shifted-out bit is recoverable from
/// the polynomial's top bit.
proof fn lemma_round_injective(x: u32, y: u32)
    by (bit_vector)
    requires
        crc_round(x) == crc_round(y),
    ensures
        x == y,
{
}

/// Eight rounds are injective.
proof fn lemma_rounds8_injective(x: u32, y: u32)
    requires
        crc_rounds8(x) == crc_rounds8(y),
    ensures
        x == y,
{
    let x1 = crc_round(x);
    let x2 = crc_round(x1);
    let x3 = crc_round(x2);
    let x4 = crc_round(x3);
    let x5 = crc_round(x4);
    let x6 = crc_round(x5);
    let x7 = crc_round(x6);
    let y1 = crc_round(y);
    let y2 = crc_round(y1);
    let y3 = crc_round(y2);
    let y4 = crc_round(y3);
    let y5 = crc_round(y4);
    let y6 = crc_round(y5);
    let y7 = crc_round(y6);
    lemma_round_injective(x7, y7);
    lemma_round_injective(x6, y6);
    lemma_round_injective(x5, y5);
    lemma_round_injective(x4, y4);
    lemma_round_injective(x3, y3);
    lemma_round_injective(x2, y2);
    lemma_round_injective(x1, y1);
    lemma_round_injective(x, y);
}

/// The table-driven update equals eight bitwise rounds of the state with the
/// input byte xor-ed into its low bits.
proof fn lemma_update_is_rounds8(c: u32, b: u8)
    by (bit_vector)
    ensures
        crc_update(c, b) == crc_rounds8(c ^ (b as u32)),
{
}

/// For one state, different input bytes give different next states.
proof fn lemma_update_injective_byte(c: u32, b1: u8, b2: u8)
    requires
        crc_update(c, b1) == crc_update(c, b2),
    ensures
        b1 == b2,
{
    lemma_update_is_rounds8(c, b1);
    lemma_update_is_rounds8(c, b2);
    lemma_rounds8_injective(c ^ (b1 as u32), c ^ (b2 as u32));
    assert(b1 == b2) by (bit_vector)
        requires
            c ^ (b1 as u32) == c ^ (b2 as u32),
    ;
}

/// For one input byte, different states give different next states.
proof fn lemma_update_injective_state(c1: u32, c2: u32, b: u8)
    requires
        crc_update(c1, b) == crc_update(c2, b),
    ensures
        c1 == c2,
{
    lemma_update_is_rounds8(c1, b);
    lemma_update_is_rounds8(c2, b);
    lemma_rounds8_injective(c1 ^ (b as u32), c2 ^ (b as u32));
    assert(c1 == c2) by (bit_vector)
        requires
            c1 ^ (b as u32) == c2 ^ (b as u32),
    ;
}

/// Folding the same bytes from different states ends in different states.
proof fn lemma_fold_injective(s: Seq<u8>, i: int, c1: u32, c2: u32)
    requires
        0 <= i <= s.len(),
        c1 != c2,
    ensures
        crc32_from(s, i, c1) != crc32_from(s, i, c2),
    decreases s.len() - i,
{
    if i < s.len() {
        let u1 = crc_update(c1, s[i]);
        let u2 = crc_update(c2, s[i]);
        if u1 == u2 {
            lemma_update_injective_state(c1, c2, s[i]);
        }
        lemma_fold_injective(s, i + 1, u1, u2);
    }
}

/// Folding agrees on sequences that agree from `i` on.
proof fn lemma_fold_agree(s1: Seq<u8>, s2: Seq<u8>, i: int, c: u32)
    requires
        s1.len() == s2.len(),
        0 <= i <= s1.len(),
        forall|j: int| i <= j < s1.len() ==> s1[j] == s2[j],
    ensures
        crc32_from(s1, i, c) == crc32_from(s2, i, c),
    decreases s1.len() - i,
{
    if i < s1.len() {
        lemma_fold_agree(s1, s2, i + 1, crc_update(c, s1[i]));
    }
}

/// Folds of two sequences that differ in exactly one position at or past `i`
/// end in different states.
proof fn lemma_fold_flip(s1: Seq<u8>, s2: Seq<u8>, k: int, i: int, c: u32)
    requires
        s1.len() == s2.len(),
        0 <= i <= k < s1.len(),
        s1[k] != s2[k],
        forall|j: int| i <= j < s1.len() && j != k ==> s1[j] == s2[j],
    ensures
        crc32_from(s1, i, c) != crc32_from(s2, i, c),
    decreases k - i,
{
    if i == k {
        let u1 = crc_update(c, s1[i]);
        let u2 = crc_update(c, s2[i]);
        if u1 == u2 {
            lemma_update_injective_byte(c, s1[i], s2[i]);
        }
        lemma_fold_agree(s1, s2, i + 1, u2);
        lemma_fold_injective(s1, i + 1, u1, u2);
    } else {
        lemma_fold_flip(s1, s2, k, i + 1, crc_update(c, s1[i]));
    }
}

/// Flipping any single byte of a sequence changes its CRC-32: the checksum
/// is never invariant under single-byte corruption.
pub proof fn lemma_single_byte_flip_changes_crc(d: Seq<u8>, k: int, b: u8)
    requires
        0 <= k < d.len(),
        b != d[k],
    ensures
        crc32_of(d.update(k, b)) != crc32_of(d),
{
    let d2 = d.update(k, b);
    lemma_fold_flip(d, d2, k, 0, 0xFFFFFFFFu32);
    let r1 = crc32_from(d, 0, 0xFFFFFFFFu32);
    let r2 = crc32_from(d2, 0, 0xFFFFFFFFu32);
    assert(!r1 != !r2) by (bit_vector)
        requires
            r1 != r2,
    ;
}

impl Default for ChecksumValidator {
    /// Same as [`ChecksumValidator::new`].
    fn default() -> (r: Self)
        ensures
            r.wf(),
    {
        Self::new()
    }
}

} // verus!
