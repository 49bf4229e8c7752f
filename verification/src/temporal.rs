//! Temporal-monotonicity validation: tracks, per (symbol, source) stream,
//! the most recently seen timestamp, and rejects observations that step
//! back further than the configured clock-skew tolerance.

use crate::errors::ValidationError;
use crate::symbol::symbol_value;
use std::collections::HashMap;
use std::time::Duration;
use vstd::prelude::*;

verus! {

broadcast use vstd::std_specs::hash::group_hash_axioms;

/// Key of one (symbol, source) stream.
pub open spec fn stream_key(symbol: Seq<u8>, source: u8) -> u128
    recommends
        symbol.len() == 8,
{
    ((symbol_value(symbol) as int) * 256 + (source as int)) as u128
}

/// What std::time::Duration::as_nanos returns for a duration, truncated
/// into u64 range: a function of the duration value alone.
pub uninterp spec fn duration_nanos(d: Duration) -> u64;

/// The timestamp recorded for stream `k`, if any.
pub open spec fn recorded_last(m: Map<u128, u64>, k: u128) -> Option<u64> {
    if m.contains_key(k) {
        Some(m[k])
    } else {
        None
    }
}

/// Whether a new observation passes against the previously recorded
/// timestamp of its stream, under the given tolerance: a first observation
/// always passes; a later one passes exactly when it is no further back
/// than `tolerance` below the last (boundary inclusive, saturating at 0).
pub open spec fn temporal_accepts(prev: Option<u64>, tolerance: u64, timestamp: u64) -> bool {
    match prev {
        None => true,
        Some(p) => timestamp >= (if p >= tolerance {
            (p - tolerance) as u64
        } else {
            0u64
        }),
    }
}

/// Tracks the most recently seen (not the maximum) timestamp per
/// (symbol, source) stream. The map grows with the number of distinct
/// streams unless keys are explicitly forgotten.
pub struct TemporalValidator {
    last_timestamps: HashMap<u128, u64>,
    clock_skew_tolerance: u64,
}

impl TemporalValidator {
    /// The recorded last timestamps, keyed by stream.
    pub closed spec fn last(&self) -> Map<u128, u64> {
        self.last_timestamps@
    }

    /// The clock-skew tolerance, in nanoseconds.
    pub closed spec fn tolerance(&self) -> u64 {
        self.clock_skew_tolerance
    }

    /// Relies on std::time::Duration::as_nanos to express the configured
    /// tolerance in nanoseconds (truncated into u64 range, as a count of
    /// that size is ample for clock skew).
    #[verifier::external_body]
    fn duration_to_nanos(d: &Duration) -> (r: u64)
        ensures
            r == duration_nanos(*d),
    {
        d.as_nanos() as u64
    }

    /// A fresh validator with the given clock-skew tolerance; nothing has
    /// been observed yet.
    pub fn new(clock_skew_tolerance: Duration) -> (r: TemporalValidator)
        ensures
            r.last() == Map::<u128, u64>::empty(),
            r.tolerance() == duration_nanos(clock_skew_tolerance),
    {
        TemporalValidator {
            last_timestamps: HashMap::new(),
            clock_skew_tolerance: Self::duration_to_nanos(&clock_skew_tolerance),
        }
    }

    /// A fresh validator whose clock-skew tolerance is given directly in
    /// nanoseconds.
    pub fn with_tolerance_nanos(nanos: u64) -> (r: TemporalValidator)
        ensures
            r.last() == Map::<u128, u64>::empty(),
            r.tolerance() == nanos,
    {
        TemporalValidator { last_timestamps: HashMap::new(), clock_skew_tolerance: nanos }
    }

    /// Checks `timestamp` against the last one seen for (symbol, source):
    /// a first observation always passes; a later one passes exactly when
    /// it is at most `tolerance` below the last (boundary inclusive).
    /// Every call — pass or fail — records `timestamp` as the new "last".
    pub fn validate_monotonic(&mut self, symbol: &[u8; 8], source: u8, timestamp: u64) -> (r:
        Result<(), ValidationError>)
        ensures
            final(self).tolerance() == old(self).tolerance(),
            final(self).last() == old(self).last().insert(
                stream_key(symbol@, source),
                timestamp,
            ),
            ({
                let k = stream_key(symbol@, source);
                let prev = recorded_last(old(self).last(), k);
                match r {
                    Ok(()) => temporal_accepts(prev, old(self).tolerance(), timestamp),
                    Err(e) => {
                        &&& !temporal_accepts(prev, old(self).tolerance(), timestamp)
                        &&& old(self).last().contains_key(k)
                        &&& e == ValidationError::TemporalOrderViolation {
                            prev: old(self).last()[k],
                            current: timestamp,
                        }
                    },
                }
            }),
    {
        let key = stream_key_of(symbol, source);
        let mut violation: Option<u64> = None;
        match self.last_timestamps.get(&key) {
            Some(last_ts) => {
                if timestamp < last_ts.saturating_sub(self.clock_skew_tolerance) {
                    violation = Some(*last_ts);
                }
            },
            None => {},
        }
        self.last_timestamps.insert(key, timestamp);
        match violation {
            Some(prev) => Err(ValidationError::TemporalOrderViolation { prev, current: timestamp }),
            None => Ok(()),
        }
    }

    /// Evicts the recorded timestamp of one (symbol, source) stream.
    pub fn forget_symbol(&mut self, symbol: &[u8; 8], source: u8)
        ensures
            final(self).tolerance() == old(self).tolerance(),
            final(self).last() == old(self).last().remove(stream_key(symbol@, source)),
    {
        let key = stream_key_of(symbol, source);
        self.last_timestamps.remove(&key);
    }
}

/// The key of (symbol, source), computed in little-endian place value.
fn stream_key_of(symbol: &[u8; 8], source: u8) -> (r: u128)
    ensures
        r == stream_key(symbol@, source),
{
    let v: u64 = (((((((symbol[7] as u64) * 256 + (symbol[6] as u64)) * 256 + (symbol[5] as u64))
        * 256 + (symbol[4] as u64)) * 256 + (symbol[3] as u64)) * 256 + (symbol[2] as u64)) * 256
        + (symbol[1] as u64)) * 256 + (symbol[0] as u64);
    assert(v == symbol_value(symbol@));
    (v as u128) * 256 + (source as u128)
}

/// Acceptance boundaries of the temporal check, for any tolerance `t` and
/// recorded last timestamp `last`: a first observation always passes;
/// `last - t` passes (boundary inclusive); `last - t - 1` fails; and any
/// timestamp at or above `last` passes.
pub proof fn lemma_temporal_boundaries(last: u64, t: u64, ts: u64)
    ensures
        temporal_accepts(None, t, ts),
        last >= t ==> temporal_accepts(Some(last), t, (last - t) as u64),
        last >= t + 1 ==> !temporal_accepts(Some(last), t, (last - t - 1) as u64),
        ts >= last ==> temporal_accepts(Some(last), t, ts),
{
}

} // verus!
