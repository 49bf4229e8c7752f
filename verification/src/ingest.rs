//! Ingestion pipeline: consumes a growable input byte stream, recognizes
//! complete framed messages, copies each exactly once into a zero-copy
//! buffer allocated from the arena, forwards it over a bounded queue with
//! non-blocking (lossy-under-pressure) send semantics, and keeps counters.

use crate::arena::{align_up, ArenaError, ZeroCopyArena, ZeroCopyBuffer};
use crate::framing::{header_of, parse_header, HEADER_SIZE};
use bytes::BytesMut;
use crossbeam_channel::{Receiver, Sender};
use std::time::Instant;
use vstd::prelude::*;

verus! {

/// The bytes currently buffered in a growable input buffer, front first.
pub uninterp spec fn buffered(b: BytesMut) -> Seq<u8>;

/// Relies on bytes::BytesMut::len: the number of buffered bytes.
#[verifier::external_body]
fn buffered_len(b: &BytesMut) -> (r: usize)
    ensures
        r == buffered(*b).len(),
{
    b.len()
}

/// Relies on bytes::BytesMut's slice view and <[u8]>::to_vec: copies the
/// first `n` buffered bytes out.
#[verifier::external_body]
fn copy_prefix(b: &BytesMut, n: usize) -> (r: Vec<u8>)
    requires
        n <= buffered(*b).len(),
    ensures
        r@ == buffered(*b).take(n as int),
{
    b[..n].to_vec()
}

/// Relies on bytes::Buf::advance for BytesMut: discards the first `n`
/// buffered bytes, keeping the rest. It panics when `n` exceeds what is
/// buffered; the precondition rules that out.
#[verifier::external_body]
fn advance_buffer(b: &mut BytesMut, n: usize)
    requires
        n <= buffered(*old(b)).len(),
    ensures
        buffered(*final(b)) == buffered(*old(b)).skip(n as int),
{
    bytes::Buf::advance(b, n)
}

#[verifier::external_type_specification]
#[verifier::external_body]
pub struct ExBytesMut(BytesMut);

#[verifier::external_type_specification]
#[verifier::external_body]
#[verifier::reject_recursive_types(T)]
pub struct ExSender<T>(Sender<T>);

#[verifier::external_type_specification]
#[verifier::external_body]
#[verifier::reject_recursive_types(T)]
pub struct ExReceiver<T>(Receiver<T>);

#[verifier::external_type_specification]
#[verifier::external_body]
pub struct ExInstant(Instant);

/// Relies on crossbeam_channel::bounded: a queue with room for `cap`
/// messages, multi-producer multi-consumer. Initialization of absurdly
/// large capacities aborts; the precondition keeps the slot count modest.
#[verifier::external_body]
fn new_channel(cap: usize) -> (Sender<ZeroCopyBuffer>, Receiver<ZeroCopyBuffer>)
    requires
        cap <= 0x1000_0000,
{
    crossbeam_channel::bounded(cap)
}

/// Relies on crossbeam_channel::Sender::try_send: a non-blocking send.
/// Whether it is accepted depends on the queue's concurrent state; when it
/// is not (full or disconnected), the buffer is dropped here.
#[verifier::external_body]
fn try_send_buffer(tx: &Sender<ZeroCopyBuffer>, buffer: ZeroCopyBuffer) -> (r: bool) {
    tx.try_send(buffer).is_ok()
}

/// Relies on crossbeam_channel::Receiver::try_recv: non-blocking pop of
/// the next ready buffer, if any.
#[verifier::external_body]
fn try_recv_buffer(rx: &Receiver<ZeroCopyBuffer>) -> (r: Option<ZeroCopyBuffer>) {
    rx.try_recv().ok()
}

/// Relies on std::time::Instant::now; nothing is promised of the clock.
#[verifier::external_body]
fn instant_now() -> Instant {
    Instant::now()
}

/// Failures of one processing step. `Incomplete` means "retry once more
/// bytes arrive"; `InvalidHeader` is counted and surfaced without
/// advancing the input; an arena failure leaves everything untouched.
#[derive(Clone, Copy, Debug, PartialEq, Eq, Structural)]
pub enum IngestError {
    Incomplete,
    InvalidHeader,
    Arena(ArenaError),
}

/// `c + 1`, saturating at the counter's maximum.
pub open spec fn sat_inc(c: u64) -> u64 {
    if c < u64::MAX {
        (c + 1) as u64
    } else {
        c
    }
}

/// `c + n`, saturating at the counter's maximum.
pub open spec fn sat_add(c: u64, n: u64) -> u64 {
    if c + n <= u64::MAX {
        (c + n) as u64
    } else {
        u64::MAX
    }
}

struct IngestionStats {
    messages_received: u64,
    bytes_received: u64,
    parse_errors: u64,
    last_message_time: Option<Instant>,
}

/// Read-only snapshot of the pipeline's counters plus arena utilization.
/// Computing a real throughput rate is left to the caller; the field is
/// always reported as zero here.
#[derive(Clone, Copy, Debug, PartialEq, Eq, Structural)]
pub struct IngestionStatsSnapshot {
    pub messages_received: u64,
    pub bytes_received: u64,
    pub parse_errors: u64,
    pub arena_used_mb: usize,
    pub arena_capacity_mb: usize,
    pub messages_per_second: u64,
}

/// The ingestion pipeline: an arena, a bounded delivery queue, and
/// counters.
pub struct MarketDataIngestor {
    arena: ZeroCopyArena,
    tx: Sender<ZeroCopyBuffer>,
    rx: Receiver<ZeroCopyBuffer>,
    stats: IngestionStats,
}

impl MarketDataIngestor {
    pub closed spec fn wf(&self) -> bool {
        self.arena.wf()
    }

    pub closed spec fn messages_received(&self) -> u64 {
        self.stats.messages_received
    }

    pub closed spec fn bytes_received(&self) -> u64 {
        self.stats.bytes_received
    }

    pub closed spec fn parse_errors(&self) -> u64 {
        self.stats.parse_errors
    }

    pub closed spec fn has_message_time(&self) -> bool {
        self.stats.last_message_time is Some
    }

    pub closed spec fn arena_used(&self) -> nat {
        self.arena.spec_used()
    }

    pub closed spec fn arena_capacity(&self) -> nat {
        self.arena.spec_capacity()
    }

    /// A pipeline over a fresh arena of `arena_capacity` bytes (rounded up
    /// to the alignment width) and a delivery queue of `channel_size`
    /// message slots. All counters start at zero.
    pub fn new(arena_capacity: usize, channel_size: usize) -> (r: MarketDataIngestor)
        requires
            arena_capacity <= usize::MAX - 63,
            channel_size <= 0x1000_0000,
        ensures
            r.wf(),
            r.arena_capacity() == align_up(arena_capacity as nat),
            r.arena_used() == 0,
            r.messages_received() == 0,
            r.bytes_received() == 0,
            r.parse_errors() == 0,
            !r.has_message_time(),
    {
        let arena = match ZeroCopyArena::new(arena_capacity) {
            Ok(a) => a,
            Err(_) => vstd::pervasive::unreached(),
        };
        let (tx, rx) = new_channel(channel_size);
        MarketDataIngestor {
            arena,
            tx,
            rx,
            stats: IngestionStats {
                messages_received: 0,
                bytes_received: 0,
                parse_errors: 0,
                last_message_time: None,
            },
        }
    }

    /// Whether the front of `input` carries one complete, valid message
    /// that a copy of `align_up(total)` bytes from the arena can hold.
    pub open spec fn can_consume(&self, input: Seq<u8>) -> bool {
        &&& input.len() >= 24
        &&& header_of(input).spec_valid()
        &&& input.len() >= 24 + header_of(input).payload_size
        &&& align_up((24 + header_of(input).payload_size) as nat) <= self.arena_capacity()
            - self.arena_used()
    }

    /// Processes the front of the accumulated input. Exactly when one
    /// complete, valid message is there and fits the arena, it is copied
    /// once into a fresh buffer, handed to the queue (dropped silently if
    /// the queue is full), the input is advanced past it and the counters
    /// are updated; otherwise the input is left untouched and the error
    /// says what was missing. An invalid header is counted.
    pub fn process_raw_data(&mut self, raw_data: &mut BytesMut) -> (r: Result<(), IngestError>)
        requires
            old(self).wf(),
        ensures
            final(self).wf(),
            final(self).arena_capacity() == old(self).arena_capacity(),
            r is Ok <==> old(self).can_consume(buffered(*old(raw_data))),
            ({
                let input = buffered(*old(raw_data));
                let total = 24 + header_of(input).payload_size as int;
                match r {
                    Ok(()) => {
                        &&& buffered(*final(raw_data)) == input.skip(total)
                        &&& final(self).messages_received() == sat_inc(
                            old(self).messages_received(),
                        )
                        &&& final(self).bytes_received() == sat_add(
                            old(self).bytes_received(),
                            total as u64,
                        )
                        &&& final(self).parse_errors() == old(self).parse_errors()
                        &&& final(self).arena_used() == old(self).arena_used() + align_up(
                            total as nat,
                        )
                        &&& final(self).has_message_time()
                    },
                    Err(e) => {
                        &&& buffered(*final(raw_data)) == input
                        &&& final(self).messages_received() == old(self).messages_received()
                        &&& final(self).bytes_received() == old(self).bytes_received()
                        &&& final(self).arena_used() == old(self).arena_used()
                        &&& final(self).has_message_time() == old(self).has_message_time()
                        &&& (e == IngestError::Incomplete <==> input.len() < 24 || (header_of(
                            input,
                        ).spec_valid() && input.len() < total))
                        &&& (e == IngestError::InvalidHeader <==> input.len() >= 24
                            && !header_of(input).spec_valid())
                        &&& (e == IngestError::InvalidHeader ==> final(self).parse_errors()
                            == sat_inc(old(self).parse_errors()))
                        &&& (e != IngestError::InvalidHeader ==> final(self).parse_errors()
                            == old(self).parse_errors())
                        &&& (e matches IngestError::Arena(a) ==> a == ArenaError::ArenaExhausted
                            && input.len() >= 24 && header_of(input).spec_valid()
                            && input.len() >= total && align_up(total as nat) > old(
                            self,
                        ).arena_capacity() - old(self).arena_used())
                    },
                }
            }),
    {
        let available = buffered_len(raw_data);
        if available < HEADER_SIZE {
            return Err(IngestError::Incomplete);
        }
        let head_bytes = copy_prefix(raw_data, HEADER_SIZE);
        let header = parse_header(head_bytes.as_slice());
        proof {
            crate::framing::lemma_header_prefix(head_bytes@, buffered(*raw_data));
        }
        if !header.is_valid() {
            self.stats.parse_errors = self.stats.parse_errors.saturating_add(1);
            return Err(IngestError::InvalidHeader);
        }
        let payload_size = header.payload_size as usize;
        let total_size = HEADER_SIZE + payload_size;
        if available < total_size {
            return Err(IngestError::Incomplete);
        }
        let mut buffer = match ZeroCopyBuffer::new(total_size, &mut self.arena) {
            Ok(b) => b,
            Err(e) => {
                return Err(IngestError::Arena(e));
            },
        };
        let message = copy_prefix(raw_data, total_size);
        buffer.copy_from_slice(message.as_slice());
        advance_buffer(raw_data, total_size);
        // Non-blocking send: a full queue drops the message rather than
        // stalling the ingesting thread.
        let _accepted = try_send_buffer(&self.tx, buffer);
        self.stats.messages_received = self.stats.messages_received.saturating_add(1);
        self.stats.bytes_received = self.stats.bytes_received.saturating_add(total_size as u64);
        self.stats.last_message_time = Some(instant_now());
        Ok(())
    }

    /// Pops the next ready buffer from the delivery queue, if one is
    /// waiting. Its memory stays valid for as long as the buffer is held.
    pub fn next_buffer(&self) -> Option<ZeroCopyBuffer> {
        try_recv_buffer(&self.rx)
    }

    /// A snapshot of the counters plus arena utilization, in whole
    /// megabytes. The throughput field is always zero.
    pub fn stats(&self) -> (r: IngestionStatsSnapshot)
        ensures
            r.messages_received == self.messages_received(),
            r.bytes_received == self.bytes_received(),
            r.parse_errors == self.parse_errors(),
            r.arena_used_mb == self.arena_used() / 0x100000,
            r.arena_capacity_mb == self.arena_capacity() / 0x100000,
            r.messages_per_second == 0,
    {
        IngestionStatsSnapshot {
            messages_received: self.stats.messages_received,
            bytes_received: self.stats.bytes_received,
            parse_errors: self.stats.parse_errors,
            arena_used_mb: self.arena.used() / (1024 * 1024),
            arena_capacity_mb: self.arena.capacity() / (1024 * 1024),
            messages_per_second: 0,
        }
    }
}

} // verus!
