//! Arena allocator with fixed 64-byte alignment and the zero-copy buffers it
//! backs. The arena serves monotonic, alignment-rounded allocations from one
//! pre-sized region via a cursor; it never frees individual allocations.

use vstd::prelude::*;

verus! {

/// Alignment width, in bytes, of the arena and of every allocation served
/// from it (SIMD-friendly access width).
pub const AVX512_ALIGNMENT: usize = 64;

/// Default size of the receive-side arena, in bytes.
pub const RECV_BUFFER_SIZE: usize = 16 * 1024 * 1024;

/// Default bound on the number of buffers waiting in the delivery queue.
pub const MAX_PENDING_MESSAGES: usize = 10_000;

/// Failures of the allocation subsystem: the backing region could not be
/// set up at all, or a request does not fit in what remains of it.
#[derive(Clone, Copy, Debug, PartialEq, Eq, Structural)]
pub enum ArenaError {
    AllocationFailure,
    ArenaExhausted,
}

/// `n` rounded up to the next multiple of the alignment width.
pub open spec fn align_up(n: nat) -> nat {
    ((n + 63) / 64) * 64
}

/// One successful allocation: its start address and its rounded length.
pub ghost struct AllocRecord {
    pub addr: nat,
    pub len: nat,
}

/// The allocations in `allocs` tile the region `[0, end)` back to front:
/// each starts where the one before it ended, and each start is a multiple
/// of the alignment width.
pub open spec fn allocs_tile(allocs: Seq<AllocRecord>, end: nat) -> bool
    decreases allocs.len(),
{
    if allocs.len() == 0 {
        end == 0
    } else {
        let last = allocs.last();
        &&& last.addr % 64 == 0
        &&& last.len % 64 == 0
        &&& last.addr + last.len == end
        &&& allocs_tile(allocs.drop_last(), last.addr)
    }
}

/// Pre-allocated memory region serving monotonic, alignment-rounded
/// allocations. The cursor only moves forward; a failed request leaves it
/// unchanged. Addresses are offsets from the start of the region.
pub struct ZeroCopyArena {
    capacity: usize,
    offset: usize,
    allocs: Ghost<Seq<AllocRecord>>,
}

impl ZeroCopyArena {
    /// Every successful allocation made from this arena so far, in order.
    pub closed spec fn allocations(&self) -> Seq<AllocRecord> {
        self.allocs@
    }

    pub closed spec fn spec_capacity(&self) -> nat {
        self.capacity as nat
    }

    pub closed spec fn spec_used(&self) -> nat {
        self.offset as nat
    }

    /// Structural invariant: the cursor stays inside the region, capacity is
    /// alignment-rounded, and the allocations recorded so far tile `[0, used)`.
    pub closed spec fn wf(&self) -> bool {
        &&& self.capacity % 64 == 0
        &&& self.offset <= self.capacity
        &&& allocs_tile(self.allocs@, self.offset as nat)
    }

    /// Sets up an arena over a fresh region of `capacity` bytes, rounded up
    /// to the alignment width. Fails with `AllocationFailure` only when the
    /// rounded size cannot be represented.
    pub fn new(capacity: usize) -> (r: Result<ZeroCopyArena, ArenaError>)
        ensures
            match r {
                Ok(a) => {
                    &&& a.wf()
                    &&& a.spec_capacity() == align_up(capacity as nat)
                    &&& a.spec_used() == 0
                    &&& a.allocations().len() == 0
                },
                Err(e) => {
                    &&& e == ArenaError::AllocationFailure
                    &&& capacity > usize::MAX - 63
                },
            },
    {
        if capacity > usize::MAX - (AVX512_ALIGNMENT - 1) {
            return Err(ArenaError::AllocationFailure);
        }
        let aligned_capacity = (capacity + (AVX512_ALIGNMENT - 1)) / AVX512_ALIGNMENT
            * AVX512_ALIGNMENT;
        Ok(ZeroCopyArena {
            capacity: aligned_capacity,
            offset: 0,
            allocs: Ghost(Seq::empty()),
        })
    }

    /// Rounds `size` up to the alignment width and advances the cursor by the
    /// rounded amount. On success the returned address is the prior cursor
    /// value; when the rounded size exceeds what remains, fails with
    /// `ArenaExhausted` and leaves the arena exactly as it was.
    pub fn allocate(&mut self, size: usize) -> (r: Result<usize, ArenaError>)
        requires
            old(self).wf(),
        ensures
            final(self).wf(),
            final(self).spec_capacity() == old(self).spec_capacity(),
            match r {
                Ok(addr) => {
                    &&& align_up(size as nat) <= old(self).spec_capacity() - old(self).spec_used()
                    &&& addr == old(self).spec_used()
                    &&& addr % 64 == 0
                    &&& size <= align_up(size as nat)
                    &&& final(self).spec_used() == old(self).spec_used() + align_up(size as nat)
                    &&& final(self).allocations() == old(self).allocations().push(
                        AllocRecord { addr: addr as nat, len: align_up(size as nat) },
                    )
                },
                Err(e) => {
                    &&& e == ArenaError::ArenaExhausted
                    &&& align_up(size as nat) > old(self).spec_capacity() - old(self).spec_used()
                    &&& *final(self) == *old(self)
                },
            },
    {
        if size > usize::MAX - (AVX512_ALIGNMENT - 1) {
            // The rounded size exceeds any representable capacity.
            assert(align_up(size as nat) >= size);
            return Err(ArenaError::ArenaExhausted);
        }
        let aligned_size = (size + (AVX512_ALIGNMENT - 1)) / AVX512_ALIGNMENT * AVX512_ALIGNMENT;
        if aligned_size > self.capacity - self.offset {
            return Err(ArenaError::ArenaExhausted);
        }
        let addr = self.offset;
        self.offset = self.offset + aligned_size;
        proof {
            lemma_tile_end_aligned(self.allocs@, addr as nat);
            let rec = AllocRecord { addr: addr as nat, len: aligned_size as nat };
            let pushed = self.allocs@.push(rec);
            assert(pushed.last() == rec);
            assert(pushed.drop_last() =~= self.allocs@);
            assert(aligned_size as nat == ((size + 63) / 64) * 64);
            self.allocs@ = pushed;
        }
        Ok(addr)
    }

    /// Size of the region, in bytes (alignment-rounded at construction).
    pub fn capacity(&self) -> (r: usize)
        ensures
            r == self.spec_capacity(),
    {
        self.capacity
    }

    /// Bytes handed out so far, including alignment rounding.
    pub fn used(&self) -> (r: usize)
        ensures
            r == self.spec_used(),
    {
        self.offset
    }
}

/// A tiling's end is itself alignment-rounded.
proof fn lemma_tile_end_aligned(allocs: Seq<AllocRecord>, end: nat)
    requires
        allocs_tile(allocs, end),
    ensures
        end % 64 == 0,
    decreases allocs.len(),
{
    if allocs.len() > 0 {
        lemma_tile_end_aligned(allocs.drop_last(), allocs.last().addr);
    }
}

/// Every allocation in a tiling ends at or before `end`.
proof fn lemma_tile_bounds(allocs: Seq<AllocRecord>, end: nat, i: int)
    requires
        allocs_tile(allocs, end),
        0 <= i < allocs.len(),
    ensures
        allocs[i].addr + allocs[i].len <= end,
        allocs[i].addr % 64 == 0,
    decreases allocs.len(),
{
    if i < allocs.len() - 1 {
        lemma_tile_bounds(allocs.drop_last(), allocs.last().addr, i);
    }
}

impl ZeroCopyArena {
    /// The addresses an arena returns never overlap: of any two successful
    /// allocations, the earlier one ends at or before the later one starts;
    /// and every returned address is a multiple of the alignment width.
    pub proof fn lemma_allocations_disjoint(&self, i: int, j: int)
        requires
            self.wf(),
            0 <= i < j < self.allocations().len(),
        ensures
            self.allocations()[i].addr + self.allocations()[i].len
                <= self.allocations()[j].addr,
            self.allocations()[i].addr % 64 == 0,
            self.allocations()[j].addr % 64 == 0,
    {
        lemma_tile_disjoint(self.allocations(), self.spec_used(), i, j);
    }
}

/// Of two allocations in a tiling, the earlier ends at or before the later
/// starts.
proof fn lemma_tile_disjoint(allocs: Seq<AllocRecord>, end: nat, i: int, j: int)
    requires
        allocs_tile(allocs, end),
        0 <= i < j < allocs.len(),
    ensures
        allocs[i].addr + allocs[i].len <= allocs[j].addr,
        allocs[i].addr % 64 == 0,
        allocs[j].addr % 64 == 0,
    decreases allocs.len(),
{
    if j == allocs.len() - 1 {
        lemma_tile_bounds(allocs.drop_last(), allocs.last().addr, i);
    } else {
        lemma_tile_disjoint(allocs.drop_last(), allocs.last().addr, i, j);
    }
}

/// A view into arena memory: the address of the region that was allocated
/// for it and the bytes (the single copy) it carries. A buffer is created by
/// one allocation call and holds its contents until dropped.
pub struct ZeroCopyBuffer {
    addr: usize,
    data: Vec<u8>,
}

impl View for ZeroCopyBuffer {
    type V = Seq<u8>;

    closed spec fn view(&self) -> Seq<u8> {
        self.data@
    }
}

impl ZeroCopyBuffer {
    /// Address of the buffer's region inside its arena.
    pub closed spec fn spec_addr(&self) -> nat {
        self.addr as nat
    }

    /// Requests `len` bytes from `arena`; the new buffer starts zeroed. On
    /// failure the arena is left unchanged.
    pub fn new(len: usize, arena: &mut ZeroCopyArena) -> (r: Result<ZeroCopyBuffer, ArenaError>)
        requires
            old(arena).wf(),
        ensures
            final(arena).wf(),
            final(arena).spec_capacity() == old(arena).spec_capacity(),
            match r {
                Ok(b) => {
                    &&& align_up(len as nat) <= old(arena).spec_capacity() - old(
                        arena,
                    ).spec_used()
                    &&& b@ == Seq::new(len as nat, |i: int| 0u8)
                    &&& b.spec_addr() == old(arena).spec_used()
                    &&& b.spec_addr() % 64 == 0
                    &&& final(arena).spec_used()
                        == old(arena).spec_used() + align_up(len as nat)
                    &&& final(arena).allocations() == old(arena).allocations().push(
                        AllocRecord { addr: b.spec_addr(), len: align_up(len as nat) },
                    )
                },
                Err(e) => {
                    &&& e == ArenaError::ArenaExhausted
                    &&& align_up(len as nat)
                        > old(arena).spec_capacity() - old(arena).spec_used()
                    &&& *final(arena) == *old(arena)
                },
            },
    {
        match arena.allocate(len) {
            Ok(addr) => Ok(ZeroCopyBuffer { addr, data: vec![0u8; len] }),
            Err(e) => Err(e),
        }
    }

    /// Read access to the buffer's bytes.
    pub fn as_slice(&self) -> (r: &[u8])
        ensures
            r@ == self@,
    {
        self.data.as_slice()
    }

    /// Overwrites the buffer's bytes with `src`, which must have exactly the
    /// buffer's length.
    pub fn copy_from_slice(&mut self, src: &[u8])
        requires
            src@.len() == old(self)@.len(),
        ensures
            final(self)@ == src@,
            final(self).spec_addr() == old(self).spec_addr(),
    {
        self.data.clear();
        self.data.extend_from_slice(src);
    }

    pub fn len(&self) -> (r: usize)
        ensures
            r == self@.len(),
    {
        self.data.len()
    }

    pub fn is_empty(&self) -> (r: bool)
        ensures
            r == (self@.len() == 0),
    {
        self.data.len() == 0
    }
}

} // verus!
