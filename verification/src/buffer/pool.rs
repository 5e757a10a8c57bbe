//! A pool that lends out growable buffers and keeps the returned ones for the next lender.
use bytes::BytesMut;
use vstd::prelude::*;

use crate::buffer::storage::{allocate, as_slice, stored_bytes};
use crate::error::{plain_error, CoreError, ErrorCode, FrameworkCode};

verus! {

/// One named number of a pool's statistics.
#[derive(Debug, PartialEq, Eq)]
pub struct PoolStatDimension {
    pub key: &'static str,
    pub value: usize,
}

/// A snapshot of what a pool has lent out and keeps.
#[derive(Debug, PartialEq, Eq)]
pub struct PoolStats {
    pub allocated_bytes: usize,
    pub resident_bytes: usize,
    pub active_leases: usize,
    pub available_bytes: usize,
    pub pending_lease_requests: usize,
    pub failed_acquisitions: u64,
    pub custom_dimensions: Vec<PoolStatDimension>,
}

/// The running counters of a pool.
#[derive(Clone, Copy, Debug, PartialEq, Eq)]
pub struct PoolMetrics {
    pub allocated_bytes: usize,
    pub resident_bytes: usize,
    pub available_bytes: usize,
    pub active_leases: usize,
    pub failed_acquisitions: u64,
}

/// `a - b`, held at zero.
pub open spec fn less(a: usize, b: usize) -> usize {
    if a >= b {
        (a - b) as usize
    } else {
        0
    }
}

/// `a + b` in the arithmetic of a counter that wraps around.
pub open spec fn wrapped(a: usize, b: usize) -> usize {
    if a + b > usize::MAX {
        (a + b - usize::MAX - 1) as usize
    } else {
        (a + b) as usize
    }
}

impl PoolMetrics {
    /// All counters at zero.
    pub fn new() -> (metrics: PoolMetrics)
        ensures
            metrics == (PoolMetrics {
                allocated_bytes: 0,
                resident_bytes: 0,
                available_bytes: 0,
                active_leases: 0,
                failed_acquisitions: 0,
            }),
    {
        PoolMetrics {
            allocated_bytes: 0,
            resident_bytes: 0,
            available_bytes: 0,
            active_leases: 0,
            failed_acquisitions: 0,
        }
    }

    fn increase_on_new_allocation(&mut self, capacity: usize)
        ensures
            *final(self) == (PoolMetrics {
                allocated_bytes: wrapped(old(self).allocated_bytes, capacity),
                resident_bytes: wrapped(old(self).resident_bytes, capacity),
                ..*old(self)
            }),
    {
        self.allocated_bytes = self.allocated_bytes.wrapping_add(capacity);
        self.resident_bytes = self.resident_bytes.wrapping_add(capacity);
    }

    fn increase_available(&mut self, capacity: usize)
        ensures
            *final(self) == (PoolMetrics {
                available_bytes: wrapped(old(self).available_bytes, capacity),
                ..*old(self)
            }),
    {
        self.available_bytes = self.available_bytes.wrapping_add(capacity);
    }

    fn decrease_available(&mut self, capacity: usize)
        ensures
            *final(self) == (PoolMetrics {
                available_bytes: less(old(self).available_bytes, capacity),
                ..*old(self)
            }),
    {
        self.available_bytes = self.available_bytes.saturating_sub(capacity);
    }

    fn decrease_on_loss(&mut self, capacity: usize)
        ensures
            *final(self) == (PoolMetrics {
                allocated_bytes: less(old(self).allocated_bytes, capacity),
                resident_bytes: less(old(self).resident_bytes, capacity),
                ..*old(self)
            }),
    {
        self.allocated_bytes = self.allocated_bytes.saturating_sub(capacity);
        self.resident_bytes = self.resident_bytes.saturating_sub(capacity);
    }

    fn decrease_on_shrink(&mut self, capacity: usize)
        ensures
            *final(self) == (PoolMetrics {
                allocated_bytes: less(old(self).allocated_bytes, capacity),
                resident_bytes: less(old(self).resident_bytes, capacity),
                available_bytes: less(old(self).available_bytes, capacity),
                ..*old(self)
            }),
    {
        self.decrease_available(capacity);
        self.decrease_on_loss(capacity);
    }

    fn increase_active_leases(&mut self)
        ensures
            *final(self) == (PoolMetrics {
                active_leases: wrapped(old(self).active_leases, 1),
                ..*old(self)
            }),
    {
        self.active_leases = self.active_leases.wrapping_add(1);
    }

    fn decrease_active_leases(&mut self)
        ensures
            *final(self) == (PoolMetrics {
                active_leases: less(old(self).active_leases, 1),
                ..*old(self)
            }),
    {
        self.active_leases = self.active_leases.saturating_sub(1);
    }
}

/// A storage that waits in the pool, with the room that it was measured to have.
#[derive(Debug)]
struct FreeSlot {
    storage: BytesMut,
    capacity: usize,
}

/// What a pool is, for the contracts: the room of each waiting storage, in order, and the
/// counters.
pub struct PoolView {
    pub free: Seq<usize>,
    pub metrics: PoolMetrics,
}

/// The sum of some capacities.
pub open spec fn total(capacities: Seq<usize>) -> nat
    decreases capacities.len(),
{
    if capacities.len() == 0 {
        0
    } else {
        total(capacities.drop_last()) + capacities.last() as nat
    }
}

/// Whether `index` is the first waiting storage with room for `min_capacity` bytes.
pub open spec fn is_first_fit(free: Seq<usize>, min_capacity: usize, index: int) -> bool {
    &&& 0 <= index < free.len()
    &&& free[index] >= min_capacity
    &&& forall|k: int| 0 <= k < index ==> #[trigger] free[k] < min_capacity
}

/// The list after the element at `index` was taken out and the last one put in its place.
pub open spec fn swap_removed(free: Seq<usize>, index: int) -> Seq<usize> {
    free.update(index, free.last()).drop_last()
}

impl PoolView {
    /// The counter of waiting bytes tells the truth.
    pub open spec fn well_formed(self) -> bool {
        self.metrics.available_bytes == total(self.free)
    }

    /// Whether some waiting storage has room for `min_capacity` bytes.
    pub open spec fn can_reuse(self, min_capacity: usize) -> bool {
        exists|k: int| 0 <= k < self.free.len() && #[trigger] self.free[k] >= min_capacity
    }

    /// The pool after the storage at `index` was lent out.
    pub open spec fn reused(self, index: int) -> PoolView {
        PoolView {
            free: swap_removed(self.free, index),
            metrics: PoolMetrics {
                available_bytes: less(self.metrics.available_bytes, self.free[index]),
                active_leases: wrapped(self.metrics.active_leases, 1),
                ..self.metrics
            },
        }
    }

    /// The pool after a fresh storage with the given room was made and lent out.
    pub open spec fn grown(self, capacity: usize) -> PoolView {
        PoolView {
            free: self.free,
            metrics: PoolMetrics {
                allocated_bytes: wrapped(self.metrics.allocated_bytes, capacity),
                resident_bytes: wrapped(self.metrics.resident_bytes, capacity),
                active_leases: wrapped(self.metrics.active_leases, 1),
                ..self.metrics
            },
        }
    }

    /// The pool after a lease ended. A storage that came back waits at the end of the list; one
    /// that did not is written off.
    pub open spec fn reclaimed(self, returned: bool, capacity: usize) -> PoolView {
        let ended = PoolMetrics {
            active_leases: less(self.metrics.active_leases, 1),
            ..self.metrics
        };
        if returned {
            PoolView {
                free: self.free.push(capacity),
                metrics: PoolMetrics {
                    available_bytes: wrapped(ended.available_bytes, capacity),
                    ..ended
                },
            }
        } else {
            PoolView {
                free: self.free,
                metrics: PoolMetrics {
                    allocated_bytes: less(ended.allocated_bytes, capacity),
                    resident_bytes: less(ended.resident_bytes, capacity),
                    ..ended
                },
            }
        }
    }

    /// The pool after all waiting storages were let go.
    pub open spec fn shrunk(self) -> PoolView {
        let gone = total(self.free) as usize;
        PoolView {
            free: Seq::empty(),
            metrics: PoolMetrics {
                allocated_bytes: less(self.metrics.allocated_bytes, gone),
                resident_bytes: less(self.metrics.resident_bytes, gone),
                available_bytes: less(self.metrics.available_bytes, gone),
                ..self.metrics
            },
        }
    }

    /// The pool after a lease for `min_capacity` bytes, which turned out to have room for
    /// `capacity`: the first waiting storage that is large enough, or else a fresh one.
    pub open spec fn leased(self, min_capacity: usize, capacity: usize, after: PoolView) -> bool {
        if self.can_reuse(min_capacity) {
            exists|index: int|
                #![trigger self.reused(index)]
                is_first_fit(self.free, min_capacity, index) && capacity == self.free[index]
                    && after == self.reused(index)
        } else {
            capacity >= min_capacity && after == self.grown(capacity)
        }
    }
}

/// What comes back when a lease ends: the storage, unless someone still shares it, and the room
/// that the lease had.
#[derive(Debug)]
pub struct ReclaimedBuffer {
    buffer: Option<BytesMut>,
    capacity: usize,
}

impl ReclaimedBuffer {
    pub closed spec fn returned(&self) -> bool {
        self.buffer is Some
    }

    pub closed spec fn room(&self) -> usize {
        self.capacity
    }

    /// The end of a lease whose storage could not be had back.
    pub fn lost(capacity: usize) -> (reclaimed: ReclaimedBuffer)
        ensures
            !reclaimed.returned(),
            reclaimed.room() == capacity,
    {
        ReclaimedBuffer { buffer: None, capacity }
    }

    /// The room that the lease had.
    pub fn capacity(&self) -> (capacity: usize)
        ensures
            capacity == self.room(),
    {
        self.capacity
    }
}

/// A pool of reusable buffers. A lease takes the first waiting storage that is large enough and
/// makes a fresh one only where there is none.
#[derive(Debug)]
pub struct SlabBufferPool {
    free_list: Vec<FreeSlot>,
    metrics: PoolMetrics,
}

impl View for SlabBufferPool {
    type V = PoolView;

    closed spec fn view(&self) -> PoolView {
        PoolView {
            free: self.free_list@.map_values(|slot: FreeSlot| slot.capacity),
            metrics: self.metrics,
        }
    }
}

impl SlabBufferPool {
    /// An empty pool.
    pub fn new() -> (pool: SlabBufferPool)
        ensures
            pool@.free == Seq::<usize>::empty(),
            pool@.metrics == (PoolMetrics {
                allocated_bytes: 0,
                resident_bytes: 0,
                available_bytes: 0,
                active_leases: 0,
                failed_acquisitions: 0,
            }),
            pool@.well_formed(),
    {
        let pool = SlabBufferPool { free_list: Vec::new(), metrics: PoolMetrics::new() };
        proof {
            assert(pool@.free == Seq::<usize>::empty());
        }
        pool
    }

    /// Takes a storage for at least `min_capacity` bytes from the list, or makes one.
    fn acquire_buffer(&mut self, min_capacity: usize) -> (lease: (BytesMut, usize))
        requires
            old(self)@.well_formed(),
            min_capacity <= isize::MAX,
        ensures
            final(self)@.well_formed(),
            stored_bytes(lease.0) == Seq::<u8>::empty(),
            lease.1 >= min_capacity,
            old(self)@.leased(min_capacity, lease.1, final(self)@),
    {
        let mut index: usize = 0;
        while index < self.free_list.len() && self.free_list[index].capacity < min_capacity
            invariant
                *self == *old(self),
                index <= self.free_list.len(),
                forall|k: int| 0 <= k < index ==> #[trigger] self@.free[k] < min_capacity,
            decreases self.free_list.len() - index,
        {
            index = index + 1;
        }
        if index < self.free_list.len() {
            proof {
                assert(is_first_fit(self@.free, min_capacity, index as int));
                assert(self@.free[index as int] >= min_capacity);
                lemma_total_swap_remove(self@.free, index as int);
            }
            let slot = self.free_list.swap_remove(index);
            let mut storage = slot.storage;
            storage.clear();
            self.metrics.decrease_available(slot.capacity);
            self.metrics.increase_active_leases();
            proof {
                assert(self@.free == swap_removed(old(self)@.free, index as int));
                assert(self@ == old(self)@.reused(index as int));
            }
            (storage, slot.capacity)
        } else {
            let (mut storage, capacity) = allocate(min_capacity);
            self.metrics.increase_on_new_allocation(capacity);
            storage.clear();
            self.metrics.increase_active_leases();
            proof {
                assert(self@.free == old(self)@.free);
                assert forall|k: int| 0 <= k < old(self)@.free.len() implies (
                #[trigger] old(self)@.free[k]) < min_capacity by {}
            }
            (storage, capacity)
        }
    }

    /// Lends out a writable buffer with room for at least `min_capacity` bytes.
    fn allocate_pooled(&mut self, min_capacity: usize) -> (buffer: PooledBuffer)
        requires
            old(self)@.well_formed(),
            min_capacity <= isize::MAX,
        ensures
            final(self)@.well_formed(),
            buffer.well_formed(),
            buffer@ == Seq::<u8>::empty(),
            buffer.room() >= min_capacity,
            old(self)@.leased(min_capacity, buffer.room(), final(self)@),
    {
        let (storage, capacity) = self.acquire_buffer(min_capacity);
        PooledBuffer::new(storage, capacity)
    }

    /// Lends out an empty writable buffer with room for at least `min_capacity` bytes.
    pub fn alloc_writable(&mut self, min_capacity: usize) -> (r: Result<PooledBuffer, CoreError>)
        requires
            old(self)@.well_formed(),
            min_capacity <= isize::MAX,
        ensures
            final(self)@.well_formed(),
            r is Ok,
            r->Ok_0.well_formed(),
            r->Ok_0@ == Seq::<u8>::empty(),
            r->Ok_0.room() >= min_capacity,
            old(self)@.leased(min_capacity, r->Ok_0.room(), final(self)@),
    {
        Ok(self.allocate_pooled(min_capacity))
    }

    /// Lends out a buffer that holds the given bytes and can only be read.
    pub fn alloc_readable(&mut self, data: &[u8]) -> (r: Result<PooledReadable, CoreError>)
        requires
            old(self)@.well_formed(),
            data@.len() <= isize::MAX / 2,
        ensures
            final(self)@.well_formed(),
            r is Ok,
            r->Ok_0.well_formed(),
            r->Ok_0@ == data@,
            old(self)@.leased(data@.len() as usize, r->Ok_0.room(), final(self)@),
    {
        let mut writable = self.allocate_pooled(data.len());
        if data.len() > 0 {
            match writable.put_slice(data) {
                Ok(()) => {},
                Err(error) => {
                    return Err(error);
                },
            }
        }
        proof {
            assert(writable@ == data@);
        }
        Ok(writable.freeze())
    }

    /// Lends out a buffer the way a buffer source does.
    pub fn acquire(&mut self, min_capacity: usize) -> (r: Result<PooledBuffer, CoreError>)
        requires
            old(self)@.well_formed(),
            min_capacity <= isize::MAX,
        ensures
            final(self)@.well_formed(),
            r is Ok,
            r->Ok_0.well_formed(),
            r->Ok_0@ == Seq::<u8>::empty(),
            r->Ok_0.room() >= min_capacity,
            old(self)@.leased(min_capacity, r->Ok_0.room(), final(self)@),
    {
        Ok(self.allocate_pooled(min_capacity))
    }

    /// Lets all waiting storages go and tells how much room they had.
    fn shrink_free_list(&mut self) -> (reclaimed: usize)
        requires
            old(self)@.well_formed(),
        ensures
            final(self)@.well_formed(),
            final(self)@ == old(self)@.shrunk(),
            reclaimed == total(old(self)@.free),
    {
        let mut reclaimed: usize = 0;
        let mut i: usize = 0;
        while i < self.free_list.len()
            invariant
                *self == *old(self),
                self@.well_formed(),
                i <= self.free_list.len(),
                reclaimed == total(self@.free.take(i as int)),
            decreases self.free_list.len() - i,
        {
            proof {
                assert(self@.free.take(i + 1).drop_last() == self@.free.take(i as int));
                lemma_total_prefix(self@.free, i + 1);
            }
            reclaimed = reclaimed + self.free_list[i].capacity;
            i = i + 1;
        }
        proof {
            assert(self@.free.take(i as int) == self@.free);
        }
        self.free_list.clear();
        self.metrics.decrease_on_shrink(reclaimed);
        proof {
            assert(self@.free == Seq::<usize>::empty());
        }
        reclaimed
    }

    /// Lets all waiting storages go and tells how much room they had.
    pub fn shrink_to_fit(&mut self) -> (r: Result<usize, CoreError>)
        requires
            old(self)@.well_formed(),
        ensures
            final(self)@.well_formed(),
            final(self)@ == old(self)@.shrunk(),
            r is Ok,
            r->Ok_0 == total(old(self)@.free),
    {
        Ok(self.shrink_free_list())
    }

    fn snapshot(&self) -> (stats: PoolStats)
        ensures
            stats_of(self@, stats),
    {
        let free_slots: usize = self.free_list.len();
        let mut custom_dimensions: Vec<PoolStatDimension> = Vec::new();
        custom_dimensions.push(PoolStatDimension { key: "slab_free_slots", value: free_slots });
        PoolStats {
            allocated_bytes: self.metrics.allocated_bytes,
            resident_bytes: self.metrics.resident_bytes,
            active_leases: self.metrics.active_leases,
            available_bytes: self.metrics.available_bytes,
            pending_lease_requests: 0,
            failed_acquisitions: self.metrics.failed_acquisitions,
            custom_dimensions,
        }
    }

    /// A snapshot of the counters and of the number of waiting storages.
    pub fn statistics(&self) -> (r: Result<PoolStats, CoreError>)
        ensures
            r is Ok,
            stats_of(self@, r->Ok_0),
    {
        Ok(self.snapshot())
    }

    /// Ends a lease. A storage that came back is emptied and waits for the next lender.
    pub fn reclaim(&mut self, reclaimed: ReclaimedBuffer)
        requires
            old(self)@.well_formed(),
            reclaimed.returned() ==> total(old(self)@.free) + reclaimed.room() <= usize::MAX,
        ensures
            final(self)@.well_formed(),
            final(self)@ == old(self)@.reclaimed(reclaimed.returned(), reclaimed.room()),
    {
        self.metrics.decrease_active_leases();
        let capacity: usize = reclaimed.capacity();
        match reclaimed.buffer {
            Some(buffer) => {
                let mut storage = buffer;
                storage.clear();
                self.metrics.increase_available(capacity);
                self.free_list.push(FreeSlot { storage, capacity });
                proof {
                    assert(self@.free == old(self)@.free.push(capacity));
                    lemma_total_push(old(self)@.free, capacity);
                }
            },
            None => {
                self.metrics.decrease_on_loss(capacity);
            },
        }
    }
}

impl Default for SlabBufferPool {
    fn default() -> (pool: SlabBufferPool)
        ensures
            pool@.free == Seq::<usize>::empty(),
            pool@.metrics == (PoolMetrics {
                allocated_bytes: 0,
                resident_bytes: 0,
                available_bytes: 0,
                active_leases: 0,
                failed_acquisitions: 0,
            }),
            pool@.well_formed(),
    {
        SlabBufferPool::new()
    }
}

/// Whether a snapshot tells what the pool is.
pub open spec fn stats_of(pool: PoolView, stats: PoolStats) -> bool {
    &&& stats.allocated_bytes == pool.metrics.allocated_bytes
    &&& stats.resident_bytes == pool.metrics.resident_bytes
    &&& stats.active_leases == pool.metrics.active_leases
    &&& stats.available_bytes == pool.metrics.available_bytes
    &&& stats.pending_lease_requests == 0
    &&& stats.failed_acquisitions == pool.metrics.failed_acquisitions
    &&& stats.custom_dimensions@.len() == 1
    &&& stats.custom_dimensions@[0].key == "slab_free_slots"
    &&& stats.custom_dimensions@[0].value == pool.free.len()
}

/// A buffer on lease that can be written. Its view is what was written so far.
#[derive(Debug)]
pub struct PooledBuffer {
    storage: BytesMut,
    capacity: usize,
}

impl View for PooledBuffer {
    type V = Seq<u8>;

    closed spec fn view(&self) -> Seq<u8> {
        stored_bytes(self.storage)
    }
}

impl PooledBuffer {
    /// What was written fits into the room that the lease has.
    pub open spec fn well_formed(&self) -> bool {
        self@.len() <= self.room()
    }

    pub closed spec fn room(&self) -> usize {
        self.capacity
    }

    fn new(storage: BytesMut, capacity: usize) -> (buffer: PooledBuffer)
        ensures
            buffer@ == stored_bytes(storage),
            buffer.room() == capacity,
    {
        PooledBuffer { storage, capacity }
    }

    /// How many bytes can be written before the storage has to grow.
    pub fn remaining_mut(&self) -> (remaining: usize)
        requires
            self.well_formed(),
        ensures
            remaining == self.room() - self@.len(),
    {
        self.capacity - as_slice(&self.storage).len()
    }

    /// Appends bytes. Where they do not fit the storage grows, and the lease takes note of its
    /// new room.
    pub fn put_slice(&mut self, src: &[u8]) -> (r: Result<(), CoreError>)
        requires
            old(self).well_formed(),
            old(self)@.len() + src@.len() <= isize::MAX / 2,
        ensures
            r is Ok,
            final(self).well_formed(),
            final(self)@ == old(self)@ + src@,
            old(self)@.len() + src@.len() <= old(self).room() ==> final(self).room() == old(self).room(),
    {
        let fits: bool = src.len() <= self.remaining_mut();
        self.storage.extend_from_slice(src);
        if !fits {
            self.capacity = self.storage.capacity();
        }
        Ok(())
    }

    /// Turns the buffer into one that can only be read, with the same bytes and the same room.
    pub fn freeze(self) -> (frozen: PooledReadable)
        ensures
            frozen.well_formed(),
            frozen@ == self@,
            frozen.room() == self.room(),
    {
        let frozen = PooledReadable { storage: self.storage, capacity: self.capacity, read: 0 };
        proof {
            assert(frozen@ == self@);
        }
        frozen
    }

    /// Ends the lease.
    pub fn into_reclaimed(self) -> (reclaimed: ReclaimedBuffer)
        ensures
            reclaimed.returned(),
            reclaimed.room() == self.room(),
    {
        ReclaimedBuffer { buffer: Some(self.storage), capacity: self.capacity }
    }
}

/// A buffer on lease that can only be read. Its view is what is still to be read.
#[derive(Debug)]
pub struct PooledReadable {
    storage: BytesMut,
    capacity: usize,
    read: usize,
}

impl View for PooledReadable {
    type V = Seq<u8>;

    closed spec fn view(&self) -> Seq<u8> {
        stored_bytes(self.storage).skip(self.read as int)
    }
}

impl PooledReadable {
    /// The reader has not passed the end.
    pub closed spec fn well_formed(&self) -> bool {
        self.read <= stored_bytes(self.storage).len()
    }

    pub closed spec fn room(&self) -> usize {
        self.capacity
    }

    /// How many bytes are still to be read.
    pub fn remaining(&self) -> (remaining: usize)
        requires
            self.well_formed(),
        ensures
            remaining == self@.len(),
    {
        as_slice(&self.storage).len() - self.read
    }

    /// Reads as many bytes as the destination has room for; too few are an error, and then
    /// nothing is read.
    pub fn copy_into_slice(&mut self, dst: &mut [u8]) -> (r: Result<(), CoreError>)
        requires
            old(self).well_formed(),
        ensures
            final(self).well_formed(),
            final(self).room() == old(self).room(),
            final(dst)@.len() == old(dst)@.len(),
            r is Ok <==> old(dst)@.len() <= old(self)@.len(),
            r is Ok ==> final(dst)@ == old(self)@.take(old(dst)@.len() as int) && final(self)@
                == old(self)@.skip(old(dst)@.len() as int),
            r is Err ==> final(dst)@ == old(dst)@ && final(self)@ == old(self)@ && r->Err_0@
                == plain_error(
                ErrorCode::Framework(FrameworkCode::ProtocolDecode),
                "copy exceeds remaining bytes"@,
            ),
    {
        if dst.len() > self.remaining() {
            return Err(
                CoreError::new(
                    ErrorCode::Framework(FrameworkCode::ProtocolDecode),
                    "copy exceeds remaining bytes".to_owned(),
                ),
            );
        }
        let bytes = as_slice(&self.storage);
        let stored: usize = bytes.len();
        let mut i: usize = 0;
        while i < dst.len()
            invariant
                stored == bytes@.len(),
                i <= dst@.len(),
                dst@.len() == old(dst)@.len(),
                self.read + dst@.len() <= bytes@.len(),
                forall|k: int| 0 <= k < i ==> dst@[k] == bytes@[self.read + k],
            decreases dst.len() - i,
        {
            dst[i] = bytes[self.read + i];
            i = i + 1;
        }
        proof {
            assert(dst@ == old(self)@.take(dst@.len() as int));
            assert(bytes@.skip(self.read as int).skip(dst@.len() as int) == bytes@.skip(
                self.read + dst@.len(),
            ));
        }
        self.read = self.read + dst.len();
        Ok(())
    }

    /// Ends the lease.
    pub fn into_reclaimed(self) -> (reclaimed: ReclaimedBuffer)
        ensures
            reclaimed.returned(),
            reclaimed.room() == self.room(),
    {
        ReclaimedBuffer { buffer: Some(self.storage), capacity: self.capacity }
    }
}

proof fn lemma_total_push(s: Seq<usize>, c: usize)
    ensures
        total(s.push(c)) == total(s) + c,
{
    assert(s.push(c).drop_last() == s);
}

proof fn lemma_total_update(s: Seq<usize>, i: int, c: usize)
    requires
        0 <= i < s.len(),
    ensures
        total(s.update(i, c)) == total(s) - s[i] + c,
    decreases s.len(),
{
    if i == s.len() - 1 {
        assert(s.update(i, c).drop_last() == s.drop_last());
    } else {
        assert(s.update(i, c).drop_last() == s.drop_last().update(i, c));
        lemma_total_update(s.drop_last(), i, c);
    }
}

pub(crate) proof fn lemma_total_swap_remove(s: Seq<usize>, i: int)
    requires
        0 <= i < s.len(),
    ensures
        total(swap_removed(s, i)) == total(s) - s[i],
        s[i] <= total(s),
    decreases s.len(),
{
    lemma_total_update(s, i, s.last());
    lemma_total_member(s, i);
}

proof fn lemma_total_member(s: Seq<usize>, i: int)
    requires
        0 <= i < s.len(),
    ensures
        s[i] <= total(s),
    decreases s.len(),
{
    if i < s.len() - 1 {
        lemma_total_member(s.drop_last(), i);
    }
}

proof fn lemma_total_prefix(s: Seq<usize>, n: int)
    requires
        0 <= n <= s.len(),
    ensures
        total(s.take(n)) <= total(s),
    decreases s.len() - n,
{
    if n < s.len() {
        lemma_total_prefix(s, n + 1);
        assert(s.take(n + 1).drop_last() == s.take(n));
    } else {
        assert(s.take(n) == s);
    }
}

/// A lease has at least the room that was asked for, and it is served from the waiting storages
/// whenever one is large enough: then nothing is allocated.
pub proof fn law_lease_has_room_and_reuses(
    before: PoolView,
    min_capacity: usize,
    capacity: usize,
    after: PoolView,
)
    requires
        before.well_formed(),
        before.leased(min_capacity, capacity, after),
    ensures
        after.well_formed(),
        capacity >= min_capacity,
        before.can_reuse(min_capacity) ==> after.metrics.allocated_bytes
            == before.metrics.allocated_bytes && after.metrics.resident_bytes
            == before.metrics.resident_bytes && after.free.len() + 1 == before.free.len()
            && total(after.free) + capacity == total(before.free),
        !before.can_reuse(min_capacity) ==> after.free == before.free,
{
    if before.can_reuse(min_capacity) {
        let index = choose|index: int|
            #![trigger before.reused(index)]
            is_first_fit(before.free, min_capacity, index) && capacity == before.free[index]
                && after == before.reused(index);
        lemma_total_swap_remove(before.free, index);
    }
}

/// A storage that came back serves a later lease that it is large enough for.
pub proof fn law_returned_capacity_is_reused(pool: PoolView, capacity: usize, min_capacity: usize)
    requires
        pool.well_formed(),
        total(pool.free) + capacity <= usize::MAX,
        min_capacity <= capacity,
    ensures
        pool.reclaimed(true, capacity).well_formed(),
        pool.reclaimed(true, capacity).can_reuse(min_capacity),
        pool.reclaimed(true, capacity).metrics.available_bytes >= capacity,
{
    let after = pool.reclaimed(true, capacity);
    lemma_total_push(pool.free, capacity);
    assert(after.free[pool.free.len() as int] == capacity);
}

/// Ending a lease gives back what beginning it took: the number of open leases is as before.
pub proof fn law_lease_and_return_balance(
    pool: PoolView,
    min_capacity: usize,
    capacity: usize,
    lent: PoolView,
    returned: bool,
)
    requires
        pool.leased(min_capacity, capacity, lent),
        pool.metrics.active_leases < usize::MAX,
    ensures
        lent.metrics.active_leases == pool.metrics.active_leases + 1,
        lent.reclaimed(returned, capacity).metrics.active_leases == pool.metrics.active_leases,
{
}

/// Shrinking empties the list and the counter of waiting bytes, and a second time does nothing.
pub proof fn law_shrinking_empties_the_list(pool: PoolView)
    requires
        pool.well_formed(),
    ensures
        pool.shrunk().well_formed(),
        pool.shrunk().metrics.available_bytes == 0,
        pool.shrunk().metrics.active_leases == pool.metrics.active_leases,
        pool.shrunk().shrunk() == pool.shrunk(),
        total(pool.shrunk().free) == 0,
{
}

} // verus!
