//! What a pool lends out and takes back, counter by counter.
use vstd::prelude::*;

use crate::buffer::pool::{
    is_first_fit, total, PoolStats, PoolView, PooledBuffer, PooledReadable, ReclaimedBuffer,
    SlabBufferPool,
};
use crate::buffer::readable::OwnedReadableBuffer;
use crate::error::{CoreError, ErrorCode, FrameworkCode};

verus! {

/// Whether a lease was served from what waited: the first storage that is large enough is lent, the
/// last one takes its place, and nothing is allocated.
pub open spec fn served_from_the_list(
    before: PoolView,
    min_capacity: int,
    room: usize,
    after: PoolView,
    index: int,
) -> bool {
    &&& 0 <= index < before.free.len()
    &&& before.free[index] >= min_capacity
    &&& forall|k: int| 0 <= k < index ==> #[trigger] before.free[k] < min_capacity
    &&& room == before.free[index]
    &&& after.free.len() == before.free.len() - 1
    &&& forall|k: int|
        0 <= k < after.free.len() ==> #[trigger] after.free[k] == if k == index {
            before.free[before.free.len() - 1]
        } else {
            before.free[k]
        }
    &&& after.metrics.available_bytes + room == before.metrics.available_bytes
    &&& after.metrics.allocated_bytes == before.metrics.allocated_bytes
    &&& after.metrics.resident_bytes == before.metrics.resident_bytes
}

/// Whether a lease was served by a fresh storage: what waits stays, and the room of the storage is
/// counted as allocated and resident.
pub open spec fn served_afresh(before: PoolView, room: usize, after: PoolView) -> bool {
    &&& after.free == before.free
    &&& after.metrics.available_bytes == before.metrics.available_bytes
    &&& before.metrics.allocated_bytes + room <= usize::MAX ==> after.metrics.allocated_bytes
        == before.metrics.allocated_bytes + room
    &&& before.metrics.resident_bytes + room <= usize::MAX ==> after.metrics.resident_bytes
        == before.metrics.resident_bytes + room
}

/// Whether a lease was served, from what waited where that has the room and afresh otherwise, and
/// is counted.
pub open spec fn served(before: PoolView, min_capacity: int, room: usize, after: PoolView) -> bool {
    &&& room >= min_capacity
    &&& (exists|k: int| 0 <= k < before.free.len() && #[trigger] before.free[k] >= min_capacity)
        ==> exists|index: int|
        #[trigger] served_from_the_list(before, min_capacity, room, after, index)
    &&& (forall|k: int| 0 <= k < before.free.len() ==> #[trigger] before.free[k] < min_capacity)
        ==> served_afresh(before, room, after)
    &&& before.metrics.active_leases < usize::MAX ==> after.metrics.active_leases
        == before.metrics.active_leases + 1
    &&& after.metrics.failed_acquisitions == before.metrics.failed_acquisitions
}

proof fn lemma_served(before: PoolView, min_capacity: usize, room: usize, after: PoolView)
    requires
        before.well_formed(),
        before.leased(min_capacity, room, after),
    ensures
        served(before, min_capacity as int, room, after),
{
    if before.can_reuse(min_capacity) {
        let index = choose|index: int|
            #![trigger before.reused(index)]
            is_first_fit(before.free, min_capacity, index) && room == before.free[index] && after
                == before.reused(index);
        crate::buffer::pool::lemma_total_swap_remove(before.free, index);
        assert(served_from_the_list(before, min_capacity as int, room, after, index));
    } else {
        assert forall|k: int| 0 <= k < before.free.len() implies #[trigger] before.free[k]
            < min_capacity by {}
    }
}

/// A writable buffer is lent out empty, with at least the room that was asked for, from the first
/// waiting storage that is large enough, or else afresh.
pub proof fn law_a_writable_buffer_is_lent(
    pool: &mut SlabBufferPool,
    min_capacity: usize,
    r: Result<PooledBuffer, CoreError>,
)
    requires
        old(pool)@.well_formed(),
        call_ensures(SlabBufferPool::alloc_writable, (pool, min_capacity), r) || call_ensures(
            SlabBufferPool::acquire,
            (pool, min_capacity),
            r,
        ),
    ensures
        r is Ok,
        r->Ok_0@.len() == 0,
        r->Ok_0.room() >= min_capacity,
        served(old(pool)@, min_capacity as int, r->Ok_0.room(), final(pool)@),
{
    lemma_served(old(pool)@, min_capacity, r->Ok_0.room(), final(pool)@);
}

/// A readable buffer is lent out with exactly the given bytes, as a lease of that many.
pub proof fn law_a_readable_buffer_holds_the_bytes(
    pool: &mut SlabBufferPool,
    data: &[u8],
    r: Result<PooledReadable, CoreError>,
)
    requires
        old(pool)@.well_formed(),
        data@.len() <= isize::MAX / 2,
        call_ensures(SlabBufferPool::alloc_readable, (pool, data), r),
    ensures
        r is Ok,
        r->Ok_0@ == data@,
        served(old(pool)@, data@.len() as int, r->Ok_0.room(), final(pool)@),
{
    lemma_served(old(pool)@, data@.len() as usize, r->Ok_0.room(), final(pool)@);
}

/// The end of a lease is counted. A storage that came back waits behind all others and counts as
/// available, and stays allocated; one that did not is no longer allocated.
pub proof fn law_a_lease_is_taken_back(pool: &mut SlabBufferPool, reclaimed: ReclaimedBuffer)
    requires
        old(pool)@.well_formed(),
        reclaimed.returned() ==> total(old(pool)@.free) + reclaimed.room() <= usize::MAX,
        call_ensures(SlabBufferPool::reclaim, (pool, reclaimed), ()),
    ensures
        old(pool)@.metrics.active_leases > 0 ==> final(pool)@.metrics.active_leases
            == old(pool)@.metrics.active_leases - 1,
        old(pool)@.metrics.active_leases == 0 ==> final(pool)@.metrics.active_leases == 0,
        final(pool)@.metrics.failed_acquisitions == old(pool)@.metrics.failed_acquisitions,
        reclaimed.returned() ==> {
            &&& final(pool)@.free == old(pool)@.free + seq![reclaimed.room()]
            &&& final(pool)@.metrics.available_bytes == old(pool)@.metrics.available_bytes
                + reclaimed.room()
            &&& final(pool)@.metrics.allocated_bytes == old(pool)@.metrics.allocated_bytes
            &&& final(pool)@.metrics.resident_bytes == old(pool)@.metrics.resident_bytes
        },
        !reclaimed.returned() ==> {
            &&& final(pool)@.free == old(pool)@.free
            &&& final(pool)@.metrics.available_bytes == old(pool)@.metrics.available_bytes
            &&& old(pool)@.metrics.allocated_bytes >= reclaimed.room()
                ==> final(pool)@.metrics.allocated_bytes + reclaimed.room()
                == old(pool)@.metrics.allocated_bytes
            &&& old(pool)@.metrics.resident_bytes >= reclaimed.room()
                ==> final(pool)@.metrics.resident_bytes + reclaimed.room()
                == old(pool)@.metrics.resident_bytes
        },
{
    if reclaimed.returned() {
        assert(old(pool)@.free.push(reclaimed.room()) =~= old(pool)@.free + seq![
            reclaimed.room(),
        ]);
    }
}

/// Shrinking lets go of everything that waits, tells how much that was, and counts it as neither
/// available nor allocated any more; leases stay.
pub proof fn law_shrinking_lets_go_of_what_waits(
    pool: &mut SlabBufferPool,
    r: Result<usize, CoreError>,
)
    requires
        old(pool)@.well_formed(),
        call_ensures(SlabBufferPool::shrink_to_fit, (pool,), r),
    ensures
        r is Ok,
        r->Ok_0 == old(pool)@.metrics.available_bytes,
        final(pool)@.free.len() == 0,
        final(pool)@.metrics.available_bytes == 0,
        final(pool)@.metrics.active_leases == old(pool)@.metrics.active_leases,
        final(pool)@.metrics.failed_acquisitions == old(pool)@.metrics.failed_acquisitions,
        old(pool)@.metrics.allocated_bytes >= r->Ok_0 ==> final(pool)@.metrics.allocated_bytes
            + r->Ok_0 == old(pool)@.metrics.allocated_bytes,
        old(pool)@.metrics.resident_bytes >= r->Ok_0 ==> final(pool)@.metrics.resident_bytes
            + r->Ok_0 == old(pool)@.metrics.resident_bytes,
{
}

/// The statistics of a pool are its counters, and how many storages wait.
pub proof fn law_statistics_are_the_counters(pool: &SlabBufferPool, r: Result<PoolStats, CoreError>)
    requires
        call_ensures(SlabBufferPool::statistics, (pool,), r),
    ensures
        r is Ok,
        r->Ok_0.allocated_bytes == pool@.metrics.allocated_bytes,
        r->Ok_0.resident_bytes == pool@.metrics.resident_bytes,
        r->Ok_0.active_leases == pool@.metrics.active_leases,
        r->Ok_0.available_bytes == pool@.metrics.available_bytes,
        r->Ok_0.failed_acquisitions == pool@.metrics.failed_acquisitions,
        r->Ok_0.pending_lease_requests == 0,
        r->Ok_0.custom_dimensions@.len() == 1,
        r->Ok_0.custom_dimensions@[0].key == "slab_free_slots",
        r->Ok_0.custom_dimensions@[0].value == pool@.free.len(),
{
}

/// What is written to a buffer stands behind what was written before, and is what a reader gets.
pub proof fn law_what_is_written_is_read(
    buffer: &mut PooledBuffer,
    src: &[u8],
    written: Result<(), CoreError>,
    frozen: PooledReadable,
)
    requires
        old(buffer).well_formed(),
        call_ensures(PooledBuffer::put_slice, (buffer, src), written),
        call_ensures(PooledBuffer::freeze, (*final(buffer),), frozen),
    ensures
        written is Ok,
        frozen@ == old(buffer)@ + src@,
        frozen.room() == final(buffer).room(),
        old(buffer)@.len() + src@.len() <= old(buffer).room() ==> final(buffer).room() == old(buffer).room(),
{
}

/// A read takes exactly as many bytes from the front as it has place for. Where there are too few
/// it takes none and says so.
pub proof fn law_a_read_takes_from_the_front(
    buffer: &mut PooledReadable,
    dst: &mut [u8],
    r: Result<(), CoreError>,
)
    requires
        old(buffer).well_formed(),
        call_ensures(PooledReadable::copy_into_slice, (buffer, dst), r),
    ensures
        r is Ok <==> old(dst)@.len() <= old(buffer)@.len(),
        r is Ok ==> final(dst)@ + final(buffer)@ == old(buffer)@,
        final(dst)@.len() == old(dst)@.len(),
        r is Err ==> final(buffer)@ == old(buffer)@ && final(dst)@ == old(dst)@,
        r is Err ==> r->Err_0@.code == ErrorCode::Framework(FrameworkCode::ProtocolDecode)
            && r->Err_0@.message == "copy exceeds remaining bytes"@ && r->Err_0@.category is None
            && r->Err_0@.cause is None,
{
    if r is Ok {
        assert(final(dst)@ + final(buffer)@ =~= old(buffer)@);
    }
}

/// Whether an error says that more was asked for than there is to read.
pub open spec fn asks_too_much(error: CoreError, text: Seq<char>) -> bool {
    &&& error@.code == ErrorCode::Framework(FrameworkCode::ProtocolDecode)
    &&& error@.message == text
    &&& error@.category is None
    &&& error@.cause is None
}

/// Taking bytes off the front loses none: what was taken and what stays make up what was there.
/// Where there are too few, nothing is taken and that is told.
pub proof fn law_bytes_are_split_off_the_front(
    buffer: &mut OwnedReadableBuffer,
    len: usize,
    r: Result<OwnedReadableBuffer, CoreError>,
)
    requires
        call_ensures(OwnedReadableBuffer::split_to, (buffer, len), r),
    ensures
        r is Ok <==> len <= old(buffer)@.len(),
        r is Ok ==> r->Ok_0@ + final(buffer)@ == old(buffer)@ && r->Ok_0@.len() == len,
        r is Err ==> final(buffer)@ == old(buffer)@ && asks_too_much(
            r->Err_0,
            "split length exceeds remaining bytes"@,
        ),
{
    if r is Ok {
        assert(r->Ok_0@ + final(buffer)@ =~= old(buffer)@);
    }
}

/// Passing over bytes drops exactly that many off the front. Where there are too few, nothing is
/// passed over and that is told.
pub proof fn law_bytes_are_passed_over(
    buffer: &mut OwnedReadableBuffer,
    len: usize,
    r: Result<(), CoreError>,
)
    requires
        call_ensures(OwnedReadableBuffer::advance, (buffer, len), r),
    ensures
        r is Ok <==> len <= old(buffer)@.len(),
        r is Ok ==> final(buffer)@ == old(buffer)@.subrange(len as int, old(buffer)@.len() as int),
        r is Err ==> final(buffer)@ == old(buffer)@ && asks_too_much(
            r->Err_0,
            "advance exceeds remaining bytes"@,
        ),
{
    if r is Ok {
        assert(final(buffer)@ =~= old(buffer)@.subrange(len as int, old(buffer)@.len() as int));
    }
}

/// Reading bytes takes exactly as many off the front as there is place for. Where there are too
/// few, nothing is read and that is told.
pub proof fn law_bytes_are_read_off_the_front(
    buffer: &mut OwnedReadableBuffer,
    dst: &mut [u8],
    r: Result<(), CoreError>,
)
    requires
        call_ensures(OwnedReadableBuffer::copy_into_slice, (buffer, dst), r),
    ensures
        final(dst)@.len() == old(dst)@.len(),
        r is Ok <==> old(dst)@.len() <= old(buffer)@.len(),
        r is Ok ==> final(dst)@ + final(buffer)@ == old(buffer)@,
        r is Err ==> final(buffer)@ == old(buffer)@ && final(dst)@ == old(dst)@ && asks_too_much(
            r->Err_0,
            "copy exceeds remaining bytes"@,
        ),
{
    if r is Ok {
        assert(final(dst)@ + final(buffer)@ =~= old(buffer)@);
    }
}

/// What is to be read is handed out whole.
pub proof fn law_a_buffer_is_handed_out_whole(
    data: Vec<u8>,
    buffer: OwnedReadableBuffer,
    chunk: Vec<u8>,
    taken: Result<Vec<u8>, CoreError>,
)
    requires
        call_ensures(OwnedReadableBuffer::new, (data,), buffer),
        call_ensures(OwnedReadableBuffer::chunk, (&buffer,), chunk),
        call_ensures(OwnedReadableBuffer::try_into_vec, (buffer,), taken),
    ensures
        buffer@ == data@,
        chunk@ == data@,
        taken is Ok && taken->Ok_0@ == data@,
{
}

} // verus!
