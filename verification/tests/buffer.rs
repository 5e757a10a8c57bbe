use spark::buffer::pool::{PoolStatDimension, ReclaimedBuffer, SlabBufferPool};
use spark::buffer::readable::OwnedReadableBuffer;
use spark::error::ErrorCode;

#[test]
fn reusable_capacity_returns_to_pool() {
    let mut pool = SlabBufferPool::new();
    {
        let mut writable = pool.alloc_writable(64).expect("租借缓冲失败");
        assert!(writable.remaining_mut() >= 64);
        writable.put_slice(&[1, 2, 3, 4]).expect("写入测试数据");
        pool.reclaim(writable.into_reclaimed());
    }
    let snapshot = pool.statistics().expect("读取统计失败");
    assert!(snapshot.available_bytes >= 64);
    {
        let second = pool.alloc_writable(16).expect("复用缓冲失败");
        pool.reclaim(second.into_reclaimed());
    }
    let after = pool.statistics().expect("读取统计失败");
    assert!(after.allocated_bytes >= snapshot.allocated_bytes);
}

#[test]
fn alloc_readable_preserves_payload() {
    let mut pool = SlabBufferPool::new();
    let payload = [9u8, 8, 7, 6];
    let mut readable = pool.alloc_readable(&payload).expect("分配只读缓冲失败");
    let mut out = [0u8; 4];
    readable.copy_into_slice(&mut out).expect("读取数据失败");
    assert_eq!(out, payload);
}

#[test]
fn returned_capacity_is_leased_again_without_allocation() {
    let mut pool = SlabBufferPool::default();
    let first = pool.acquire(64).expect("first lease");
    let first_stats = pool.statistics().expect("statistics");
    assert_eq!(first_stats.active_leases, 1);
    assert_eq!(first_stats.available_bytes, 0);
    pool.reclaim(first.into_reclaimed());

    let second = pool.acquire(16).expect("second lease");
    assert!(second.remaining_mut() >= 64);
    let second_stats = pool.statistics().expect("statistics");
    assert_eq!(second_stats.allocated_bytes, first_stats.allocated_bytes);
    assert_eq!(second_stats.resident_bytes, first_stats.resident_bytes);
    assert_eq!(second_stats.active_leases, 1);
    assert_eq!(second_stats.available_bytes, 0);
}

#[test]
fn a_free_buffer_that_is_too_small_is_not_leased() {
    let mut pool = SlabBufferPool::new();
    let small = pool.acquire(8).expect("small lease");
    pool.reclaim(small.into_reclaimed());
    let before = pool.statistics().expect("statistics");
    let large = pool.acquire(before.available_bytes + 1).expect("large lease");
    assert!(large.remaining_mut() > before.available_bytes);
    let after = pool.statistics().expect("statistics");
    assert!(after.allocated_bytes > before.allocated_bytes);
    assert_eq!(after.available_bytes, before.available_bytes);
}

#[test]
fn shrinking_gives_up_everything_that_is_free() {
    let mut pool = SlabBufferPool::new();
    let lease = pool.acquire(32).expect("lease");
    pool.reclaim(lease.into_reclaimed());
    let before = pool.statistics().expect("statistics");
    let freed = pool.shrink_to_fit().expect("shrink");
    assert_eq!(freed, before.available_bytes);
    let after = pool.statistics().expect("statistics");
    assert_eq!(after.available_bytes, 0);
    assert_eq!(after.resident_bytes, 0);
    assert_eq!(pool.shrink_to_fit().expect("shrink again"), 0);
}

#[test]
fn a_lost_buffer_leaves_the_books() {
    let mut pool = SlabBufferPool::new();
    let lease = pool.acquire(32).expect("lease");
    let reclaimed = lease.into_reclaimed();
    let capacity = reclaimed.capacity();
    pool.reclaim(ReclaimedBuffer::lost(capacity));
    let stats = pool.statistics().expect("statistics");
    assert_eq!(stats.active_leases, 0);
    assert_eq!(stats.resident_bytes, 0);
    assert_eq!(stats.available_bytes, 0);
    assert_eq!(stats.allocated_bytes, 0);
}

#[test]
fn statistics_of_a_fresh_pool_are_zero() {
    let stats = SlabBufferPool::new().statistics().expect("statistics");
    assert_eq!(stats.allocated_bytes, 0);
    assert_eq!(stats.pending_lease_requests, 0);
    assert_eq!(stats.failed_acquisitions, 0);
    let keys: Vec<&PoolStatDimension> = stats.custom_dimensions.iter().collect();
    for dimension in keys {
        assert_eq!(dimension.value, 0);
    }
}

#[test]
fn a_buffer_grows_with_what_is_written() {
    let mut pool = SlabBufferPool::new();
    let mut writable = pool.alloc_writable(4).expect("lease");
    let room = writable.remaining_mut();
    writable.put_slice(&[1, 2]).expect("write");
    assert_eq!(writable.remaining_mut(), room - 2);
    let much = vec![7u8; room];
    writable.put_slice(&much).expect("grow");
    let mut frozen = writable.freeze();
    assert_eq!(frozen.remaining(), room + 2);
    let mut out = [0u8; 2];
    frozen.copy_into_slice(&mut out).expect("read");
    assert_eq!(out, [1, 2]);
    assert_eq!(frozen.remaining(), room);
    assert!(frozen.into_reclaimed().capacity() >= room + 2);
}

#[test]
fn reading_more_than_is_there_is_refused() {
    let mut pool = SlabBufferPool::new();
    let mut readable = pool.alloc_readable(&[5, 6]).expect("lease");
    let mut out = [0u8; 3];
    assert!(readable.copy_into_slice(&mut out).is_err());
    assert_eq!(readable.remaining(), 2);
    let mut out = [0u8; 2];
    readable.copy_into_slice(&mut out).expect("read");
    assert_eq!(out, [5, 6]);
    assert_eq!(readable.remaining(), 0);
}

#[test]
fn a_split_buffer_holds_the_same_bytes_in_two_parts() {
    let mut buffer = OwnedReadableBuffer::new(vec![1, 2, 3, 4, 5]);
    let front = buffer.split_to(2).expect("split");
    assert_eq!(front.chunk(), vec![1, 2]);
    assert_eq!(buffer.chunk(), vec![3, 4, 5]);
    buffer.advance(1).expect("advance");
    assert_eq!(buffer.remaining(), 2);
    let mut out = [0u8; 1];
    buffer.copy_into_slice(&mut out).expect("copy");
    assert_eq!(out, [4]);
    assert_eq!(buffer.try_into_vec().expect("rest"), vec![5]);
}

#[test]
fn reading_past_the_end_is_refused_and_changes_nothing() {
    let mut buffer = OwnedReadableBuffer::new(vec![1, 2]);
    assert!(buffer.split_to(3).is_err());
    assert!(buffer.advance(3).is_err());
    let mut out = [9u8; 3];
    let error = buffer.copy_into_slice(&mut out).expect_err("too much");
    assert!(matches!(error.code, ErrorCode::Framework(_) | ErrorCode::Named(_)));
    assert_eq!(out, [9, 9, 9]);
    assert_eq!(buffer.try_into_vec().expect("all"), vec![1, 2]);
}
