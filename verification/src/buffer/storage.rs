//! The growable byte storage behind a buffer: `bytes::BytesMut`, seen through the bytes that it
//! holds.
use bytes::BytesMut;
use vstd::prelude::*;

verus! {

/// `bytes::BytesMut`, an owned growable run of bytes.
#[verifier::external_type_specification]
#[verifier::external_body]
pub struct ExBytesMut(bytes::BytesMut);

/// The bytes that a storage holds.
pub uninterp spec fn stored_bytes(storage: BytesMut) -> Seq<u8>;

/// `BytesMut::with_capacity` and, on what it made, `BytesMut::capacity`: the storage is empty
/// and has room for at least the asked number of bytes. How much room an allocation really has
/// is up to the allocator; it comes back as the second value.
#[verifier::external_body]
pub(crate) fn allocate(min_capacity: usize) -> (made: (BytesMut, usize))
    requires
        min_capacity <= isize::MAX,
    ensures
        stored_bytes(made.0) == Seq::<u8>::empty(),
        made.1 >= min_capacity,
{
    let storage = BytesMut::with_capacity(min_capacity);
    let capacity = storage.capacity();
    (storage, capacity)
}

/// `BytesMut::clear`: no bytes are left.
pub assume_specification[ BytesMut::clear ](storage: &mut BytesMut)
    ensures
        stored_bytes(*final(storage)) == Seq::<u8>::empty(),
;

/// `BytesMut::extend_from_slice`: the bytes are appended. The storage grows where they do not
/// fit; a size beyond what a single allocation may have is ruled out.
pub assume_specification[ BytesMut::extend_from_slice ](storage: &mut BytesMut, extend: &[u8])
    requires
        stored_bytes(*old(storage)).len() + extend@.len() <= isize::MAX / 2,
    ensures
        stored_bytes(*final(storage)) == stored_bytes(*old(storage)) + extend@,
;

/// `BytesMut::capacity`: room for at least the bytes that are there. The number itself is the
/// allocator's choice.
pub assume_specification[ BytesMut::capacity ](storage: &BytesMut) -> (capacity: usize)
    ensures
        capacity >= stored_bytes(*storage).len(),
;

/// `BytesMut::as_ref`: the bytes that the storage holds, as a slice.
#[verifier::external_body]
pub(crate) fn as_slice(storage: &BytesMut) -> (bytes: &[u8])
    ensures
        bytes@ == stored_bytes(*storage),
{
    storage.as_ref()
}

} // verus!
