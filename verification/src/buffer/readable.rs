//! An owned run of bytes that is read from front to back.
use vstd::prelude::*;

use crate::error::{plain_error, CoreError, ErrorCode, ErrorView, FrameworkCode};

verus! {

/// Bytes that wait to be read. The view is what is still to be read.
#[derive(Debug, PartialEq, Eq)]
pub struct OwnedReadableBuffer {
    data: Vec<u8>,
    cursor: usize,
}

impl View for OwnedReadableBuffer {
    type V = Seq<u8>;

    closed spec fn view(&self) -> Seq<u8> {
        self.data@.skip(self.cursor as int)
    }
}

/// The error of a read beyond the end.
pub open spec fn beyond_end(message: Seq<char>) -> ErrorView {
    plain_error(ErrorCode::Framework(FrameworkCode::ProtocolDecode), message)
}

fn decode_error(message: &str) -> (error: CoreError)
    ensures
        error@ == beyond_end(message@),
{
    CoreError::new(ErrorCode::Framework(FrameworkCode::ProtocolDecode), message.to_owned())
}

impl OwnedReadableBuffer {
    #[verifier::type_invariant]
    spec fn within(self) -> bool {
        self.cursor <= self.data@.len()
    }

    /// A buffer with the given bytes to read.
    pub fn new(data: Vec<u8>) -> (buffer: OwnedReadableBuffer)
        ensures
            buffer@ == data@,
    {
        let ghost bytes = data@;
        let buffer = OwnedReadableBuffer { data, cursor: 0 };
        proof {
            assert(buffer@ == bytes);
        }
        buffer
    }

    /// How many bytes are still to be read.
    pub fn remaining(&self) -> (remaining: usize)
        ensures
            remaining == self@.len(),
    {
        proof {
            use_type_invariant(self);
        }
        self.data.len() - self.cursor
    }

    /// A copy of some of the bytes at the front.
    fn front(&self, len: usize) -> (front: Vec<u8>)
        requires
            len <= self@.len(),
        ensures
            front@ == self@.take(len as int),
    {
        proof {
            use_type_invariant(self);
        }
        let stored: usize = self.data.len();
        let mut front: Vec<u8> = Vec::new();
        let mut i: usize = 0;
        while i < len
            invariant
                stored == self.data@.len(),
                i <= len <= self@.len(),
                self.cursor <= self.data@.len(),
                front@ == self@.take(i as int),
            decreases len - i,
        {
            front.push(self.data[self.cursor + i]);
            i = i + 1;
            proof {
                assert(self@.take(i as int) == self@.take(i - 1).push(self@[i - 1]));
            }
        }
        front
    }

    /// All bytes that are still to be read.
    pub fn chunk(&self) -> (chunk: Vec<u8>)
        ensures
            chunk@ == self@,
    {
        let chunk = self.front(self.remaining());
        proof {
            assert(self@.take(self@.len() as int) == self@);
        }
        chunk
    }

    /// Takes the first `len` bytes off into a buffer of their own.
    pub fn split_to(&mut self, len: usize) -> (r: Result<OwnedReadableBuffer, CoreError>)
        ensures
            r is Ok <==> len <= old(self)@.len(),
            r is Ok ==> r->Ok_0@ == old(self)@.take(len as int) && final(self)@ == old(self)@.skip(
                len as int,
            ),
            r is Err ==> final(self)@ == old(self)@ && r->Err_0@ == beyond_end(
                "split length exceeds remaining bytes"@,
            ),
    {
        if len > self.remaining() {
            return Err(decode_error("split length exceeds remaining bytes"));
        }
        let front = self.front(len);
        self.pass(len);
        Ok(OwnedReadableBuffer::new(front))
    }

    /// Passes over the first `len` bytes.
    fn pass(&mut self, len: usize)
        requires
            len <= old(self)@.len(),
        ensures
            final(self)@ == old(self)@.skip(len as int),
    {
        proof {
            use_type_invariant(&*self);
            assert(self.data@.skip(self.cursor as int).skip(len as int) == self.data@.skip(
                self.cursor + len,
            ));
        }
        let stored: usize = self.data.len();
        self.cursor = self.cursor + len;
    }

    /// Passes over the first `len` bytes, where there are that many.
    pub fn advance(&mut self, len: usize) -> (r: Result<(), CoreError>)
        ensures
            r is Ok <==> len <= old(self)@.len(),
            r is Ok ==> final(self)@ == old(self)@.skip(len as int),
            r is Err ==> final(self)@ == old(self)@ && r->Err_0@ == beyond_end(
                "advance exceeds remaining bytes"@,
            ),
    {
        if len > self.remaining() {
            return Err(decode_error("advance exceeds remaining bytes"));
        }
        self.pass(len);
        Ok(())
    }

    /// Reads as many bytes as the destination has room for, where there are that many.
    pub fn copy_into_slice(&mut self, dst: &mut [u8]) -> (r: Result<(), CoreError>)
        ensures
            final(dst)@.len() == old(dst)@.len(),
            r is Ok <==> old(dst)@.len() <= old(self)@.len(),
            r is Ok ==> final(dst)@ == old(self)@.take(old(dst)@.len() as int) && final(self)@
                == old(self)@.skip(old(dst)@.len() as int),
            r is Err ==> final(dst)@ == old(dst)@ && final(self)@ == old(self)@ && r->Err_0@
                == beyond_end("copy exceeds remaining bytes"@),
    {
        if dst.len() > self.remaining() {
            return Err(decode_error("copy exceeds remaining bytes"));
        }
        let front = self.front(dst.len());
        let mut i: usize = 0;
        while i < dst.len()
            invariant
                i <= dst@.len(),
                dst@.len() == front@.len(),
                dst@.len() == old(dst)@.len(),
                forall|k: int| 0 <= k < i ==> dst@[k] == front@[k],
            decreases dst.len() - i,
        {
            dst[i] = front[i];
            i = i + 1;
        }
        self.pass(dst.len());
        proof {
            assert(dst@ == front@);
        }
        Ok(())
    }

    /// All bytes that are still to be read, as the buffer is given up.
    pub fn try_into_vec(self) -> (r: Result<Vec<u8>, CoreError>)
        ensures
            r is Ok,
            r->Ok_0@ == self@,
    {
        Ok(self.chunk())
    }
}

/// Splitting loses nothing: the part that was taken off and the part that stays make up what was
/// there before.
pub proof fn law_split_loses_nothing(before: Seq<u8>, len: int)
    requires
        0 <= len <= before.len(),
    ensures
        before.take(len) + before.skip(len) == before,
{
    assert(before.take(len) + before.skip(len) == before);
}

} // verus!
