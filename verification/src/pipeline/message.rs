//! What travels through a pipeline.
use vstd::prelude::*;

use crate::buffer::readable::OwnedReadableBuffer;

verus! {

/// A message that a protocol layer has decoded: the kind that it gave it, and the number under
/// which the host keeps it.
#[derive(Debug, PartialEq, Eq)]
pub struct UserMessage {
    pub kind: String,
    pub number: u64,
}

/// A message on its way through a pipeline: raw bytes, or something decoded.
#[derive(Debug, PartialEq, Eq)]
pub enum PipelineMessage {
    Buffer(OwnedReadableBuffer),
    User(UserMessage),
}

impl PipelineMessage {
    /// The kind of a decoded message; raw bytes have none.
    pub open spec fn kind(&self) -> Option<Seq<char>> {
        match self {
            PipelineMessage::Buffer(_) => None,
            PipelineMessage::User(user) => Some(user.kind@),
        }
    }

    /// The kind of a decoded message; raw bytes have none.
    pub fn user_kind(&self) -> (kind: Option<&str>)
        ensures
            kind is Some <==> self.kind() is Some,
            kind is Some ==> kind->0@ == self.kind()->0,
    {
        match self {
            PipelineMessage::Buffer(_) => None,
            PipelineMessage::User(user) => Some(user.kind.as_str()),
        }
    }
}

} // verus!
