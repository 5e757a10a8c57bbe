//! The outcome of polling something that may not have finished yet.
use vstd::prelude::*;

verus! {

/// Result of one poll: a finished value, or the promise of a later wake-up.
#[derive(Debug, PartialEq, Eq)]
pub enum Poll<T> {
    Ready(T),
    Pending,
}

/// Identifies the task that asked to be woken. Two polls made on behalf of the same task carry
/// the same id.
pub type WakerId = u64;

} // verus!
