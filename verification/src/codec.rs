//! Codecs: one trait for both directions, and what follows for each direction alone.
use vstd::prelude::*;

use crate::error::CoreError;

verus! {

/// What came out of reading: an item, not enough input yet, or input to pass over.
#[derive(Debug, PartialEq, Eq)]
pub enum DecodeOutcome<T> {
    Complete(T),
    Incomplete,
    Skipped,
}

/// Turns items into payloads, and input into items. Buffers and the limits of a call are types
/// of the codec's own; what a call may change is handed in and comes back with the result.
pub trait Codec {
    /// What is read.
    type Incoming;
    /// What is written.
    type Outgoing;
    /// What is read from.
    type Source;
    /// What is written to.
    type Payload;
    /// What limits a call.
    type CallLimits;
    /// How the codec shows up.
    type Descriptor;

    /// How the codec shows up.
    fn descriptor(&self) -> &Self::Descriptor;

    /// Writes an item.
    fn encode(&self, item: &Self::Outgoing, limits: Self::CallLimits) -> (
        Result<Self::Payload, CoreError>,
        Self::CallLimits,
    );

    /// Reads an item.
    fn decode(&self, source: Self::Source, limits: Self::CallLimits) -> (
        Result<DecodeOutcome<Self::Incoming>, CoreError>,
        Self::Source,
        Self::CallLimits,
    );
}

/// Turns items into payloads.
pub trait Encoder {
    /// What is written.
    type Item;
    /// What is written to.
    type Payload;
    /// What limits a call.
    type CallLimits;
    /// How the encoder shows up.
    type Descriptor;

    /// How the encoder shows up.
    fn encoder_descriptor(&self) -> &Self::Descriptor;

    /// Writes an item.
    fn encode_item(&self, item: &Self::Item, limits: Self::CallLimits) -> (
        Result<Self::Payload, CoreError>,
        Self::CallLimits,
    );
}

/// Turns input into items.
pub trait Decoder {
    /// What is read.
    type Item;
    /// What is read from.
    type Source;
    /// What limits a call.
    type CallLimits;
    /// How the decoder shows up.
    type Descriptor;

    /// How the decoder shows up.
    fn decoder_descriptor(&self) -> &Self::Descriptor;

    /// Reads an item.
    fn decode_item(&self, source: Self::Source, limits: Self::CallLimits) -> (
        Result<DecodeOutcome<Self::Item>, CoreError>,
        Self::Source,
        Self::CallLimits,
    );
}

/// A codec can be used where only writing is asked for: it writes as it does as a codec.
impl<T: Codec> Encoder for T {
    type Item = T::Outgoing;

    type Payload = T::Payload;

    type CallLimits = T::CallLimits;

    type Descriptor = T::Descriptor;

    fn encoder_descriptor(&self) -> (descriptor: &T::Descriptor)
        ensures
            call_ensures(T::descriptor, (self,), descriptor),
    {
        self.descriptor()
    }

    fn encode_item(&self, item: &T::Outgoing, limits: T::CallLimits) -> (r: (
        Result<T::Payload, CoreError>,
        T::CallLimits,
    ))
        ensures
            call_ensures(T::encode, (self, item, limits), r),
    {
        self.encode(item, limits)
    }
}

/// A codec can be used where only reading is asked for: it reads as it does as a codec.
impl<T: Codec> Decoder for T {
    type Item = T::Incoming;

    type Source = T::Source;

    type CallLimits = T::CallLimits;

    type Descriptor = T::Descriptor;

    fn decoder_descriptor(&self) -> (descriptor: &T::Descriptor)
        ensures
            call_ensures(T::descriptor, (self,), descriptor),
    {
        self.descriptor()
    }

    fn decode_item(&self, source: T::Source, limits: T::CallLimits) -> (r: (
        Result<DecodeOutcome<T::Incoming>, CoreError>,
        T::Source,
        T::CallLimits,
    ))
        ensures
            call_ensures(T::decode, (self, source, limits), r),
    {
        self.decode(source, limits)
    }
}

} // verus!
