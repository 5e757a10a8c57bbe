//! Logical routes: their kind, the pattern that names them, and the identity of one that exists.
use vstd::prelude::*;

use crate::text::{copy_texts, texts};

verus! {

/// What kind of exchange a route serves.
#[derive(Clone, Copy, Debug, PartialEq, Eq, Structural)]
pub enum RouteKind {
    Rpc,
    Control,
}

/// A route as it is asked for: a kind and the literal segments of its path.
#[derive(Debug, PartialEq, Eq)]
pub struct RoutePattern {
    kind: RouteKind,
    segments: Vec<String>,
}

/// What a pattern says, for the contracts.
#[verifier::ext_equal]
pub struct PatternView {
    pub kind: RouteKind,
    pub segments: Seq<Seq<char>>,
}

impl View for RoutePattern {
    type V = PatternView;

    closed spec fn view(&self) -> PatternView {
        PatternView { kind: self.kind, segments: texts(self.segments@) }
    }
}

impl RoutePattern {
    /// A pattern of the given kind and segments.
    pub fn new(kind: RouteKind, segments: Vec<String>) -> (pattern: RoutePattern)
        ensures
            pattern@ == (PatternView { kind, segments: texts(segments@) }),
    {
        RoutePattern { kind, segments }
    }

    /// The kind of exchange.
    pub fn kind(&self) -> (kind: &RouteKind)
        ensures
            *kind == self@.kind,
    {
        &self.kind
    }
}

impl Clone for RoutePattern {
    /// A copy says the same.
    fn clone(&self) -> (copy: RoutePattern)
        ensures
            copy@ == self@,
    {
        RoutePattern { kind: self.kind, segments: copy_texts(&self.segments) }
    }
}

/// The identity of a route that exists.
#[derive(Debug, PartialEq, Eq)]
pub struct RouteId {
    kind: RouteKind,
    segments: Vec<String>,
}

impl View for RouteId {
    type V = PatternView;

    closed spec fn view(&self) -> PatternView {
        PatternView { kind: self.kind, segments: texts(self.segments@) }
    }
}

impl RouteId {
    /// The identity with the given kind and segments.
    pub fn new(kind: RouteKind, segments: Vec<String>) -> (id: RouteId)
        ensures
            id@ == (PatternView { kind, segments: texts(segments@) }),
    {
        RouteId { kind, segments }
    }
}

} // verus!
