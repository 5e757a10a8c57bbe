//! The routes that a router knows, as a list that can be shown and walked.
use vstd::prelude::*;

use crate::router::metadata::{MetadataView, RouteMetadata};
use crate::router::route::{PatternView, RouteId, RoutePattern};

verus! {

/// One route of a catalog. A route that was not deployed yet has no identity.
#[derive(Debug)]
pub struct RouteDescriptor {
    id: Option<RouteId>,
    pattern: RoutePattern,
    metadata: RouteMetadata,
    summary: Option<String>,
}

/// What a descriptor says, for the contracts.
#[verifier::ext_equal]
pub struct DescriptorView {
    pub id: Option<PatternView>,
    pub pattern: PatternView,
    pub metadata: Map<Seq<char>, MetadataView>,
    pub summary: Option<Seq<char>>,
}

impl View for RouteDescriptor {
    type V = DescriptorView;

    closed spec fn view(&self) -> DescriptorView {
        DescriptorView {
            id: match self.id {
                Some(id) => Some(id@),
                None => None,
            },
            pattern: self.pattern@,
            metadata: self.metadata@,
            summary: match self.summary {
                Some(summary) => Some(summary@),
                None => None,
            },
        }
    }
}

impl RouteDescriptor {
    /// A route with the given pattern and nothing else.
    pub fn new(pattern: RoutePattern) -> (descriptor: RouteDescriptor)
        ensures
            descriptor@ == (DescriptorView {
                id: None,
                pattern: pattern@,
                metadata: Map::empty(),
                summary: None,
            }),
    {
        RouteDescriptor { id: None, pattern, metadata: RouteMetadata::new(), summary: None }
    }

    /// The same route, deployed under the given identity.
    pub fn with_id(self, id: RouteId) -> (descriptor: RouteDescriptor)
        ensures
            descriptor@ == (DescriptorView { id: Some(id@), ..self@ }),
    {
        RouteDescriptor {
            id: Some(id),
            pattern: self.pattern,
            metadata: self.metadata,
            summary: self.summary,
        }
    }

    /// The same route with the given attributes.
    pub fn with_metadata(self, metadata: RouteMetadata) -> (descriptor: RouteDescriptor)
        ensures
            descriptor@ == (DescriptorView { metadata: metadata@, ..self@ }),
    {
        RouteDescriptor { id: self.id, pattern: self.pattern, metadata, summary: self.summary }
    }

    /// The same route with a summary for people.
    pub fn with_summary(self, summary: String) -> (descriptor: RouteDescriptor)
        ensures
            descriptor@ == (DescriptorView { summary: Some(summary@), ..self@ }),
    {
        RouteDescriptor {
            id: self.id,
            pattern: self.pattern,
            metadata: self.metadata,
            summary: Some(summary),
        }
    }

    /// The identity, where the route is deployed.
    pub fn id(&self) -> (id: Option<&RouteId>)
        ensures
            id is Some <==> self@.id is Some,
            id is Some ==> id->0@ == self@.id->0,
    {
        self.id.as_ref()
    }

    /// The pattern.
    pub fn pattern(&self) -> (pattern: &RoutePattern)
        ensures
            pattern@ == self@.pattern,
    {
        &self.pattern
    }

    /// The attributes.
    pub fn metadata(&self) -> (metadata: &RouteMetadata)
        ensures
            metadata@ == self@.metadata,
    {
        &self.metadata
    }

    /// The summary, where there is one.
    pub fn summary(&self) -> (summary: Option<&String>)
        ensures
            summary is Some <==> self@.summary is Some,
            summary is Some ==> summary->0@ == self@.summary->0,
    {
        self.summary.as_ref()
    }
}

/// The routes of a router, in the order in which they were added.
#[derive(Debug)]
pub struct RouteCatalog {
    entries: Vec<RouteDescriptor>,
}

impl View for RouteCatalog {
    type V = Seq<DescriptorView>;

    closed spec fn view(&self) -> Seq<DescriptorView> {
        self.entries@.map_values(|descriptor: RouteDescriptor| descriptor@)
    }
}

impl RouteCatalog {
    /// No routes.
    pub fn new() -> (catalog: RouteCatalog)
        ensures
            catalog@ == Seq::<DescriptorView>::empty(),
    {
        let catalog = RouteCatalog { entries: Vec::new() };
        proof {
            assert(catalog@ == Seq::<DescriptorView>::empty());
        }
        catalog
    }

    /// Adds a route at the end.
    pub fn push(&mut self, descriptor: RouteDescriptor)
        ensures
            final(self)@ == old(self)@.push(descriptor@),
    {
        self.entries.push(descriptor);
        proof {
            assert(self@ == old(self)@.push(descriptor@));
        }
    }

    /// All routes, in order.
    pub fn iter(&self) -> (walk: &Vec<RouteDescriptor>)
        ensures
            walk@.map_values(|descriptor: RouteDescriptor| descriptor@) == self@,
    {
        &self.entries
    }
}

impl Default for RouteCatalog {
    fn default() -> (catalog: RouteCatalog)
        ensures
            catalog@ == Seq::<DescriptorView>::empty(),
    {
        RouteCatalog::new()
    }
}

} // verus!
