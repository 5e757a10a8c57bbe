//! What handlers leave on a channel for those further down: the material of a routing decision.
use std::sync::Arc;

use vstd::prelude::*;

use crate::router::context::{
    connection_view, ConnectionIntent, ConnectionView, IntentView, RoutingIntent,
};
use crate::router::metadata::{MetadataView, RouteMetadata};

verus! {

/// The material of a routing decision, collected along the pipeline.
#[derive(Debug)]
pub struct RouterContextState {
    intent: RoutingIntent,
    connection: Option<ConnectionIntent>,
    dynamic_metadata: RouteMetadata,
}

/// What the material of a routing decision says, for the contracts.
#[verifier::ext_equal]
pub struct MaterialView {
    pub intent: IntentView,
    pub connection: Option<ConnectionView>,
    pub dynamic_metadata: Map<Seq<char>, MetadataView>,
}

impl View for RouterContextState {
    type V = MaterialView;

    closed spec fn view(&self) -> MaterialView {
        MaterialView {
            intent: self.intent@,
            connection: connection_view(self.connection),
            dynamic_metadata: self.dynamic_metadata@,
        }
    }
}

/// A copy of the material, free of the channel that it was left on.
#[derive(Debug)]
pub struct RouterContextSnapshot {
    pub intent: RoutingIntent,
    pub connection: Option<ConnectionIntent>,
    pub dynamic_metadata: RouteMetadata,
}

impl View for RouterContextSnapshot {
    type V = MaterialView;

    open spec fn view(&self) -> MaterialView {
        MaterialView {
            intent: self.intent@,
            connection: connection_view(self.connection),
            dynamic_metadata: self.dynamic_metadata@,
        }
    }
}

impl RouterContextState {
    /// Material with an intent and nothing else.
    pub fn new(intent: RoutingIntent) -> (state: RouterContextState)
        ensures
            state@ == (MaterialView {
                intent: intent@,
                connection: None,
                dynamic_metadata: Map::empty(),
            }),
    {
        RouterContextState { intent, connection: None, dynamic_metadata: RouteMetadata::new() }
    }

    /// The same material with a wish for the connection underneath.
    pub fn with_connection(self, connection: ConnectionIntent) -> (state: RouterContextState)
        ensures
            state@ == (MaterialView { connection: Some(connection@), ..self@ }),
    {
        RouterContextState {
            intent: self.intent,
            connection: Some(connection),
            dynamic_metadata: self.dynamic_metadata,
        }
    }

    /// The attributes that were added along the way, to add more.
    pub fn dynamic_metadata_mut(&mut self) -> (metadata: &mut RouteMetadata)
        ensures
            (*metadata)@ == old(self)@.dynamic_metadata,
            final(self)@ == (MaterialView {
                dynamic_metadata: (*final(metadata))@,
                ..old(self)@
            }),
    {
        &mut self.dynamic_metadata
    }

    /// The intent.
    pub fn intent(&self) -> (intent: &RoutingIntent)
        ensures
            intent@ == self@.intent,
    {
        &self.intent
    }

    /// The wish for the connection underneath, where there is one.
    pub fn connection(&self) -> (connection: Option<&ConnectionIntent>)
        ensures
            connection is Some <==> self@.connection is Some,
            connection is Some ==> connection->0@ == self@.connection->0,
    {
        self.connection.as_ref()
    }

    /// The attributes that were added along the way.
    pub fn dynamic_metadata(&self) -> (metadata: &RouteMetadata)
        ensures
            metadata@ == self@.dynamic_metadata,
    {
        &self.dynamic_metadata
    }

    /// A copy of the material.
    pub fn snapshot(&self) -> (snapshot: RouterContextSnapshot)
        ensures
            snapshot@ == self@,
    {
        RouterContextSnapshot {
            intent: self.intent.clone(),
            connection: match &self.connection {
                Some(connection) => Some(connection.clone()),
                None => None,
            },
            dynamic_metadata: self.dynamic_metadata.clone(),
        }
    }
}

/// What handlers left on a channel.
#[derive(Debug)]
pub struct ChannelExtensions {
    router_context: Option<Arc<RouterContextState>>,
}

impl View for ChannelExtensions {
    type V = Option<MaterialView>;

    closed spec fn view(&self) -> Option<MaterialView> {
        match self.router_context {
            Some(state) => Some(state@),
            None => None,
        }
    }
}

impl ChannelExtensions {
    /// Nothing was left yet.
    pub fn new() -> (extensions: ChannelExtensions)
        ensures
            extensions@ is None,
    {
        ChannelExtensions { router_context: None }
    }
}

/// Leaves the material of a routing decision on a channel, in place of what was there.
pub fn store_router_context(extensions: &mut ChannelExtensions, state: RouterContextState)
    ensures
        final(extensions)@ == Some(state@),
{
    extensions.router_context = Some(Arc::new(state));
}

/// The material of a routing decision, where some was left on the channel.
pub fn load_router_context(extensions: &ChannelExtensions) -> (state: Option<
    Arc<RouterContextState>,
>)
    ensures
        state is Some <==> extensions@ is Some,
        state is Some ==> state->0@ == extensions@->0,
{
    match &extensions.router_context {
        Some(state) => Some(state.clone()),
        None => None,
    }
}

} // verus!
