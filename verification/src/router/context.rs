//! What a routing decision is made from.
use vstd::prelude::*;

use crate::router::catalog::RouteCatalog;
use crate::router::metadata::{MetadataView, RouteMetadata};
use crate::router::route::{PatternView, RouteKind, RoutePattern};

verus! {

/// The quality of service that a caller expects of a connection.
#[derive(Clone, Copy, Debug, PartialEq, Eq, Structural)]
pub enum QualityOfService {
    Interactive,
    Streaming,
    BulkTransfer,
}

/// How a connection is to be protected.
#[derive(Clone, Copy, Debug, PartialEq, Eq, Structural)]
pub enum SecurityMode {
    EnforcedTls,
    Plaintext,
}

/// What a caller wants of the connection underneath.
#[derive(Debug, PartialEq, Eq)]
pub struct ConnectionIntent {
    pub endpoint: String,
    pub qos: Option<QualityOfService>,
    pub security: Option<SecurityMode>,
}

/// What a connection intent says, for the contracts.
#[verifier::ext_equal]
pub struct ConnectionView {
    pub endpoint: Seq<char>,
    pub qos: Option<QualityOfService>,
    pub security: Option<SecurityMode>,
}

impl View for ConnectionIntent {
    type V = ConnectionView;

    open spec fn view(&self) -> ConnectionView {
        ConnectionView { endpoint: self.endpoint@, qos: self.qos, security: self.security }
    }
}

impl Clone for ConnectionIntent {
    /// A copy says the same.
    fn clone(&self) -> (copy: ConnectionIntent)
        ensures
            copy@ == self@,
    {
        ConnectionIntent {
            endpoint: self.endpoint.clone(),
            qos: self.qos,
            security: self.security,
        }
    }
}

/// The view of an optional connection intent.
pub open spec fn connection_view(connection: Option<ConnectionIntent>) -> Option<ConnectionView> {
    match connection {
        Some(intent) => Some(intent@),
        None => None,
    }
}

/// What a caller wants to reach, and how.
#[derive(Debug)]
pub struct RoutingIntent {
    target: RoutePattern,
    preferred_metadata: RouteMetadata,
    expected_qos: Option<QualityOfService>,
    security_preference: Option<SecurityMode>,
}

/// What a routing intent says, for the contracts.
#[verifier::ext_equal]
pub struct IntentView {
    pub target: PatternView,
    pub preferred_metadata: Map<Seq<char>, MetadataView>,
    pub expected_qos: Option<QualityOfService>,
    pub security_preference: Option<SecurityMode>,
}

impl View for RoutingIntent {
    type V = IntentView;

    closed spec fn view(&self) -> IntentView {
        IntentView {
            target: self.target@,
            preferred_metadata: self.preferred_metadata@,
            expected_qos: self.expected_qos,
            security_preference: self.security_preference,
        }
    }
}

impl RoutingIntent {
    /// The wish to reach a target, without further preferences.
    pub fn new(target: RoutePattern) -> (intent: RoutingIntent)
        ensures
            intent@ == (IntentView {
                target: target@,
                preferred_metadata: Map::empty(),
                expected_qos: None,
                security_preference: None,
            }),
    {
        RoutingIntent {
            target,
            preferred_metadata: RouteMetadata::new(),
            expected_qos: None,
            security_preference: None,
        }
    }

    /// The same intent with the given attributes.
    pub fn with_metadata(self, metadata: RouteMetadata) -> (intent: RoutingIntent)
        ensures
            intent@ == (IntentView { preferred_metadata: metadata@, ..self@ }),
    {
        RoutingIntent {
            target: self.target,
            preferred_metadata: metadata,
            expected_qos: self.expected_qos,
            security_preference: self.security_preference,
        }
    }

    /// The same intent with an expected quality of service.
    pub fn with_expected_qos(self, qos: QualityOfService) -> (intent: RoutingIntent)
        ensures
            intent@ == (IntentView { expected_qos: Some(qos), ..self@ }),
    {
        RoutingIntent {
            target: self.target,
            preferred_metadata: self.preferred_metadata,
            expected_qos: Some(qos),
            security_preference: self.security_preference,
        }
    }

    /// The same intent with a preferred protection.
    pub fn with_security_preference(self, security: SecurityMode) -> (intent: RoutingIntent)
        ensures
            intent@ == (IntentView { security_preference: Some(security), ..self@ }),
    {
        RoutingIntent {
            target: self.target,
            preferred_metadata: self.preferred_metadata,
            expected_qos: self.expected_qos,
            security_preference: Some(security),
        }
    }

    /// The target.
    pub fn target(&self) -> (target: &RoutePattern)
        ensures
            target@ == self@.target,
    {
        &self.target
    }

    /// The preferred attributes.
    pub fn preferred_metadata(&self) -> (metadata: &RouteMetadata)
        ensures
            metadata@ == self@.preferred_metadata,
    {
        &self.preferred_metadata
    }

    /// The expected quality of service, where one was named.
    pub fn expected_qos(&self) -> (qos: Option<QualityOfService>)
        ensures
            qos == self@.expected_qos,
    {
        self.expected_qos
    }

    /// The preferred protection, where one was named.
    pub fn security_preference(&self) -> (security: Option<&SecurityMode>)
        ensures
            security is Some <==> self@.security_preference is Some,
            security is Some ==> *security->0 == self@.security_preference->0,
    {
        self.security_preference.as_ref()
    }

    /// The kind of exchange that the target serves.
    pub fn route_kind(&self) -> (kind: &RouteKind)
        ensures
            *kind == self@.target.kind,
    {
        self.target.kind()
    }
}

impl Clone for RoutingIntent {
    /// A copy says the same.
    fn clone(&self) -> (copy: RoutingIntent)
        ensures
            copy@ == self@,
    {
        RoutingIntent {
            target: self.target.clone(),
            preferred_metadata: self.preferred_metadata.clone(),
            expected_qos: self.expected_qos,
            security_preference: self.security_preference,
        }
    }
}

/// A read-only look at what a router knows, and the generation that it belongs to.
#[derive(Clone, Copy, Debug)]
pub struct RoutingSnapshot<'a> {
    catalog: &'a RouteCatalog,
    revision: u64,
}

impl<'a> RoutingSnapshot<'a> {
    pub closed spec fn known(&self) -> &'a RouteCatalog {
        self.catalog
    }

    pub closed spec fn generation(&self) -> u64 {
        self.revision
    }

    /// A look at the given catalog.
    pub fn new(catalog: &'a RouteCatalog, revision: u64) -> (snapshot: RoutingSnapshot<'a>)
        ensures
            snapshot.known() == catalog,
            snapshot.generation() == revision,
    {
        RoutingSnapshot { catalog, revision }
    }

    /// The catalog.
    pub fn catalog(&self) -> (catalog: &'a RouteCatalog)
        ensures
            catalog == self.known(),
    {
        self.catalog
    }

    /// The generation.
    pub fn revision(&self) -> (revision: u64)
        ensures
            revision == self.generation(),
    {
        self.revision
    }
}

/// The trace that a request belongs to.
#[derive(Clone, Copy, Debug, PartialEq, Eq)]
pub struct TraceRef {
    pub trace_id: u128,
    pub span_id: u64,
    pub flags: u8,
}

/// Everything that one routing decision looks at.
#[derive(Debug)]
pub struct RoutingContext<'a, Request> {
    request: &'a Request,
    intent: &'a RoutingIntent,
    connection: Option<&'a ConnectionIntent>,
    trace: Option<&'a TraceRef>,
    dynamic_metadata: &'a RouteMetadata,
    snapshot: RoutingSnapshot<'a>,
}

impl<'a, Request> RoutingContext<'a, Request> {
    pub closed spec fn asked(&self) -> &'a Request {
        self.request
    }

    pub closed spec fn wanted(&self) -> &'a RoutingIntent {
        self.intent
    }

    pub closed spec fn connected(&self) -> Option<&'a ConnectionIntent> {
        self.connection
    }

    pub closed spec fn traced(&self) -> Option<&'a TraceRef> {
        self.trace
    }

    pub closed spec fn labelled(&self) -> &'a RouteMetadata {
        self.dynamic_metadata
    }

    pub closed spec fn looked_at(&self) -> RoutingSnapshot<'a> {
        self.snapshot
    }

    /// A context made of the given parts.
    pub fn new(
        request: &'a Request,
        intent: &'a RoutingIntent,
        connection: Option<&'a ConnectionIntent>,
        trace: Option<&'a TraceRef>,
        dynamic_metadata: &'a RouteMetadata,
        snapshot: RoutingSnapshot<'a>,
    ) -> (context: RoutingContext<'a, Request>)
        ensures
            context.asked() == request,
            context.wanted() == intent,
            context.connected() == connection,
            context.traced() == trace,
            context.labelled() == dynamic_metadata,
            context.looked_at() == snapshot,
    {
        RoutingContext { request, intent, connection, trace, dynamic_metadata, snapshot }
    }

    /// The request.
    pub fn request(&self) -> (request: &'a Request)
        ensures
            request == self.asked(),
    {
        self.request
    }

    /// The intent.
    pub fn intent(&self) -> (intent: &'a RoutingIntent)
        ensures
            intent == self.wanted(),
    {
        self.intent
    }

    /// The connection intent, where there is one.
    pub fn connection(&self) -> (connection: Option<&'a ConnectionIntent>)
        ensures
            connection == self.connected(),
    {
        self.connection
    }

    /// The trace, where there is one.
    pub fn trace(&self) -> (trace: Option<&'a TraceRef>)
        ensures
            trace == self.traced(),
    {
        self.trace
    }

    /// The attributes that were added along the way.
    pub fn dynamic_metadata(&self) -> (metadata: &'a RouteMetadata)
        ensures
            metadata == self.labelled(),
    {
        self.dynamic_metadata
    }

    /// The look at the router.
    pub fn snapshot(&self) -> (snapshot: RoutingSnapshot<'a>)
        ensures
            snapshot == self.looked_at(),
    {
        self.snapshot
    }
}

} // verus!
