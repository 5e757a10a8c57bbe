//! What routing requests are made of, and how a refusal reads.
use vstd::prelude::*;

use crate::error::{CoreError, ErrorCode, FrameworkCode};
use crate::pipeline::extensions::{
    load_router_context, store_router_context, ChannelExtensions, RouterContextSnapshot,
    RouterContextState,
};
use crate::router::catalog::{RouteCatalog, RouteDescriptor};
use crate::router::context::{
    ConnectionIntent, QualityOfService, RoutingContext, RoutingIntent, RoutingSnapshot,
    SecurityMode, TraceRef,
};
use crate::router::decision::{refusal_to_error, RouteError};
use crate::router::metadata::{
    view_of, MetadataKey, MetadataValue, RouteMetadata,
};
use crate::router::route::{RouteId, RouteKind, RoutePattern};
use crate::text::{precedes, texts};

verus! {

/// Each refusal reads in its own way under the code of a routing failure; one that is an error
/// already is passed on as it is, and an unavailable service keeps its cause.
pub proof fn law_each_refusal_reads_in_its_own_way(error: RouteError, seen: CoreError)
    requires
        call_ensures(refusal_to_error, (error,), seen),
    ensures
        error is Internal ==> seen@ == error->Internal_0@,
        !(error is Internal) ==> seen@.code == ErrorCode::Framework(
            FrameworkCode::AppRoutingFailed,
        ) && seen@.category is None,
        error is NotFound ==> seen@.message == "route pattern `"@ + error->pattern@
            + "` not found"@ && seen@.cause is None,
        error is PolicyDenied ==> seen@.message == "route rejected by policy: "@ + error->reason@
            && seen@.cause is None,
        error is ServiceUnavailable ==> seen@.message == "service bound to route `"@ + error->id@
            + "` is unavailable"@ && seen@.cause is Some && *seen@.cause->0 == error->source@,
        error is Other ==> seen@.message == "unexpected route error: "@ + error->shown@
            && seen@.cause is None,
{
}

/// An intent keeps what was set on it: each setting changes its own part and no other.
pub proof fn law_an_intent_keeps_what_was_set(
    target: RoutePattern,
    fresh: RoutingIntent,
    intent: RoutingIntent,
    metadata: RouteMetadata,
    labelled: RoutingIntent,
    qos: QualityOfService,
    expecting: RoutingIntent,
    security: SecurityMode,
    protected: RoutingIntent,
)
    requires
        call_ensures(RoutingIntent::new, (target,), fresh),
        call_ensures(RoutingIntent::with_metadata, (intent, metadata), labelled),
        call_ensures(RoutingIntent::with_expected_qos, (intent, qos), expecting),
        call_ensures(RoutingIntent::with_security_preference, (intent, security), protected),
    ensures
        fresh@.target == target@,
        fresh@.expected_qos is None,
        fresh@.security_preference is None,
        forall|name: Seq<char>| !(#[trigger] fresh@.preferred_metadata.dom().contains(name)),
        labelled@.preferred_metadata == metadata@,
        labelled@.target == intent@.target,
        labelled@.expected_qos == intent@.expected_qos,
        labelled@.security_preference == intent@.security_preference,
        expecting@.expected_qos == Some(qos),
        expecting@.target == intent@.target,
        expecting@.preferred_metadata == intent@.preferred_metadata,
        expecting@.security_preference == intent@.security_preference,
        protected@.security_preference == Some(security),
        protected@.target == intent@.target,
        protected@.preferred_metadata == intent@.preferred_metadata,
        protected@.expected_qos == intent@.expected_qos,
{
}

/// A descriptor keeps what was set on it: each setting changes its own part and no other.
pub proof fn law_a_descriptor_keeps_what_was_set(
    pattern: RoutePattern,
    fresh: RouteDescriptor,
    descriptor: RouteDescriptor,
    id: RouteId,
    deployed: RouteDescriptor,
    metadata: RouteMetadata,
    labelled: RouteDescriptor,
    summary: String,
    summarised: RouteDescriptor,
)
    requires
        call_ensures(RouteDescriptor::new, (pattern,), fresh),
        call_ensures(RouteDescriptor::with_id, (descriptor, id), deployed),
        call_ensures(RouteDescriptor::with_metadata, (descriptor, metadata), labelled),
        call_ensures(RouteDescriptor::with_summary, (descriptor, summary), summarised),
    ensures
        fresh@.pattern == pattern@ && fresh@.id is None && fresh@.summary is None,
        forall|name: Seq<char>| !(#[trigger] fresh@.metadata.dom().contains(name)),
        deployed@.id == Some(id@) && deployed@.pattern == descriptor@.pattern && deployed@.metadata
            == descriptor@.metadata && deployed@.summary == descriptor@.summary,
        labelled@.metadata == metadata@ && labelled@.pattern == descriptor@.pattern && labelled@.id
            == descriptor@.id && labelled@.summary == descriptor@.summary,
        summarised@.summary == Some(summary@) && summarised@.pattern == descriptor@.pattern
            && summarised@.id == descriptor@.id && summarised@.metadata == descriptor@.metadata,
{
}

/// A catalog lists its routes in the order in which they were added.
pub proof fn law_a_catalog_lists_routes_in_order(
    catalog: &mut RouteCatalog,
    descriptor: RouteDescriptor,
    i: int,
)
    requires
        call_ensures(RouteCatalog::push, (catalog, descriptor), ()),
    ensures
        final(catalog)@.len() == old(catalog)@.len() + 1,
        final(catalog)@[old(catalog)@.len() as int] == descriptor@,
        0 <= i < old(catalog)@.len() ==> final(catalog)@[i] == old(catalog)@[i],
{
}

/// An attribute that is set is there with its value, in place of an earlier one, and every other
/// attribute stays; what is read is what is there.
pub proof fn law_an_attribute_is_set_alone(
    metadata: &mut RouteMetadata,
    key: MetadataKey,
    value: MetadataValue,
    read: Option<&MetadataValue>,
    other: Seq<char>,
)
    requires
        call_ensures(RouteMetadata::insert, (metadata, key, value), ()),
        call_ensures(RouteMetadata::get, (&*final(metadata), &key), read),
    ensures
        read is Some,
        view_of(*read->0) == view_of(value),
        other != key@ ==> final(metadata)@.dom().contains(other) == old(metadata)@.dom().contains(
            other,
        ),
        other != key@ && old(metadata)@.dom().contains(other) ==> final(metadata)@[other] == old(metadata)@[other],
{
}

/// A routing context hands out the very parts that it was made of.
pub proof fn law_a_context_hands_out_its_parts<'a, Request>(
    request: &'a Request,
    intent: &'a RoutingIntent,
    connection: Option<&'a ConnectionIntent>,
    trace: Option<&'a TraceRef>,
    metadata: &'a RouteMetadata,
    snapshot: RoutingSnapshot<'a>,
    context: RoutingContext<'a, Request>,
    got_request: &'a Request,
    got_intent: &'a RoutingIntent,
    got_connection: Option<&'a ConnectionIntent>,
    got_trace: Option<&'a TraceRef>,
    got_metadata: &'a RouteMetadata,
    got_snapshot: RoutingSnapshot<'a>,
)
    requires
        call_ensures(
            RoutingContext::<'a, Request>::new,
            (request, intent, connection, trace, metadata, snapshot),
            context,
        ),
        call_ensures(RoutingContext::<'a, Request>::request, (&context,), got_request),
        call_ensures(RoutingContext::<'a, Request>::intent, (&context,), got_intent),
        call_ensures(RoutingContext::<'a, Request>::connection, (&context,), got_connection),
        call_ensures(RoutingContext::<'a, Request>::trace, (&context,), got_trace),
        call_ensures(RoutingContext::<'a, Request>::dynamic_metadata, (&context,), got_metadata),
        call_ensures(RoutingContext::<'a, Request>::snapshot, (&context,), got_snapshot),
    ensures
        got_request == request,
        got_intent == intent,
        got_connection == connection,
        got_trace == trace,
        got_metadata == metadata,
        got_snapshot == snapshot,
{
}

/// What was left on a channel last is what is loaded from it, with all its parts; a copy of it says
/// the same.
pub proof fn law_what_is_left_on_a_channel_is_loaded(
    extensions: &mut ChannelExtensions,
    state: RouterContextState,
    loaded: Option<std::sync::Arc<RouterContextState>>,
    snapshot: RouterContextSnapshot,
)
    requires
        call_ensures(store_router_context, (extensions, state), ()),
        call_ensures(load_router_context, (&*final(extensions),), loaded),
        call_ensures(RouterContextState::snapshot, (&state,), snapshot),
    ensures
        loaded is Some,
        loaded->0@.intent == state@.intent,
        loaded->0@.connection == state@.connection,
        loaded->0@.dynamic_metadata == state@.dynamic_metadata,
        snapshot.intent@ == state@.intent,
        snapshot.connection is Some <==> state@.connection is Some,
        snapshot.connection is Some ==> snapshot.connection->0@ == state@.connection->0,
        snapshot.dynamic_metadata@ == state@.dynamic_metadata,
{
    let seen = snapshot@;
    assert(seen.connection == state@.connection);
}

/// A pattern says the kind and the segments that it was made of.
pub proof fn law_a_pattern_says_its_segments(
    kind: RouteKind,
    segments: Vec<String>,
    pattern: RoutePattern,
    id: RouteId,
    i: int,
)
    requires
        call_ensures(RoutePattern::new, (kind, segments), pattern),
        call_ensures(RouteId::new, (kind, segments), id),
        0 <= i < segments@.len(),
    ensures
        pattern@.kind == kind && id@.kind == kind,
        pattern@.segments.len() == segments@.len() && id@.segments.len() == segments@.len(),
        pattern@.segments[i] == segments@[i]@ && id@.segments[i] == segments@[i]@,
{
    assert(texts(segments@)[i] == segments@[i]@);
}

/// A walk over attributes meets each of them once, with its value, in increasing order of their
/// names, and there are none exactly where the set is empty.
pub proof fn law_a_walk_meets_each_attribute_once(
    metadata: &RouteMetadata,
    walk: Vec<(&str, &MetadataValue)>,
    empty: bool,
    name: Seq<char>,
    i: int,
    j: int,
)
    requires
        call_ensures(RouteMetadata::iter, (metadata,), walk),
        call_ensures(RouteMetadata::is_empty, (metadata,), empty),
    ensures
        0 <= i < j < walk@.len() ==> precedes(walk@[i].0@, walk@[j].0@),
        0 <= i < walk@.len() ==> metadata@.dom().contains(walk@[i].0@) && view_of(*walk@[i].1)
            == metadata@[walk@[i].0@],
        metadata@.dom().contains(name) ==> exists|k: int|
            0 <= k < walk@.len() && (#[trigger] walk@[k]).0@ == name,
        empty <==> walk@.len() == 0,
{
    if 0 <= i < j < walk@.len() {
        assert(walk@[i].0@ == metadata.names()[i] && walk@[j].0@ == metadata.names()[j]);
    }
    if 0 <= i < walk@.len() {
        assert(walk@[i].0@ == metadata.names()[i]);
        assert(metadata.names().contains(metadata.names()[i]));
    }
    if metadata@.dom().contains(name) {
        assert(metadata.names().contains(name));
        let k = choose|k: int| 0 <= k < metadata.names().len() && metadata.names()[k] == name;
        assert(walk@[k].0@ == name);
    }
    if walk@.len() > 0 {
        assert(walk@[0].0@ == metadata.names()[0]);
        assert(metadata.names().contains(metadata.names()[0]));
        assert(metadata@.dom().contains(walk@[0].0@));
    } else if !empty {
        assert(exists|n: Seq<char>| metadata@.dom().contains(n)) by {
            if forall|n: Seq<char>| !metadata@.dom().contains(n) {
                assert(metadata@ =~= Map::<Seq<char>, crate::router::metadata::MetadataView>::empty());
            }
        }
        let n = choose|n: Seq<char>| metadata@.dom().contains(n);
        assert(metadata.names().contains(n));
    }
}

} // verus!
