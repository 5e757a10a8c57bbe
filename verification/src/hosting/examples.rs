//! A server that picks the handlers of a connection by what its handshake agreed on.
use std::sync::Arc;

use vstd::prelude::*;

use crate::error::CoreError;
use crate::hosting::host::{Host, InitializerRef, MiddlewareRegistry, ServiceEntry, ServiceRegistry};
use crate::observability::{error_record, plain_record, LogLevel, LogRecord, LogView};
use crate::pipeline::factory::DynControllerFactory;
use crate::pipeline::descriptor::{InitializerDescriptor, InitializerView};
use crate::pipeline::message::PipelineMessage;
use crate::router::context::TraceRef;
use crate::router::decision::ServiceId;

verus! {

/// Builds the pipeline of a connection: whatever builds controllers behind a handle does.
pub trait PipelineFactory: DynControllerFactory {

}

impl<T: DynControllerFactory> PipelineFactory for T {

}

/// Something that both sides of a connection may be able to do.
#[derive(Clone, Copy, Debug, PartialEq, Eq, Structural)]
pub enum Capability {
    Multiplexing,
    Other(u8),
}

/// A set of capabilities.
#[derive(Debug)]
pub struct CapabilityBitmap {
    members: Vec<Capability>,
}

impl View for CapabilityBitmap {
    type V = Set<Capability>;

    closed spec fn view(&self) -> Set<Capability> {
        self.members@.to_set()
    }
}

impl CapabilityBitmap {
    /// No capabilities.
    pub fn empty() -> (bitmap: CapabilityBitmap)
        ensures
            bitmap@ == Set::<Capability>::empty(),
    {
        let bitmap = CapabilityBitmap { members: Vec::new() };
        proof {
            assert(bitmap@ =~= Set::<Capability>::empty());
        }
        bitmap
    }

    /// Whether a capability is in the set.
    pub fn contains(&self, capability: Capability) -> (contains: bool)
        ensures
            contains == self@.contains(capability),
    {
        let mut i: usize = 0;
        while i < self.members.len()
            invariant
                i <= self.members@.len(),
                forall|k: int| 0 <= k < i ==> self.members@[k] != capability,
            decreases self.members.len() - i,
        {
            if self.members[i] == capability {
                assert(self.members@.contains(capability));
                return true;
            }
            i = i + 1;
        }
        false
    }

    /// Adds a capability.
    pub fn insert(&mut self, capability: Capability)
        ensures
            final(self)@ == old(self)@.insert(capability),
    {
        if self.contains(capability) {
            proof {
                assert(self@ =~= self@.insert(capability));
            }
            return;
        }
        let ghost before = self.members@;
        self.members.push(capability);
        proof {
            assert forall|c: Capability| self@.contains(c) <==> old(self)@.insert(
                capability,
            ).contains(c) by {
                if before.contains(c) {
                    let k = choose|k: int| 0 <= k < before.len() && before[k] == c;
                    assert(self.members@[k] == c);
                }
                assert(self.members@[before.len() as int] == capability);
            }
            assert(self@ =~= old(self)@.insert(capability));
        }
    }

    /// Whether every capability of this set is in the other.
    pub fn is_subset_of(&self, other: &CapabilityBitmap) -> (subset: bool)
        ensures
            subset == self@.subset_of(other@),
    {
        let mut i: usize = 0;
        while i < self.members.len()
            invariant
                i <= self.members@.len(),
                forall|k: int| 0 <= k < i ==> other@.contains(#[trigger] self.members@[k]),
            decreases self.members.len() - i,
        {
            if !other.contains(self.members[i]) {
                proof {
                    assert(self@.contains(self.members@[i as int]));
                }
                return false;
            }
            i = i + 1;
        }
        true
    }
}

/// What a handshake agreed on: a version, what both sides can do, and what was given up.
#[derive(Debug)]
pub struct HandshakeOutcome {
    pub version: (u16, u16, u16),
    pub capabilities: CapabilityBitmap,
    pub downgraded: (CapabilityBitmap, CapabilityBitmap),
}

/// Nothing was given up.
fn downgrade_report() -> (report: (CapabilityBitmap, CapabilityBitmap))
    ensures
        report.0@ == Set::<Capability>::empty(),
        report.1@ == Set::<Capability>::empty(),
{
    (CapabilityBitmap::empty(), CapabilityBitmap::empty())
}

/// A handshake of version 1.0.0 that agreed on exactly the given capabilities.
pub fn example_handshake(capabilities: &[Capability]) -> (outcome: HandshakeOutcome)
    ensures
        outcome.version == (1u16, 0u16, 0u16),
        outcome.capabilities@ == capabilities@.to_set(),
        outcome.downgraded.0@ == Set::<Capability>::empty(),
        outcome.downgraded.1@ == Set::<Capability>::empty(),
{
    let mut bitmap = CapabilityBitmap::empty();
    let mut i: usize = 0;
    proof {
        assert(capabilities@.take(0).to_set() =~= Set::<Capability>::empty());
    }
    while i < capabilities.len()
        invariant
            i <= capabilities@.len(),
            bitmap@ == capabilities@.take(i as int).to_set(),
        decreases capabilities.len() - i,
    {
        bitmap.insert(capabilities[i]);
        proof {
            let shorter = capabilities@.take(i as int);
            let longer = capabilities@.take(i + 1);
            assert forall|c: Capability| longer.to_set().contains(c) <==> shorter.to_set().insert(
                capabilities@[i as int],
            ).contains(c) by {
                if shorter.contains(c) {
                    let k = choose|k: int| 0 <= k < shorter.len() && shorter[k] == c;
                    assert(longer[k] == c);
                }
                if longer.contains(c) {
                    let k = choose|k: int| 0 <= k < longer.len() && longer[k] == c;
                    if k < i {
                        assert(shorter[k] == c);
                    }
                }
                assert(longer[i as int] == capabilities@[i as int]);
            }
            assert(longer.to_set() =~= shorter.to_set().insert(capabilities@[i as int]));
        }
        i = i + 1;
    }
    proof {
        assert(capabilities@.take(i as int) == capabilities@);
    }
    HandshakeOutcome {
        version: (1, 0, 0),
        capabilities: bitmap,
        downgraded: downgrade_report(),
    }
}

/// Builds the handlers of a connection: codec, application routing where it is switched on, and
/// the way to the service.
#[derive(Debug)]
pub struct MyInitializer {
    descriptor: InitializerDescriptor,
    enable_router: bool,
    service: ServiceId,
}

/// How an initializer shows up.
pub open spec fn initializer_view(label: Seq<char>, enable_router: bool) -> InitializerView {
    InitializerView {
        name: label,
        category: if enable_router {
            "routing"@
        } else {
            "codec"@
        },
        summary: if enable_router {
            "全功能链路：编解码 + 应用路由 + Service 适配"@
        } else {
            "精简链路：仅包含编解码与 Service 适配"@
        },
    }
}

/// Which handler a step installs.
#[derive(Clone, Copy, Debug, PartialEq, Eq, Structural)]
pub enum HandlerKind {
    Codec,
    AppRouter,
    ServiceAdapter(ServiceId),
}

/// Which way a handler is installed for.
#[derive(Clone, Copy, Debug, PartialEq, Eq, Structural)]
pub enum ChainSide {
    Inbound,
    Outbound,
}

/// One step of building a chain.
#[derive(Debug)]
pub struct ChainStep {
    pub side: ChainSide,
    pub label: &'static str,
    pub kind: HandlerKind,
    pub descriptor: InitializerDescriptor,
}

/// What a step of building a chain says, for the contracts.
#[verifier::ext_equal]
pub struct StepView {
    pub side: ChainSide,
    pub label: &'static str,
    pub kind: HandlerKind,
    pub descriptor: InitializerView,
}

impl View for ChainStep {
    type V = StepView;

    open spec fn view(&self) -> StepView {
        StepView {
            side: self.side,
            label: self.label,
            kind: self.kind,
            descriptor: self.descriptor@,
        }
    }
}

/// How the codec shows up.
pub open spec fn codec_view() -> InitializerView {
    InitializerView {
        name: "spark.examples.codec"@,
        category: "codec"@,
        summary: "负责协议层编解码并桥接 Pipeline 消息格式"@,
    }
}

/// How the application router shows up.
pub open spec fn router_view() -> InitializerView {
    InitializerView {
        name: "spark.examples.router"@,
        category: "routing"@,
        summary: "根据帧头元数据选择业务路由"@,
    }
}

/// How the way to the service shows up.
pub open spec fn adapter_view() -> InitializerView {
    InitializerView {
        name: "spark.examples.service_adapter"@,
        category: "service"@,
        summary: "将 Pipeline 消息交给业务 Service，并在完成后继续写出响应"@,
    }
}

/// The steps of building a chain, in order: codec on both sides, the router where it is switched
/// on, and the way to the service last.
pub open spec fn chain_steps(enable_router: bool, service: ServiceId) -> Seq<StepView> {
    let codec = seq![
        StepView {
            side: ChainSide::Inbound,
            label: "codec.inbound",
            kind: HandlerKind::Codec,
            descriptor: codec_view(),
        },
        StepView {
            side: ChainSide::Outbound,
            label: "codec.outbound",
            kind: HandlerKind::Codec,
            descriptor: codec_view(),
        },
    ];
    let router = if enable_router {
        seq![
            StepView {
                side: ChainSide::Inbound,
                label: "router.l2",
                kind: HandlerKind::AppRouter,
                descriptor: router_view(),
            },
        ]
    } else {
        Seq::empty()
    };
    (codec + router).push(
        StepView {
            side: ChainSide::Inbound,
            label: "service.adapter",
            kind: HandlerKind::ServiceAdapter(service),
            descriptor: adapter_view(),
        },
    )
}

/// The minimal chain is the full chain without the router; each begins with the codec and ends
/// with the way to the service.
pub proof fn law_minimal_chain_is_the_full_one_without_the_router(service: ServiceId)
    ensures
        chain_steps(true, service).remove(2) == chain_steps(false, service),
        chain_steps(true, service)[2].kind is AppRouter,
        forall|routed: bool|
            (#[trigger] chain_steps(routed, service)).first().kind is Codec && chain_steps(
                routed,
                service,
            ).last().kind == HandlerKind::ServiceAdapter(service),
{
    assert(chain_steps(true, service).remove(2) =~= chain_steps(false, service));
}

impl MyInitializer {
    pub closed spec fn described_as(&self) -> InitializerView {
        self.descriptor@
    }

    pub closed spec fn routes(&self) -> bool {
        self.enable_router
    }

    pub closed spec fn serves(&self) -> ServiceId {
        self.service
    }

    /// An initializer for the given service.
    pub fn new(label: String, enable_router: bool, service: ServiceId) -> (i: MyInitializer)
        ensures
            i.described_as() == initializer_view(label@, enable_router),
            i.routes() == enable_router,
            i.serves() == service,
    {
        let category = if enable_router {
            "routing".to_owned()
        } else {
            "codec".to_owned()
        };
        let summary = if enable_router {
            "全功能链路：编解码 + 应用路由 + Service 适配".to_owned()
        } else {
            "精简链路：仅包含编解码与 Service 适配".to_owned()
        };
        MyInitializer {
            descriptor: InitializerDescriptor::new(label, category, summary),
            enable_router,
            service,
        }
    }

    /// How the initializer shows up.
    pub fn descriptor(&self) -> (descriptor: InitializerDescriptor)
        ensures
            descriptor@ == self.described_as(),
    {
        self.descriptor.clone()
    }

    /// The steps of building a chain, in order.
    pub fn configure(&self) -> (r: Result<Vec<ChainStep>, CoreError>)
        ensures
            r is Ok,
            r->Ok_0@.map_values(|step: ChainStep| step@) == chain_steps(
                self.routes(),
                self.serves(),
            ),
    {
        let codec = InitializerDescriptor::new(
            "spark.examples.codec".to_owned(),
            "codec".to_owned(),
            "负责协议层编解码并桥接 Pipeline 消息格式".to_owned(),
        );
        let mut steps: Vec<ChainStep> = Vec::new();
        steps.push(
            ChainStep {
                side: ChainSide::Inbound,
                label: "codec.inbound",
                kind: HandlerKind::Codec,
                descriptor: codec.clone(),
            },
        );
        steps.push(
            ChainStep {
                side: ChainSide::Outbound,
                label: "codec.outbound",
                kind: HandlerKind::Codec,
                descriptor: codec,
            },
        );
        if self.enable_router {
            steps.push(
                ChainStep {
                    side: ChainSide::Inbound,
                    label: "router.l2",
                    kind: HandlerKind::AppRouter,
                    descriptor: InitializerDescriptor::new(
                        "spark.examples.router".to_owned(),
                        "routing".to_owned(),
                        "根据帧头元数据选择业务路由".to_owned(),
                    ),
                },
            );
        }
        steps.push(
            ChainStep {
                side: ChainSide::Inbound,
                label: "service.adapter",
                kind: HandlerKind::ServiceAdapter(self.service),
                descriptor: InitializerDescriptor::new(
                    "spark.examples.service_adapter".to_owned(),
                    "service".to_owned(),
                    "将 Pipeline 消息交给业务 Service，并在完成后继续写出响应".to_owned(),
                ),
            },
        );
        proof {
            assert(steps@.map_values(|step: ChainStep| step@) =~= chain_steps(
                self.routes(),
                self.serves(),
            ));
        }
        Ok(steps)
    }
}

/// The initializer that a label stands for: the one that is registered, or else one that is made
/// on the spot.
#[derive(Debug)]
pub enum ResolvedInitializer {
    Registered(InitializerRef),
    Made(MyInitializer),
}

/// The name of an initializer that is made on the spot.
pub open spec fn made_name(enable_router: bool) -> Seq<char> {
    "spark.examples.pipeline."@ + (if enable_router {
        "full"@
    } else {
        "minimal"@
    })
}

/// The initializer that a label stands for.
pub fn resolve_initializer(
    registry: &MiddlewareRegistry,
    label: &str,
    service: ServiceId,
    enable_router: bool,
) -> (resolved: ResolvedInitializer)
    ensures
        resolves_to(registry@, label@, service, enable_router, resolved),
{
    let mut name = "spark.examples.pipeline.".to_owned();
    if enable_router {
        name.append("full");
    } else {
        name.append("minimal");
    }
    match registry.get(label) {
        Some(initializer) => ResolvedInitializer::Registered(*initializer),
        None => ResolvedInitializer::Made(MyInitializer::new(name, enable_router, service)),
    }
}

/// Whether an initializer is the one that a label stands for.
pub open spec fn resolves_to(
    registry: Map<Seq<char>, InitializerRef>,
    label: Seq<char>,
    service: ServiceId,
    enable_router: bool,
    resolved: ResolvedInitializer,
) -> bool {
    if registry.dom().contains(label) {
        resolved == ResolvedInitializer::Registered(registry[label])
    } else {
        &&& resolved is Made
        &&& resolved->Made_0.routes() == enable_router
        &&& resolved->Made_0.serves() == service
        &&& resolved->Made_0.described_as() == initializer_view(
            made_name(enable_router),
            enable_router,
        )
    }
}

/// How the service of a name is had; nothing where it is not registered.
pub fn resolve_service_instance(registry: &ServiceRegistry, name: &str) -> (entry: Option<
    ServiceEntry,
>)
    ensures
        entry is Some <==> registry@.dom().contains(name@),
        entry is Some ==> entry->0 == registry@[name@],
{
    match registry.get(name) {
        Some(entry) => Some(*entry),
        None => None,
    }
}

/// The two initializers between which a handshake decides.
#[derive(Debug)]
pub struct InitializerSelectorContext {
    full_stack: ResolvedInitializer,
    minimal_stack: ResolvedInitializer,
}

impl InitializerSelectorContext {
    pub closed spec fn full(&self) -> ResolvedInitializer {
        self.full_stack
    }

    pub closed spec fn minimal(&self) -> ResolvedInitializer {
        self.minimal_stack
    }

    /// The initializers that a host has under two labels, both for the same service.
    pub fn new(
        host: &Host,
        full_label: &str,
        minimal_label: &str,
        service: ServiceId,
    ) -> (context: InitializerSelectorContext)
        ensures
            resolves_to(
                host.registered_middleware()@,
                full_label@,
                service,
                true,
                context.full(),
            ),
            resolves_to(
                host.registered_middleware()@,
                minimal_label@,
                service,
                false,
                context.minimal(),
            ),
    {
        InitializerSelectorContext {
            full_stack: resolve_initializer(host.middleware(), full_label, service, true),
            minimal_stack: resolve_initializer(host.middleware(), minimal_label, service, false),
        }
    }

    /// The initializer for a connection: the full one where the handshake agreed on multiplexing,
    /// and the minimal one otherwise.
    pub fn select(&self, outcome: &HandshakeOutcome) -> (selected: &ResolvedInitializer)
        ensures
            *selected == if outcome.capabilities@.contains(Capability::Multiplexing) {
                self.full()
            } else {
                self.minimal()
            },
    {
        let mut requires_router = CapabilityBitmap::empty();
        requires_router.insert(Capability::Multiplexing);
        proof {
            let wanted = Set::<Capability>::empty().insert(Capability::Multiplexing);
            assert(wanted.contains(Capability::Multiplexing));
            if outcome.capabilities@.contains(Capability::Multiplexing) {
                assert(wanted.subset_of(outcome.capabilities@));
            }
        }
        if requires_router.is_subset_of(&outcome.capabilities) {
            &self.full_stack
        } else {
            &self.minimal_stack
        }
    }
}

/// What a handler asks of the pipeline.
#[derive(Debug)]
pub enum HandlerAction {
    Log(LogRecord),
    ForwardRead(PipelineMessage),
    CloseGraceful { code: &'static str, message: &'static str },
}

/// What a request of a handler says, for the contracts.
pub enum HandlerActionView {
    Log(LogView),
    ForwardRead(PipelineMessage),
    CloseGraceful { code: &'static str, message: &'static str },
}

/// What some requests of a handler say.
pub open spec fn handler_views(actions: Seq<HandlerAction>) -> Seq<HandlerActionView> {
    actions.map_values(
        |action: HandlerAction|
            match action {
                HandlerAction::Log(record) => HandlerActionView::Log(record@),
                HandlerAction::ForwardRead(message) => HandlerActionView::ForwardRead(message),
                HandlerAction::CloseGraceful { code, message } => HandlerActionView::CloseGraceful {
                    code,
                    message,
                },
            },
    )
}

fn one_record(level: LogLevel, message: &str, trace: &TraceRef) -> (actions: Vec<HandlerAction>)
    ensures
        handler_views(actions@) == seq![
            HandlerActionView::Log(plain_record(level, message@, *trace)),
        ],
{
    let mut actions: Vec<HandlerAction> = Vec::new();
    actions.push(HandlerAction::Log(LogRecord::plain(level, message.to_owned(), trace)));
    proof {
        assert(handler_views(actions@) =~= seq![
            HandlerActionView::Log(plain_record(level, message@, *trace)),
        ]);
    }
    actions
}

fn one_error(
    message: &str,
    error: CoreError,
    trace: &TraceRef,
) -> (actions: Vec<HandlerAction>)
    ensures
        handler_views(actions@) == seq![
            HandlerActionView::Log(error_record(message@, error@, *trace)),
        ],
{
    let mut actions: Vec<HandlerAction> = Vec::new();
    actions.push(HandlerAction::Log(LogRecord::about(message.to_owned(), error, trace)));
    proof {
        assert(handler_views(actions@) =~= seq![
            HandlerActionView::Log(error_record(message@, error@, *trace)),
        ]);
    }
    actions
}

/// Whether what was written goes out at once.
#[derive(Clone, Copy, Debug, PartialEq, Eq, Structural)]
pub enum WriteSignal {
    Accepted,
    AcceptedAndFlushed,
}

/// The codec of the example: it passes messages on in both directions.
#[derive(Debug)]
pub struct CodecHandler {
    descriptor: InitializerDescriptor,
}

/// How the codec shows up on one side.
pub open spec fn stage_view(base: InitializerView, stage: Seq<char>) -> InitializerView {
    InitializerView {
        name: base.name + "."@ + stage,
        category: base.category,
        summary: stage + " stage of the teaching codec handler"@,
    }
}

impl CodecHandler {
    pub closed spec fn described_as(&self) -> InitializerView {
        self.descriptor@
    }

    /// A codec that shows up under the given name.
    pub fn new(descriptor: InitializerDescriptor) -> (handler: CodecHandler)
        ensures
            handler.described_as() == descriptor@,
    {
        CodecHandler { descriptor }
    }

    fn describe_stage(&self, stage: &'static str) -> (descriptor: InitializerDescriptor)
        ensures
            descriptor@ == stage_view(self.described_as(), stage@),
    {
        let mut name = self.descriptor.name().to_owned();
        name.append(".");
        name.append(stage);
        let mut summary = stage.to_owned();
        summary.append(" stage of the teaching codec handler");
        InitializerDescriptor::new(name, self.descriptor.category().to_owned(), summary)
    }

    /// How the codec shows up on the inbound side.
    pub fn describe_inbound(&self) -> (descriptor: InitializerDescriptor)
        ensures
            descriptor@ == stage_view(self.described_as(), "inbound"@),
    {
        self.describe_stage("inbound")
    }

    /// How the codec shows up on the outbound side.
    pub fn describe_outbound(&self) -> (descriptor: InitializerDescriptor)
        ensures
            descriptor@ == stage_view(self.described_as(), "outbound"@),
    {
        self.describe_stage("outbound")
    }

    /// The channel became active: that is logged.
    pub fn on_channel_active(&self, trace: &TraceRef) -> (actions: Vec<HandlerAction>)
        ensures
            handler_views(actions@) == seq![
                HandlerActionView::Log(plain_record(LogLevel::Info, "codec handler activated"@, *trace)),
            ],
    {
        one_record(LogLevel::Info, "codec handler activated", trace)
    }

    /// A message arrived: it is passed on.
    pub fn on_read(&self, message: PipelineMessage) -> (actions: Vec<HandlerAction>)
        ensures
            handler_views(actions@) == seq![HandlerActionView::ForwardRead(message)],
    {
        let mut actions: Vec<HandlerAction> = Vec::new();
        actions.push(HandlerAction::ForwardRead(message));
        proof {
            assert(handler_views(actions@) =~= seq![HandlerActionView::ForwardRead(message)]);
        }
        actions
    }

    /// Something failed: that is logged, and the channel is asked to close.
    pub fn on_exception_caught(
        &self,
        error: CoreError,
        trace: &TraceRef,
    ) -> (actions: Vec<HandlerAction>)
        ensures
            handler_views(actions@) == seq![
                HandlerActionView::Log(error_record("codec handler encountered error"@, error@, *trace)),
                HandlerActionView::CloseGraceful {
                    code: "spark.examples.codec.error",
                    message: "codec error",
                },
            ],
    {
        let mut actions = one_error("codec handler encountered error", error, trace);
        let ghost before = actions@;
        actions.push(
            HandlerAction::CloseGraceful {
                code: "spark.examples.codec.error",
                message: "codec error",
            },
        );
        proof {
            assert(handler_views(actions@) =~= handler_views(before).push(
                HandlerActionView::CloseGraceful {
                    code: "spark.examples.codec.error",
                    message: "codec error",
                },
            ));
        }
        actions
    }

    /// The channel became inactive: that is logged.
    pub fn on_channel_inactive(&self, trace: &TraceRef) -> (actions: Vec<HandlerAction>)
        ensures
            handler_views(actions@) == seq![
                HandlerActionView::Log(
                    plain_record(LogLevel::Debug, "codec handler channel inactive"@, *trace),
                ),
            ],
    {
        one_record(LogLevel::Debug, "codec handler channel inactive", trace)
    }

    /// A message is written: a decoded one goes out at once.
    pub fn on_write(&self, message: &PipelineMessage) -> (r: Result<WriteSignal, CoreError>)
        ensures
            *message is User ==> r == Ok::<WriteSignal, CoreError>(
                WriteSignal::AcceptedAndFlushed,
            ),
            *message is Buffer ==> r == Ok::<WriteSignal, CoreError>(WriteSignal::Accepted),
    {
        if matches!(message, PipelineMessage::User(_)) {
            Ok(WriteSignal::AcceptedAndFlushed)
        } else {
            Ok(WriteSignal::Accepted)
        }
    }
}

/// The application router of the example: it looks messages over and passes them on.
#[derive(Debug)]
pub struct AppRouterHandler {
    descriptor: InitializerDescriptor,
}

impl AppRouterHandler {
    pub closed spec fn described_as(&self) -> InitializerView {
        self.descriptor@
    }

    /// A router that shows up under the given name.
    pub fn new(descriptor: InitializerDescriptor) -> (handler: AppRouterHandler)
        ensures
            handler.described_as() == descriptor@,
    {
        AppRouterHandler { descriptor }
    }

    /// How the router shows up.
    pub fn describe(&self) -> (descriptor: InitializerDescriptor)
        ensures
            descriptor@ == self.described_as(),
    {
        self.descriptor.clone()
    }

    /// A message arrived: that is logged, with a warning where it has no kind; then it is passed
    /// on.
    pub fn on_read(
        &self,
        message: PipelineMessage,
        trace: &TraceRef,
    ) -> (actions: Vec<HandlerAction>)
        ensures
            handler_views(actions@) == (seq![
                HandlerActionView::Log(
                    plain_record(LogLevel::Debug, "app-router inspected inbound metadata"@, *trace),
                ),
            ] + (if message.kind() is None {
                seq![
                    HandlerActionView::Log(
                        plain_record(
                            LogLevel::Warn,
                            "app-router received message without user metadata"@, *trace,
                        ),
                    ),
                ]
            } else {
                Seq::empty()
            })).push(HandlerActionView::ForwardRead(message)),
    {
        let metadata_present: bool = message.user_kind().is_some();
        let mut actions = one_record(LogLevel::Debug, "app-router inspected inbound metadata", trace);
        let ghost first = actions@;
        if !metadata_present {
            let mut warning = one_record(
                LogLevel::Warn,
                "app-router received message without user metadata", trace,
            );
            let ghost second = warning@;
            actions.append(&mut warning);
            proof {
                assert(handler_views(actions@) =~= handler_views(first) + handler_views(second));
            }
        } else {
            proof {
                assert(handler_views(first) + Seq::<HandlerActionView>::empty() =~= handler_views(
                    first,
                ));
            }
        }
        let ghost before = actions@;
        actions.push(HandlerAction::ForwardRead(message));
        proof {
            assert(handler_views(actions@) =~= handler_views(before).push(
                HandlerActionView::ForwardRead(message),
            ));
        }
        actions
    }

    /// Something failed: that is logged.
    pub fn on_exception_caught(
        &self,
        error: CoreError,
        trace: &TraceRef,
    ) -> (actions: Vec<HandlerAction>)
        ensures
            handler_views(actions@) == seq![
                HandlerActionView::Log(error_record("app-router handler failed"@, error@, *trace)),
            ],
    {
        one_error("app-router handler failed", error, trace)
    }
}

/// The way to the service: messages are noted and passed on.
#[derive(Debug)]
pub struct ServiceAdapterHandler {
    descriptor: InitializerDescriptor,
    service: ServiceId,
}

impl ServiceAdapterHandler {
    pub closed spec fn described_as(&self) -> InitializerView {
        self.descriptor@
    }

    pub closed spec fn serves(&self) -> ServiceId {
        self.service
    }

    /// The way to the given service.
    pub fn new(
        descriptor: InitializerDescriptor,
        service: ServiceId,
    ) -> (handler: ServiceAdapterHandler)
        ensures
            handler.described_as() == descriptor@,
            handler.serves() == service,
    {
        ServiceAdapterHandler { descriptor, service }
    }

    /// How the handler shows up.
    pub fn describe(&self) -> (descriptor: InitializerDescriptor)
        ensures
            descriptor@ == self.described_as(),
    {
        self.descriptor.clone()
    }

    /// A message arrived: that is logged, and it is passed on.
    pub fn on_read(
        &self,
        message: PipelineMessage,
        trace: &TraceRef,
    ) -> (actions: Vec<HandlerAction>)
        ensures
            handler_views(actions@) == seq![
                HandlerActionView::Log(
                    plain_record(
                        LogLevel::Info,
                        "service adapter received request; forwarding to next handler"@, *trace,
                    ),
                ),
                HandlerActionView::ForwardRead(message),
            ],
    {
        let mut actions = one_record(
            LogLevel::Info,
            "service adapter received request; forwarding to next handler", trace,
        );
        let ghost before = actions@;
        actions.push(HandlerAction::ForwardRead(message));
        proof {
            assert(handler_views(actions@) =~= handler_views(before).push(
                HandlerActionView::ForwardRead(message),
            ));
        }
        actions
    }

    /// Something failed: that is logged.
    pub fn on_exception_caught(
        &self,
        error: CoreError,
        trace: &TraceRef,
    ) -> (actions: Vec<HandlerAction>)
        ensures
            handler_views(actions@) == seq![
                HandlerActionView::Log(
                    error_record("service adapter observed pipeline error"@, error@, *trace),
                ),
            ],
    {
        one_error("service adapter observed pipeline error", error, trace)
    }

    /// The channel became inactive: that is logged.
    pub fn on_channel_inactive(&self, trace: &TraceRef) -> (actions: Vec<HandlerAction>)
        ensures
            handler_views(actions@) == seq![
                HandlerActionView::Log(
                    plain_record(LogLevel::Debug, "service adapter shutting down"@, *trace),
                ),
            ],
    {
        one_record(LogLevel::Debug, "service adapter shutting down", trace)
    }
}

/// What a running server holds: its listener, and how connections are set up.
#[derive(Debug)]
pub struct Running<L> {
    pub listener: L,
    pub selectors: InitializerSelectorContext,
}

/// A server whose connections are set up by what their handshakes agreed on.
#[derive(Debug)]
pub struct ExamplesServer<S, C, F, L> {
    services: S,
    config: C,
    transport_factory: Arc<F>,
    host: Host,
    full_stack_label: String,
    minimal_stack_label: String,
    service_name: String,
    listener: Option<Running<L>>,
}

impl<S, C, F, L> ExamplesServer<S, C, F, L> {
    pub closed spec fn provides(&self) -> S {
        self.services
    }

    pub closed spec fn listens_as(&self) -> C {
        self.config
    }

    pub closed spec fn listens_through(&self) -> F {
        *self.transport_factory
    }

    pub closed spec fn hosted_by(&self) -> Host {
        self.host
    }

    pub closed spec fn labels(&self) -> (Seq<char>, Seq<char>, Seq<char>) {
        (self.full_stack_label@, self.minimal_stack_label@, self.service_name@)
    }

    pub closed spec fn listens_on(&self) -> Option<Running<L>> {
        self.listener
    }

    /// A server that does not listen yet.
    pub fn new(
        services: S,
        config: C,
        transport_factory: Arc<F>,
        host: Host,
        full_stack_label: String,
        minimal_stack_label: String,
        service_name: String,
    ) -> (server: ExamplesServer<S, C, F, L>)
        ensures
            server.provides() == services,
            server.listens_as() == config,
            server.listens_through() == *transport_factory,
            server.hosted_by() == host,
            server.labels() == (full_stack_label@, minimal_stack_label@, service_name@),
            server.listens_on() is None,
    {
        ExamplesServer {
            services,
            config,
            transport_factory,
            host,
            full_stack_label,
            minimal_stack_label,
            service_name,
            listener: None,
        }
    }

    /// How the server is to listen: what the host opens the listener with.
    pub fn listen_request(&self) -> (request: (&C, &Arc<F>))
        ensures
            *request.0 == self.listens_as(),
            **request.1 == self.listens_through(),
    {
        (&self.config, &self.transport_factory)
    }

    /// The name of the service behind the server.
    pub fn service_name(&self) -> (name: &str)
        ensures
            name@ == self.labels().2,
    {
        self.service_name.as_str()
    }

    /// How the service behind the server is had; nothing where it is not registered.
    pub fn service_entry(&self) -> (entry: Option<ServiceEntry>)
        ensures
            entry is Some <==> self.hosted_by().registered_services()@.dom().contains(
                self.labels().2,
            ),
            entry is Some ==> entry->0 == self.hosted_by().registered_services()@[self.labels().2],
    {
        resolve_service_instance(self.host.services(), self.service_name.as_str())
    }

    /// Runs on the listener that the host has opened, for the given service: connections are set
    /// up by the initializers of the host. Where the listener could not be opened nothing
    /// changes.
    pub fn run(
        &mut self,
        opened: Result<L, CoreError>,
        service: ServiceId,
    ) -> (r: Result<(), CoreError>)
        ensures
            final(self).provides() == old(self).provides(),
            final(self).listens_as() == old(self).listens_as(),
            final(self).listens_through() == old(self).listens_through(),
            final(self).hosted_by() == old(self).hosted_by(),
            final(self).labels() == old(self).labels(),
            match opened {
                Err(error) => r == Err::<(), CoreError>(error) && final(self).listens_on() == old(
                    self).listens_on(),
                Ok(listener) => {
                    &&& r is Ok
                    &&& final(self).listens_on() is Some
                    &&& final(self).listens_on()->0.listener == listener
                    &&& resolves_to(
                        old(self).hosted_by().registered_middleware()@,
                        old(self).labels().0,
                        service,
                        true,
                        final(self).listens_on()->0.selectors.full(),
                    )
                    &&& resolves_to(
                        old(self).hosted_by().registered_middleware()@,
                        old(self).labels().1,
                        service,
                        false,
                        final(self).listens_on()->0.selectors.minimal(),
                    )
                },
            },
    {
        match opened {
            Ok(listener) => {
                let selectors = InitializerSelectorContext::new(
                    &self.host,
                    self.full_stack_label.as_str(),
                    self.minimal_stack_label.as_str(),
                    service,
                );
                self.listener = Some(Running { listener, selectors });
                Ok(())
            },
            Err(error) => Err(error),
        }
    }

    /// What the server hands to handlers.
    pub fn services(&self) -> (services: &S)
        ensures
            *services == self.provides(),
    {
        &self.services
    }
}

} // verus!
