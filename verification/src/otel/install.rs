//! What can go wrong while tracing is installed, and the order of its steps.
use vstd::prelude::*;

verus! {

/// Why tracing could not be installed, or a trace state not be carried over.
#[derive(Debug, PartialEq, Eq)]
pub enum Error {
    AlreadyInstalled,
    SubscriberAlreadySet,
    HandlerTracerInstalled,
    TraceStateConversion(String),
    SetGlobalSubscriber(String),
}

/// How an error reads.
pub open spec fn error_text(error: Error) -> Seq<char> {
    match error {
        Error::AlreadyInstalled => "spark-otel 已完成安装，禁止重复调用 install"@,
        Error::SubscriberAlreadySet => "全局 tracing Subscriber 已存在，spark-otel 无法覆盖"@,
        Error::HandlerTracerInstalled => "spark-core 已注册其他 HandlerSpanTracer"@,
        Error::TraceStateConversion(reason) => "TraceState 互转失败: "@ + reason@,
        Error::SetGlobalSubscriber(reason) => "设置 tracing 全局 Subscriber 失败: "@ + reason@,
    }
}

impl Error {
    /// How the error reads.
    pub fn to_text(&self) -> (text: String)
        ensures
            text@ == error_text(*self),
    {
        match self {
            Error::AlreadyInstalled => "spark-otel 已完成安装，禁止重复调用 install".to_owned(),
            Error::SubscriberAlreadySet => {
                "全局 tracing Subscriber 已存在，spark-otel 无法覆盖".to_owned()
            },
            Error::HandlerTracerInstalled => "spark-core 已注册其他 HandlerSpanTracer".to_owned(),
            Error::TraceStateConversion(reason) => {
                let mut text = "TraceState 互转失败: ".to_owned();
                text.append(reason.as_str());
                text
            },
            Error::SetGlobalSubscriber(reason) => {
                let mut text = "设置 tracing 全局 Subscriber 失败: ".to_owned();
                text.append(reason.as_str());
                text
            },
        }
    }
}

/// What the host is to do next while tracing is installed.
#[derive(Debug, PartialEq, Eq)]
pub enum InstallStep {
    /// Build the provider, make it global, and set the global subscriber.
    SetSubscriber,
    /// Hand the handler tracer to the pipeline.
    InstallHandlerTracer,
    /// Keep the provider and the tracer for the life of the process.
    KeepState,
    Finished,
    Failed(Error),
}

/// What is set up in a process: whether some subscriber is global, whether some handler tracer
/// was handed to the pipeline, and whether an installation was kept.
#[derive(Clone, Copy, Debug, PartialEq, Eq)]
pub struct TracingState {
    pub subscriber_set: bool,
    pub handler_tracer_set: bool,
    pub installed: bool,
}

/// The first step: nothing may have been installed, and no subscriber been set, before.
pub fn begin_install(state: &TracingState) -> (step: InstallStep)
    ensures
        step == if state.installed {
            InstallStep::Failed(Error::AlreadyInstalled)
        } else if state.subscriber_set {
            InstallStep::Failed(Error::SubscriberAlreadySet)
        } else {
            InstallStep::SetSubscriber
        },
{
    if state.installed {
        InstallStep::Failed(Error::AlreadyInstalled)
    } else if state.subscriber_set {
        InstallStep::Failed(Error::SubscriberAlreadySet)
    } else {
        InstallStep::SetSubscriber
    }
}

/// The step after the subscriber was set, or could not be.
pub fn after_set_subscriber(outcome: Result<(), String>) -> (step: InstallStep)
    ensures
        step == match outcome {
            Ok(_) => InstallStep::InstallHandlerTracer,
            Err(reason) => InstallStep::Failed(Error::SetGlobalSubscriber(reason)),
        },
{
    match outcome {
        Ok(_) => InstallStep::InstallHandlerTracer,
        Err(reason) => InstallStep::Failed(Error::SetGlobalSubscriber(reason)),
    }
}

/// The step after the handler tracer was handed over; the pipeline takes only the first.
pub fn after_install_handler_tracer(taken: bool) -> (step: InstallStep)
    ensures
        step == if taken {
            InstallStep::KeepState
        } else {
            InstallStep::Failed(Error::HandlerTracerInstalled)
        },
{
    if taken {
        InstallStep::KeepState
    } else {
        InstallStep::Failed(Error::HandlerTracerInstalled)
    }
}

/// The last step: where another installation was kept meanwhile, this one is refused.
pub fn after_keep_state(kept: bool) -> (step: InstallStep)
    ensures
        step == if kept {
            InstallStep::Finished
        } else {
            InstallStep::Failed(Error::AlreadyInstalled)
        },
{
    if kept {
        InstallStep::Finished
    } else {
        InstallStep::Failed(Error::AlreadyInstalled)
    }
}

/// What an installation comes to, and what is set up afterwards, given what came of setting the
/// global subscriber, where it comes to that. Each step that is reached leaves its mark, also
/// where a later one fails.
pub open spec fn installation(state: TracingState, subscriber: Result<(), String>) -> (
    Result<(), Error>,
    TracingState,
) {
    if state.installed {
        (Err(Error::AlreadyInstalled), state)
    } else if state.subscriber_set {
        (Err(Error::SubscriberAlreadySet), state)
    } else {
        let set = TracingState { subscriber_set: true, ..state };
        match subscriber {
            Err(reason) => (Err(Error::SetGlobalSubscriber(reason)), set),
            Ok(_) => if state.handler_tracer_set {
                (Err(Error::HandlerTracerInstalled), set)
            } else {
                (Ok(()), TracingState { handler_tracer_set: true, installed: true, ..set })
            },
        }
    }
}

/// Runs the steps of an installation where nobody else installs meanwhile. A subscriber that
/// could not be made global found another one there.
pub fn install(state: &mut TracingState, subscriber: Result<(), String>) -> (r: Result<(), Error>)
    ensures
        (r, *final(state)) == installation(*old(state), subscriber),
{
    if let InstallStep::Failed(error) = begin_install(state) {
        return Err(error);
    }
    state.subscriber_set = true;
    if let InstallStep::Failed(error) = after_set_subscriber(subscriber) {
        return Err(error);
    }
    let taken = !state.handler_tracer_set;
    state.handler_tracer_set = true;
    if let InstallStep::Failed(error) = after_install_handler_tracer(taken) {
        return Err(error);
    }
    let kept = !state.installed;
    state.installed = true;
    if let InstallStep::Failed(error) = after_keep_state(kept) {
        return Err(error);
    }
    Ok(())
}

/// What is set up after some installations, one after the other.
pub open spec fn after_installations(
    state: TracingState,
    subscribers: Seq<Result<(), String>>,
) -> TracingState
    decreases subscribers.len(),
{
    if subscribers.len() == 0 {
        state
    } else {
        installation(after_installations(state, subscribers.drop_last()), subscribers.last()).1
    }
}

/// Where a subscriber was set from outside, an installation is refused for that reason, and it
/// sets up nothing.
pub proof fn law_outside_subscriber_is_respected(
    state: TracingState,
    subscriber: Result<(), String>,
)
    requires
        state.subscriber_set,
        !state.installed,
    ensures
        installation(state, subscriber) == (
            Err::<(), Error>(Error::SubscriberAlreadySet),
            state,
        ),
{
}

/// Tracing is installed once: after an installation that succeeded, every later one is refused
/// as a repetition, though a subscriber is set too, and changes nothing.
pub proof fn law_installed_once(
    state: TracingState,
    first: Result<(), String>,
    between: Seq<Result<(), String>>,
    later: Result<(), String>,
)
    requires
        installation(state, first).0 is Ok,
    ensures
        ({
            let installed = installation(state, first).1;
            &&& after_installations(installed, between) == installed
            &&& installation(after_installations(installed, between), later) == (
                Err::<(), Error>(Error::AlreadyInstalled),
                installed,
            )
        }),
    decreases between.len(),
{
    if between.len() > 0 {
        law_installed_once(state, first, between.drop_last(), later);
    }
}

} // verus!
