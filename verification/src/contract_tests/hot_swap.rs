//! The suite on swapping handlers while messages flow.
use vstd::prelude::*;

use crate::contract_tests::case::{case_names, judge, verdict, Check, TckCase, TckSuite};
use crate::contract_tests::graceful_shutdown::check;
use crate::pipeline::message::{PipelineMessage, UserMessage};
use crate::text::{decimal, push_decimal, same_text, texts};

verus! {

/// The suite.
pub fn suite() -> (suite: TckSuite)
    ensures
        suite.name == "hot_swap",
        case_names(suite) == seq!["hot_swap_inserts_handler_without_dropping_messages"],
{
    let mut cases: Vec<TckCase> = Vec::new();
    cases.push(TckCase { name: "hot_swap_inserts_handler_without_dropping_messages" });
    let suite = TckSuite { name: "hot_swap", cases };
    proof {
        assert(case_names(suite) =~= seq!["hot_swap_inserts_handler_without_dropping_messages"]);
    }
    suite
}

/// A message of the case with the given number.
pub fn test_message(id: u64) -> (message: PipelineMessage)
    ensures
        message matches PipelineMessage::User(user) && user.kind@ == "TestMessage"@ && user.number
            == id,
{
    PipelineMessage::User(UserMessage { kind: "TestMessage".to_owned(), number: id })
}

/// One thing that the case does with a controller.
#[derive(Clone, Copy, Debug, PartialEq, Eq)]
pub enum SwapStep {
    /// Register an inbound handler of the given name under a label.
    Register { label: &'static str, name: &'static str },
    /// Hand a message of the case to the chain.
    Emit { id: u64 },
    /// Look at what the handlers have noted.
    Look,
    /// Find the handle of a handler by its label.
    Find { label: &'static str },
    /// Add a handler of the given name under a label, behind the one that was found, and look at
    /// the epoch before and after.
    AddAfterFound { label: &'static str, name: &'static str },
}

/// What the case does, in order: a message passes the first handler, the second handler is put in
/// behind it, and another message passes both.
pub open spec fn swap_script() -> Seq<SwapStep> {
    seq![
        SwapStep::Register { label: "tls", name: "tls" },
        SwapStep::Emit { id: 1 },
        SwapStep::Look,
        SwapStep::Find { label: "tls" },
        SwapStep::AddAfterFound { label: "logging", name: "log" },
        SwapStep::Emit { id: 2 },
        SwapStep::Look,
    ]
}

/// What the case does, in order.
pub fn swap_steps() -> (steps: Vec<SwapStep>)
    ensures
        steps@ == swap_script(),
{
    let mut steps: Vec<SwapStep> = Vec::new();
    steps.push(SwapStep::Register { label: "tls", name: "tls" });
    steps.push(SwapStep::Emit { id: 1 });
    steps.push(SwapStep::Look);
    steps.push(SwapStep::Find { label: "tls" });
    steps.push(SwapStep::AddAfterFound { label: "logging", name: "log" });
    steps.push(SwapStep::Emit { id: 2 });
    steps.push(SwapStep::Look);
    proof {
        assert(steps@ =~= swap_script());
    }
    steps
}

/// An inbound handler that notes each message of the case under its own name and passes
/// everything on.
#[derive(Clone, Copy, Debug, PartialEq, Eq)]
pub struct RecordingInbound {
    pub name: &'static str,
}

/// What is noted about a message of the case.
pub open spec fn noted(name: &'static str, number: u64) -> Seq<char> {
    name@ + ":"@ + decimal(number as nat)
}

impl RecordingInbound {
    /// A handler with the given name.
    pub fn new(name: &'static str) -> (handler: RecordingInbound)
        ensures
            handler.name == name,
    {
        RecordingInbound { name }
    }

    /// Takes a message: one of the case is noted; each is passed on as it came.
    pub fn on_read(
        &self,
        events: &mut Vec<String>,
        message: PipelineMessage,
    ) -> (forwarded: PipelineMessage)
        ensures
            forwarded == message,
            texts(final(events)@) == if message.kind() == Some("TestMessage"@) {
                texts(old(events)@).push(noted(self.name, message->User_0.number))
            } else {
                texts(old(events)@)
            },
    {
        if let PipelineMessage::User(user) = &message {
            if same_text(user.kind.as_str(), "TestMessage") {
                let mut event = self.name.to_owned();
                event.append(":");
                push_decimal(&mut event, user.number);
                let ghost before = events@;
                events.push(event);
                proof {
                    assert(texts(events@) =~= texts(before).push(noted(self.name, user.number)));
                }
            }
        }
        message
    }
}

/// What was seen while a handler was put into a running chain.
#[derive(Debug)]
pub struct SwapObservation {
    /// What the handlers had noted before the swap.
    pub events_before: Vec<String>,
    /// Whether the first handler was found in the registry.
    pub first_registered: bool,
    /// Whether the new handle is the head of the chain.
    pub new_handle_is_head: bool,
    /// The epoch before and after the swap.
    pub epoch_before: u64,
    pub epoch_after: u64,
    /// What the handlers have noted in the end.
    pub events_after: Vec<String>,
}

/// What the case demands: before the swap only the first handler sees messages; afterwards the
/// first and then the new one do, and none is lost.
pub open spec fn swap_checks(seen: SwapObservation) -> Seq<Check> {
    seq![
        check(texts(seen.events_before@) == seq!["tls:1"@], "插入前仅 TLS 处理消息"),
        check(seen.first_registered, "应能在注册表中找到 TLS Handler"),
        check(!seen.new_handle_is_head, "新增句柄不应指向链表头"),
        check(seen.epoch_after > seen.epoch_before, "插入后 epoch 应自增"),
        check(
            texts(seen.events_after@) == seq!["tls:1"@, "tls:2"@, "log:2"@],
            "插入后事件序列应保持完整",
        ),
    ]
}

/// The verdict on the case.
pub fn hot_swap_inserts_handler_without_dropping_messages(seen: &SwapObservation) -> (r: Result<
    (),
    &'static str,
>)
    ensures
        r == verdict(swap_checks(*seen)),
{
    let before: bool = seen.events_before.len() == 1 && same_text(
        seen.events_before[0].as_str(),
        "tls:1",
    );
    let after: bool = seen.events_after.len() == 3 && same_text(
        seen.events_after[0].as_str(),
        "tls:1",
    ) && same_text(seen.events_after[1].as_str(), "tls:2") && same_text(
        seen.events_after[2].as_str(),
        "log:2",
    );
    proof {
        let first = texts(seen.events_before@);
        let wanted = seq!["tls:1"@];
        if before {
            assert(first =~= wanted);
        } else if first == wanted {
            assert(first.len() == 1);
            assert(first[0] == seen.events_before@[0]@);
        }
        assert(before == (first == wanted));
        let last = texts(seen.events_after@);
        let wanted = seq!["tls:1"@, "tls:2"@, "log:2"@];
        if after {
            assert(last =~= wanted);
        } else if last == wanted {
            assert(last.len() == 3);
            assert(last[0] == seen.events_after@[0]@);
            assert(last[1] == seen.events_after@[1]@);
            assert(last[2] == seen.events_after@[2]@);
        }
        assert(after == (last == wanted));
    }
    let mut checks: Vec<Check> = Vec::new();
    checks.push(Check { holds: before, message: "插入前仅 TLS 处理消息" });
    checks.push(
        Check { holds: seen.first_registered, message: "应能在注册表中找到 TLS Handler" },
    );
    checks.push(
        Check { holds: !seen.new_handle_is_head, message: "新增句柄不应指向链表头" },
    );
    checks.push(
        Check { holds: seen.epoch_after > seen.epoch_before, message: "插入后 epoch 应自增" },
    );
    checks.push(Check { holds: after, message: "插入后事件序列应保持完整" });
    proof {
        assert(checks@ =~= swap_checks(*seen));
    }
    judge(&checks)
}

} // verus!
