//! A channel that records how it is closed, and whose end is up to the test.
use vstd::prelude::*;

use crate::error::CoreError;
use crate::task::{Poll, WakerId};
use crate::time::duration::Duration;

verus! {

/// Why a channel is closed.
#[derive(Debug, PartialEq, Eq)]
pub struct CloseReason {
    pub code: String,
    pub message: String,
}

/// Whether a channel has ended, how many confirmations are still missing, and whom to wake.
#[derive(Clone, Copy, Debug, PartialEq, Eq)]
pub struct ManualClosedState {
    pub completed: bool,
    pub waker: Option<WakerId>,
    pub pending_steps: usize,
}

/// The state after the channel has ended: that happens once.
pub open spec fn completed_state(state: ManualClosedState) -> ManualClosedState {
    if state.completed {
        state
    } else {
        ManualClosedState { completed: true, waker: None, pending_steps: 0 }
    }
}

/// The state after one more confirmation: the last one that was missing ends the channel.
pub open spec fn acknowledged(state: ManualClosedState) -> ManualClosedState {
    if state.pending_steps == 0 {
        state
    } else if state.pending_steps == 1 {
        completed_state(ManualClosedState { pending_steps: 0, ..state })
    } else {
        ManualClosedState { pending_steps: (state.pending_steps - 1) as usize, ..state }
    }
}

/// The state after some confirmations.
pub open spec fn acknowledged_times(state: ManualClosedState, times: nat) -> ManualClosedState
    decreases times,
{
    if times == 0 {
        state
    } else {
        acknowledged(acknowledged_times(state, (times - 1) as nat))
    }
}

/// The state after some confirmations were asked for.
pub open spec fn expecting(state: ManualClosedState, steps: usize) -> ManualClosedState {
    ManualClosedState { pending_steps: steps, completed: false, ..state }
}

impl ManualClosedState {
    /// The channel is open, and no confirmation is asked for.
    pub fn new() -> (state: ManualClosedState)
        ensures
            state == (ManualClosedState { completed: false, waker: None, pending_steps: 0 }),
    {
        ManualClosedState { completed: false, waker: None, pending_steps: 0 }
    }

    /// Notes whom to wake; the latest caller wins.
    pub fn register(&mut self, waker: WakerId)
        ensures
            *final(self) == (ManualClosedState { waker: Some(waker), ..*old(self) }),
    {
        self.waker = Some(waker);
    }

    /// The channel has ended. Returns whom to wake; nobody the second time.
    pub fn complete(&mut self) -> (to_wake: Option<WakerId>)
        ensures
            *final(self) == completed_state(*old(self)),
            to_wake == if old(self).completed {
                None
            } else {
                old(self).waker
            },
    {
        if self.completed {
            return None;
        }
        self.completed = true;
        self.pending_steps = 0;
        let to_wake = self.waker;
        self.waker = None;
        to_wake
    }

    /// Asks for some confirmations before the channel ends.
    pub fn set_pending_steps(&mut self, steps: usize)
        ensures
            *final(self) == expecting(*old(self), steps),
    {
        self.pending_steps = steps;
        self.completed = false;
    }

    /// One confirmation. Returns whom to wake where it was the last one.
    pub fn ack_step(&mut self) -> (to_wake: Option<WakerId>)
        ensures
            *final(self) == acknowledged(*old(self)),
            to_wake == if old(self).pending_steps == 1 && !old(self).completed {
                old(self).waker
            } else {
                None
            },
    {
        let current: usize = self.pending_steps;
        if current == 0 {
            return None;
        }
        self.pending_steps = current - 1;
        if current == 1 {
            return self.complete();
        }
        None
    }

    /// Whether the channel has ended.
    pub fn is_completed(&self) -> (completed: bool)
        ensures
            completed == self.completed,
    {
        self.completed
    }
}

/// Everything that is recorded about the closing of a channel.
#[derive(Debug)]
pub struct ChannelRecorder {
    pub graceful_calls: usize,
    pub force_calls: usize,
    pub graceful_reasons: Vec<CloseReason>,
    pub graceful_deadlines: Vec<Option<Duration>>,
    pub closed_state: ManualClosedState,
    pub closed_completions: usize,
    pub keep_pending: bool,
    pub closed_failures: usize,
    pub closed_drops: usize,
    pub failure: Option<CoreError>,
    pub result_recorded: bool,
}

/// The next value of a counter that wraps around.
pub open spec fn counted(n: usize) -> usize {
    if n == usize::MAX {
        0
    } else {
        (n + 1) as usize
    }
}

/// What is recorded when the end of a channel is looked at: the first look after each wait
/// counts, as a failure where one was set up and as a success otherwise.
pub open spec fn result_taken(recorder: ChannelRecorder) -> ChannelRecorder {
    if recorder.result_recorded {
        recorder
    } else if recorder.failure is Some {
        ChannelRecorder {
            result_recorded: true,
            failure: None,
            closed_failures: counted(recorder.closed_failures),
            ..recorder
        }
    } else {
        ChannelRecorder {
            result_recorded: true,
            closed_completions: counted(recorder.closed_completions),
            ..recorder
        }
    }
}

/// What a look at the end of a channel gives.
pub open spec fn result_given(recorder: ChannelRecorder) -> Result<(), CoreError> {
    if !recorder.result_recorded && recorder.failure is Some {
        Err(recorder.failure->0)
    } else {
        Ok(())
    }
}

/// Whether the end of a channel can be seen: it has ended, or nothing holds it back.
pub open spec fn end_is_seen(recorder: ChannelRecorder) -> bool {
    recorder.closed_state.completed || !recorder.keep_pending
}

/// Whether nothing was recorded yet, and nothing holds the end back.
pub open spec fn blank(recorder: ChannelRecorder) -> bool {
    &&& recorder.graceful_calls == 0
    &&& recorder.force_calls == 0
    &&& recorder.graceful_reasons@.len() == 0
    &&& recorder.graceful_deadlines@.len() == 0
    &&& recorder.closed_state == (ManualClosedState {
        completed: false,
        waker: None,
        pending_steps: 0,
    })
    &&& recorder.closed_completions == 0
    &&& !recorder.keep_pending
    &&& recorder.closed_failures == 0
    &&& recorder.closed_drops == 0
    &&& recorder.failure is None
    &&& !recorder.result_recorded
}

impl ChannelRecorder {
    /// Nothing was recorded yet, and nothing holds the end back.
    pub fn new() -> (recorder: ChannelRecorder)
        ensures
            blank(recorder),
    {
        ChannelRecorder {
            graceful_calls: 0,
            force_calls: 0,
            graceful_reasons: Vec::new(),
            graceful_deadlines: Vec::new(),
            closed_state: ManualClosedState::new(),
            closed_completions: 0,
            keep_pending: false,
            closed_failures: 0,
            closed_drops: 0,
            failure: None,
            result_recorded: false,
        }
    }

    /// The channel has ended.
    pub fn complete_closed(&mut self) -> (to_wake: Option<WakerId>)
        ensures
            *final(self) == (ChannelRecorder {
                closed_state: completed_state(old(self).closed_state),
                ..*old(self)
            }),
            to_wake == if old(self).closed_state.completed {
                None
            } else {
                old(self).closed_state.waker
            },
    {
        self.closed_state.complete()
    }

    /// The end is held back until it is brought about.
    pub fn keep_closed_pending(&mut self)
        ensures
            *final(self) == (ChannelRecorder { keep_pending: true, ..*old(self) }),
    {
        self.keep_pending = true;
    }

    /// The end is held back until it was confirmed some times.
    pub fn require_closed_steps(&mut self, steps: usize)
        ensures
            *final(self) == (ChannelRecorder {
                keep_pending: true,
                closed_state: expecting(old(self).closed_state, steps),
                ..*old(self)
            }),
    {
        self.keep_pending = true;
        self.closed_state.set_pending_steps(steps);
    }

    /// One confirmation.
    pub fn ack_closed_step(&mut self) -> (to_wake: Option<WakerId>)
        ensures
            *final(self) == (ChannelRecorder {
                closed_state: acknowledged(old(self).closed_state),
                ..*old(self)
            }),
            to_wake == if old(self).closed_state.pending_steps == 1 && !old(self).closed_state.completed {
                old(self).closed_state.waker
            } else {
                None
            },
    {
        self.closed_state.ack_step()
    }

    /// The channel has ended with an error.
    pub fn complete_closed_with_error(&mut self, error: CoreError) -> (to_wake: Option<WakerId>)
        ensures
            *final(self) == (ChannelRecorder {
                failure: Some(error),
                closed_state: completed_state(old(self).closed_state),
                ..*old(self)
            }),
            to_wake == if old(self).closed_state.completed {
                None
            } else {
                old(self).closed_state.waker
            },
    {
        self.failure = Some(error);
        self.closed_state.complete()
    }

    /// How often the end was seen as an error.
    pub fn closed_failure_count(&self) -> (count: usize)
        ensures
            count == self.closed_failures,
    {
        self.closed_failures
    }

    /// How often a wait for the end was let go.
    pub fn closed_drop_count(&self) -> (count: usize)
        ensures
            count == self.closed_drops,
    {
        self.closed_drops
    }

    /// The next look at the end counts again.
    fn reset_result_recording(&mut self)
        ensures
            *final(self) == (ChannelRecorder { result_recorded: false, ..*old(self) }),
    {
        self.result_recorded = false;
    }

    /// Looks at the end.
    pub fn take_closed_result(&mut self) -> (r: Result<(), CoreError>)
        ensures
            *final(self) == result_taken(*old(self)),
            r == result_given(*old(self)),
    {
        if self.result_recorded {
            return Ok(());
        }
        self.result_recorded = true;
        match self.failure.take() {
            Some(error) => {
                self.closed_failures = self.closed_failures.wrapping_add(1);
                Err(error)
            },
            None => {
                self.closed_completions = self.closed_completions.wrapping_add(1);
                Ok(())
            },
        }
    }

    /// Polls a wait for the end. Where nothing holds the end back, the wait brings it about.
    pub fn poll_closed(&mut self, waker: WakerId) -> (polled: Poll<Result<(), CoreError>>)
        ensures
            polled is Ready <==> end_is_seen(*old(self)),
            polled is Ready ==> polled->Ready_0 == result_given(*old(self)) && *final(self)
                == result_taken(
                (ChannelRecorder {
                    closed_state: completed_state(old(self).closed_state),
                    ..*old(self)
                }),
            ),
            polled is Pending ==> *final(self) == (ChannelRecorder {
                closed_state: ManualClosedState { waker: Some(waker), ..old(self).closed_state },
                ..*old(self)
            }),
    {
        if self.closed_state.is_completed() {
            return Poll::Ready(self.take_closed_result());
        }
        if self.keep_pending {
            self.closed_state.register(waker);
            if self.closed_state.is_completed() {
                Poll::Ready(self.take_closed_result())
            } else {
                Poll::Pending
            }
        } else {
            self.closed_state.complete();
            Poll::Ready(self.take_closed_result())
        }
    }

    /// A wait for the end was let go.
    pub fn drop_closed(&mut self)
        ensures
            *final(self) == (ChannelRecorder {
                closed_drops: counted(old(self).closed_drops),
                ..*old(self)
            }),
    {
        self.closed_drops = self.closed_drops.wrapping_add(1);
    }
}

/// A channel that records how it is closed.
#[derive(Debug)]
pub struct TestChannel {
    pub id: String,
    pub recorder: ChannelRecorder,
}

impl TestChannel {
    /// A channel with the given name.
    pub fn new(id: &str) -> (channel: TestChannel)
        ensures
            channel.id@ == id@,
            blank(channel.recorder),
    {
        TestChannel { id: id.to_owned(), recorder: ChannelRecorder::new() }
    }

    /// The channel is asked to close in an orderly way.
    pub fn close_graceful(&mut self, reason: CloseReason, deadline: Option<Duration>)
        ensures
            final(self).id == old(self).id,
            final(self).recorder.graceful_reasons@ == old(self).recorder.graceful_reasons@.push(reason),
            final(self).recorder.graceful_deadlines@ == old(self).recorder.graceful_deadlines@.push(deadline),
            final(self).recorder == (ChannelRecorder {
                graceful_calls: counted(old(self).recorder.graceful_calls),
                graceful_reasons: final(self).recorder.graceful_reasons,
                graceful_deadlines: final(self).recorder.graceful_deadlines,
                ..old(self).recorder
            }),
    {
        self.recorder.graceful_calls = self.recorder.graceful_calls.wrapping_add(1);
        self.recorder.graceful_reasons.push(reason);
        self.recorder.graceful_deadlines.push(deadline);
    }

    /// The channel is closed at once.
    pub fn close(&mut self)
        ensures
            final(self).id == old(self).id,
            final(self).recorder == (ChannelRecorder {
                force_calls: counted(old(self).recorder.force_calls),
                ..old(self).recorder
            }),
    {
        self.recorder.force_calls = self.recorder.force_calls.wrapping_add(1);
    }

    /// A wait for the end begins.
    pub fn closed(&mut self)
        ensures
            final(self).id == old(self).id,
            final(self).recorder == (ChannelRecorder {
                result_recorded: false,
                ..old(self).recorder
            }),
    {
        self.recorder.reset_result_recording();
    }
}

/// Where some confirmations were asked for, the last one of them ends the channel, and no earlier
/// one does.
pub proof fn law_last_confirmation_ends_the_channel(
    state: ManualClosedState,
    steps: usize,
    times: nat,
)
    requires
        steps >= 1,
    ensures
        acknowledged_times(expecting(state, steps), times).completed <==> times >= steps,
        times < steps ==> acknowledged_times(expecting(state, steps), times).pending_steps == steps
            - times,
        times >= steps ==> acknowledged_times(expecting(state, steps), times).pending_steps == 0,
    decreases times,
{
    if times > 0 {
        law_last_confirmation_ends_the_channel(state, steps, (times - 1) as nat);
    }
}

/// An end with an error is seen as that error once; a second look in the same wait sees nothing
/// of it, and it is not counted as a success.
pub proof fn law_failure_is_seen_once(recorder: ChannelRecorder)
    requires
        !recorder.result_recorded,
        recorder.failure is Some,
    ensures
        result_given(recorder) == Err::<(), CoreError>(recorder.failure->0),
        result_given(result_taken(recorder)) is Ok,
        result_taken(result_taken(recorder)) == result_taken(recorder),
        result_taken(recorder).closed_completions == recorder.closed_completions,
{
}

} // verus!
