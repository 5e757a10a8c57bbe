//! Clocks: the interface of an injectable time source, a virtual clock that only moves when told
//! to, and the state of one sleep that a helper thread completes.
use vstd::prelude::*;

use crate::seqs::{
    lemma_filter_agree, lemma_filter_all, lemma_filter_members, lemma_filter_step, lemma_filter_twice,
};
use crate::task::{Poll, WakerId};
use crate::time::duration::{saturating_sum, Duration, Instant, MAX_NANOS};

verus! {

/// A source of monotonic time that can also count down a span.
///
/// Readings never go back, and a sleep takes at least as long as was asked for.
pub trait Clock {
    /// What a caller holds while it waits.
    type Sleep;

    /// Whether the reading of the clock can be told.
    spec fn legible(&self) -> bool;

    /// Whether the clock can hand out another sleep.
    spec fn accepts_sleep(&self) -> bool;

    /// The current reading, in nanoseconds from the reference point.
    spec fn reading(&self) -> nat;

    /// The reading at which a sleep is over.
    spec fn ends_at(&self, sleep: Self::Sleep) -> nat;

    /// The current point in time.
    fn now(&self) -> (now: Instant)
        requires
            self.legible(),
        ensures
            now@ == self.reading(),
    ;

    /// Starts to wait for the given span.
    fn sleep(&mut self, duration: Duration) -> (sleep: Self::Sleep)
        requires
            old(self).accepts_sleep(),
        ensures
            final(self).reading() == old(self).reading(),
            final(self).ends_at(sleep) >= old(self).reading() + duration@ || final(self).ends_at(
                sleep,
            ) >= MAX_NANOS,
    ;
}

/// One registered sleep: when it is due, and whom to wake.
#[derive(Clone, Copy, Debug)]
pub struct SleepState {
    pub id: usize,
    pub deadline: Duration,
    pub waker: Option<WakerId>,
}

impl SleepState {
    /// A sleep that nobody has polled yet.
    fn new(id: usize, deadline: Duration) -> (state: SleepState)
        ensures
            state.id == id,
            state.deadline == deadline,
            state.waker is None,
    {
        SleepState { id, deadline, waker: None }
    }

    /// Notes whom to wake. A waker that would wake the same task stays as it is.
    fn store_waker(&mut self, waker: WakerId)
        ensures
            *final(self) == (SleepState { waker: Some(waker), ..*old(self) }),
    {
        if let Some(existing) = self.waker {
            if existing == waker {
                return;
            }
        }
        self.waker = Some(waker);
    }
}

/// What a virtual clock is, for the contracts: where it started, how far it was moved, the sleeps
/// that wait in the order in which they were registered, and the number that the next one gets.
pub struct ClockState {
    pub origin: nat,
    pub elapsed: nat,
    pub sleepers: Seq<SleepState>,
    pub next_id: nat,
}

/// Whether a sleep is over once the clock stands at `elapsed`.
pub open spec fn is_due(sleep: SleepState, elapsed: nat) -> bool {
    elapsed >= sleep.deadline@
}

/// The wakers that the given sleeps hold, in order; a sleep that was never polled holds none.
pub open spec fn wakers_of(sleepers: Seq<SleepState>) -> Seq<WakerId>
    decreases sleepers.len(),
{
    if sleepers.len() == 0 {
        Seq::empty()
    } else {
        let rest = wakers_of(sleepers.drop_last());
        match sleepers.last().waker {
            Some(waker) => rest.push(waker),
            None => rest,
        }
    }
}

impl ClockState {
    /// The numbers of the waiting sleeps are distinct and were all handed out before.
    pub open spec fn well_formed(self) -> bool {
        &&& self.elapsed <= MAX_NANOS
        &&& forall|i: int|
            0 <= i < self.sleepers.len() ==> (#[trigger] self.sleepers[i]).id < self.next_id
        &&& forall|i: int, j: int|
            0 <= i < j < self.sleepers.len() ==> (#[trigger] self.sleepers[i]).id != (
            #[trigger] self.sleepers[j]).id
    }

    /// Whether the sleep with this number still waits.
    pub open spec fn waits(self, id: usize) -> bool {
        exists|i: int| 0 <= i < self.sleepers.len() && (#[trigger] self.sleepers[i]).id == id
    }

    /// The sleeps that are over once the clock was moved to `elapsed`, in registration order.
    pub open spec fn due(self, elapsed: nat) -> Seq<SleepState> {
        self.sleepers.filter(|s: SleepState| is_due(s, elapsed))
    }

    /// The clock after it was moved by `delta`: a zero move changes nothing at all.
    pub open spec fn advanced(self, delta: nat) -> ClockState {
        if delta == 0 {
            self
        } else {
            let elapsed = saturating_sum(self.elapsed, delta);
            ClockState {
                elapsed,
                sleepers: self.sleepers.filter(|s: SleepState| !is_due(s, elapsed)),
                ..self
            }
        }
    }

    /// Whom a move by `delta` wakes, in the order of the wake-ups.
    pub open spec fn woken(self, delta: nat) -> Seq<WakerId> {
        if delta == 0 {
            Seq::empty()
        } else {
            wakers_of(self.due(saturating_sum(self.elapsed, delta)))
        }
    }

    /// The clock after a sleep was registered.
    pub open spec fn registered(self, sleep: SleepState) -> ClockState {
        ClockState { sleepers: self.sleepers.push(sleep), next_id: self.next_id + 1, ..self }
    }

    /// The clock after the sleep with this number was given up.
    pub open spec fn without(self, id: usize) -> ClockState {
        ClockState { sleepers: self.sleepers.filter(|s: SleepState| s.id != id), ..self }
    }

    /// The clock after the sleep with this number was polled on behalf of `waker`.
    pub open spec fn polled(self, id: usize, waker: WakerId) -> ClockState {
        ClockState {
            sleepers: self.sleepers.map_values(
                |s: SleepState|
                    if s.id == id {
                        SleepState { waker: Some(waker), ..s }
                    } else {
                        s
                    },
            ),
            ..self
        }
    }
}

/// A virtual clock: time stands still until it is moved by hand, so that a test can replay the
/// same sequence of wake-ups again and again.
#[derive(Debug)]
pub struct MockClock {
    origin: Instant,
    elapsed: Duration,
    sleepers: Vec<SleepState>,
    next_id: usize,
}

impl View for MockClock {
    type V = ClockState;

    closed spec fn view(&self) -> ClockState {
        ClockState {
            origin: self.origin@,
            elapsed: self.elapsed@,
            sleepers: self.sleepers@,
            next_id: self.next_id as nat,
        }
    }
}

impl MockClock {
    /// A virtual clock that starts at the point in time the host read.
    pub fn new(now: Instant) -> (clock: MockClock)
        ensures
            clock@ == (ClockState {
                origin: now@,
                elapsed: 0,
                sleepers: Seq::empty(),
                next_id: 0,
            }),
            clock@.well_formed(),
    {
        MockClock::with_start(now)
    }

    /// A virtual clock that starts at `origin`.
    pub fn with_start(origin: Instant) -> (clock: MockClock)
        ensures
            clock@ == (ClockState {
                origin: origin@,
                elapsed: 0,
                sleepers: Seq::empty(),
                next_id: 0,
            }),
            clock@.well_formed(),
    {
        MockClock { origin, elapsed: Duration::from_secs(0), sleepers: Vec::new(), next_id: 0 }
    }

    /// How far the clock was moved since it started.
    pub fn elapsed(&self) -> (elapsed: Duration)
        ensures
            elapsed@ == self@.elapsed,
    {
        self.elapsed
    }

    /// Moves the clock. The caller wakes the returned tasks one by one, in order.
    pub fn advance(&mut self, delta: Duration) -> (to_wake: Vec<WakerId>)
        requires
            old(self)@.well_formed(),
        ensures
            final(self)@.well_formed(),
            final(self)@ == old(self)@.advanced(delta@),
            to_wake@ == old(self)@.woken(delta@),
    {
        let mut to_wake: Vec<WakerId> = Vec::new();
        if delta.is_zero() {
            return to_wake;
        }
        let elapsed = self.elapsed.saturating_add(delta);
        let mut kept: Vec<SleepState> = Vec::new();
        let mut i: usize = 0;
        while i < self.sleepers.len()
            invariant
                *self == *old(self),
                i <= self.sleepers.len(),
                kept@ == self.sleepers@.take(i as int).filter(
                    |s: SleepState| !is_due(s, elapsed@),
                ),
                to_wake@ == wakers_of(
                    self.sleepers@.take(i as int).filter(|s: SleepState| is_due(s, elapsed@)),
                ),
            decreases self.sleepers.len() - i,
        {
            let entry = self.sleepers[i];
            proof {
                lemma_filter_step(self.sleepers@, i as int, |s: SleepState| !is_due(s, elapsed@));
                lemma_filter_step(self.sleepers@, i as int, |s: SleepState| is_due(s, elapsed@));
            }
            if elapsed.reaches(&entry.deadline) {
                let ghost due_before = self.sleepers@.take(i as int).filter(
                    |s: SleepState| is_due(s, elapsed@),
                );
                proof {
                    assert(due_before.push(entry).drop_last() == due_before);
                }
                if let Some(waker) = entry.waker {
                    to_wake.push(waker);
                }
            } else {
                kept.push(entry);
            }
            i = i + 1;
        }
        proof {
            assert(self.sleepers@.take(i as int) == self.sleepers@);
            lemma_filter_keeps_numbers(self@, |s: SleepState| !is_due(s, elapsed@));
            lemma_saturating_sum_bounded(old(self)@.elapsed, delta@);
        }
        self.sleepers = kept;
        self.elapsed = elapsed;
        to_wake
    }

    /// The sleep with the given number is given up: nobody is woken for it any more.
    fn forget(&mut self, id: usize)
        requires
            old(self)@.well_formed(),
        ensures
            final(self)@.well_formed(),
            final(self)@ == old(self)@.without(id),
    {
        let mut kept: Vec<SleepState> = Vec::new();
        let mut i: usize = 0;
        while i < self.sleepers.len()
            invariant
                *self == *old(self),
                i <= self.sleepers.len(),
                kept@ == self.sleepers@.take(i as int).filter(|s: SleepState| s.id != id),
            decreases self.sleepers.len() - i,
        {
            let entry = self.sleepers[i];
            proof {
                lemma_filter_step(self.sleepers@, i as int, |s: SleepState| s.id != id);
            }
            if entry.id != id {
                kept.push(entry);
            }
            i = i + 1;
        }
        proof {
            assert(self.sleepers@.take(i as int) == self.sleepers@);
            lemma_filter_keeps_numbers(self@, |s: SleepState| s.id != id);
        }
        self.sleepers = kept;
    }

    /// Notes on whose behalf the sleep with the given number was polled.
    fn note_waker(&mut self, id: usize, waker: WakerId)
        requires
            old(self)@.well_formed(),
        ensures
            final(self)@.well_formed(),
            final(self)@ == old(self)@.polled(id, waker),
    {
        let ghost mark = |s: SleepState|
            if s.id == id {
                SleepState { waker: Some(waker), ..s }
            } else {
                s
            };
        let mut i: usize = 0;
        while i < self.sleepers.len()
            invariant
                i <= self.sleepers.len(),
                self.origin == old(self).origin,
                self.elapsed == old(self).elapsed,
                self.next_id == old(self).next_id,
                self.sleepers.len() == old(self).sleepers.len(),
                mark == (|s: SleepState|
                    if s.id == id {
                        SleepState { waker: Some(waker), ..s }
                    } else {
                        s
                    }),
                forall|k: int| 0 <= k < i ==> #[trigger] self.sleepers@[k] == mark(
                    old(self).sleepers@[k],
                ),
                forall|k: int|
                    i <= k < self.sleepers.len() ==> #[trigger] self.sleepers@[k] == old(self).sleepers@[k],
            decreases self.sleepers.len() - i,
        {
            let mut entry = self.sleepers[i];
            if entry.id == id {
                entry.store_waker(waker);
            }
            self.sleepers.set(i, entry);
            i = i + 1;
        }
        proof {
            assert(self.sleepers@ == old(self).sleepers@.map_values(mark));
            assert forall|k: int| 0 <= k < self.sleepers@.len() implies (
            #[trigger] self.sleepers@[k]).id == old(self)@.sleepers[k].id by {}
        }
    }
}

impl Clock for MockClock {
    type Sleep = MockSleep;

    /// The clock can be read until its reading cannot be told.
    open spec fn legible(&self) -> bool {
        &&& self@.well_formed()
        &&& self@.origin + self@.elapsed <= MAX_NANOS
    }

    /// The clock hands out sleeps until the next one cannot be numbered.
    open spec fn accepts_sleep(&self) -> bool {
        &&& self@.well_formed()
        &&& self@.next_id < usize::MAX
    }

    open spec fn reading(&self) -> nat {
        self@.origin + self@.elapsed
    }

    open spec fn ends_at(&self, sleep: MockSleep) -> nat {
        self@.origin + sleep.deadline@
    }

    fn now(&self) -> (now: Instant) {
        match self.origin.checked_add(self.elapsed) {
            Some(now) => now,
            None => self.origin,
        }
    }

    fn sleep(&mut self, duration: Duration) -> (sleep: MockSleep)
        ensures
            final(self)@.well_formed(),
            sleep.id == old(self)@.next_id,
            sleep.deadline@ == saturating_sum(old(self)@.elapsed, duration@),
            !sleep.completed,
            !sleep.cancelled,
            final(self)@ == old(self)@.registered(
                SleepState { id: sleep.id, deadline: sleep.deadline, waker: None },
            ),
    {
        let deadline = self.elapsed.saturating_add(duration);
        let id: usize = self.next_id;
        self.next_id = self.next_id + 1;
        self.sleepers.push(SleepState::new(id, deadline));
        MockSleep { id, deadline, completed: false, cancelled: false }
    }
}

/// One wait on a virtual clock. The number and the deadline tie it to the clock that made it.
#[derive(Debug)]
pub struct MockSleep {
    pub id: usize,
    pub deadline: Duration,
    pub completed: bool,
    pub cancelled: bool,
}

impl MockSleep {
    /// Asks whether the wait is over. While it is not, the task behind `waker` is the one that
    /// the clock wakes.
    pub fn poll(&mut self, clock: &mut MockClock, waker: WakerId) -> (polled: Poll<()>)
        requires
            old(clock)@.well_formed(),
        ensures
            final(clock)@.well_formed(),
            polled is Ready <==> old(self).cancelled || old(self).completed || old(clock)@.elapsed >= old(self).deadline@,
            polled is Ready ==> final(clock)@ == old(clock)@,
            polled is Pending ==> final(clock)@ == old(clock)@.polled(old(self).id, waker),
            *final(self) == (MockSleep {
                completed: old(self).completed || (!old(self).cancelled && polled is Ready),
                ..*old(self)
            }),
    {
        if self.cancelled || self.completed {
            return Poll::Ready(());
        }
        let elapsed = clock.elapsed();
        if elapsed.reaches(&self.deadline) {
            self.completed = true;
            return Poll::Ready(());
        }
        clock.note_waker(self.id, waker);
        Poll::Pending
    }

    /// Gives the wait up, as its owner lets go of it. A wait that was seen to be over leaves the
    /// clock alone.
    pub fn cancel(&mut self, clock: &mut MockClock)
        requires
            old(clock)@.well_formed(),
        ensures
            final(clock)@.well_formed(),
            old(self).completed ==> *final(self) == *old(self) && final(clock)@ == old(clock)@,
            !old(self).completed ==> *final(self) == (MockSleep { cancelled: true, ..*old(self) })
                && final(clock)@ == old(clock)@.without(old(self).id),
    {
        if !self.completed {
            self.cancelled = true;
            clock.forget(self.id);
        }
    }
}

/// The state of a sleep that a helper thread ends: whether it is over, and whom to wake then.
#[derive(Debug)]
pub struct ThreadSleepState {
    completed: bool,
    waker: Option<WakerId>,
}

impl ThreadSleepState {
    pub closed spec fn completed(&self) -> bool {
        self.completed
    }

    pub closed spec fn waker(&self) -> Option<WakerId> {
        self.waker
    }

    /// A sleep that has just begun.
    pub fn new() -> (state: ThreadSleepState)
        ensures
            !state.completed(),
            state.waker() is None,
    {
        ThreadSleepState { completed: false, waker: None }
    }

    /// Whether the helper thread is through.
    pub fn is_completed(&self) -> (r: bool)
        ensures
            r == self.completed(),
    {
        self.completed
    }

    /// Notes whom to wake; the latest caller wins.
    pub fn register_waker(&mut self, waker: WakerId)
        ensures
            final(self).completed() == old(self).completed(),
            final(self).waker() == Some(waker),
    {
        self.waker = Some(waker);
    }

    /// The helper thread is through. Returns whom to wake; a second call wakes nobody.
    pub fn finish(&mut self) -> (to_wake: Option<WakerId>)
        ensures
            final(self).completed(),
            final(self).waker() is None,
            to_wake == old(self).waker(),
    {
        self.completed = true;
        let to_wake = self.waker;
        self.waker = None;
        to_wake
    }

    /// Asks whether the sleep is over, and leaves a waker behind while it is not.
    pub fn poll(&mut self, waker: WakerId) -> (polled: Poll<()>)
        ensures
            polled is Ready <==> old(self).completed(),
            final(self).completed() == old(self).completed(),
            final(self).waker() == if old(self).completed() {
                old(self).waker()
            } else {
                Some(waker)
            },
    {
        if self.is_completed() {
            return Poll::Ready(());
        }
        self.register_waker(waker);
        if self.is_completed() {
            Poll::Ready(())
        } else {
            Poll::Pending
        }
    }
}

proof fn lemma_saturating_sum_bounded(a: nat, b: nat)
    ensures
        saturating_sum(a, b) <= MAX_NANOS,
        a <= MAX_NANOS ==> a <= saturating_sum(a, b),
{
}

/// Dropping some of the waiting sleeps keeps their numbers distinct and handed out.
proof fn lemma_filter_keeps_numbers(state: ClockState, p: spec_fn(SleepState) -> bool)
    requires
        state.well_formed(),
    ensures
        forall|i: int|
            0 <= i < state.sleepers.filter(p).len() ==> (#[trigger] state.sleepers.filter(
                p,
            )[i]).id < state.next_id,
        forall|i: int, j: int|
            0 <= i < j < state.sleepers.filter(p).len() ==> (#[trigger] state.sleepers.filter(
                p,
            )[i]).id != (#[trigger] state.sleepers.filter(p)[j]).id,
    decreases state.sleepers.len(),
{
    lemma_filter_members(state.sleepers, p);
    if state.sleepers.len() > 0 {
        let rest = ClockState { sleepers: state.sleepers.drop_last(), ..state };
        lemma_filter_keeps_numbers(rest, p);
        lemma_filter_members(rest.sleepers, p);
        reveal(Seq::filter);
    } else {
        reveal(Seq::filter);
    }
}

/// A clock never goes back.
pub proof fn law_time_never_goes_back(state: ClockState, delta: nat)
    requires
        state.well_formed(),
    ensures
        state.elapsed <= state.advanced(delta).elapsed,
        state.advanced(delta).elapsed <= MAX_NANOS,
{
}

/// Moving a clock in two steps leaves it where one step of the same length would.
pub proof fn law_moves_add_up(state: ClockState, first: nat, second: nat)
    requires
        state.well_formed(),
    ensures
        state.advanced(first).advanced(second) == state.advanced(first + second),
{
    if first > 0 && second > 0 {
        let e1 = saturating_sum(state.elapsed, first);
        let e2 = saturating_sum(e1, second);
        let p = |s: SleepState| !is_due(s, e1);
        let q = |s: SleepState| !is_due(s, e2);
        lemma_filter_twice(state.sleepers, p, q);
        lemma_filter_agree(state.sleepers, |s: SleepState| p(s) && q(s), q);
    }
}

/// Tasks are woken in the order in which their sleeps were registered: those of an earlier part
/// of the queue come before those of a later part.
pub proof fn law_wakes_in_registration_order(
    state: ClockState,
    earlier: Seq<SleepState>,
    later: Seq<SleepState>,
    delta: nat,
)
    requires
        state.sleepers == earlier + later,
    ensures
        state.woken(delta) == (ClockState { sleepers: earlier, ..state }).woken(delta) + (
        ClockState { sleepers: later, ..state }).woken(delta),
{
    let elapsed = saturating_sum(state.elapsed, delta);
    let p = |s: SleepState| is_due(s, elapsed);
    Seq::filter_distributes_over_add(earlier, later, p);
    lemma_wakers_of_sum(earlier.filter(p), later.filter(p));
    assert(Seq::<WakerId>::empty() + Seq::<WakerId>::empty() == Seq::<WakerId>::empty());
}

pub(crate) proof fn lemma_wakers_of_sum(a: Seq<SleepState>, b: Seq<SleepState>)
    ensures
        wakers_of(a + b) == wakers_of(a) + wakers_of(b),
    decreases b.len(),
{
    if b.len() == 0 {
        assert(a + b == a);
    } else {
        assert((a + b).drop_last() == a + b.drop_last());
        lemma_wakers_of_sum(a, b.drop_last());
    }
}

proof fn lemma_wakers_of_contains(sleepers: Seq<SleepState>, k: int)
    requires
        0 <= k < sleepers.len(),
        sleepers[k].waker is Some,
    ensures
        wakers_of(sleepers).contains(sleepers[k].waker->0),
    decreases sleepers.len(),
{
    let rest = wakers_of(sleepers.drop_last());
    if k < sleepers.len() - 1 {
        lemma_wakers_of_contains(sleepers.drop_last(), k);
        let n = choose|n: int| 0 <= n < rest.len() && rest[n] == sleepers[k].waker->0;
        assert(wakers_of(sleepers)[n] == sleepers[k].waker->0);
    } else {
        assert(wakers_of(sleepers)[rest.len() as int] == sleepers[k].waker->0);
    }
}

/// The clock after a fresh sleep over `span` was registered and polled on behalf of `waker`.
pub open spec fn asleep(state: ClockState, sleep: SleepState, waker: WakerId) -> ClockState {
    state.registered(sleep).polled(sleep.id, waker)
}

/// A polled sleep is woken by the first move that reaches its deadline, and by no earlier one;
/// once woken it waits no more.
pub proof fn law_sleep_is_woken_when_due(
    state: ClockState,
    sleep: SleepState,
    waker: WakerId,
    delta: nat,
)
    requires
        state.well_formed(),
        sleep.id == state.next_id,
        delta > 0,
    ensures
        is_due(sleep, saturating_sum(state.elapsed, delta)) ==> asleep(state, sleep, waker).woken(
            delta,
        ).contains(waker) && !asleep(state, sleep, waker).advanced(delta).waits(sleep.id),
        !is_due(sleep, saturating_sum(state.elapsed, delta)) ==> asleep(
            state,
            sleep,
            waker,
        ).advanced(delta).waits(sleep.id),
{
    let all = asleep(state, sleep, waker).sleepers;
    let elapsed = saturating_sum(state.elapsed, delta);
    let due = |s: SleepState| is_due(s, elapsed);
    let kept = |s: SleepState| !is_due(s, elapsed);
    let entry = all.last();
    assert(entry.id == sleep.id && entry.waker == Some(waker) && entry.deadline == sleep.deadline);
    if due(sleep) {
        all.lemma_filter_contains(due, all.len() - 1);
        let k = choose|k: int| 0 <= k < all.filter(due).len() && all.filter(due)[k] == entry;
        lemma_wakers_of_contains(all.filter(due), k);
        lemma_filter_members(all, kept);
        assert forall|i: int| 0 <= i < all.filter(kept).len() implies (#[trigger] all.filter(
            kept,
        )[i]).id != sleep.id by {
            let j = choose|j: int| 0 <= j < all.len() && all[j] == all.filter(kept)[i];
            if j < all.len() - 1 {
                assert(all[j].id == state.sleepers[j].id);
            }
        }
    } else {
        all.lemma_filter_contains(kept, all.len() - 1);
        let k = choose|k: int| 0 <= k < all.filter(kept).len() && all.filter(kept)[k] == entry;
        assert(asleep(state, sleep, waker).advanced(delta).sleepers[k].id == sleep.id);
    }
}

/// A sleep that is given up before it is due is as if it had never been asked for, save that its
/// number is not handed out again: it wakes nobody.
pub proof fn law_given_up_sleep_leaves_no_trace(
    state: ClockState,
    sleep: SleepState,
    waker: WakerId,
)
    requires
        state.well_formed(),
        sleep.id == state.next_id,
    ensures
        asleep(state, sleep, waker).without(sleep.id) == (ClockState {
            next_id: state.next_id + 1,
            ..state
        }),
{
    let all = asleep(state, sleep, waker).sleepers;
    let other = |s: SleepState| s.id != sleep.id;
    reveal(Seq::filter);
    assert(all.drop_last() == state.sleepers) by {
        assert forall|k: int| 0 <= k < state.sleepers.len() implies all.drop_last()[k]
            == state.sleepers[k] by {
            assert(state.sleepers[k].id < state.next_id);
        }
    }
    lemma_filter_all(state.sleepers, other);
}

} // verus!
