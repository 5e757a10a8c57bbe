//! What moving a clock does, stated on what waits before and after.
use vstd::prelude::*;

use crate::seqs::lemma_filter_members;
use crate::task::{Poll, WakerId};
use crate::time::clock::{is_due, Clock, MockClock, MockSleep, SleepState, ThreadSleepState};
use crate::time::duration::{Duration, Instant};

verus! {

/// Spans of seconds and milliseconds have their length in nanoseconds, and a sum is the sum unless
/// it is longer than can be told.
pub proof fn law_spans_have_their_length(
    secs: u64,
    millis: u64,
    from_secs: Duration,
    from_millis: Duration,
    a: Duration,
    b: Duration,
    sum: Duration,
    checked: Option<Duration>,
)
    requires
        call_ensures(Duration::from_secs, (secs,), from_secs),
        call_ensures(Duration::from_millis, (millis,), from_millis),
        call_ensures(Duration::saturating_add, (a, b), sum),
        call_ensures(Duration::checked_add, (a, b), checked),
    ensures
        from_secs@ == secs * 1_000_000_000,
        from_millis@ == millis * 1_000_000,
        a@ + b@ <= 18_446_744_073_709_551_615_999_999_999 ==> sum@ == a@ + b@ && checked is Some
            && checked->0@ == a@ + b@,
        a@ + b@ > 18_446_744_073_709_551_615_999_999_999 ==> sum@
            == 18_446_744_073_709_551_615_999_999_999 && checked is None,
{
}

/// The time between two points is their distance, and none where they are the other way round.
pub proof fn law_time_between_points(later: Instant, earlier: Instant, span: Duration)
    requires
        call_ensures(Instant::saturating_duration_since, (&later, earlier), span),
    ensures
        later@ >= earlier@ ==> earlier@ + span@ == later@,
        later@ < earlier@ ==> span@ == 0,
{
}

/// Moving a clock moves it by that much, keeps where it started and which number comes next, and
/// leaves exactly the sleeps waiting whose deadline lies ahead, in their order. A move by nothing
/// changes nothing.
pub proof fn law_a_move_ends_what_is_due(
    clock: &mut MockClock,
    delta: Duration,
    to_wake: Vec<WakerId>,
    i: int,
)
    requires
        old(clock)@.well_formed(),
        call_ensures(MockClock::advance, (clock, delta), to_wake),
    ensures
        delta@ == 0 ==> final(clock)@ == old(clock)@ && to_wake@.len() == 0,
        final(clock)@.origin == old(clock)@.origin,
        final(clock)@.next_id == old(clock)@.next_id,
        old(clock)@.elapsed + delta@ <= 18_446_744_073_709_551_615_999_999_999
            ==> final(clock)@.elapsed == old(clock)@.elapsed + delta@,
        old(clock)@.elapsed + delta@ > 18_446_744_073_709_551_615_999_999_999
            ==> final(clock)@.elapsed == 18_446_744_073_709_551_615_999_999_999,
        delta@ > 0 ==> final(clock)@.sleepers == old(clock)@.sleepers.filter(
            |s: SleepState| s.deadline@ > final(clock)@.elapsed,
        ),
        delta@ > 0 && 0 <= i < final(clock)@.sleepers.len() ==> final(clock)@.sleepers[i].deadline@
            > final(clock)@.elapsed,
{
    if delta@ > 0 {
        let elapsed = final(clock)@.elapsed;
        let kept = |s: SleepState| !is_due(s, elapsed);
        let ahead = |s: SleepState| s.deadline@ > elapsed;
        crate::seqs::lemma_filter_agree(old(clock)@.sleepers, kept, ahead);
        lemma_filter_members(old(clock)@.sleepers, ahead);
        if 0 <= i < final(clock)@.sleepers.len() {
            assert(ahead(old(clock)@.sleepers.filter(ahead)[i]));
        }
    }
}

/// Whom the sleeps that some wait would wake, in order.
pub open spec fn waiting_tasks(sleepers: Seq<SleepState>, elapsed: nat) -> Seq<WakerId>
    decreases sleepers.len(),
{
    if sleepers.len() == 0 {
        Seq::empty()
    } else if sleepers[0].deadline@ <= elapsed && sleepers[0].waker is Some {
        seq![sleepers[0].waker->0] + waiting_tasks(sleepers.skip(1), elapsed)
    } else {
        waiting_tasks(sleepers.skip(1), elapsed)
    }
}

/// A move wakes the task of each sleep that it ends and that was polled, once, in the order in
/// which the sleeps were registered, and nobody else.
pub proof fn law_a_move_wakes_in_order(clock: &mut MockClock, delta: Duration, to_wake: Vec<WakerId>)
    requires
        old(clock)@.well_formed(),
        delta@ > 0,
        call_ensures(MockClock::advance, (clock, delta), to_wake),
    ensures
        to_wake@ == waiting_tasks(old(clock)@.sleepers, final(clock)@.elapsed),
{
    lemma_woken(old(clock)@.sleepers, final(clock)@.elapsed);
}

proof fn lemma_woken(sleepers: Seq<SleepState>, elapsed: nat)
    ensures
        crate::time::clock::wakers_of(sleepers.filter(|s: SleepState| is_due(s, elapsed)))
            == waiting_tasks(sleepers, elapsed),
    decreases sleepers.len(),
{
    let due = |s: SleepState| is_due(s, elapsed);
    if sleepers.len() == 0 {
        reveal(Seq::filter);
    } else {
        let one = seq![sleepers[0]];
        let rest = sleepers.skip(1);
        lemma_woken(rest, elapsed);
        assert(sleepers =~= one + rest);
        Seq::filter_distributes_over_add(one, rest, due);
        crate::time::clock::lemma_wakers_of_sum(one.filter(due), rest.filter(due));
        reveal(Seq::filter);
        assert(one.drop_last() =~= Seq::<SleepState>::empty());
        assert(one.drop_last().filter(due) =~= Seq::<SleepState>::empty());
        if due(sleepers[0]) {
            let kept = one.filter(due);
            assert(kept =~= one);
            assert(crate::time::clock::wakers_of(kept.drop_last()) =~= Seq::<WakerId>::empty());
            assert(crate::time::clock::wakers_of(kept) =~= if sleepers[0].waker is Some {
                seq![sleepers[0].waker->0]
            } else {
                Seq::<WakerId>::empty()
            });
        } else {
            assert(one.filter(due) =~= Seq::<SleepState>::empty());
            assert(crate::time::clock::wakers_of(one.filter(due)) =~= Seq::<WakerId>::empty());
        }
        assert(crate::time::clock::wakers_of(sleepers.filter(due)) =~= waiting_tasks(
            sleepers,
            elapsed,
        ));
    }
}

/// A poll is answered with the end exactly where the sleep was given up, was seen to be over, or is
/// due. Until then the task that polled is the one its sleep wakes, and no other sleep changes.
pub proof fn law_a_poll_waits_until_it_is_due(
    sleep: &mut MockSleep,
    clock: &mut MockClock,
    waker: WakerId,
    polled: Poll<()>,
    i: int,
)
    requires
        old(clock)@.well_formed(),
        call_ensures(MockSleep::poll, (sleep, clock, waker), polled),
        0 <= i < old(clock)@.sleepers.len(),
    ensures
        polled is Ready <==> old(sleep).cancelled || old(sleep).completed || old(sleep).deadline@ <= old(clock)@.elapsed,
        final(sleep).id == old(sleep).id,
        final(sleep).deadline == old(sleep).deadline,
        final(sleep).cancelled == old(sleep).cancelled,
        final(sleep).completed <==> old(sleep).completed || (polled is Ready && !old(sleep).cancelled),
        final(clock)@.elapsed == old(clock)@.elapsed,
        final(clock)@.origin == old(clock)@.origin,
        final(clock)@.next_id == old(clock)@.next_id,
        final(clock)@.sleepers.len() == old(clock)@.sleepers.len(),
        final(clock)@.sleepers[i].id == old(clock)@.sleepers[i].id,
        final(clock)@.sleepers[i].deadline == old(clock)@.sleepers[i].deadline,
        polled is Pending && old(clock)@.sleepers[i].id == old(sleep).id
            ==> final(clock)@.sleepers[i].waker == Some(waker),
        polled is Ready || old(clock)@.sleepers[i].id != old(sleep).id
            ==> final(clock)@.sleepers[i].waker == old(clock)@.sleepers[i].waker,
{
}

/// A sleep that is given up before it was seen to be over waits no more, and every other sleep
/// stays, in its order. One that was seen to be over is left alone.
pub proof fn law_a_sleep_is_given_up(sleep: &mut MockSleep, clock: &mut MockClock)
    requires
        old(clock)@.well_formed(),
        call_ensures(MockSleep::cancel, (sleep, clock), ()),
    ensures
        old(sleep).completed ==> *final(sleep) == *old(sleep) && final(clock)@ == old(clock)@,
        !old(sleep).completed ==> {
            &&& final(sleep).cancelled
            &&& !final(sleep).completed
            &&& final(sleep).id == old(sleep).id
            &&& final(sleep).deadline == old(sleep).deadline
            &&& final(clock)@.elapsed == old(clock)@.elapsed
            &&& final(clock)@.origin == old(clock)@.origin
            &&& final(clock)@.next_id == old(clock)@.next_id
            &&& !final(clock)@.waits(old(sleep).id)
            &&& final(clock)@.sleepers == old(clock)@.sleepers.filter(
                |s: SleepState| s.id != old(sleep).id,
            )
        },
{
    if !old(sleep).completed {
        let id = old(sleep).id;
        let other = |s: SleepState| s.id != id;
        lemma_filter_members(old(clock)@.sleepers, other);
        assert(final(clock)@.sleepers == old(clock)@.sleepers.filter(other));
        assert forall|i: int| 0 <= i < final(clock)@.sleepers.len() implies (
        #[trigger] final(clock)@.sleepers[i]).id != id by {
            assert(other(old(clock)@.sleepers.filter(other)[i]));
        }
    }
}

/// A sleep that a helper thread ends is over from then on, and who waited last is woken, once.
pub proof fn law_the_last_waiter_is_woken_once(
    state: &mut ThreadSleepState,
    to_wake: Option<WakerId>,
)
    requires
        call_ensures(ThreadSleepState::finish, (state,), to_wake),
    ensures
        final(state).completed(),
        final(state).waker() is None,
        to_wake == old(state).waker(),
{
}

/// A clock reads as far from its start as it was moved, and a sleep is registered behind all
/// others, under a number of its own, to end after the span that was asked for.
pub proof fn law_a_sleep_is_registered_last(
    clock: &mut MockClock,
    duration: Duration,
    sleep: MockSleep,
    i: int,
)
    requires
        old(clock).accepts_sleep(),
        call_ensures(<MockClock as Clock>::sleep, (clock, duration), sleep),
    ensures
        sleep.id == old(clock)@.next_id,
        !sleep.completed && !sleep.cancelled,
        old(clock)@.elapsed + duration@ <= 18_446_744_073_709_551_615_999_999_999
            ==> sleep.deadline@ == old(clock)@.elapsed + duration@,
        old(clock)@.elapsed + duration@ > 18_446_744_073_709_551_615_999_999_999
            ==> sleep.deadline@ == 18_446_744_073_709_551_615_999_999_999,
        final(clock)@.elapsed == old(clock)@.elapsed,
        final(clock)@.origin == old(clock)@.origin,
        final(clock)@.next_id == old(clock)@.next_id + 1,
        final(clock)@.sleepers.len() == old(clock)@.sleepers.len() + 1,
        final(clock)@.sleepers.last().id == sleep.id,
        final(clock)@.sleepers.last().deadline == sleep.deadline,
        final(clock)@.sleepers.last().waker is None,
        0 <= i < old(clock)@.sleepers.len() ==> final(clock)@.sleepers[i] == old(clock)@.sleepers[i],
{
}

/// A clock reads its start plus how far it was moved.
pub proof fn law_a_clock_reads_where_it_was_moved(clock: &MockClock, now: Instant)
    requires
        clock.legible(),
        call_ensures(<MockClock as Clock>::now, (clock,), now),
    ensures
        now@ == clock@.origin + clock@.elapsed,
{
}

/// A clock starts where it was told to, unmoved, with nothing waiting.
pub proof fn law_a_clock_starts_unmoved(origin: Instant, clock: MockClock)
    requires
        call_ensures(MockClock::new, (origin,), clock) || call_ensures(
            MockClock::with_start,
            (origin,),
            clock,
        ),
    ensures
        clock@.origin == origin@,
        clock@.elapsed == 0,
        clock@.sleepers.len() == 0,
        clock@.next_id == 0,
{
}

/// A span tells its length: it is none exactly where that is zero, it reaches another exactly where
/// it is at least as long, and every length that can be told is that of a span.
pub proof fn law_a_span_tells_its_length(
    a: Duration,
    b: Duration,
    nanos: u128,
    zero: bool,
    reaches: bool,
    n: u128,
    made: Option<Duration>,
    point: Instant,
    later: Option<Instant>,
)
    requires
        call_ensures(Duration::as_nanos, (&a,), nanos),
        call_ensures(Duration::is_zero, (&a,), zero),
        call_ensures(Duration::reaches, (&a, &b), reaches),
        call_ensures(Duration::from_nanos, (n,), made),
        call_ensures(Instant::checked_add, (point, a), later),
    ensures
        nanos == a@,
        zero <==> a@ == 0,
        reaches <==> a@ >= b@,
        made is Some <==> n <= 18_446_744_073_709_551_615_999_999_999,
        made is Some ==> made->0@ == n,
        later is Some <==> point@ + a@ <= 18_446_744_073_709_551_615_999_999_999,
        later is Some ==> later->0@ == point@ + a@,
{
}

/// A sleep that a helper thread ends is over for a poll exactly once it was ended; until then the
/// last one to poll is who is woken.
pub proof fn law_a_thread_sleep_waits_for_its_end(
    state: &mut ThreadSleepState,
    waker: WakerId,
    polled: Poll<()>,
)
    requires
        call_ensures(ThreadSleepState::poll, (state, waker), polled),
    ensures
        polled is Ready <==> old(state).completed(),
        final(state).completed() == old(state).completed(),
        polled is Pending ==> final(state).waker() == Some(waker),
        polled is Ready ==> final(state).waker() == old(state).waker(),
{
}

} // verus!
