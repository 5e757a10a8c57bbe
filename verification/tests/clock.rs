use spark::task::Poll;
use spark::time::clock::{Clock, MockClock, ThreadSleepState};
use spark::time::duration::{Duration, Instant, MAX_NANOS};

#[test]
fn virtual_time_moves_by_hand() {
    let mut clock = MockClock::with_start(Instant::at(Duration::from_secs(10)));
    clock.advance(Duration::from_secs(2));
    assert_eq!(clock.now().since_reference(), Duration::from_secs(12));
    assert_eq!(clock.elapsed(), Duration::from_secs(2));
    clock.advance(Duration::from_millis(500));
    assert_eq!(clock.elapsed(), Duration::from_millis(2_500));
}

#[test]
fn a_sleep_is_woken_when_it_is_due() {
    let mut clock = MockClock::new(Instant::at(Duration::from_secs(1)));
    let mut sleep = clock.sleep(Duration::from_secs(3));
    assert!(matches!(sleep.poll(&mut clock, 41), Poll::Pending));
    assert!(matches!(sleep.poll(&mut clock, 42), Poll::Pending));
    assert!(clock.advance(Duration::from_secs(2)).is_empty());
    assert_eq!(clock.advance(Duration::from_secs(1)), vec![42]);
    assert!(matches!(sleep.poll(&mut clock, 43), Poll::Ready(())));
    assert!(clock.advance(Duration::from_secs(9)).is_empty());
}

#[test]
fn due_sleeps_are_woken_in_the_order_in_which_they_began() {
    let mut clock = MockClock::new(Instant::at(Duration::from_secs(0)));
    let mut long = clock.sleep(Duration::from_secs(3));
    let mut short = clock.sleep(Duration::from_secs(1));
    let mut later = clock.sleep(Duration::from_secs(9));
    assert!(matches!(long.poll(&mut clock, 1), Poll::Pending));
    assert!(matches!(short.poll(&mut clock, 2), Poll::Pending));
    assert!(matches!(later.poll(&mut clock, 3), Poll::Pending));
    assert_eq!(clock.advance(Duration::from_secs(5)), vec![1, 2]);
    assert_eq!(clock.advance(Duration::from_secs(5)), vec![3]);
}

#[test]
fn a_sleep_of_no_time_is_over_at_once() {
    let mut clock = MockClock::new(Instant::at(Duration::from_secs(0)));
    let mut sleep = clock.sleep(Duration::from_secs(0));
    assert!(matches!(sleep.poll(&mut clock, 7), Poll::Ready(())));
}

#[test]
fn a_sleep_that_is_given_up_wakes_nobody() {
    let mut clock = MockClock::new(Instant::at(Duration::from_secs(0)));
    let mut sleep = clock.sleep(Duration::from_secs(1));
    assert!(matches!(sleep.poll(&mut clock, 7), Poll::Pending));
    sleep.cancel(&mut clock);
    assert!(clock.advance(Duration::from_secs(2)).is_empty());
}

#[test]
fn a_thread_that_is_done_wakes_the_latest_caller_once() {
    let mut state = ThreadSleepState::new();
    assert!(!state.is_completed());
    assert!(matches!(state.poll(1), Poll::Pending));
    assert!(matches!(state.poll(2), Poll::Pending));
    assert_eq!(state.finish(), Some(2));
    assert!(state.is_completed());
    assert_eq!(state.finish(), None);
    assert!(matches!(state.poll(3), Poll::Ready(())));
}

#[test]
fn spans_add_up_and_stop_at_the_longest() {
    let longest = Duration::from_nanos(MAX_NANOS).expect("longest");
    assert!(Duration::from_nanos(MAX_NANOS + 1).is_none());
    assert_eq!(longest.saturating_add(Duration::from_secs(1)), longest);
    assert!(longest.checked_add(Duration::from_secs(1)).is_none());
    assert_eq!(
        Duration::from_millis(1_500).saturating_add(Duration::from_secs(1)),
        Duration::from_millis(2_500)
    );
    assert_eq!(Duration::from_millis(1).as_nanos(), 1_000_000);
    assert!(Duration::from_secs(0).is_zero());
    assert!(Duration::from_secs(2).reaches(&Duration::from_secs(2)));
    assert!(!Duration::from_secs(1).reaches(&Duration::from_secs(2)));
}

#[test]
fn points_in_time_know_their_distance() {
    let early = Instant::at(Duration::from_secs(5));
    let late = early.checked_add(Duration::from_secs(3)).expect("in range");
    assert_eq!(late.saturating_duration_since(early), Duration::from_secs(3));
    assert_eq!(early.saturating_duration_since(late), Duration::from_secs(0));
    let longest = Instant::at(Duration::from_nanos(MAX_NANOS).expect("longest"));
    assert!(longest.checked_add(Duration::from_secs(1)).is_none());
}
