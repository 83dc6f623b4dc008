use std::io::{Error, ErrorKind};
use tacklebox::poller::{Attempt, DeadlinePoller, PollStep};

#[test]
fn value_is_handed_on_with_the_elapsed_time() {
    let p = DeadlinePoller::new(1000);
    match p.step(Attempt::Ready(42u8), 17) {
        PollStep::Done { value, elapsed_millis } => {
            assert_eq!(value, 42);
            assert_eq!(elapsed_millis, 17);
        }
        other => panic!("{:?}", other),
    }
}

#[test]
fn value_is_handed_on_even_after_the_deadline() {
    let p = DeadlinePoller::new(1000);
    assert!(matches!(
        p.step(Attempt::Ready(1u8), 5000),
        PollStep::Done { value: 1, elapsed_millis: 5000 }
    ));
}

#[test]
fn would_block_before_the_deadline_retries() {
    let p = DeadlinePoller::new(1000);
    assert!(matches!(p.step(Attempt::<u8>::WouldBlock, 0), PollStep::Retry));
    assert!(matches!(p.step(Attempt::<u8>::WouldBlock, 999), PollStep::Retry));
}

#[test]
fn would_block_at_or_after_the_deadline_times_out() {
    let p = DeadlinePoller::new(1000);
    assert!(matches!(p.step(Attempt::<u8>::WouldBlock, 1000), PollStep::TimedOut));
    assert!(matches!(p.step(Attempt::<u8>::WouldBlock, 1001), PollStep::TimedOut));
    assert!(matches!(p.step(Attempt::<u8>::WouldBlock, u128::MAX), PollStep::TimedOut));
}

#[test]
fn zero_deadline_times_out_on_the_first_empty_attempt_only() {
    let p = DeadlinePoller::new(0);
    assert!(matches!(p.step(Attempt::<u8>::WouldBlock, 0), PollStep::TimedOut));
    // The attempt is judged, not skipped: a value that is there is taken.
    assert!(matches!(p.step(Attempt::Ready(3u8), 0), PollStep::Done { value: 3, .. }));
}

#[test]
fn hard_failure_is_handed_on_at_once() {
    let p = DeadlinePoller::new(1000);
    match p.step(Attempt::<u8>::Failed(Error::from(ErrorKind::ConnectionReset)), 1) {
        PollStep::Failed(e) => assert_eq!(e.kind(), ErrorKind::ConnectionReset),
        other => panic!("{:?}", other),
    }
    match p.step(Attempt::<u8>::Failed(Error::from(ErrorKind::BrokenPipe)), 10_000) {
        PollStep::Failed(e) => assert_eq!(e.kind(), ErrorKind::BrokenPipe),
        other => panic!("{:?}", other),
    }
}

#[test]
fn wait_time_is_in_seconds() {
    assert_eq!(DeadlinePoller::for_wait_time(0).deadline_millis, 0);
    assert_eq!(DeadlinePoller::for_wait_time(5).deadline_millis, 5000);
    assert_eq!(DeadlinePoller::for_wait_time(u32::MAX).deadline_millis, 4_294_967_295_000);
    assert_eq!(DeadlinePoller::new(7).deadline_millis, 7);
}
