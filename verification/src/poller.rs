//! Retrying a non-blocking operation until it succeeds or a deadline passes.
//!
//! The operation itself and the clock belong to the caller. After every
//! attempt the caller reports its outcome and the time elapsed since the
//! first attempt, and is told whether to try again.

use vstd::prelude::*;

verus! {

/// Outcome of one attempt at a non-blocking operation.
#[derive(Debug)]
pub enum Attempt<T> {
    /// The operation completed with this value.
    Ready(T),
    /// Nothing is available right now.
    WouldBlock,
    /// The operation failed for good.
    Failed(std::io::Error),
}

/// What to do after an attempt.
#[derive(Debug)]
pub enum PollStep<T> {
    /// Nothing yet and the deadline has not passed: attempt again at once.
    Retry,
    /// The operation completed.
    Done { value: T, elapsed_millis: u128 },
    /// Nothing yet and the deadline has passed.
    TimedOut,
    /// The operation failed; it is not retried.
    Failed(std::io::Error),
}

/// A deadline, counted in milliseconds from the first attempt.
#[derive(Debug, Clone, Copy, PartialEq, Eq, Structural)]
pub struct DeadlinePoller {
    pub deadline_millis: u128,
}

/// Milliseconds in a wait time given in seconds.
pub open spec fn wait_time_millis(wait_time: u32) -> int {
    wait_time as int * 1000
}

/// The step that follows an attempt that ended `elapsed_millis` after the
/// first one began, under a deadline of `deadline_millis`.
pub open spec fn spec_poll_step<T>(
    deadline_millis: int,
    attempt: Attempt<T>,
    elapsed_millis: u128,
) -> PollStep<T> {
    match attempt {
        Attempt::Ready(value) => PollStep::Done { value, elapsed_millis },
        Attempt::WouldBlock => if elapsed_millis >= deadline_millis {
            PollStep::TimedOut
        } else {
            PollStep::Retry
        },
        Attempt::Failed(e) => PollStep::Failed(e),
    }
}

/// A poll times out only on an attempt that brought nothing and ended at or
/// after the deadline, and every such attempt times it out: under a deadline
/// of `d` no retry follows an attempt that ended at `d` or later, and no
/// timeout comes before `d`, whatever the attempts before it were.
pub proof fn lemma_timeout_exactly_at_deadline<T>(
    deadline_millis: int,
    attempt: Attempt<T>,
    elapsed_millis: u128,
)
    ensures
        spec_poll_step(deadline_millis, attempt, elapsed_millis) is TimedOut <==> attempt
            is WouldBlock && elapsed_millis >= deadline_millis,
        spec_poll_step(deadline_millis, attempt, elapsed_millis) is Retry <==> attempt
            is WouldBlock && elapsed_millis < deadline_millis,
{
}

impl DeadlinePoller {
    /// A poller with the given budget.
    pub fn new(deadline_millis: u128) -> (p: DeadlinePoller)
        ensures
            p.deadline_millis == deadline_millis,
    {
        DeadlinePoller { deadline_millis }
    }

    /// A poller whose budget is `wait_time` seconds.
    pub fn for_wait_time(wait_time: u32) -> (p: DeadlinePoller)
        ensures
            p.deadline_millis == wait_time_millis(wait_time),
    {
        let secs: u128 = wait_time as u128;
        DeadlinePoller { deadline_millis: secs * 1000 }
    }

    /// Decides what follows an attempt that ended `elapsed_millis` after the
    /// first one began. A value is handed on whenever it came; a failure is
    /// handed on at once; only "nothing yet" consults the clock, so even a
    /// deadline of zero times out only after an attempt was made.
    pub fn step<T>(&self, attempt: Attempt<T>, elapsed_millis: u128) -> (next: PollStep<T>)
        ensures
            next == spec_poll_step(self.deadline_millis as int, attempt, elapsed_millis),
            next is TimedOut ==> attempt is WouldBlock && elapsed_millis >= self.deadline_millis,
            next is Retry ==> attempt is WouldBlock && elapsed_millis < self.deadline_millis,
    {
        match attempt {
            Attempt::Ready(value) => PollStep::Done { value, elapsed_millis },
            Attempt::WouldBlock => {
                if elapsed_millis >= self.deadline_millis {
                    PollStep::TimedOut
                } else {
                    PollStep::Retry
                }
            },
            Attempt::Failed(e) => PollStep::Failed(e),
        }
    }
}

} // verus!
