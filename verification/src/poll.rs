//! Decisions of the context's completion-poll loop and of its teardown.
//!
//! A context in a threaded poll mode owns one background thread that drives
//! completion of outstanding GPU work. The thread's body is a loop of
//! outside work (one device poll) and a decision; the decisions are here,
//! so the loop itself only performs the poll and hands the outcome back.
//! Teardown clears the running flag — after which the next decision is to
//! exit, so the thread is joined after at most one more poll — and joins
//! the thread exactly once, idempotently.

use crate::PollType;
use vstd::prelude::*;

verus! {

/// What one device poll is asked to do.
#[derive(Debug, Clone, Copy, PartialEq, Eq, Structural)]
pub enum PollRequest {
    /// Block until queue work completes or a generous timeout elapses.
    WaitWithTimeout,
    /// Check once without blocking.
    NonBlocking,
}

/// What one device poll came back with.
#[derive(Debug, Clone, Copy, PartialEq, Eq, Structural)]
pub enum PollOutcome {
    /// No submissions were in flight.
    QueueEmpty,
    /// The awaited work completed before the timeout.
    WaitSucceeded,
    /// A non-blocking check was performed.
    Polled,
    /// The bounded wait elapsed with work still in flight: routine, not an
    /// error.
    TimedOut,
    /// The queue is in an unrecoverable fault state.
    Fault,
}

/// Whether to keep the poll loop running.
#[derive(Debug, Clone, Copy, PartialEq, Eq, Structural)]
pub enum LoopDecision {
    Continue,
    Exit,
}

/// What the poll thread spawned at construction does per iteration: a
/// blocking bounded wait in threaded-wait mode, a non-blocking spin in
/// threaded-busy mode; in manual mode no thread exists at all.
pub fn poll_request_for(poll_type: PollType) -> (r: Option<PollRequest>)
    ensures
        r == match poll_type {
            PollType::Threaded => Some(PollRequest::WaitWithTimeout),
            PollType::ThreadedBusy => Some(PollRequest::NonBlocking),
            PollType::Manual => None::<PollRequest>,
        },
{
    match poll_type {
        PollType::Threaded => Some(PollRequest::WaitWithTimeout),
        PollType::ThreadedBusy => Some(PollRequest::NonBlocking),
        PollType::Manual => None,
    }
}

/// One poll-loop decision. The loop exits exactly when the running flag was
/// cleared, the owning context has been dropped, or the last poll reported
/// an unrecoverable fault (which terminates only the loop, never the
/// pipeline); a timeout is treated as "no new work" and the loop goes on.
/// In particular, once teardown clears the running flag, the very next
/// decision is `Exit`: the thread is joined within a bounded time.
pub fn loop_step(running: bool, owner_alive: bool, last: PollOutcome) -> (r: LoopDecision)
    ensures
        r == (if !running || !owner_alive || last is Fault {
            LoopDecision::Exit
        } else {
            LoopDecision::Continue
        }),
{
    if !running || !owner_alive {
        LoopDecision::Exit
    } else {
        match last {
            PollOutcome::Fault => LoopDecision::Exit,
            _ => LoopDecision::Continue,
        }
    }
}

/// The lifecycle of one context's poll thread, as its owner sees it.
pub struct LifecycleState {
    /// The shared running flag the poll thread reads.
    pub running: bool,
    /// Whether the thread's handle has already been taken and joined.
    pub joined: bool,
}

impl LifecycleState {
    /// The state right after construction in a threaded mode: the loop is
    /// running and nothing has been joined.
    pub fn started() -> (s: LifecycleState)
        ensures
            s.running,
            !s.joined,
    {
        LifecycleState { running: true, joined: false }
    }

    /// One teardown step: clears the running flag (so the loop's next
    /// decision is to exit) and says whether to join the thread now. The
    /// join happens exactly once; calling teardown again is safe and does
    /// nothing, so teardown is idempotent.
    pub fn teardown(&mut self) -> (join_now: bool)
        ensures
            !final(self).running,
            final(self).joined,
            join_now == !old(self).joined,
    {
        self.running = false;
        let join_now = !self.joined;
        self.joined = true;
        join_now
    }
}

} // verus!
