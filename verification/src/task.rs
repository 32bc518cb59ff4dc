//! Tasks: uniquely identified, suspendable units of work with a single
//! re-entrant poll operation, and the wake handle that re-enqueues a
//! suspended task on its channel.
//!
//! A computation that has returned `Ready` is permanently complete and
//! must never be polled again; that contract is stated as the `requires`
//! of [`Work::poll`], so every verified caller has to track completion
//! itself rather than reuse a disposed task.

use vstd::prelude::*;

use crate::channel::WakeChannel;

verus! {

/// Outcome of one poll step.
#[derive(Debug, Clone, Copy, PartialEq, Eq, Structural)]
pub enum Poll {
    Ready,
    Pending,
}

/// A suspendable computation, modelled concretely so each poll step has
/// an exact contract: `CountDown` suspends the given number of times and
/// then completes, `Never` suspends forever, and `Done` is the state a
/// computation reaches by returning `Ready`.
#[derive(Debug, Clone, Copy, PartialEq, Eq, Structural)]
pub enum Work {
    CountDown { remaining: u64 },
    Never,
    Done,
}

/// What one poll of `w` returns, and the state it leaves behind.
pub open spec fn poll_model(w: Work) -> (Poll, Work) {
    match w {
        Work::CountDown { remaining } => {
            if remaining == 0 {
                (Poll::Ready, Work::Done)
            } else {
                (Poll::Pending, Work::CountDown { remaining: (remaining - 1) as u64 })
            }
        },
        Work::Never => (Poll::Pending, Work::Never),
        Work::Done => (Poll::Ready, Work::Done),
    }
}

impl Work {
    /// Whether the computation has returned `Ready` and is permanently
    /// complete.
    pub open spec fn completed(&self) -> bool {
        self is Done
    }

    /// Drive the computation one step.  Polling a completed computation
    /// is a contract violation, excluded by the precondition.
    pub fn poll(&mut self) -> (r: Poll)
        requires
            !old(self).completed(),
        ensures
            r == poll_model(*old(self)).0,
            *final(self) == poll_model(*old(self)).1,
            r is Ready <==> final(self).completed(),
    {
        match *self {
            Work::CountDown { remaining } => {
                if remaining == 0 {
                    *self = Work::Done;
                    Poll::Ready
                } else {
                    *self = Work::CountDown { remaining: remaining - 1 };
                    Poll::Pending
                }
            },
            Work::Never => Poll::Pending,
            Work::Done => Poll::Ready,
        }
    }
}

/// A unit of work together with its process-wide identifier.
#[derive(Debug)]
pub struct Task {
    pub id: u64,
    pub work: Work,
}

impl Task {
    /// Wrap a computation under the given identifier.
    pub fn new(id: u64, work: Work) -> (t: Task)
        ensures
            t.id == id,
            t.work == work,
    {
        Task { id, work }
    }
}

/// Hands out task identifiers: a monotonically increasing counter, so no
/// two identifiers it ever produces are equal.
#[derive(Debug)]
pub struct TaskIdGen {
    next: u64,
}

impl TaskIdGen {
    /// The next identifier to be handed out; every identifier produced
    /// so far is strictly below it.
    pub closed spec fn next_id(&self) -> u64 {
        self.next
    }

    pub fn new() -> (g: TaskIdGen)
        ensures
            g.next_id() == 0,
    {
        TaskIdGen { next: 0 }
    }

    /// A fresh identifier, distinct from every one handed out before.
    pub fn fresh(&mut self) -> (id: u64)
        requires
            old(self).next_id() < u64::MAX,
        ensures
            id == old(self).next_id(),
            final(self).next_id() == old(self).next_id() + 1,
    {
        let id: u64 = self.next;
        self.next = self.next + 1;
        id
    }
}

/// A reusable wake handle for one task: invoking it re-enqueues the
/// task's identifier on the wake channel so the executor polls the task
/// again.  The executor constructs at most one per live task and caches
/// it across poll cycles.
#[derive(Debug, Clone, Copy)]
pub struct TaskWaker {
    pub task_id: u64,
}

impl TaskWaker {
    pub fn new(task_id: u64) -> (w: TaskWaker)
        ensures
            w.task_id == task_id,
    {
        TaskWaker { task_id }
    }

    /// Request a re-poll of the owning task.  A full channel here means
    /// the wake volume was undersized for the capacity — an unrecoverable
    /// configuration error — so it is excluded by the precondition
    /// rather than handled.
    pub fn wake_task(&self, channel: &mut WakeChannel)
        requires
            old(channel).wf(),
            old(channel)@.len() < old(channel).capacity(),
        ensures
            final(channel).wf(),
            final(channel)@ == old(channel)@.push(self.task_id),
            final(channel).capacity() == old(channel).capacity(),
    {
        let r = channel.try_enqueue(self.task_id);
        match r {
            Ok(()) => (),
            Err(_) => (),
        }
    }
}

} // verus!
