//! The cooperative executor: owns the table of not-yet-completed tasks,
//! the wake channel, and the cache of wake handles, and runs the ready
//! loop.
//!
//! The ready loop's effect on the task table is stated exactly: it
//! equals [`drain`], which replays the dequeued identifiers one by one,
//! each step removing the task from the table, polling it, and dropping
//! it (`Ready`) or putting it back (`Pending`).  A ghost log of every
//! identifier ever polled makes "each submitted task is polled before
//! the executor goes idle" a stated, proved property.

use vstd::prelude::*;

use crate::channel::WakeChannel;
use crate::error::ErrorKind;
use crate::task::{poll_model, Poll, Task, TaskWaker};

verus! {

/// No two tasks in `s` share an identifier.
pub open spec fn distinct_ids(s: Seq<Task>) -> bool {
    forall|i: int, j: int| 0 <= i < j < s.len() ==> s[i].id != s[j].id
}

/// Some task in `s` carries `id`.
pub open spec fn has_id(s: Seq<Task>, id: u64) -> bool {
    exists|j: int| 0 <= j < s.len() && s[j].id == id
}

/// An index of the task carrying `id`; with distinct identifiers it is
/// the only one.
pub open spec fn idx_of(s: Seq<Task>, id: u64) -> int {
    choose|j: int| 0 <= j < s.len() && s[j].id == id
}

/// The table after the ready loop processes one dequeued identifier:
/// an identifier with no live task is skipped (the task completed since
/// it was enqueued — a duplicate wake); a live task is taken out,
/// polled, and dropped or put back with its stepped state.  Taking out
/// mirrors `Vec::swap_remove`: the last task moves into the vacated
/// slot.
pub open spec fn step(s: Seq<Task>, id: u64) -> Seq<Task> {
    if !has_id(s, id) {
        s
    } else {
        let j = idx_of(s, id);
        let t = s[j];
        let removed = s.update(j, s.last()).drop_last();
        if poll_model(t.work).0 is Ready {
            removed
        } else {
            removed.push(Task { id: t.id, work: poll_model(t.work).1 })
        }
    }
}

/// The table after the ready loop has replayed a whole queue of
/// dequeued identifiers, oldest first.
pub open spec fn drain(s: Seq<Task>, q: Seq<u64>) -> Seq<Task>
    decreases q.len(),
{
    if q.len() == 0 {
        s
    } else {
        drain(step(s, q[0]), q.skip(1))
    }
}

/// A pushed sequence keeps everything it contained.
proof fn lemma_push_contains(s: Seq<u64>, x: u64, y: u64)
    requires
        s.contains(y),
    ensures
        s.push(x).contains(y),
{
    let w = choose|w: int| 0 <= w < s.len() && s[w] == y;
    assert(s.push(x)[w] == y);
}

/// One `step` keeps identifiers distinct and keeps every task
/// pollable.
proof fn lemma_step_wf(s: Seq<Task>, id: u64)
    requires
        distinct_ids(s),
        forall|j: int| 0 <= j < s.len() ==> !(#[trigger] s[j]).work.completed(),
    ensures
        distinct_ids(step(s, id)),
        forall|a: int|
            0 <= a < step(s, id).len() ==> !(#[trigger] step(s, id)[a]).work.completed(),
{
    if has_id(s, id) {
        let j = idx_of(s, id);
        assert(0 <= j < s.len() && s[j].id == id);
        let removed = s.update(j, s.last()).drop_last();
        assert forall|a: int| 0 <= a < removed.len() implies #[trigger] removed[a] == (
            if a == j {
                s[s.len() - 1]
            } else {
                s[a]
            }
        ) by {}
        assert forall|a: int, b: int|
            0 <= a < b < removed.len() implies removed[a].id != removed[b].id by {
            if a == j {
                assert(removed[a] == s[s.len() - 1]);
                assert(removed[b] == s[b]);
            } else if b == j {
                assert(removed[b] == s[s.len() - 1]);
                assert(removed[a] == s[a]);
            }
        }
        assert forall|a: int| 0 <= a < removed.len() implies removed[a].id != id by {
            if a == j {
                assert(removed[a] == s[s.len() - 1]);
                assert(j < s.len() - 1);
            }
        }
        let t = s[j];
        if poll_model(t.work).0 is Ready {
        } else {
            let stepped = removed.push(Task { id: t.id, work: poll_model(t.work).1 });
            assert(!poll_model(t.work).1.completed());
            assert forall|a: int, b: int|
                0 <= a < b < stepped.len() implies stepped[a].id != stepped[b].id by {
                if b == stepped.len() - 1 {
                    assert(stepped[a] == removed[a]);
                }
            }
        }
    }
}

/// A task other than the one being stepped stays in the table.
proof fn lemma_step_keeps_others(s: Seq<Task>, id: u64, id2: u64)
    requires
        distinct_ids(s),
        id2 != id,
        has_id(s, id2),
    ensures
        has_id(step(s, id), id2),
{
    let k = choose|k: int| 0 <= k < s.len() && s[k].id == id2;
    if !has_id(s, id) {
        assert(step(s, id)[k].id == id2);
    } else {
        let j = idx_of(s, id);
        assert(k != j);
        let removed = s.update(j, s.last()).drop_last();
        if k < s.len() - 1 {
            assert(removed[k] == s[k]);
            assert(step(s, id)[k].id == id2);
        } else {
            // id2 sits in the last slot, which moved into slot j
            assert(j < s.len() - 1);
            assert(removed[j] == s.last());
            assert(step(s, id)[j].id == id2);
        }
    }
}

/// One `step` never invents a task: every identifier alive afterwards
/// was alive before.
proof fn lemma_step_ids_subset(s: Seq<Task>, id: u64, id2: u64)
    requires
        has_id(step(s, id), id2),
    ensures
        has_id(s, id2),
{
    if has_id(s, id) {
        let j = idx_of(s, id);
        let s2 = step(s, id);
        let k = choose|k: int| 0 <= k < s2.len() && s2[k].id == id2;
        if poll_model(s[j].work).0 is Ready {
            if k == j {
                assert(s2[k] == s[s.len() - 1]);
            } else {
                assert(s2[k] == s[k]);
            }
        } else {
            if k == s2.len() - 1 {
                assert(s2[k].id == s[j].id);
            } else if k == j {
                assert(s2[k] == s[s.len() - 1]);
            } else {
                assert(s2[k] == s[k]);
            }
        }
    }
}

/// `drain` never invents a task either.
proof fn lemma_drain_ids_subset(s: Seq<Task>, q: Seq<u64>, id2: u64)
    requires
        has_id(drain(s, q), id2),
    ensures
        has_id(s, id2),
    decreases q.len(),
{
    if q.len() != 0 {
        lemma_drain_ids_subset(step(s, q[0]), q.skip(1), id2);
        lemma_step_ids_subset(s, q[0], id2);
    }
}

/// Every submitted or woken task is polled at least once before the
/// executor reports idle.  Submission and waking both leave the task's
/// identifier on the pending queue (`spawn` and `wake` say so), and one
/// run of the ready loop empties that queue — the idle report — having
/// polled every queued identifier whose task was live: given the facts
/// the ready loop guarantees about its pre- and post-state, the
/// identifier is in the polled log.
pub proof fn lemma_pending_task_is_polled(pre: Executor, post: Executor, id: u64)
    requires
        pre.pending().contains(id),
        pre.has_task(id),
        post.pending().len() == 0,
        forall|i: int|
            0 <= i < pre.pending().len() ==> (has_id(pre.table(), #[trigger] pre.pending()[i])
                ==> post.polled_log().contains(pre.pending()[i])),
    ensures
        post.polled_log().contains(id),
{
    let i = choose|i: int| 0 <= i < pre.pending().len() && pre.pending()[i] == id;
    assert(has_id(pre.table(), pre.pending()[i]));
}

/// A task that has completed is never polled again: once its
/// identifier is out of the table, no amount of further draining brings
/// it back, so later ready loops skip it as a stale duplicate wake.
/// (Re-polling the completed computation itself is separately excluded
/// by the precondition of `Work::poll`.)
pub proof fn lemma_completed_task_stays_out(s: Seq<Task>, q: Seq<u64>, id: u64)
    requires
        !has_id(s, id),
    ensures
        !has_id(drain(s, q), id),
{
    if has_id(drain(s, q), id) {
        lemma_drain_ids_subset(s, q, id);
    }
}

/// The executor.  Complete tasks are absent from the table; every task
/// present is still pollable.
pub struct Executor {
    tasks: Vec<Task>,
    queue: WakeChannel,
    waker_cache: Vec<TaskWaker>,
    polled: Ghost<Seq<u64>>,
}

impl Executor {
    /// The task table: each live task with its current state.
    pub closed spec fn table(&self) -> Seq<Task> {
        self.tasks@
    }

    /// The identifiers queued for a poll attempt, oldest first.
    pub closed spec fn pending(&self) -> Seq<u64> {
        self.queue@
    }

    /// The wake channel's fixed capacity.
    pub closed spec fn capacity(&self) -> nat {
        self.queue.capacity()
    }

    /// Every identifier ever handed to a poll, in order.
    pub closed spec fn polled_log(&self) -> Seq<u64> {
        self.polled@
    }

    pub open spec fn has_task(&self, id: u64) -> bool {
        has_id(self.table(), id)
    }

    /// The wake channel's own well-formedness.
    pub closed spec fn queue_wf(&self) -> bool {
        self.queue.wf()
    }

    pub open spec fn wf(&self) -> bool {
        &&& self.queue_wf()
        &&& distinct_ids(self.table())
        &&& forall|j: int|
            0 <= j < self.table().len() ==> !(#[trigger] self.table()[j]).work.completed()
    }

    /// An executor with no tasks and an empty wake channel of the given
    /// capacity.
    pub fn new(capacity: usize) -> (ex: Executor)
        requires
            1 <= capacity <= 0x1000_0000,
        ensures
            ex.wf(),
            ex.table() == Seq::<Task>::empty(),
            ex.pending() == Seq::<u64>::empty(),
            ex.capacity() == capacity as nat,
            ex.polled_log() == Seq::<u64>::empty(),
    {
        Executor {
            tasks: Vec::new(),
            queue: WakeChannel::new(capacity),
            waker_cache: Vec::new(),
            polled: Ghost(Seq::empty()),
        }
    }

    /// How many tasks are live.
    pub fn task_count(&self) -> (r: usize)
        ensures
            r == self.table().len(),
    {
        self.tasks.len()
    }

    /// The index of the live task carrying `id`, if any.
    fn find_task_index(&self, id: u64) -> (r: Option<usize>)
        ensures
            match r {
                Some(i) => i < self.table().len() && self.table()[i as int].id == id,
                None => !has_id(self.table(), id),
            },
    {
        let mut i: usize = 0;
        while i < self.tasks.len()
            invariant
                i <= self.tasks@.len(),
                forall|j: int| 0 <= j < i ==> self.tasks@[j].id != id,
            decreases self.tasks@.len() - i,
        {
            if self.tasks[i].id == id {
                return Some(i);
            }
            i = i + 1;
        }
        None
    }

    /// Whether a live task carries `id`.
    pub fn contains_task(&self, id: u64) -> (r: bool)
        ensures
            r == self.has_task(id),
    {
        match self.find_task_index(id) {
            Some(_) => true,
            None => false,
        }
    }

    /// The index of the cached wake handle for `id`, if any.
    fn find_cache_index(&self, id: u64) -> (r: Option<usize>)
        ensures
            match r {
                Some(i) => i < self.waker_cache@.len() && self.waker_cache@[i as int].task_id
                    == id,
                None => forall|j: int|
                    0 <= j < self.waker_cache@.len() ==> self.waker_cache@[j].task_id != id,
            },
    {
        let mut i: usize = 0;
        while i < self.waker_cache.len()
            invariant
                i <= self.waker_cache@.len(),
                forall|j: int| 0 <= j < i ==> self.waker_cache@[j].task_id != id,
            decreases self.waker_cache@.len() - i,
        {
            if self.waker_cache[i].task_id == id {
                return Some(i);
            }
            i = i + 1;
        }
        None
    }

    /// Enter a new task: insert it into the table and enqueue its
    /// identifier.  Fails with `TaskQueueIsFull`, changing nothing, when
    /// the wake channel is at capacity — fatal at submission time, since
    /// the kernel has no backpressure policy beyond refusing new work.
    /// An identifier collision would be an unrecoverable generator bug
    /// and is excluded by the precondition.
    pub fn spawn(&mut self, task: Task) -> (r: Result<(), ErrorKind>)
        requires
            old(self).wf(),
            !old(self).has_task(task.id),
            !task.work.completed(),
        ensures
            final(self).wf(),
            final(self).capacity() == old(self).capacity(),
            final(self).polled_log() == old(self).polled_log(),
            old(self).pending().len() < old(self).capacity() ==> {
                &&& r is Ok
                &&& final(self).table() == old(self).table().push(task)
                &&& final(self).pending() == old(self).pending().push(task.id)
            },
            old(self).pending().len() == old(self).capacity() ==> {
                &&& r == Err::<(), ErrorKind>(ErrorKind::TaskQueueIsFull)
                &&& final(self).table() == old(self).table()
                &&& final(self).pending() == old(self).pending()
            },
    {
        match self.queue.try_enqueue(task.id) {
            Ok(()) => {
                self.tasks.push(task);
                proof {
                    assert forall|i: int, j: int|
                        0 <= i < j < self.table().len() implies self.table()[i].id
                        != self.table()[j].id by {
                        if j == self.table().len() - 1 {
                            assert(self.table()[i] == old(self).table()[i]);
                        }
                    }
                }
                Ok(())
            },
            Err(_) => Err(ErrorKind::TaskQueueIsFull),
        }
    }

    /// Invoke a wake handle: enqueue its task's identifier for a
    /// re-poll.  A full channel on this path is an unrecoverable
    /// configuration error (the capacity was undersized for the wake
    /// volume) and is excluded by the precondition.
    pub fn wake(&mut self, waker: &TaskWaker)
        requires
            old(self).wf(),
            old(self).pending().len() < old(self).capacity(),
        ensures
            final(self).wf(),
            final(self).capacity() == old(self).capacity(),
            final(self).table() == old(self).table(),
            final(self).polled_log() == old(self).polled_log(),
            final(self).pending() == old(self).pending().push(waker.task_id),
    {
        waker.wake_task(&mut self.queue);
    }

    /// Whether the executor sees no queued wake: the idle heuristic.
    /// Emptiness observed here is only a hint once concurrent producers
    /// exist, which is why the idle protocol rechecks it with interrupt
    /// delivery disabled before halting.
    pub fn is_idle(&self) -> (r: bool)
        ensures
            r == (self.pending().len() == 0),
    {
        self.queue.is_empty()
    }

    /// A mutable borrow of the wake channel, for wiring the executor to
    /// an event bridge: the bridge's producer side pushes woken task
    /// identifiers here.  The relation between the borrow and the
    /// executor's pending queue is carried in the contract.
    pub fn channel_mut(&mut self) -> (c: &mut WakeChannel)
        ensures
            (*c)@ == old(self).pending(),
            (*c).capacity() == old(self).capacity(),
            (*c).wf() == old(self).queue_wf(),
            final(self).pending() == (*final(c))@,
            final(self).capacity() == (*final(c)).capacity(),
            final(self).queue_wf() == (*final(c)).wf(),
            final(self).table() == old(self).table(),
            final(self).polled_log() == old(self).polled_log(),
    {
        &mut self.queue
    }

    /// Drain the wake channel, polling each dequeued task that is still
    /// live: on `Ready` the task and its cached handle are dropped, on
    /// `Pending` the task is put back and the handle stays cached.  The
    /// resulting table is exactly `drain` of the old one, and every
    /// dequeued identifier that was live has been polled.
    pub fn run_ready_tasks(&mut self)
        requires
            old(self).wf(),
        ensures
            final(self).wf(),
            final(self).capacity() == old(self).capacity(),
            final(self).pending().len() == 0,
            final(self).table() == drain(old(self).table(), old(self).pending()),
            old(self).polled_log().is_prefix_of(final(self).polled_log()),
            forall|i: int|
                0 <= i < old(self).pending().len() ==> (has_id(
                    old(self).table(),
                    #[trigger] old(self).pending()[i],
                ) ==> final(self).polled_log().contains(old(self).pending()[i])),
            forall|id: u64| #[trigger] final(self).has_task(id) ==> old(self).has_task(id),
    {
        let ghost orig_table = self.table();
        let ghost orig_q = self.pending();
        let ghost mut consumed: int = 0;
        loop
            invariant
                self.wf(),
                self.capacity() == old(self).capacity(),
                0 <= consumed <= orig_q.len(),
                self.pending() == orig_q.skip(consumed),
                drain(self.table(), self.pending()) == drain(orig_table, orig_q),
                old(self).polled_log().is_prefix_of(self.polled_log()),
                forall|i: int|
                    0 <= i < consumed ==> (has_id(orig_table, #[trigger] orig_q[i])
                        ==> self.polled_log().contains(orig_q[i])),
                forall|id: u64|
                    has_id(orig_table, id) && !has_id(self.table(), id)
                        ==> self.polled_log().contains(id),
            ensures
                self.wf(),
                self.capacity() == old(self).capacity(),
                self.pending().len() == 0,
                drain(self.table(), self.pending()) == drain(orig_table, orig_q),
                old(self).polled_log().is_prefix_of(self.polled_log()),
                forall|i: int|
                    0 <= i < orig_q.len() ==> (has_id(orig_table, #[trigger] orig_q[i])
                        ==> self.polled_log().contains(orig_q[i])),
            decreases self.pending().len(),
        {
            let ghost pre = *self;
            let popped = self.queue.try_dequeue();
            let task_id = match popped {
                None => {
                    proof {
                        assert(orig_q.skip(consumed).len() == 0);
                        assert(consumed == orig_q.len());
                    }
                    break ;
                },
                Some(task_id) => task_id,
            };
            proof {
                assert(pre.pending().len() > 0);
                assert(task_id == orig_q.skip(consumed)[0]);
                assert(orig_q.skip(consumed)[0] == orig_q[consumed]);
                assert(self.pending() =~= orig_q.skip(consumed + 1));
            }
            match self.find_task_index(task_id) {
                None => {
                    proof {
                        assert(step(self.table(), task_id) == self.table());
                        assert(drain(self.table(), pre.pending()) == drain(
                            step(self.table(), task_id),
                            pre.pending().skip(1),
                        ));
                        assert(pre.pending().skip(1) =~= self.pending());
                        consumed = consumed + 1;
                    }
                },
                Some(i) => {
                    let ghost tbl = self.table();
                    proof {
                        assert(has_id(tbl, task_id));
                        let j = idx_of(tbl, task_id);
                        assert(0 <= j < tbl.len() && tbl[j].id == task_id);
                        if j != i {
                            assert(tbl[j].id != tbl[i as int].id);
                        }
                        assert(j == i);
                    }
                    let mut task = self.tasks.swap_remove(i);
                    // the task's wake handle: made on first poll, reused after
                    let cache_hit = match self.find_cache_index(task_id) {
                        Some(_) => true,
                        None => false,
                    };
                    if !cache_hit {
                        self.waker_cache.push(TaskWaker::new(task_id));
                    }
                    let outcome = task.work.poll();
                    match outcome {
                        Poll::Ready => {
                            match self.find_cache_index(task_id) {
                                Some(c) => {
                                    self.waker_cache.swap_remove(c);
                                },
                                None => {},
                            }
                        },
                        Poll::Pending => {
                            self.tasks.push(task);
                        },
                    }
                    proof {
                        self.polled = Ghost(self.polled@.push(task_id));
                        let j = idx_of(tbl, task_id);
                        assert(j == i);
                        let t = tbl[j];
                        let removed = tbl.update(j, tbl.last()).drop_last();
                        if poll_model(t.work).0 is Ready {
                            assert(self.table() =~= step(tbl, task_id));
                        } else {
                            assert(task == Task { id: t.id, work: poll_model(t.work).1 });
                            assert(self.table() =~= step(tbl, task_id));
                        }
                        lemma_step_wf(tbl, task_id);
                        assert(drain(tbl, pre.pending()) == drain(
                            step(tbl, task_id),
                            pre.pending().skip(1),
                        ));
                        assert(pre.pending().skip(1) =~= self.pending());
                        // the polled log keeps its history and gains this poll
                        assert(self.polled_log().last() == task_id);
                        assert(old(self).polled_log().is_prefix_of(self.polled_log())) by {
                            let n = old(self).polled_log().len() as int;
                            assert(pre.polled_log().is_prefix_of(self.polled_log())) by {
                                assert(self.polled_log().subrange(0, pre.polled_log().len() as int)
                                    =~= pre.polled_log());
                            }
                            assert(self.polled_log().subrange(0, n) =~= pre.polled_log().subrange(
                                0,
                                n,
                            ));
                        }
                        // a task gone from the table has been polled
                        assert forall|id2: u64|
                            has_id(orig_table, id2) && !has_id(self.table(), id2)
                                implies self.polled_log().contains(id2) by {
                            if id2 == task_id {
                                assert(self.polled_log().last() == task_id);
                            } else {
                                if has_id(tbl, id2) {
                                    lemma_step_keeps_others(tbl, task_id, id2);
                                    assert(false);
                                } else {
                                    assert(pre.polled_log().contains(id2));
                                    lemma_push_contains(pre.polled_log(), task_id, id2);
                                }
                            }
                        }
                        // every identifier consumed so far was polled if live
                        let new_consumed = consumed + 1;
                        assert forall|i2: int|
                            0 <= i2 < new_consumed && has_id(orig_table, #[trigger] orig_q[i2])
                                implies self.polled_log().contains(orig_q[i2]) by {
                            if i2 < consumed {
                                if has_id(orig_table, orig_q[i2]) {
                                    lemma_push_contains(pre.polled_log(), task_id, orig_q[i2]);
                                }
                            } else {
                                assert(orig_q[i2] == task_id);
                                assert(self.polled_log().last() == task_id);
                            }
                        }
                        consumed = new_consumed;
                    }
                },
            }
        }
        proof {
            assert(drain(self.table(), self.pending()) == self.table());
            assert forall|id: u64| #[trigger] self.has_task(id) implies has_id(orig_table, id) by {
                lemma_drain_ids_subset(orig_table, orig_q, id);
            }
        }
    }
}

} // verus!
