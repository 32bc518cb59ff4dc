//! The wake channel: a fixed-capacity notification queue of task
//! identifiers.
//!
//! Producers are the executor (at submission) and wake handles (possibly
//! running in interrupt context); the consumer is the executor's ready
//! loop.  The queue itself is `crossbeam_queue::ArrayQueue`, a lock-free
//! bounded FIFO whose push never blocks or allocates, which is what makes
//! it safe to call from an interrupt handler.  Its behaviour is taken on
//! trust through the wrappers below; everything layered on top is
//! verified against their contracts.

use vstd::prelude::*;

use crate::error::ErrorKind;
use crossbeam_queue::ArrayQueue;

verus! {

/// `crossbeam_queue::ArrayQueue`, declared so its values can be held and
/// passed around; Verus sees nothing inside it.
#[verifier::external_type_specification]
#[verifier::external_body]
#[verifier::reject_recursive_types(T)]
pub struct ExArrayQueue<T>(ArrayQueue<T>);

/// The identifiers currently queued, oldest first.
pub uninterp spec fn id_queue_contents(q: ArrayQueue<u64>) -> Seq<u64>;

/// The fixed capacity the queue was constructed with.
pub uninterp spec fn id_queue_capacity(q: ArrayQueue<u64>) -> nat;

/// Relies on `crossbeam_queue::ArrayQueue::new`: a fresh, empty queue of
/// the given capacity.  `new` panics when the capacity is zero or so
/// large that its stamp arithmetic overflows, so both are excluded here.
#[verifier::external_body]
fn id_queue_new(cap: usize) -> (q: ArrayQueue<u64>)
    requires
        1 <= cap <= 0x1000_0000,
    ensures
        id_queue_contents(q) == Seq::<u64>::empty(),
        id_queue_capacity(q) == cap as nat,
{
    ArrayQueue::new(cap)
}

/// Relies on `crossbeam_queue::ArrayQueue::push`: appends at the tail
/// unless the queue is full, in which case the value comes back in the
/// error.
#[verifier::external_body]
fn id_queue_push(q: &mut ArrayQueue<u64>, v: u64) -> (r: Result<(), u64>)
    ensures
        id_queue_capacity(*final(q)) == id_queue_capacity(*old(q)),
        id_queue_contents(*old(q)).len() < id_queue_capacity(*old(q)) ==> {
            &&& r is Ok
            &&& id_queue_contents(*final(q)) == id_queue_contents(*old(q)).push(v)
        },
        id_queue_contents(*old(q)).len() >= id_queue_capacity(*old(q)) ==> {
            &&& r == Err::<(), u64>(v)
            &&& id_queue_contents(*final(q)) == id_queue_contents(*old(q))
        },
{
    q.push(v)
}

/// Relies on `crossbeam_queue::ArrayQueue::pop`: removes and returns the
/// oldest element, or `None` when the queue is empty.
#[verifier::external_body]
fn id_queue_pop(q: &mut ArrayQueue<u64>) -> (r: Option<u64>)
    ensures
        id_queue_capacity(*final(q)) == id_queue_capacity(*old(q)),
        id_queue_contents(*old(q)).len() == 0 ==> {
            &&& r is None
            &&& id_queue_contents(*final(q)) == id_queue_contents(*old(q))
        },
        id_queue_contents(*old(q)).len() > 0 ==> {
            &&& r == Some(id_queue_contents(*old(q))[0])
            &&& id_queue_contents(*final(q)) == id_queue_contents(*old(q)).subrange(
                1,
                id_queue_contents(*old(q)).len() as int,
            )
        },
{
    q.pop()
}

/// Relies on `crossbeam_queue::ArrayQueue::is_empty`: whether the queue
/// holds no element.  Under concurrent producers the answer is a
/// snapshot; the idle protocol therefore only consults it with interrupt
/// delivery disabled.
#[verifier::external_body]
fn id_queue_is_empty(q: &ArrayQueue<u64>) -> (r: bool)
    ensures
        r == (id_queue_contents(*q).len() == 0),
{
    q.is_empty()
}

/// Relies on `crossbeam_queue::ArrayQueue::is_full`: whether the queue
/// holds as many elements as its capacity.
#[verifier::external_body]
fn id_queue_is_full(q: &ArrayQueue<u64>) -> (r: bool)
    ensures
        r == (id_queue_contents(*q).len() == id_queue_capacity(*q)),
{
    q.is_full()
}

/// The bounded wake notification queue.  Duplicates are permitted; a
/// push beyond capacity is reported, never silently dropped, because a
/// lost wake could stall a task forever.
pub struct WakeChannel {
    inner: ArrayQueue<u64>,
}

impl View for WakeChannel {
    type V = Seq<u64>;

    closed spec fn view(&self) -> Seq<u64> {
        id_queue_contents(self.inner)
    }
}

impl WakeChannel {
    /// The capacity fixed at construction.
    pub closed spec fn capacity(&self) -> nat {
        id_queue_capacity(self.inner)
    }

    pub open spec fn wf(&self) -> bool {
        self@.len() <= self.capacity()
    }

    /// An empty channel of the given capacity.
    pub fn new(capacity: usize) -> (c: WakeChannel)
        requires
            1 <= capacity <= 0x1000_0000,
        ensures
            c@ == Seq::<u64>::empty(),
            c.capacity() == capacity as nat,
            c.wf(),
    {
        WakeChannel { inner: id_queue_new(capacity) }
    }

    /// Non-blocking enqueue of a task identifier; fails with
    /// `ErrorKind::Full` exactly when the channel is at capacity.
    pub fn try_enqueue(&mut self, id: u64) -> (r: Result<(), ErrorKind>)
        requires
            old(self).wf(),
        ensures
            final(self).wf(),
            final(self).capacity() == old(self).capacity(),
            old(self)@.len() < old(self).capacity() ==> {
                &&& r is Ok
                &&& final(self)@ == old(self)@.push(id)
            },
            old(self)@.len() == old(self).capacity() ==> {
                &&& r == Err::<(), ErrorKind>(ErrorKind::Full)
                &&& final(self)@ == old(self)@
            },
    {
        match id_queue_push(&mut self.inner, id) {
            Ok(()) => Ok(()),
            Err(_) => Err(ErrorKind::Full),
        }
    }

    /// Non-blocking dequeue of the oldest identifier.
    pub fn try_dequeue(&mut self) -> (r: Option<u64>)
        requires
            old(self).wf(),
        ensures
            final(self).wf(),
            final(self).capacity() == old(self).capacity(),
            old(self)@.len() == 0 ==> r is None && final(self)@ == old(self)@,
            old(self)@.len() > 0 ==> {
                &&& r == Some(old(self)@[0])
                &&& final(self)@ == old(self)@.subrange(1, old(self)@.len() as int)
            },
    {
        id_queue_pop(&mut self.inner)
    }

    /// Whether the channel currently holds no identifier.  Callers treat
    /// this as a hint: with concurrent producers it is only a snapshot.
    pub fn is_empty(&self) -> (r: bool)
        ensures
            r == (self@.len() == 0),
    {
        id_queue_is_empty(&self.inner)
    }

    /// Whether the channel is at capacity, so the next enqueue would
    /// fail.
    pub fn is_full(&self) -> (r: bool)
        ensures
            r == (self@.len() == self.capacity()),
    {
        id_queue_is_full(&self.inner)
    }
}

} // verus!
