//! The event bridge for the keyboard byte source.
//!
//! An interrupt handler appends raw bytes to a fixed-capacity, lock-free
//! ring of bytes; the consumer polls it and, when no byte is there,
//! registers its wake handle in the pending-waker slot and then checks
//! the ring once more.  That second check is what closes the race with a
//! byte delivered between "ring observed empty" and "handle registered":
//! such a byte is found by the re-check, so the poll yields it instead
//! of suspending, and no byte is ever missed.
//!
//! The slot holds at most one handle — last writer wins, since only one
//! consumer of the byte stream is expected at a time — and a handle is
//! taken out of the slot whenever it is invoked or its registrant is
//! handed a byte.

use vstd::prelude::*;

use crate::channel::WakeChannel;
use crate::error::ErrorKind;
use crate::task::TaskWaker;
use crossbeam_queue::ArrayQueue;

verus! {

/// The bytes currently buffered, oldest first.
pub uninterp spec fn byte_queue_contents(q: ArrayQueue<u8>) -> Seq<u8>;

/// The fixed capacity the byte ring was constructed with.
pub uninterp spec fn byte_queue_capacity(q: ArrayQueue<u8>) -> nat;

/// Relies on `crossbeam_queue::ArrayQueue::new`: a fresh, empty queue of
/// the given capacity.  Zero and overflowing capacities make `new`
/// panic and are excluded.
#[verifier::external_body]
fn byte_queue_new(cap: usize) -> (q: ArrayQueue<u8>)
    requires
        1 <= cap <= 0x1000_0000,
    ensures
        byte_queue_contents(q) == Seq::<u8>::empty(),
        byte_queue_capacity(q) == cap as nat,
{
    ArrayQueue::new(cap)
}

/// Relies on `crossbeam_queue::ArrayQueue::push`: appends at the tail
/// unless the queue is full, in which case the value comes back in the
/// error.  Lock-free, so an interrupt handler may call it.
#[verifier::external_body]
fn byte_queue_push(q: &mut ArrayQueue<u8>, v: u8) -> (r: Result<(), u8>)
    ensures
        byte_queue_capacity(*final(q)) == byte_queue_capacity(*old(q)),
        byte_queue_contents(*old(q)).len() < byte_queue_capacity(*old(q)) ==> {
            &&& r is Ok
            &&& byte_queue_contents(*final(q)) == byte_queue_contents(*old(q)).push(v)
        },
        byte_queue_contents(*old(q)).len() >= byte_queue_capacity(*old(q)) ==> {
            &&& r == Err::<(), u8>(v)
            &&& byte_queue_contents(*final(q)) == byte_queue_contents(*old(q))
        },
{
    q.push(v)
}

/// Relies on `crossbeam_queue::ArrayQueue::pop`: removes and returns
/// the oldest element, or `None` when the queue is empty.
#[verifier::external_body]
fn byte_queue_pop(q: &mut ArrayQueue<u8>) -> (r: Option<u8>)
    ensures
        byte_queue_capacity(*final(q)) == byte_queue_capacity(*old(q)),
        byte_queue_contents(*old(q)).len() == 0 ==> {
            &&& r is None
            &&& byte_queue_contents(*final(q)) == byte_queue_contents(*old(q))
        },
        byte_queue_contents(*old(q)).len() > 0 ==> {
            &&& r == Some(byte_queue_contents(*old(q))[0])
            &&& byte_queue_contents(*final(q)) == byte_queue_contents(*old(q)).subrange(
                1,
                byte_queue_contents(*old(q)).len() as int,
            )
        },
{
    q.pop()
}

/// Relies on `crossbeam_queue::ArrayQueue::is_empty`: whether the queue
/// holds no element.
#[verifier::external_body]
fn byte_queue_is_empty(q: &ArrayQueue<u8>) -> (r: bool)
    ensures
        r == (byte_queue_contents(*q).len() == 0),
{
    q.is_empty()
}

/// Outcome of polling the byte source.
#[derive(Debug, Clone, Copy, PartialEq, Eq, Structural)]
pub enum BytePoll {
    Ready(u8),
    Pending,
}

/// The byte source the executor's keyboard task suspends on: the
/// interrupt-fed byte ring together with the pending-waker slot.
pub struct ScancodeStream {
    queue: ArrayQueue<u8>,
    waker: Option<TaskWaker>,
}

impl ScancodeStream {
    /// The bytes waiting to be consumed, oldest first.
    pub closed spec fn bytes(&self) -> Seq<u8> {
        byte_queue_contents(self.queue)
    }

    /// The byte ring's fixed capacity.
    pub closed spec fn byte_capacity(&self) -> nat {
        byte_queue_capacity(self.queue)
    }

    /// The wake handle of the one consumer currently suspended waiting
    /// for a byte, if any.
    pub closed spec fn registered(&self) -> Option<TaskWaker> {
        self.waker
    }

    pub open spec fn wf(&self) -> bool {
        &&& self.bytes().len() <= self.byte_capacity()
        &&& 1 <= self.byte_capacity()
    }

    /// A fresh byte source with an empty ring of one hundred bytes and
    /// an empty waker slot.
    pub fn new() -> (s: ScancodeStream)
        ensures
            s.wf(),
            s.bytes() == Seq::<u8>::empty(),
            s.byte_capacity() == 100,
            s.registered() is None,
    {
        ScancodeStream { queue: byte_queue_new(100), waker: None }
    }

    /// Whether no byte is buffered right now.  With an interrupt
    /// producer this is a snapshot, good for a caller's own
    /// precondition checks.
    pub fn is_buffer_empty(&self) -> (r: bool)
        ensures
            r == (self.bytes().len() == 0),
    {
        byte_queue_is_empty(&self.queue)
    }

    /// Whether a consumer's wake handle sits in the pending-waker slot.
    pub fn has_waker(&self) -> (r: bool)
        ensures
            r == (self.registered() is Some),
    {
        self.waker.is_some()
    }

    /// First phase of a poll: take the oldest buffered byte if one is
    /// there.  The waker slot is untouched.
    pub fn poll_check(&mut self) -> (r: Option<u8>)
        requires
            old(self).wf(),
        ensures
            final(self).wf(),
            final(self).byte_capacity() == old(self).byte_capacity(),
            final(self).registered() == old(self).registered(),
            old(self).bytes().len() == 0 ==> r is None && final(self).bytes() == old(self).bytes(),
            old(self).bytes().len() > 0 ==> {
                &&& r == Some(old(self).bytes()[0])
                &&& final(self).bytes() == old(self).bytes().subrange(
                    1,
                    old(self).bytes().len() as int,
                )
            },
    {
        byte_queue_pop(&mut self.queue)
    }

    /// Store the caller's wake handle in the pending-waker slot.  Last
    /// writer wins: an earlier handle, if any, is simply replaced.
    pub fn register(&mut self, waker: TaskWaker)
        requires
            old(self).wf(),
        ensures
            final(self).wf(),
            final(self).byte_capacity() == old(self).byte_capacity(),
            final(self).bytes() == old(self).bytes(),
            final(self).registered() == Some(waker),
    {
        self.waker = Some(waker);
    }

    /// Second phase of a poll, after registering: check the ring once
    /// more.  A byte that arrived between the first check and the
    /// registration is found here, the slot is cleared, and the byte is
    /// yielded — this re-check is what prevents a missed byte.  Only
    /// when the ring is still empty does the caller stay suspended.
    pub fn poll_recheck(&mut self) -> (r: BytePoll)
        requires
            old(self).wf(),
        ensures
            final(self).wf(),
            final(self).byte_capacity() == old(self).byte_capacity(),
            old(self).bytes().len() == 0 ==> {
                &&& r is Pending
                &&& final(self).bytes() == old(self).bytes()
                &&& final(self).registered() == old(self).registered()
            },
            old(self).bytes().len() > 0 ==> {
                &&& r == BytePoll::Ready(old(self).bytes()[0])
                &&& final(self).bytes() == old(self).bytes().subrange(
                    1,
                    old(self).bytes().len() as int,
                )
                &&& final(self).registered() is None
            },
    {
        match byte_queue_pop(&mut self.queue) {
            Some(scancode) => {
                self.waker = None;
                BytePoll::Ready(scancode)
            },
            None => BytePoll::Pending,
        }
    }

    /// One full poll of the byte source: yield a buffered byte, or
    /// register the caller's handle and re-check before suspending.
    pub fn poll_next(&mut self, waker: TaskWaker) -> (r: BytePoll)
        requires
            old(self).wf(),
        ensures
            final(self).wf(),
            final(self).byte_capacity() == old(self).byte_capacity(),
            old(self).bytes().len() > 0 ==> {
                &&& r == BytePoll::Ready(old(self).bytes()[0])
                &&& final(self).bytes() == old(self).bytes().subrange(
                    1,
                    old(self).bytes().len() as int,
                )
                &&& final(self).registered() == old(self).registered()
            },
            old(self).bytes().len() == 0 ==> {
                &&& r is Pending
                &&& final(self).bytes() == old(self).bytes()
                &&& final(self).registered() == Some(waker)
            },
    {
        match self.poll_check() {
            Some(scancode) => BytePoll::Ready(scancode),
            None => {
                self.register(waker);
                self.poll_recheck()
            },
        }
    }
}

/// Producer side, called from interrupt context: append a byte to the
/// ring and, when the ring was previously empty and a consumer is
/// suspended, invoke its wake handle — the handle is taken out of the
/// slot and the task's identifier lands on the wake channel.  A full
/// ring drops the byte and reports it, so the caller can emit a
/// diagnostic: input loss under overload is an accepted degradation.  A
/// full wake channel on the wake path would be an unrecoverable
/// configuration error and is excluded by the precondition.
pub fn add_scancode(stream: &mut ScancodeStream, channel: &mut WakeChannel, scancode: u8) -> (r:
    Result<(), ErrorKind>)
    requires
        old(stream).wf(),
        old(channel).wf(),
        old(stream).bytes().len() == 0 && old(stream).registered() is Some ==> old(channel)@.len()
            < old(channel).capacity(),
    ensures
        final(stream).wf(),
        final(channel).wf(),
        final(stream).byte_capacity() == old(stream).byte_capacity(),
        final(channel).capacity() == old(channel).capacity(),
        old(stream).bytes().len() == old(stream).byte_capacity() ==> {
            &&& r == Err::<(), ErrorKind>(ErrorKind::Full)
            &&& final(stream).bytes() == old(stream).bytes()
            &&& final(stream).registered() == old(stream).registered()
            &&& final(channel)@ == old(channel)@
        },
        old(stream).bytes().len() < old(stream).byte_capacity() ==> {
            &&& r is Ok
            &&& final(stream).bytes() == old(stream).bytes().push(scancode)
        },
        old(stream).bytes().len() == 0 && old(stream).registered() is Some ==> {
            &&& (old(stream).registered() matches Some(w) ==> final(channel)@ == old(
                channel,
            )@.push(w.task_id))
            &&& final(stream).registered() is None
        },
        !(old(stream).bytes().len() == 0 && old(stream).registered() is Some) && old(
            stream,
        ).bytes().len() < old(stream).byte_capacity() ==> {
            &&& final(channel)@ == old(channel)@
            &&& final(stream).registered() == old(stream).registered()
        },
{
    let was_empty = byte_queue_is_empty(&stream.queue);
    match byte_queue_push(&mut stream.queue, scancode) {
        Err(_) => Err(ErrorKind::Full),
        Ok(()) => {
            if was_empty {
                match stream.waker {
                    Some(w) => {
                        w.wake_task(channel);
                        stream.waker = None;
                    },
                    None => {},
                }
            }
            Ok(())
        },
    }
}

} // verus!
