use moss::channel::WakeChannel;
use moss::error::ErrorKind;
use moss::keyboard::{add_scancode, BytePoll, ScancodeStream};
use moss::executor::Executor;
use moss::task::{Task, TaskWaker, Work};

#[test]
fn buffered_byte_is_yielded_without_suspending() {
    let mut s = ScancodeStream::new();
    let mut chan = WakeChannel::new(10);
    assert!(add_scancode(&mut s, &mut chan, 42).is_ok());
    assert_eq!(s.poll_next(TaskWaker::new(1)), BytePoll::Ready(42));
}

#[test]
fn bytes_come_out_in_arrival_order() {
    let mut s = ScancodeStream::new();
    let mut chan = WakeChannel::new(10);
    add_scancode(&mut s, &mut chan, 1).unwrap();
    add_scancode(&mut s, &mut chan, 2).unwrap();
    add_scancode(&mut s, &mut chan, 3).unwrap();
    assert_eq!(s.poll_next(TaskWaker::new(1)), BytePoll::Ready(1));
    assert_eq!(s.poll_next(TaskWaker::new(1)), BytePoll::Ready(2));
    assert_eq!(s.poll_next(TaskWaker::new(1)), BytePoll::Ready(3));
    assert_eq!(s.poll_next(TaskWaker::new(1)), BytePoll::Pending);
}

#[test]
fn byte_delivered_between_check_and_registration_is_not_missed() {
    let mut s = ScancodeStream::new();
    let mut chan = WakeChannel::new(10);
    // consumer observes the ring empty
    assert_eq!(s.poll_check(), None);
    // a byte arrives in the race window, before the handle is stored;
    // no handle is registered yet, so no wake fires
    add_scancode(&mut s, &mut chan, 7).unwrap();
    assert!(chan.is_empty());
    // the consumer now registers and re-checks: the byte is found and
    // the consumer is not left suspended
    s.register(TaskWaker::new(9));
    assert_eq!(s.poll_recheck(), BytePoll::Ready(7));
}

#[test]
fn byte_after_registration_invokes_the_handle() {
    let mut s = ScancodeStream::new();
    let mut chan = WakeChannel::new(10);
    // the consumer suspends: ring empty, handle registered
    assert_eq!(s.poll_next(TaskWaker::new(9)), BytePoll::Pending);
    // the next byte wakes it: its identifier lands on the wake channel
    add_scancode(&mut s, &mut chan, 7).unwrap();
    assert_eq!(chan.try_dequeue(), Some(9));
    assert_eq!(chan.try_dequeue(), None);
    // and the byte itself is there on the next poll
    assert_eq!(s.poll_next(TaskWaker::new(9)), BytePoll::Ready(7));
}

#[test]
fn full_ring_drops_the_byte_and_reports_it() {
    let mut s = ScancodeStream::new();
    let mut chan = WakeChannel::new(10);
    for b in 0..100u8 {
        assert!(add_scancode(&mut s, &mut chan, b).is_ok());
    }
    assert_eq!(add_scancode(&mut s, &mut chan, 200), Err(ErrorKind::Full));
    // the buffered bytes are intact, oldest first
    assert_eq!(s.poll_next(TaskWaker::new(1)), BytePoll::Ready(0));
    assert_eq!(s.poll_next(TaskWaker::new(1)), BytePoll::Ready(1));
}

#[test]
fn byte_arrival_wakes_the_executor_task() {
    let mut ex = Executor::new(10);
    ex.spawn(Task::new(7, Work::Never)).unwrap();
    ex.run_ready_tasks();
    // the consumer task suspends on the byte source
    let mut s = ScancodeStream::new();
    assert_eq!(s.poll_next(TaskWaker::new(7)), BytePoll::Pending);
    // a byte delivered from interrupt context wakes it through the
    // executor's own channel
    add_scancode(&mut s, ex.channel_mut(), 3).unwrap();
    assert!(!ex.is_idle());
    ex.run_ready_tasks();
    assert!(ex.contains_task(7));
    assert!(ex.is_idle());
    // and the byte is there on its next poll
    assert_eq!(s.poll_next(TaskWaker::new(7)), BytePoll::Ready(3));
}
