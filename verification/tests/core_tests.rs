use moss::channel::WakeChannel;
use moss::error::ErrorKind;
use moss::exec::Compiler;
use moss::terminal::{backspace, classify_key, KeyAction, Terminal};
use moss::{QemuExitCode, TickCounter};

#[test]
fn wake_channel_is_first_in_first_out() {
    let mut c = WakeChannel::new(4);
    assert!(c.is_empty());
    c.try_enqueue(10).unwrap();
    c.try_enqueue(20).unwrap();
    c.try_enqueue(10).unwrap(); // duplicates are permitted
    assert!(!c.is_empty());
    assert_eq!(c.try_dequeue(), Some(10));
    assert_eq!(c.try_dequeue(), Some(20));
    assert_eq!(c.try_dequeue(), Some(10));
    assert_eq!(c.try_dequeue(), None);
}

#[test]
fn wake_channel_rejects_pushes_beyond_capacity() {
    let mut c = WakeChannel::new(2);
    c.try_enqueue(1).unwrap();
    c.try_enqueue(2).unwrap();
    assert_eq!(c.try_enqueue(3), Err(ErrorKind::Full));
    // nothing was lost or reordered
    assert_eq!(c.try_dequeue(), Some(1));
    assert_eq!(c.try_dequeue(), Some(2));
    assert_eq!(c.try_dequeue(), None);
}

#[test]
fn terminal_buffer_edits() {
    let mut t = Terminal::new();
    t.push('l');
    t.push('s');
    t.push('x');
    t.pop();
    assert_eq!(t.buffer().as_slice(), &['l', 's']);
    backspace(&mut t);
    assert_eq!(t.buffer().as_slice(), &['l']);
    // erasing an empty line does nothing
    backspace(&mut t);
    backspace(&mut t);
    assert!(t.buffer().is_empty());
    t.push('a');
    t.buffer_clear();
    assert!(t.buffer().is_empty());
}

#[test]
fn compiler_lays_bytes_out_from_its_start() {
    let mut c = Compiler::new(0x1000);
    assert_eq!(c.start_p(), 0x1000);
    assert_eq!(c.current_p(), 0x1000);
    // the halt-and-loop routine
    c.push(0xf4);
    c.push(0xeb);
    c.push(0xfd);
    assert_eq!(c.current_p(), 0x1003);
    assert_eq!(c.code().as_slice(), &[0xf4, 0xeb, 0xfd]);
    // the identity routine, appended as a run
    c.push_codes(&[0x48, 0x8b, 0xc7, 0xc3]);
    assert_eq!(c.current_p(), 0x1007);
    assert_eq!(c.code().as_slice(), &[0xf4, 0xeb, 0xfd, 0x48, 0x8b, 0xc7, 0xc3]);
}

#[test]
fn qemu_exit_codes() {
    assert_eq!(QemuExitCode::Success.code(), 0x10);
    assert_eq!(QemuExitCode::Failed.code(), 0x11);
}

#[test]
fn key_classification_goes_by_the_low_byte() {
    assert_eq!(classify_key('a'), KeyAction::Insert('a'));
    assert_eq!(classify_key('\u{8}'), KeyAction::Backspace);
    assert_eq!(classify_key('\n'), KeyAction::Run);
    // a code point whose low byte is 8 counts as backspace too
    assert_eq!(classify_key('\u{108}'), KeyAction::Backspace);
}

#[test]
fn tick_counter_advances_monotonically() {
    let mut t = TickCounter::new();
    assert_eq!(t.ticks(), 0);
    t.record_tick();
    t.record_tick();
    assert_eq!(t.ticks(), 2);
}
