//! Concurrency core of a small cooperative kernel: a poll-based task
//! executor fed by a bounded wake channel, a keyboard event bridge that
//! suspends a consumer until a byte arrives, and a hardware task-context
//! record with a modelled switch primitive.  Around the core stand the
//! kernel's small in-memory filesystem, its terminal line buffer, and a
//! byte-code buffer for run-time generated routines.

use vstd::prelude::*;

pub mod channel;
pub mod context;
pub mod error;
pub mod exec;
pub mod executor;
pub mod fs;
pub mod keyboard;
pub mod task;
pub mod terminal;

verus! {

/// The monotonically advancing tick count, fed by the timer interrupt
/// handler and read by time-based task logic.
#[derive(Debug, Clone, Copy, PartialEq, Eq, Structural)]
pub struct TickCounter {
    ticks: u64,
}

impl TickCounter {
    /// Ticks recorded so far.
    pub closed spec fn count(&self) -> u64 {
        self.ticks
    }

    pub fn new() -> (c: TickCounter)
        ensures
            c.count() == 0,
    {
        TickCounter { ticks: 0 }
    }

    /// Record one tick: time has advanced.
    pub fn record_tick(&mut self)
        requires
            old(self).count() < u64::MAX,
        ensures
            final(self).count() == old(self).count() + 1,
    {
        self.ticks = self.ticks + 1;
    }

    /// The current tick count.
    pub fn ticks(&self) -> (r: u64)
        ensures
            r == self.count(),
    {
        self.ticks
    }
}

/// Exit status reported to the emulator when a test run finishes.
#[derive(Debug, Clone, Copy, PartialEq, Eq, Structural)]
pub enum QemuExitCode {
    Success,
    Failed,
}

impl QemuExitCode {
    /// The numeric code the emulator's exit device expects.
    pub fn code(self) -> (r: u32)
        ensures
            r == (if self is Success { 0x10u32 } else { 0x11u32 }),
    {
        match self {
            QemuExitCode::Success => 0x10,
            QemuExitCode::Failed => 0x11,
        }
    }
}

} // verus!
