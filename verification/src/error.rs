//! Error taxonomy of the kernel core.
//!
//! Bounded queues reject items with a "full" error; the wake channel's
//! fullness is fatal to the submitter, while a full input byte queue is a
//! tolerated degradation.  The remaining variants mirror the structural
//! failures the rest of the kernel can report.

use vstd::prelude::*;

verus! {

/// What went wrong, as a plain tag.
#[derive(Debug, Clone, Copy, PartialEq, Eq, Structural)]
pub enum ErrorKind {
    PhysicalMemoryNotMapped,
    Full,
    NoEnoughMemory,
    IndexOutOfRange,
    InvalidSlotID,
    InvalidEndpointNumber,
    TransferRingNotSet,
    AlreadyAllocated,
    TaskQueueIsFull,
    NotImplemented,
    Unknown,
}

} // verus!
