//! The hardware task context: a record of the complete CPU-visible
//! state of a logical task — general-purpose registers, flags, segment
//! selectors, instruction pointer, stack pointer, page-table root and
//! the floating-point/vector image — plus a dedicated execution stack.
//!
//! The switch primitive is modelled over an explicit [`Machine`] state:
//! it captures the machine into the outgoing record and loads the
//! incoming record into the machine, exactly the exchange the
//! offset-addressed register save/restore routine performs.  Stated this
//! way, "switching A to B and back to A restores A's registers" is a
//! proved consequence of the capture/load contract rather than a hope
//! about the routine.  The routine itself, being raw architecture-
//! specific code, lives with the platform glue; its field-offset layout
//! must evolve together with this record, never independently.

use vstd::prelude::*;

verus! {

/// Default RFLAGS for a fresh context: interrupts enabled plus the
/// always-set reserved bit.
pub const INITIAL_RFLAGS: u64 = 0x202;

/// Bytes of the execution stack every context owns, allocated once at
/// construction and never resized.
pub const STACK_SIZE: u64 = 8192;

/// The saved-state record.  Field for field this is what the switch
/// routine reads and writes by offset.
#[derive(Debug)]
pub struct TaskContext {
    pub cr3: u64,
    pub rip: u64,
    pub rflags: u64,
    pub reserved1: u64,
    pub cs: u64,
    pub ss: u64,
    pub fs: u64,
    pub gs: u64,
    pub rax: u64,
    pub rbx: u64,
    pub rcx: u64,
    pub rdx: u64,
    pub rdi: u64,
    pub rsi: u64,
    pub rsp: u64,
    pub rbp: u64,
    pub r8: u64,
    pub r9: u64,
    pub r10: u64,
    pub r11: u64,
    pub r12: u64,
    pub r13: u64,
    pub r14: u64,
    pub r15: u64,
    pub fxsave_area: Vec<u8>,
}

/// The CPU-visible machine state the switch primitive exchanges:
/// `rip` is where execution resumes and `rsp` the stack it resumes on.
#[derive(Debug)]
pub struct Machine {
    pub cr3: u64,
    pub rip: u64,
    pub rflags: u64,
    pub cs: u64,
    pub ss: u64,
    pub fs: u64,
    pub gs: u64,
    pub rax: u64,
    pub rbx: u64,
    pub rcx: u64,
    pub rdx: u64,
    pub rdi: u64,
    pub rsi: u64,
    pub rsp: u64,
    pub rbp: u64,
    pub r8: u64,
    pub r9: u64,
    pub r10: u64,
    pub r11: u64,
    pub r12: u64,
    pub r13: u64,
    pub r14: u64,
    pub r15: u64,
    pub fxsave: Vec<u8>,
}

/// `ctx` holds exactly the machine state `m`: what the save half of the
/// switch routine writes.
pub open spec fn captures(ctx: TaskContext, m: Machine) -> bool {
    &&& ctx.cr3 == m.cr3
    &&& ctx.rip == m.rip
    &&& ctx.rflags == m.rflags
    &&& ctx.cs == m.cs
    &&& ctx.ss == m.ss
    &&& ctx.fs == m.fs
    &&& ctx.gs == m.gs
    &&& ctx.rax == m.rax
    &&& ctx.rbx == m.rbx
    &&& ctx.rcx == m.rcx
    &&& ctx.rdx == m.rdx
    &&& ctx.rdi == m.rdi
    &&& ctx.rsi == m.rsi
    &&& ctx.rsp == m.rsp
    &&& ctx.rbp == m.rbp
    &&& ctx.r8 == m.r8
    &&& ctx.r9 == m.r9
    &&& ctx.r10 == m.r10
    &&& ctx.r11 == m.r11
    &&& ctx.r12 == m.r12
    &&& ctx.r13 == m.r13
    &&& ctx.r14 == m.r14
    &&& ctx.r15 == m.r15
    &&& ctx.fxsave_area@ == m.fxsave@
}

/// The machine `m` runs with exactly the state of `ctx`: what the
/// restore half of the switch routine (including its privilege-return
/// tail) establishes.
pub open spec fn loads(m: Machine, ctx: TaskContext) -> bool {
    &&& m.cr3 == ctx.cr3
    &&& m.rip == ctx.rip
    &&& m.rflags == ctx.rflags
    &&& m.cs == ctx.cs
    &&& m.ss == ctx.ss
    &&& m.fs == ctx.fs
    &&& m.gs == ctx.gs
    &&& m.rax == ctx.rax
    &&& m.rbx == ctx.rbx
    &&& m.rcx == ctx.rcx
    &&& m.rdx == ctx.rdx
    &&& m.rdi == ctx.rdi
    &&& m.rsi == ctx.rsi
    &&& m.rsp == ctx.rsp
    &&& m.rbp == ctx.rbp
    &&& m.r8 == ctx.r8
    &&& m.r9 == ctx.r9
    &&& m.r10 == ctx.r10
    &&& m.r11 == ctx.r11
    &&& m.r12 == ctx.r12
    &&& m.r13 == ctx.r13
    &&& m.r14 == ctx.r14
    &&& m.r15 == ctx.r15
    &&& m.fxsave@ == ctx.fxsave_area@
}

/// The floating-point/vector image a fresh context starts from: all
/// zero but for the control word at offset 24, preset to `0x1f80`
/// (little endian) so first use is well-defined.
pub open spec fn fxsave_default() -> Seq<u8> {
    Seq::new(512, |i: int| if i == 24 { 0x80u8 } else if i == 25 { 0x1fu8 } else { 0u8 })
}

/// Copy a byte image.
fn clone_bytes(v: &Vec<u8>) -> (r: Vec<u8>)
    ensures
        r@ == v@,
{
    let mut r: Vec<u8> = Vec::new();
    let mut i: usize = 0;
    while i < v.len()
        invariant
            i <= v@.len(),
            r@ == v@.subrange(0, i as int),
        decreases v@.len() - i,
    {
        r.push(v[i]);
        proof {
            assert(r@ =~= v@.subrange(0, i + 1));
        }
        i = i + 1;
    }
    proof {
        assert(r@ =~= v@);
    }
    r
}

/// One sixteen-byte element of a context's execution stack.
#[derive(Debug, Clone, Copy)]
pub struct TaskStackElement {
    pub _dummy: [u64; 2],
}

/// A logical task for the raw switch primitive: its saved-state record
/// and the stack it executes on.
pub struct ContextTask {
    pub ctx: TaskContext,
    pub stack: Vec<TaskStackElement>,
}

/// Relies on `Vec::as_ptr`: the address of the vector's buffer.  The
/// buffer of a non-empty vector is one allocated object, so the address
/// of its one-past-the-end byte still fits a pointer: with at least 513
/// sixteen-byte elements, `r + 8208` does not wrap.  The allocation is
/// aligned to the element type's alignment, which is at least 8.
#[verifier::external_body]
fn stack_base(stack: &Vec<TaskStackElement>) -> (r: u64)
    requires
        stack@.len() == 513,
    ensures
        r % 8 == 0,
        r + 8208 <= u64::MAX,
{
    stack.as_ptr() as u64
}

impl ContextTask {
    /// A context that, when first switched into, behaves as a fresh
    /// call of the entry point with the two arguments: instruction
    /// pointer at the entry, argument registers pre-loaded, the given
    /// address-space root and selectors, default flags with interrupts
    /// enabled, a preset floating-point control word, and a stack
    /// pointer that satisfies the platform call-alignment invariant
    /// (congruent to 8 modulo 16) at first entry.
    ///
    /// The address-space root and the code/stack selectors are read from
    /// platform state by the caller and passed in as plain values.
    pub fn new(entry_point: u64, arg0: u64, arg1: u64, cr3: u64, code_selector: u16,
        stack_selector: u16) -> (t: ContextTask)
        ensures
            t.ctx.rip == entry_point,
            t.ctx.rdi == arg0,
            t.ctx.rsi == arg1,
            t.ctx.cr3 == cr3,
            t.ctx.rflags == INITIAL_RFLAGS,
            t.ctx.cs == code_selector as u64,
            t.ctx.ss == stack_selector as u64,
            t.ctx.fs == 0 && t.ctx.gs == 0,
            t.ctx.rax == 0 && t.ctx.rbx == 0 && t.ctx.rcx == 0 && t.ctx.rdx == 0,
            t.ctx.rbp == 0,
            t.ctx.r8 == 0 && t.ctx.r9 == 0 && t.ctx.r10 == 0 && t.ctx.r11 == 0,
            t.ctx.r12 == 0 && t.ctx.r13 == 0 && t.ctx.r14 == 0 && t.ctx.r15 == 0,
            t.ctx.rsp % 16 == 8,
            t.ctx.fxsave_area@ == fxsave_default(),
    {
        // one element beyond the 8192 stack bytes, so the 16-byte
        // alignment of the usable window can be established from the
        // 8-aligned allocation
        let mut stack: Vec<TaskStackElement> = Vec::new();
        let mut i: usize = 0;
        while i < 513
            invariant
                i <= 513,
                stack@.len() == i,
            decreases 513 - i,
        {
            stack.push(TaskStackElement { _dummy: [0, 0] });
            i = i + 1;
        }
        let raw: u64 = stack_base(&stack);
        let base: u64 = if raw % 16 == 0 {
            raw
        } else {
            raw + 8
        };
        let rsp: u64 = base + STACK_SIZE - 8;

        let mut fxsave_area: Vec<u8> = Vec::new();
        let mut k: usize = 0;
        while k < 512
            invariant
                k <= 512,
                fxsave_area@.len() == k,
                forall|j: int| 0 <= j < k ==> fxsave_area@[j] == fxsave_default()[j],
            decreases 512 - k,
        {
            if k == 24 {
                fxsave_area.push(0x80);
            } else if k == 25 {
                fxsave_area.push(0x1f);
            } else {
                fxsave_area.push(0);
            }
            k = k + 1;
        }
        proof {
            assert(fxsave_area@ =~= fxsave_default());
        }

        let ctx = TaskContext {
            cr3,
            rip: entry_point,
            rflags: INITIAL_RFLAGS,
            reserved1: 0,
            cs: code_selector as u64,
            ss: stack_selector as u64,
            fs: 0,
            gs: 0,
            rax: 0,
            rbx: 0,
            rcx: 0,
            rdx: 0,
            rdi: arg0,
            rsi: arg1,
            rsp,
            rbp: 0,
            r8: 0,
            r9: 0,
            r10: 0,
            r11: 0,
            r12: 0,
            r13: 0,
            r14: 0,
            r15: 0,
            fxsave_area,
        };
        ContextTask { ctx, stack }
    }

    /// The switch primitive, over the machine model: capture the whole
    /// machine state into `current`'s record, then load `next`'s record
    /// into the machine, address-space root included.  Control is not
    /// handed back the normal way: execution carries on at `next`'s
    /// saved instruction pointer, on `next`'s stack, as if that
    /// context's own switch call were returning.
    pub fn switch(next: &ContextTask, current: &mut ContextTask, machine: &mut Machine)
        ensures
            captures(final(current).ctx, *old(machine)),
            final(current).ctx.reserved1 == old(current).ctx.reserved1,
            final(current).stack@ == old(current).stack@,
            loads(*final(machine), next.ctx),
    {
        current.ctx.cr3 = machine.cr3;
        current.ctx.rip = machine.rip;
        current.ctx.rflags = machine.rflags;
        current.ctx.cs = machine.cs;
        current.ctx.ss = machine.ss;
        current.ctx.fs = machine.fs;
        current.ctx.gs = machine.gs;
        current.ctx.rax = machine.rax;
        current.ctx.rbx = machine.rbx;
        current.ctx.rcx = machine.rcx;
        current.ctx.rdx = machine.rdx;
        current.ctx.rdi = machine.rdi;
        current.ctx.rsi = machine.rsi;
        current.ctx.rsp = machine.rsp;
        current.ctx.rbp = machine.rbp;
        current.ctx.r8 = machine.r8;
        current.ctx.r9 = machine.r9;
        current.ctx.r10 = machine.r10;
        current.ctx.r11 = machine.r11;
        current.ctx.r12 = machine.r12;
        current.ctx.r13 = machine.r13;
        current.ctx.r14 = machine.r14;
        current.ctx.r15 = machine.r15;
        current.ctx.fxsave_area = clone_bytes(&machine.fxsave);

        machine.cr3 = next.ctx.cr3;
        machine.rip = next.ctx.rip;
        machine.rflags = next.ctx.rflags;
        machine.cs = next.ctx.cs;
        machine.ss = next.ctx.ss;
        machine.fs = next.ctx.fs;
        machine.gs = next.ctx.gs;
        machine.rax = next.ctx.rax;
        machine.rbx = next.ctx.rbx;
        machine.rcx = next.ctx.rcx;
        machine.rdx = next.ctx.rdx;
        machine.rdi = next.ctx.rdi;
        machine.rsi = next.ctx.rsi;
        machine.rsp = next.ctx.rsp;
        machine.rbp = next.ctx.rbp;
        machine.r8 = next.ctx.r8;
        machine.r9 = next.ctx.r9;
        machine.r10 = next.ctx.r10;
        machine.r11 = next.ctx.r11;
        machine.r12 = next.ctx.r12;
        machine.r13 = next.ctx.r13;
        machine.r14 = next.ctx.r14;
        machine.r15 = next.ctx.r15;
        machine.fxsave = clone_bytes(&next.ctx.fxsave_area);
    }
}

/// Switching out of a context and later switching back restores every
/// general-purpose register, the flags, the stack and instruction
/// pointers, the segment selectors, the floating-point image and the
/// active address-space root to their values at the first switch out:
/// `saved` is the record the first switch captured, and `m2` any
/// machine state a later switch loads from it.
pub proof fn lemma_switch_round_trip(m0: Machine, saved: TaskContext, m2: Machine)
    requires
        captures(saved, m0),
        loads(m2, saved),
    ensures
        m2.rax == m0.rax,
        m2.rbx == m0.rbx,
        m2.rcx == m0.rcx,
        m2.rdx == m0.rdx,
        m2.rdi == m0.rdi,
        m2.rsi == m0.rsi,
        m2.rbp == m0.rbp,
        m2.r8 == m0.r8,
        m2.r9 == m0.r9,
        m2.r10 == m0.r10,
        m2.r11 == m0.r11,
        m2.r12 == m0.r12,
        m2.r13 == m0.r13,
        m2.r14 == m0.r14,
        m2.r15 == m0.r15,
        m2.rflags == m0.rflags,
        m2.rip == m0.rip,
        m2.rsp == m0.rsp,
        m2.cr3 == m0.cr3,
        m2.cs == m0.cs,
        m2.ss == m0.ss,
        m2.fs == m0.fs,
        m2.gs == m0.gs,
        m2.fxsave@ == m0.fxsave@,
{
}

} // verus!
