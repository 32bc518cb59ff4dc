use moss::context::{ContextTask, Machine};

fn machine(seed: u64) -> Machine {
    Machine {
        cr3: seed,
        rip: seed + 1,
        rflags: seed + 2,
        cs: seed + 3,
        ss: seed + 4,
        fs: seed + 5,
        gs: seed + 6,
        rax: seed + 7,
        rbx: seed + 8,
        rcx: seed + 9,
        rdx: seed + 10,
        rdi: seed + 11,
        rsi: seed + 12,
        rsp: seed + 13,
        rbp: seed + 14,
        r8: seed + 15,
        r9: seed + 16,
        r10: seed + 17,
        r11: seed + 18,
        r12: seed + 19,
        r13: seed + 20,
        r14: seed + 21,
        r15: seed + 22,
        fxsave: vec![0u8; 512],
    }
}

#[test]
fn first_switch_enters_entry_point_with_arguments() {
    let next = ContextTask::new(0xdead_beef, 7, 9, 0x1000, 8, 16);
    let mut current = ContextTask::new(0, 0, 0, 0x1000, 8, 16);
    let mut m = machine(1000);
    ContextTask::switch(&next, &mut current, &mut m);
    // execution starts at the entry point with the two arguments in
    // the argument registers
    assert_eq!(m.rip, 0xdead_beef);
    assert_eq!(m.rdi, 7);
    assert_eq!(m.rsi, 9);
    // fresh address space root, default flags, preset selectors
    assert_eq!(m.cr3, 0x1000);
    assert_eq!(m.rflags, 0x202);
    assert_eq!(m.cs, 8);
    assert_eq!(m.ss, 16);
    // the pre-set stack pointer satisfies the call-alignment invariant
    assert_eq!(m.rsp % 16, 8);
    // the floating-point control word is preset
    assert_eq!(m.fxsave.len(), 512);
    assert_eq!(m.fxsave[24], 0x80);
    assert_eq!(m.fxsave[25], 0x1f);
    assert_eq!(m.fxsave[26], 0);
}

#[test]
fn switching_away_and_back_restores_registers() {
    let m0 = machine(5000);
    let mut m = machine(5000);
    let mut a = ContextTask::new(0x10, 1, 2, 0x2000, 8, 16);
    let mut b = ContextTask::new(0x20, 3, 4, 0x3000, 8, 16);
    // switch out of A into B: A's record captures the machine
    let b_target = ContextTask::new(0x20, 3, 4, 0x3000, 8, 16);
    ContextTask::switch(&b_target, &mut a, &mut m);
    // "B" runs for a while and clobbers every register
    m = machine(9000);
    // switch back into A: every general-purpose register, the flags
    // and the address-space root come back exactly
    ContextTask::switch(&a, &mut b, &mut m);
    assert_eq!(m.rax, m0.rax);
    assert_eq!(m.rbx, m0.rbx);
    assert_eq!(m.rcx, m0.rcx);
    assert_eq!(m.rdx, m0.rdx);
    assert_eq!(m.rdi, m0.rdi);
    assert_eq!(m.rsi, m0.rsi);
    assert_eq!(m.rbp, m0.rbp);
    assert_eq!(m.r8, m0.r8);
    assert_eq!(m.r9, m0.r9);
    assert_eq!(m.r10, m0.r10);
    assert_eq!(m.r11, m0.r11);
    assert_eq!(m.r12, m0.r12);
    assert_eq!(m.r13, m0.r13);
    assert_eq!(m.r14, m0.r14);
    assert_eq!(m.r15, m0.r15);
    assert_eq!(m.rflags, m0.rflags);
    assert_eq!(m.rip, m0.rip);
    assert_eq!(m.rsp, m0.rsp);
    assert_eq!(m.cr3, m0.cr3);
    assert_eq!(m.cs, m0.cs);
    assert_eq!(m.ss, m0.ss);
    assert_eq!(m.fs, m0.fs);
    assert_eq!(m.gs, m0.gs);
}
