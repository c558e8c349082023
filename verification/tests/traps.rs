use ukernel::exceptions::supervisor::{
    handle_breakpoint, handle_external_interrupt, handle_illegal_instruction,
    handle_instruction_access_fault, handle_instruction_address_misaligned,
    handle_instruction_page_fault, handle_load_access_fault, handle_load_address_misaligned,
    handle_load_page_fault, handle_software_interrupt, handle_store_access_fault,
    handle_store_address_misaligned, handle_store_page_fault, handle_timer_interrupt,
    handle_unknown_trap, handle_user_ecall, supervisor_trap, unhandled_trap, SupervisorTrapFrame,
    TrapAction,
};

const INTERRUPT: usize = 1usize << 63;

fn frame(scause: usize) -> SupervisorTrapFrame {
    let mut regs = [0usize; 32];
    for (i, r) in regs.iter_mut().enumerate() {
        *r = i * 3 + 1;
    }
    SupervisorTrapFrame { regs, sepc: 0x8020_1000, sstatus: 0x100, scause, stval: 0xdead_beef }
}

fn same(a: &SupervisorTrapFrame, b: &SupervisorTrapFrame) -> bool {
    a.regs == b.regs && a.sepc == b.sepc && a.sstatus == b.sstatus && a.scause == b.scause
        && a.stval == b.stval
}

fn halt_message(action: TrapAction) -> String {
    match action {
        TrapAction::Halt(m) => m,
        TrapAction::ClearSoftwareInterrupt => panic!("expected a halt"),
    }
}

fn expected(reason: &str, scause: usize) -> String {
    format!(
        "Unhandled supervisor trap ({}): scause={:#x}, sepc={:#x}, stval={:#x}",
        reason, scause, 0x8020_1000usize, 0xdead_beefusize
    )
}

#[test]
fn software_interrupt_returns() {
    let mut f = frame(INTERRUPT | 1);
    let before = frame(INTERRUPT | 1);
    let action = supervisor_trap(&mut f);
    assert!(matches!(action, TrapAction::ClearSoftwareInterrupt));
    assert!(same(&f, &before));
}

#[test]
fn every_other_cause_halts_with_its_reason() {
    let cases: [(usize, &str); 15] = [
        (INTERRUPT | 5, "supervisor timer interrupt"),
        (INTERRUPT | 9, "supervisor external interrupt"),
        (0, "instruction address misaligned"),
        (1, "instruction access fault"),
        (2, "illegal instruction"),
        (3, "breakpoint"),
        (4, "load address misaligned"),
        (5, "load access fault"),
        (6, "store/AMO address misaligned"),
        (7, "store/AMO access fault"),
        (8, "user ecall"),
        (12, "instruction page fault"),
        (13, "load page fault"),
        (15, "store/AMO page fault"),
        (9, "unknown cause"),
    ];
    for (scause, reason) in cases.iter() {
        let mut f = frame(*scause);
        let before = frame(*scause);
        let msg = halt_message(supervisor_trap(&mut f));
        assert_eq!(msg, expected(reason, *scause));
        assert!(same(&f, &before));
    }
}

#[test]
fn interrupt_and_exception_codes_are_told_apart() {
    // Code 2 is an exception (illegal instruction) but no interrupt the kernel knows.
    let msg = halt_message(supervisor_trap(&mut frame(INTERRUPT | 2)));
    assert_eq!(msg, expected("unknown cause", INTERRUPT | 2));
    // Code 1 as an exception is an instruction access fault, not a software interrupt.
    let msg = halt_message(supervisor_trap(&mut frame(1)));
    assert_eq!(msg, expected("instruction access fault", 1));
    // Codes past the listed ones are unknown.
    let msg = halt_message(supervisor_trap(&mut frame(INTERRUPT | 11)));
    assert_eq!(msg, expected("unknown cause", INTERRUPT | 11));
}

#[test]
fn handlers_called_directly() {
    let check = |h: fn(&mut SupervisorTrapFrame) -> TrapAction, reason: &str| {
        let mut f = frame(42);
        let msg = halt_message(h(&mut f));
        assert_eq!(msg, expected(reason, 42));
        assert!(same(&f, &frame(42)));
    };
    check(handle_timer_interrupt, "supervisor timer interrupt");
    check(handle_external_interrupt, "supervisor external interrupt");
    check(handle_instruction_address_misaligned, "instruction address misaligned");
    check(handle_instruction_access_fault, "instruction access fault");
    check(handle_illegal_instruction, "illegal instruction");
    check(handle_breakpoint, "breakpoint");
    check(handle_load_address_misaligned, "load address misaligned");
    check(handle_load_access_fault, "load access fault");
    check(handle_store_address_misaligned, "store/AMO address misaligned");
    check(handle_store_access_fault, "store/AMO access fault");
    check(handle_user_ecall, "user ecall");
    check(handle_instruction_page_fault, "instruction page fault");
    check(handle_load_page_fault, "load page fault");
    check(handle_store_page_fault, "store/AMO page fault");
    check(handle_unknown_trap, "unknown cause");
    let mut f = frame(42);
    assert!(matches!(handle_software_interrupt(&mut f), TrapAction::ClearSoftwareInterrupt));
}

#[test]
fn unhandled_trap_message_exact() {
    let f = SupervisorTrapFrame { regs: [0; 32], sepc: 0, sstatus: 0, scause: 2, stval: 0xff };
    assert_eq!(
        unhandled_trap("illegal instruction", &f),
        "Unhandled supervisor trap (illegal instruction): scause=0x2, sepc=0x0, stval=0xff"
    );
    let g = SupervisorTrapFrame {
        regs: [0; 32],
        sepc: usize::MAX,
        sstatus: 0,
        scause: INTERRUPT | 9,
        stval: 0x10,
    };
    assert_eq!(
        unhandled_trap("x", &g),
        "Unhandled supervisor trap (x): scause=0x8000000000000009, sepc=0xffffffffffffffff, stval=0x10"
    );
}
