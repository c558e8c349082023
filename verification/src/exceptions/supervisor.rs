use vstd::prelude::*;
use vstd::arithmetic::power2::{pow2, lemma2_to64, lemma2_to64_rest};
use vstd::bits::{lemma_usize_low_bits_mask_is_mod, lemma_usize_pow2_no_overflow, lemma_usize_shl_is_mul, low_bits_mask};
use crate::numfmt::{hex_digits, push_hex, is_hex_text, lemma_hex_digits_denote};

verus! {

/// The registers that the trap entry saves before it calls `supervisor_trap`: the 32
/// general registers, then `sepc`, `sstatus`, `scause` and `stval`.
pub struct SupervisorTrapFrame {
    pub regs: [usize; 32],
    pub sepc: usize,
    pub sstatus: usize,
    pub scause: usize,
    pub stval: usize,
}

/// What the trap entry must do once the handler is done.
pub enum TrapAction {
    /// Clear the pending supervisor software interrupt (`SSIP`) and return from the trap.
    ClearSoftwareInterrupt,
    /// Stop the kernel with this message.
    Halt(String),
}

impl View for TrapAction {
    /// `None` for returning from the trap, or the message the kernel stops with.
    type V = Option<Seq<char>>;

    open spec fn view(&self) -> Option<Seq<char>> {
        match self {
            TrapAction::ClearSoftwareInterrupt => None,
            TrapAction::Halt(message) => Some(message@),
        }
    }
}

/// The weight of the most significant bit of a word: the interrupt flag of `scause`.
pub open spec fn interrupt_flag() -> nat {
    pow2((usize::BITS - 1) as nat)
}

/// Whether `scause` reports an interrupt rather than an exception: its top bit is set.
pub open spec fn is_interrupt(scause: usize) -> bool {
    scause >= interrupt_flag()
}

/// The interrupt or exception code of `scause`: every bit but the top one.
pub open spec fn cause_code(scause: usize) -> nat {
    (scause as nat) % interrupt_flag()
}

/// The reason that the kernel stops with for a trap of cause `scause`, or `None` for the
/// one trap that it handles, the supervisor software interrupt.
pub open spec fn trap_reason(scause: usize) -> Option<Seq<char>> {
    let interrupt = is_interrupt(scause);
    let code = cause_code(scause);
    if interrupt && code == 1 {
        None
    } else if interrupt && code == 5 {
        Some("supervisor timer interrupt"@)
    } else if interrupt && code == 9 {
        Some("supervisor external interrupt"@)
    } else if !interrupt && code == 0 {
        Some("instruction address misaligned"@)
    } else if !interrupt && code == 1 {
        Some("instruction access fault"@)
    } else if !interrupt && code == 2 {
        Some("illegal instruction"@)
    } else if !interrupt && code == 3 {
        Some("breakpoint"@)
    } else if !interrupt && code == 4 {
        Some("load address misaligned"@)
    } else if !interrupt && code == 5 {
        Some("load access fault"@)
    } else if !interrupt && code == 6 {
        Some("store/AMO address misaligned"@)
    } else if !interrupt && code == 7 {
        Some("store/AMO access fault"@)
    } else if !interrupt && code == 8 {
        Some("user ecall"@)
    } else if !interrupt && code == 12 {
        Some("instruction page fault"@)
    } else if !interrupt && code == 13 {
        Some("load page fault"@)
    } else if !interrupt && code == 15 {
        Some("store/AMO page fault"@)
    } else {
        Some("unknown cause"@)
    }
}

/// The message of a trap that the kernel does not handle:
/// `Unhandled supervisor trap (<reason>): scause=<hex>, sepc=<hex>, stval=<hex>`, each
/// number printed as by `{:#x}`.
pub open spec fn unhandled_message(reason: Seq<char>, scause: usize, sepc: usize, stval: usize) -> Seq<char> {
    "Unhandled supervisor trap ("@ + reason + "): scause=0x"@ + hex_digits(scause as nat)
        + ", sepc=0x"@ + hex_digits(sepc as nat) + ", stval=0x"@ + hex_digits(stval as nat)
}

/// What the handler does with a trap that saved `frame`: `None` where it returns, or the
/// message that the kernel stops with.
pub open spec fn trap_outcome(frame: SupervisorTrapFrame) -> Option<Seq<char>> {
    match trap_reason(frame.scause) {
        None => None,
        Some(reason) => Some(unhandled_message(reason, frame.scause, frame.sepc, frame.stval)),
    }
}

/// The handler returns from exactly one trap, the supervisor software interrupt, whose
/// `scause` is the interrupt flag plus 1; it stops the kernel on every other trap.
pub proof fn lemma_only_software_interrupt_returns(frame: SupervisorTrapFrame)
    ensures
        trap_outcome(frame) is None <==> frame.scause == interrupt_flag() + 1,
{
    lemma2_to64();
    lemma2_to64_rest();
    assert(usize::BITS == 32 || usize::BITS == 64);
    if usize::BITS == 64 {
        assert(interrupt_flag() == 0x8000000000000000);
    } else {
        assert(interrupt_flag() == 0x80000000);
    }
}

/// Each cause that RISC-V defines and the kernel names halts with that name, whatever the
/// other registers hold: interrupts 5 (timer) and 9 (external) with the top bit set,
/// exceptions 0 to 8, 12, 13 and 15 without it. Every other cause halts as unknown.
pub proof fn lemma_trap_reasons(frame: SupervisorTrapFrame)
    ensures
        frame.scause == interrupt_flag() + 5 ==> trap_outcome(frame)
            == Some(unhandled_message("supervisor timer interrupt"@, frame.scause, frame.sepc, frame.stval)),
        frame.scause == interrupt_flag() + 9 ==> trap_outcome(frame)
            == Some(unhandled_message("supervisor external interrupt"@, frame.scause, frame.sepc, frame.stval)),
        frame.scause == 0 ==> trap_outcome(frame)
            == Some(unhandled_message("instruction address misaligned"@, frame.scause, frame.sepc, frame.stval)),
        frame.scause == 1 ==> trap_outcome(frame)
            == Some(unhandled_message("instruction access fault"@, frame.scause, frame.sepc, frame.stval)),
        frame.scause == 2 ==> trap_outcome(frame)
            == Some(unhandled_message("illegal instruction"@, frame.scause, frame.sepc, frame.stval)),
        frame.scause == 3 ==> trap_outcome(frame)
            == Some(unhandled_message("breakpoint"@, frame.scause, frame.sepc, frame.stval)),
        frame.scause == 4 ==> trap_outcome(frame)
            == Some(unhandled_message("load address misaligned"@, frame.scause, frame.sepc, frame.stval)),
        frame.scause == 5 ==> trap_outcome(frame)
            == Some(unhandled_message("load access fault"@, frame.scause, frame.sepc, frame.stval)),
        frame.scause == 6 ==> trap_outcome(frame)
            == Some(unhandled_message("store/AMO address misaligned"@, frame.scause, frame.sepc, frame.stval)),
        frame.scause == 7 ==> trap_outcome(frame)
            == Some(unhandled_message("store/AMO access fault"@, frame.scause, frame.sepc, frame.stval)),
        frame.scause == 8 ==> trap_outcome(frame)
            == Some(unhandled_message("user ecall"@, frame.scause, frame.sepc, frame.stval)),
        frame.scause == 12 ==> trap_outcome(frame)
            == Some(unhandled_message("instruction page fault"@, frame.scause, frame.sepc, frame.stval)),
        frame.scause == 13 ==> trap_outcome(frame)
            == Some(unhandled_message("load page fault"@, frame.scause, frame.sepc, frame.stval)),
        frame.scause == 15 ==> trap_outcome(frame)
            == Some(unhandled_message("store/AMO page fault"@, frame.scause, frame.sepc, frame.stval)),
        frame.scause != interrupt_flag() + 5 && frame.scause != interrupt_flag() + 9 && frame.scause != 0 && frame.scause != 1 && frame.scause != 2 && frame.scause != 3 && frame.scause != 4 && frame.scause != 5 && frame.scause != 6 && frame.scause != 7 && frame.scause != 8 && frame.scause != 12 && frame.scause != 13 && frame.scause != 15 && frame.scause != interrupt_flag() + 1 ==> trap_outcome(frame)
            == Some(unhandled_message("unknown cause"@, frame.scause, frame.sepc, frame.stval)),
{
    lemma2_to64();
    lemma2_to64_rest();
    assert(usize::BITS == 32 || usize::BITS == 64);
    if usize::BITS == 64 {
        assert(interrupt_flag() == 0x8000000000000000);
    } else {
        assert(interrupt_flag() == 0x80000000);
    }
}

/// The outcome of a trap depends on `scause`, `sepc` and `stval` alone: not on the general
/// registers nor on `sstatus`.
pub proof fn lemma_outcome_reads_only_cause_and_addresses(a: SupervisorTrapFrame, b: SupervisorTrapFrame)
    requires
        a.scause == b.scause,
        a.sepc == b.sepc,
        a.stval == b.stval,
    ensures
        trap_outcome(a) == trap_outcome(b),
{
}

/// The halt message gives the reason in brackets, then `scause`, `sepc` and `stval` written
/// as `{:#x}` writes them: hexadecimal texts that denote the whole words.
pub proof fn lemma_unhandled_message_denotes(reason: Seq<char>, scause: usize, sepc: usize, stval: usize)
    ensures
        exists|c: Seq<char>, e: Seq<char>, t: Seq<char>|
            #![trigger is_hex_text(c, scause as nat), is_hex_text(e, sepc as nat), is_hex_text(t, stval as nat)]
            is_hex_text(c, scause as nat) && is_hex_text(e, sepc as nat) && is_hex_text(t, stval as nat)
                && unhandled_message(reason, scause, sepc, stval) == "Unhandled supervisor trap ("@
                + reason + "): scause=0x"@ + c + ", sepc=0x"@ + e + ", stval=0x"@ + t,
{
    lemma_hex_digits_denote(scause as nat);
    lemma_hex_digits_denote(sepc as nat);
    lemma_hex_digits_denote(stval as nat);
    let c = hex_digits(scause as nat);
    let e = hex_digits(sepc as nat);
    let t = hex_digits(stval as nat);
    assert(is_hex_text(c, scause as nat) && is_hex_text(e, sepc as nat) && is_hex_text(t, stval as nat));
}

/// The word operations on `scause` in `supervisor_trap` compute `is_interrupt` and
/// `cause_code`.
proof fn lemma_scause_bits(scause: usize)
    ensures
        (scause & (1usize << (usize::BITS - 1) as usize) != 0) == is_interrupt(scause),
        (scause & !(1usize << (usize::BITS - 1) as usize)) as nat == cause_code(scause),
{
    let k = (usize::BITS - 1) as usize;
    let b = 1usize << k;
    lemma_usize_pow2_no_overflow(k as nat);
    lemma_usize_shl_is_mul(1usize, k);
    assert(b == interrupt_flag());
    assert((scause & b != 0) == (scause >= b)) by (bit_vector)
        requires
            k == usize::BITS - 1,
            b == 1usize << k,
    ;
    assert(scause & !b == scause & ((b - 1usize) as usize)) by (bit_vector)
        requires
            k == usize::BITS - 1,
            b == 1usize << k,
    ;
    assert(low_bits_mask(k as nat) == b - 1);
    lemma_usize_low_bits_mask_is_mod(scause, k as nat);
}

/// Handles a trap taken in supervisor mode. The trap entry calls this with the registers
/// it saved, and then does what the returned action says. No handler changes the frame.
pub fn supervisor_trap(frame: &mut SupervisorTrapFrame) -> (action: TrapAction)
    ensures
        *final(frame) == *old(frame),
        action@ == trap_outcome(*old(frame)),
{
    let interrupt_bit = 1usize << (usize::BITS - 1) as usize;
    let is_interrupt = frame.scause & interrupt_bit != 0;
    let cause = frame.scause & !interrupt_bit;
    proof {
        lemma_scause_bits(frame.scause);
    }
    match (is_interrupt, cause) {
        (true, 1) => handle_software_interrupt(frame),
        (true, 5) => handle_timer_interrupt(frame),
        (true, 9) => handle_external_interrupt(frame),
        (false, 0) => handle_instruction_address_misaligned(frame),
        (false, 1) => handle_instruction_access_fault(frame),
        (false, 2) => handle_illegal_instruction(frame),
        (false, 3) => handle_breakpoint(frame),
        (false, 4) => handle_load_address_misaligned(frame),
        (false, 5) => handle_load_access_fault(frame),
        (false, 6) => handle_store_address_misaligned(frame),
        (false, 7) => handle_store_access_fault(frame),
        (false, 8) => handle_user_ecall(frame),
        (false, 12) => handle_instruction_page_fault(frame),
        (false, 13) => handle_load_page_fault(frame),
        (false, 15) => handle_store_page_fault(frame),
        _ => handle_unknown_trap(frame),
    }
}

/// A supervisor software interrupt: the trap entry clears `SSIP` before it returns, or the
/// interrupt would be taken again at once.
pub fn handle_software_interrupt(frame: &mut SupervisorTrapFrame) -> (action: TrapAction)
    ensures
        *final(frame) == *old(frame),
        action@ == None::<Seq<char>>,
{
    TrapAction::ClearSoftwareInterrupt
}

/// The timer driver would rearm the timer here; until it exists the trap is unhandled.
pub fn handle_timer_interrupt(frame: &mut SupervisorTrapFrame) -> (action: TrapAction)
    ensures
        *final(frame) == *old(frame),
        action@ == Some(unhandled_message("supervisor timer interrupt"@, old(frame).scause, old(frame).sepc, old(frame).stval)),
{
    TrapAction::Halt(unhandled_trap("supervisor timer interrupt", frame))
}

/// The device driver would claim, service and complete the interrupt here; until it
/// exists the trap is unhandled.
pub fn handle_external_interrupt(frame: &mut SupervisorTrapFrame) -> (action: TrapAction)
    ensures
        *final(frame) == *old(frame),
        action@ == Some(unhandled_message("supervisor external interrupt"@, old(frame).scause, old(frame).sepc, old(frame).stval)),
{
    TrapAction::Halt(unhandled_trap("supervisor external interrupt", frame))
}

/// A trap of this cause is not handled yet: the kernel stops.
pub fn handle_instruction_address_misaligned(frame: &mut SupervisorTrapFrame) -> (action: TrapAction)
    ensures
        *final(frame) == *old(frame),
        action@ == Some(unhandled_message("instruction address misaligned"@, old(frame).scause, old(frame).sepc, old(frame).stval)),
{
    TrapAction::Halt(unhandled_trap("instruction address misaligned", frame))
}

/// A trap of this cause is not handled yet: the kernel stops.
pub fn handle_instruction_access_fault(frame: &mut SupervisorTrapFrame) -> (action: TrapAction)
    ensures
        *final(frame) == *old(frame),
        action@ == Some(unhandled_message("instruction access fault"@, old(frame).scause, old(frame).sepc, old(frame).stval)),
{
    TrapAction::Halt(unhandled_trap("instruction access fault", frame))
}

/// A trap of this cause is not handled yet: the kernel stops.
pub fn handle_illegal_instruction(frame: &mut SupervisorTrapFrame) -> (action: TrapAction)
    ensures
        *final(frame) == *old(frame),
        action@ == Some(unhandled_message("illegal instruction"@, old(frame).scause, old(frame).sepc, old(frame).stval)),
{
    TrapAction::Halt(unhandled_trap("illegal instruction", frame))
}

/// A trap of this cause is not handled yet: the kernel stops.
pub fn handle_breakpoint(frame: &mut SupervisorTrapFrame) -> (action: TrapAction)
    ensures
        *final(frame) == *old(frame),
        action@ == Some(unhandled_message("breakpoint"@, old(frame).scause, old(frame).sepc, old(frame).stval)),
{
    TrapAction::Halt(unhandled_trap("breakpoint", frame))
}

/// A trap of this cause is not handled yet: the kernel stops.
pub fn handle_load_address_misaligned(frame: &mut SupervisorTrapFrame) -> (action: TrapAction)
    ensures
        *final(frame) == *old(frame),
        action@ == Some(unhandled_message("load address misaligned"@, old(frame).scause, old(frame).sepc, old(frame).stval)),
{
    TrapAction::Halt(unhandled_trap("load address misaligned", frame))
}

/// A trap of this cause is not handled yet: the kernel stops.
pub fn handle_load_access_fault(frame: &mut SupervisorTrapFrame) -> (action: TrapAction)
    ensures
        *final(frame) == *old(frame),
        action@ == Some(unhandled_message("load access fault"@, old(frame).scause, old(frame).sepc, old(frame).stval)),
{
    TrapAction::Halt(unhandled_trap("load access fault", frame))
}

/// A trap of this cause is not handled yet: the kernel stops.
pub fn handle_store_address_misaligned(frame: &mut SupervisorTrapFrame) -> (action: TrapAction)
    ensures
        *final(frame) == *old(frame),
        action@ == Some(unhandled_message("store/AMO address misaligned"@, old(frame).scause, old(frame).sepc, old(frame).stval)),
{
    TrapAction::Halt(unhandled_trap("store/AMO address misaligned", frame))
}

/// A trap of this cause is not handled yet: the kernel stops.
pub fn handle_store_access_fault(frame: &mut SupervisorTrapFrame) -> (action: TrapAction)
    ensures
        *final(frame) == *old(frame),
        action@ == Some(unhandled_message("store/AMO access fault"@, old(frame).scause, old(frame).sepc, old(frame).stval)),
{
    TrapAction::Halt(unhandled_trap("store/AMO access fault", frame))
}

/// System calls would be dispatched here, advancing `sepc` by 4 once handled; until then
/// the trap is unhandled.
pub fn handle_user_ecall(frame: &mut SupervisorTrapFrame) -> (action: TrapAction)
    ensures
        *final(frame) == *old(frame),
        action@ == Some(unhandled_message("user ecall"@, old(frame).scause, old(frame).sepc, old(frame).stval)),
{
    TrapAction::Halt(unhandled_trap("user ecall", frame))
}

/// A trap of this cause is not handled yet: the kernel stops.
pub fn handle_instruction_page_fault(frame: &mut SupervisorTrapFrame) -> (action: TrapAction)
    ensures
        *final(frame) == *old(frame),
        action@ == Some(unhandled_message("instruction page fault"@, old(frame).scause, old(frame).sepc, old(frame).stval)),
{
    TrapAction::Halt(unhandled_trap("instruction page fault", frame))
}

/// A trap of this cause is not handled yet: the kernel stops.
pub fn handle_load_page_fault(frame: &mut SupervisorTrapFrame) -> (action: TrapAction)
    ensures
        *final(frame) == *old(frame),
        action@ == Some(unhandled_message("load page fault"@, old(frame).scause, old(frame).sepc, old(frame).stval)),
{
    TrapAction::Halt(unhandled_trap("load page fault", frame))
}

/// A trap of this cause is not handled yet: the kernel stops.
pub fn handle_store_page_fault(frame: &mut SupervisorTrapFrame) -> (action: TrapAction)
    ensures
        *final(frame) == *old(frame),
        action@ == Some(unhandled_message("store/AMO page fault"@, old(frame).scause, old(frame).sepc, old(frame).stval)),
{
    TrapAction::Halt(unhandled_trap("store/AMO page fault", frame))
}

/// A trap of this cause is not handled yet: the kernel stops.
pub fn handle_unknown_trap(frame: &mut SupervisorTrapFrame) -> (action: TrapAction)
    ensures
        *final(frame) == *old(frame),
        action@ == Some(unhandled_message("unknown cause"@, old(frame).scause, old(frame).sepc, old(frame).stval)),
{
    TrapAction::Halt(unhandled_trap("unknown cause", frame))
}

/// The message that the kernel stops with for a trap it does not handle.
pub fn unhandled_trap(reason: &str, frame: &SupervisorTrapFrame) -> (message: String)
    ensures
        message@ == unhandled_message(reason@, frame.scause, frame.sepc, frame.stval),
{
    let mut message = String::new();
    message.append("Unhandled supervisor trap (");
    message.append(reason);
    message.append("): scause=0x");
    push_hex(&mut message, frame.scause);
    message.append(", sepc=0x");
    push_hex(&mut message, frame.sepc);
    message.append(", stval=0x");
    push_hex(&mut message, frame.stval);
    message
}

} // verus!
