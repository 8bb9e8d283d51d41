use zcore::context::{GeneralRegs, MMUFlags, TrapReason, UserContext, UserContextField};

const SYNC_FROM_EL0: usize = 2;
const IRQ_FROM_EL0: usize = (1 << 16) | 2;
const FIQ_FROM_EL0: usize = (2 << 16) | 2;

fn esr(ec: u32, iss: u32) -> u32 {
    (ec << 26) | iss
}

#[test]
fn new_context_is_zeroed() {
    let ctx = UserContext::new();
    assert_eq!(ctx.trap_num, 0);
    assert_eq!(ctx.elr, 0);
    assert_eq!(ctx.spsr, 0);
    assert_eq!(ctx.sp, 0);
    assert_eq!(ctx.tpidr, 0);
    assert_eq!(ctx.general, GeneralRegs::default());
    assert_eq!(ctx.general.x30, 0);
    assert_eq!(UserContext::default(), ctx);
}

#[test]
fn setup_uspace_sets_entry_state() {
    let mut ctx = UserContext::new();
    ctx.tpidr = 0x77;
    ctx.general.x3 = 9;
    ctx.setup_uspace(0x40_1000, 0x7fff_0000, &[1, 2, 0]);
    assert_eq!(ctx.elr, 0x40_1000);
    assert_eq!(ctx.sp, 0x7fff_0000);
    assert_eq!(ctx.spsr, 1 << 8);
    assert_eq!((ctx.general.x0, ctx.general.x1, ctx.general.x2), (1, 2, 0));
    assert_eq!(ctx.general.x3, 9);
    assert_eq!(ctx.tpidr, 0x77);
    assert_eq!(ctx.get_field(UserContextField::InstrPointer), 0x40_1000);
    assert_eq!(ctx.get_field(UserContextField::StackPointer), 0x7fff_0000);
    assert_eq!(ctx.get_field(UserContextField::ReturnValue), 1);
}

#[test]
fn set_ra_writes_link_register() {
    let mut ctx = UserContext::new();
    ctx.set_ra(0xdead_beef);
    assert_eq!(ctx.general().x30, 0xdead_beef);
    assert_eq!(ctx.elr, 0);
}

#[test]
fn field_write_then_read() {
    let mut ctx = UserContext::new();
    let fields = [
        UserContextField::InstrPointer,
        UserContextField::StackPointer,
        UserContextField::ThreadPointer,
        UserContextField::ReturnValue,
    ];
    for (i, f) in fields.iter().enumerate() {
        ctx.set_field(*f, 100 + i);
    }
    for (i, f) in fields.iter().enumerate() {
        assert_eq!(ctx.get_field(*f), 100 + i);
    }
    assert_eq!(ctx.elr, 100);
    assert_eq!(ctx.sp, 101);
    assert_eq!(ctx.tpidr, 102);
    assert_eq!(ctx.general.x0, 103);
    ctx.set_field(UserContextField::ReturnValue, 5);
    assert_eq!(ctx.get_field(UserContextField::ReturnValue), 5);
    assert_eq!(ctx.get_field(UserContextField::ThreadPointer), 102);
}

#[test]
fn general_mut_writes_through() {
    let mut ctx = UserContext::new();
    ctx.general_mut().x16 = 96;
    ctx.general_mut().x7 = 3;
    assert_eq!(ctx.general().x16, 96);
    assert_eq!(ctx.general.x7, 3);
}

#[test]
fn advance_pc_keeps_context() {
    let mut ctx = UserContext::new();
    ctx.elr = 0x1004;
    let before = ctx;
    ctx.advance_pc(TrapReason::Syscall);
    assert_eq!(ctx, before);
}

#[test]
fn svc_is_syscall() {
    assert_eq!(TrapReason::from(SYNC_FROM_EL0, esr(0x15, 0), 0, 0), TrapReason::Syscall);
    assert_eq!(TrapReason::from(SYNC_FROM_EL0, esr(0x15, 0x1234), 0, 0), TrapReason::Syscall);
    assert_eq!(TrapReason::from(SYNC_FROM_EL0, esr(0x11, 0), 0, 0), TrapReason::Syscall);
}

#[test]
fn data_abort_is_read_write_page_fault() {
    let r = TrapReason::from(SYNC_FROM_EL0, esr(0x24, 0x7), 0x1234_5000, 0);
    assert_eq!(
        r,
        TrapReason::PageFault(0x1234_5000, MMUFlags { bits: MMUFlags::READ | MMUFlags::WRITE | MMUFlags::USER })
    );
    let r = TrapReason::from(SYNC_FROM_EL0, esr(0x25, 0x4f), 0x88, 0);
    assert_eq!(r, TrapReason::PageFault(0x88, MMUFlags { bits: 0x2c }));
}

#[test]
fn instruction_permission_abort_is_execute_page_fault() {
    let r = TrapReason::from(SYNC_FROM_EL0, esr(0x20, 0x0f), 0x40_0000, 0);
    assert_eq!(r, TrapReason::PageFault(0x40_0000, MMUFlags { bits: MMUFlags::EXECUTE | MMUFlags::USER }));
    let r = TrapReason::from(SYNC_FROM_EL0, esr(0x21, 0x0c), 0x40_0000, 0);
    assert_eq!(r, TrapReason::PageFault(0x40_0000, MMUFlags { bits: 0x30 }));
}

#[test]
fn other_instruction_abort_is_fault() {
    let e = esr(0x20, 0x07);
    assert_eq!(TrapReason::from(SYNC_FROM_EL0, e, 0x40_0000, 0), TrapReason::GernelFault(e as usize));
}

#[test]
fn alignment_and_breakpoint_traps() {
    assert_eq!(TrapReason::from(SYNC_FROM_EL0, esr(0x22, 0), 0, 0), TrapReason::UnalignedAccess);
    assert_eq!(TrapReason::from(SYNC_FROM_EL0, esr(0x26, 0), 0, 0), TrapReason::UnalignedAccess);
    assert_eq!(TrapReason::from(SYNC_FROM_EL0, esr(0x30, 0), 0, 0), TrapReason::SoftwareBreakpoint);
    assert_eq!(TrapReason::from(SYNC_FROM_EL0, esr(0x31, 0), 0, 0), TrapReason::SoftwareBreakpoint);
}

#[test]
fn unknown_syndrome_is_fault() {
    let e = esr(0x3c, 0x10);
    assert_eq!(TrapReason::from(SYNC_FROM_EL0, e, 0, 0), TrapReason::GernelFault(e as usize));
    assert_eq!(TrapReason::from(SYNC_FROM_EL0, 0, 0, 0), TrapReason::GernelFault(0));
}

#[test]
fn breakpoint_instructions_are_faults() {
    let brk = esr(0x3c, 0x1);
    assert_eq!(TrapReason::from(SYNC_FROM_EL0, brk, 0, 0), TrapReason::GernelFault(brk as usize));
    let bkpt = esr(0x38, 0x1);
    assert_eq!(TrapReason::from(SYNC_FROM_EL0, bkpt, 0, 0), TrapReason::GernelFault(bkpt as usize));
}

#[test]
fn irq_reports_interrupt_number() {
    assert_eq!(TrapReason::from(IRQ_FROM_EL0, esr(0x15, 0), 0, 30), TrapReason::Interrupt(30));
}

#[test]
fn fiq_and_serror_are_faults() {
    let e = esr(0x2f, 1);
    assert_eq!(TrapReason::from(FIQ_FROM_EL0, e, 0, 30), TrapReason::GernelFault(e as usize));
    assert_eq!(TrapReason::from((3 << 16) | 2, e, 0, 30), TrapReason::GernelFault(e as usize));
}

#[test]
fn trap_reason_uses_saved_trap_number() {
    let mut ctx = UserContext::new();
    ctx.trap_num = IRQ_FROM_EL0;
    assert_eq!(ctx.trap_reason(0, 0, 27), TrapReason::Interrupt(27));
    ctx.trap_num = SYNC_FROM_EL0;
    assert_eq!(ctx.trap_reason(esr(0x15, 0), 0, 27), TrapReason::Syscall);
}

#[test]
fn field_rewrite_keeps_last_value() {
    let mut ctx = UserContext::new();
    ctx.set_field(UserContextField::StackPointer, 1);
    ctx.set_field(UserContextField::StackPointer, 2);
    let mut once = UserContext::new();
    once.set_field(UserContextField::StackPointer, 2);
    assert_eq!(ctx, once);
    let v = ctx.get_field(UserContextField::ThreadPointer);
    let before = ctx;
    ctx.set_field(UserContextField::ThreadPointer, v);
    assert_eq!(ctx, before);
}

#[test]
fn raw_trap_reason_is_syndrome() {
    let ctx = UserContext::new();
    assert_eq!(ctx.raw_trap_reason(0x5600_0000), 0x5600_0000);
}

#[test]
fn fields_are_distinct_registers() {
    let mut ctx = UserContext::new();
    ctx.set_field(UserContextField::ReturnValue, 7);
    assert_eq!(ctx.general().x0, 7);
    ctx.set_field(UserContextField::ThreadPointer, 9);
    assert_eq!(ctx.tpidr, 9);
    assert_eq!(ctx.general, GeneralRegs { x0: 7, ..GeneralRegs::default() });
    assert_eq!((ctx.elr, ctx.sp), (0, 0));
}
