//! The saved user-mode register context and the decoding of trap causes
//! (aarch64).

use vstd::prelude::*;

verus! {

/// A virtual address.
pub type VirtAddr = usize;

/// Memory access flags, as a set of bits.
#[derive(Debug, Clone, Copy, PartialEq, Eq, Structural)]
pub struct MMUFlags {
    /// The flag bits; see the associated constants.
    pub bits: usize,
}

impl MMUFlags {
    /// The memory is readable.
    pub const READ: usize = 1 << 2;
    /// The memory is writable.
    pub const WRITE: usize = 1 << 3;
    /// The memory is executable.
    pub const EXECUTE: usize = 1 << 4;
    /// The memory is accessible from user mode.
    pub const USER: usize = 1 << 5;
}

/// For reading and writing fields in [`UserContext`].
#[derive(Debug, Clone, Copy)]
pub enum UserContextField {
    InstrPointer,
    StackPointer,
    ThreadPointer,
    ReturnValue,
}

/// Reason of the trap.
#[derive(Debug, PartialEq, Eq, Structural)]
pub enum TrapReason {
    Syscall,
    Interrupt(usize),
    PageFault(VirtAddr, MMUFlags),
    UndefinedInstruction,
    SoftwareBreakpoint,
    HardwareBreakpoint,
    UnalignedAccess,
    GernelFault(usize),
}

/// Exception class (ESR bits 31:26): SVC executed in AArch32 state.
pub const EC_SVC32: u32 = 0x11;
/// Exception class: SVC executed in AArch64 state.
pub const EC_SVC64: u32 = 0x15;
/// Exception class: instruction abort from a lower exception level.
pub const EC_IABT_LOWER: u32 = 0x20;
/// Exception class: instruction abort from the current exception level.
pub const EC_IABT_CURRENT: u32 = 0x21;
/// Exception class: PC alignment fault.
pub const EC_PC_ALIGNMENT: u32 = 0x22;
/// Exception class: data abort from a lower exception level.
pub const EC_DABT_LOWER: u32 = 0x24;
/// Exception class: data abort from the current exception level.
pub const EC_DABT_CURRENT: u32 = 0x25;
/// Exception class: SP alignment fault.
pub const EC_SP_ALIGNMENT: u32 = 0x26;
/// Exception class: breakpoint from a lower exception level.
///
/// Only the breakpoint exceptions proper (classes 0x30 and 0x31) are
/// software breakpoints here. The breakpoint instructions have classes of
/// their own, BKPT in AArch32 state (0x38) and BRK in AArch64 state (0x3c);
/// the exception decoder of this kernel keeps them apart from breakpoints,
/// so a trap on either of them reports a general fault.
pub const EC_BREAKPOINT_LOWER: u32 = 0x30;
/// Exception class: breakpoint from the current exception level.
pub const EC_BREAKPOINT_CURRENT: u32 = 0x31;
/// Fault status code (bits 5:2 of the ISS) of a permission fault, at any level.
pub const FSC_PERMISSION: u32 = 0x0c;

/// Exception kind of a synchronous exception, in bits 31:16 of the trap number.
pub const TRAP_KIND_SYNCHRONOUS: usize = 0;
/// Exception kind of an IRQ, in bits 31:16 of the trap number.
pub const TRAP_KIND_IRQ: usize = 1;

/// The exception class of a syndrome value.
pub open spec fn esr_class(esr: u32) -> u32 {
    esr >> 26
}

/// The fault status code of an abort syndrome, with the level bits masked off.
pub open spec fn esr_fault_status(esr: u32) -> u32 {
    esr & 0x3c
}

/// The exception kind recorded in a trap number.
pub open spec fn trap_kind(trap_num: usize) -> usize {
    (trap_num >> 16) & 0xffff
}

/// The trap reason of a trap with trap number `trap_num`, syndrome `esr`,
/// fault address `far` and, for an IRQ, the interrupt number `irq` read
/// from the interrupt controller.
pub open spec fn trap_reason_of(trap_num: usize, esr: u32, far: usize, irq: usize) -> TrapReason {
    let ec = esr_class(esr);
    if trap_kind(trap_num) == TRAP_KIND_SYNCHRONOUS {
        if ec == EC_BREAKPOINT_LOWER || ec == EC_BREAKPOINT_CURRENT {
            TrapReason::SoftwareBreakpoint
        } else if ec == EC_SVC32 || ec == EC_SVC64 {
            TrapReason::Syscall
        } else if ec == EC_DABT_LOWER || ec == EC_DABT_CURRENT {
            TrapReason::PageFault(
                far,
                MMUFlags { bits: MMUFlags::READ | MMUFlags::WRITE | MMUFlags::USER },
            )
        } else if (ec == EC_IABT_LOWER || ec == EC_IABT_CURRENT) && esr_fault_status(esr)
            == FSC_PERMISSION {
            TrapReason::PageFault(far, MMUFlags { bits: MMUFlags::EXECUTE | MMUFlags::USER })
        } else if ec == EC_PC_ALIGNMENT || ec == EC_SP_ALIGNMENT {
            TrapReason::UnalignedAccess
        } else {
            TrapReason::GernelFault(esr as usize)
        }
    } else if trap_kind(trap_num) == TRAP_KIND_IRQ {
        TrapReason::Interrupt(irq)
    } else {
        TrapReason::GernelFault(esr as usize)
    }
}

impl TrapReason {
    /// Decodes the reason of a trap from the trap number recorded by the
    /// exception vector (`source | kind << 16`), the exception syndrome
    /// register `esr` (ESR_EL1), the fault address register `far`
    /// (FAR_EL1), and the pending interrupt number `irq`, which only an
    /// IRQ uses.
    pub fn from(trap_num: usize, esr: u32, far: usize, irq: usize) -> (r: Self)
        ensures
            r == trap_reason_of(trap_num, esr, far, irq),
    {
        let kind = (trap_num >> 16) & 0xffff;
        if kind == TRAP_KIND_SYNCHRONOUS {
            let ec = esr >> 26;
            if ec == EC_BREAKPOINT_LOWER || ec == EC_BREAKPOINT_CURRENT {
                TrapReason::SoftwareBreakpoint
            } else if ec == EC_SVC32 || ec == EC_SVC64 {
                TrapReason::Syscall
            } else if ec == EC_DABT_LOWER || ec == EC_DABT_CURRENT {
                TrapReason::PageFault(
                    far,
                    MMUFlags { bits: MMUFlags::READ | MMUFlags::WRITE | MMUFlags::USER },
                )
            } else if (ec == EC_IABT_LOWER || ec == EC_IABT_CURRENT) && esr & 0x3c
                == FSC_PERMISSION {
                TrapReason::PageFault(far, MMUFlags { bits: MMUFlags::EXECUTE | MMUFlags::USER })
            } else if ec == EC_PC_ALIGNMENT || ec == EC_SP_ALIGNMENT {
                TrapReason::UnalignedAccess
            } else {
                TrapReason::GernelFault(esr as usize)
            }
        } else if kind == TRAP_KIND_IRQ {
            TrapReason::Interrupt(irq)
        } else {
            TrapReason::GernelFault(esr as usize)
        }
    }
}

/// General registers x0 to x30.
#[derive(Debug, Clone, Copy, PartialEq, Eq, Structural)]
pub struct GeneralRegs {
    pub x0: usize,
    pub x1: usize,
    pub x2: usize,
    pub x3: usize,
    pub x4: usize,
    pub x5: usize,
    pub x6: usize,
    pub x7: usize,
    pub x8: usize,
    pub x9: usize,
    pub x10: usize,
    pub x11: usize,
    pub x12: usize,
    pub x13: usize,
    pub x14: usize,
    pub x15: usize,
    pub x16: usize,
    pub x17: usize,
    pub x18: usize,
    pub x19: usize,
    pub x20: usize,
    pub x21: usize,
    pub x22: usize,
    pub x23: usize,
    pub x24: usize,
    pub x25: usize,
    pub x26: usize,
    pub x27: usize,
    pub x28: usize,
    pub x29: usize,
    pub x30: usize,
}

/// General registers that all hold zero.
pub open spec fn zeroed_regs() -> GeneralRegs {
    GeneralRegs {
            x0: 0,
            x1: 0,
            x2: 0,
            x3: 0,
            x4: 0,
            x5: 0,
            x6: 0,
            x7: 0,
            x8: 0,
            x9: 0,
            x10: 0,
            x11: 0,
            x12: 0,
            x13: 0,
            x14: 0,
            x15: 0,
            x16: 0,
            x17: 0,
            x18: 0,
            x19: 0,
            x20: 0,
            x21: 0,
            x22: 0,
            x23: 0,
            x24: 0,
            x25: 0,
            x26: 0,
            x27: 0,
            x28: 0,
            x29: 0,
            x30: 0,
    }
}

impl Default for GeneralRegs {
    fn default() -> (r: Self)
        ensures
            r == zeroed_regs(),
    {
        GeneralRegs {
            x0: 0,
            x1: 0,
            x2: 0,
            x3: 0,
            x4: 0,
            x5: 0,
            x6: 0,
            x7: 0,
            x8: 0,
            x9: 0,
            x10: 0,
            x11: 0,
            x12: 0,
            x13: 0,
            x14: 0,
            x15: 0,
            x16: 0,
            x17: 0,
            x18: 0,
            x19: 0,
            x20: 0,
            x21: 0,
            x22: 0,
            x23: 0,
            x24: 0,
            x25: 0,
            x26: 0,
            x27: 0,
            x28: 0,
            x29: 0,
            x30: 0,
        }
    }
}

/// User context saved on trap.
#[derive(Debug, Clone, Copy, PartialEq, Eq, Structural)]
pub struct UserContext {
    /// Trap number: exception source in bits 15:0, kind in bits 31:16.
    pub trap_num: usize,
    /// Exception link register (ELR_EL1): where user mode resumes.
    pub elr: usize,
    /// Saved program status register (SPSR_EL1).
    pub spsr: usize,
    /// User stack pointer (SP_EL0).
    pub sp: usize,
    /// User thread pointer (TPIDR_EL0).
    pub tpidr: usize,
    /// General registers.
    pub general: GeneralRegs,
}

/// A context in which every register holds zero.
pub open spec fn zeroed_context() -> UserContext {
    UserContext { trap_num: 0, elr: 0, spsr: 0, sp: 0, tpidr: 0, general: zeroed_regs() }
}

/// SPSR value for entry into user space: EL0, with SError exceptions masked.
pub const USER_SPSR: usize = 1 << 8;

impl UserContext {
    /// The register that `which` names.
    pub open spec fn field(self, which: UserContextField) -> usize {
        match which {
            UserContextField::InstrPointer => self.elr,
            UserContextField::StackPointer => self.sp,
            UserContextField::ThreadPointer => self.tpidr,
            UserContextField::ReturnValue => self.general.x0,
        }
    }

    /// This context with the register that `which` names set to `value`.
    pub open spec fn with_field(self, which: UserContextField, value: usize) -> UserContext {
        match which {
            UserContextField::InstrPointer => UserContext { elr: value, ..self },
            UserContextField::StackPointer => UserContext { sp: value, ..self },
            UserContextField::ThreadPointer => UserContext { tpidr: value, ..self },
            UserContextField::ReturnValue => UserContext {
                general: GeneralRegs { x0: value, ..self.general },
                ..self
            },
        }
    }

    /// This context set up to enter user space at `pc` with stack pointer
    /// `sp` and the first three arguments `a0`, `a1`, `a2`.
    pub open spec fn with_uspace(self, pc: usize, sp: usize, a0: usize, a1: usize, a2: usize) -> UserContext {
        UserContext {
            elr: pc,
            sp: sp,
            spsr: USER_SPSR,
            general: GeneralRegs { x0: a0, x1: a1, x2: a2, ..self.general },
            ..self
        }
    }

    /// Create an empty user context.
    pub fn new() -> (r: Self)
        ensures
            r == zeroed_context(),
    {
        UserContext { trap_num: 0, elr: 0, spsr: 0, sp: 0, tpidr: 0, general: GeneralRegs::default() }
    }

    /// Initialize the context for entry into userspace.
    /// Note: if the number of args < 3, please fill with zeros
    /// Eg: ctx.setup_uspace(pc_, sp_, &[arg1, arg2, 0])
    pub fn setup_uspace(&mut self, pc: usize, sp: usize, args: &[usize; 3])
        ensures
            *final(self) == old(self).with_uspace(pc, sp, args@[0], args@[1], args@[2]),
    {
        self.elr = pc;
        self.sp = sp;
        self.general.x0 = args[0];
        self.general.x1 = args[1];
        self.general.x2 = args[2];
        // Mask SError exceptions (currently unhandled).
        self.spsr = USER_SPSR;
    }

    /// Setup return addr
    pub fn set_ra(&mut self, ra: usize)
        ensures
            *final(self) == (UserContext {
                general: GeneralRegs { x30: ra, ..old(self).general },
                ..*old(self)
            }),
    {
        self.general.x30 = ra;
    }

    /// Returns [`TrapReason`] according to the context, given the exception
    /// syndrome (ESR_EL1), the fault address (FAR_EL1) and, for an IRQ, the
    /// pending interrupt number.
    pub fn trap_reason(&self, esr: u32, far: usize, irq: usize) -> (r: TrapReason)
        ensures
            r == trap_reason_of(self.trap_num, esr, far, irq),
    {
        TrapReason::from(self.trap_num, esr, far, irq)
    }

    /// Returns a `usize` representing the trap reason: on aarch64, the raw
    /// exception syndrome `esr` (ESR_EL1) of the trap.
    pub fn raw_trap_reason(&self, esr: u32) -> (r: usize)
        ensures
            r == esr as usize,
    {
        esr as usize
    }

    /// Returns the reference of general registers.
    pub fn general(&self) -> (r: &GeneralRegs)
        ensures
            *r == self.general,
    {
        &self.general
    }

    /// Returns the mutable reference of general registers.
    pub fn general_mut(&mut self) -> (r: &mut GeneralRegs)
        ensures
            *r == old(self).general,
            *final(self) == (UserContext { general: *final(r), ..*old(self) }),
    {
        &mut self.general
    }

    fn field_ref(&mut self, which: UserContextField) -> (r: &mut usize)
        ensures
            *r == old(self).field(which),
            *final(self) == old(self).with_field(which, *final(r)),
    {
        match which {
            UserContextField::InstrPointer => &mut self.elr,
            UserContextField::StackPointer => &mut self.sp,
            UserContextField::ThreadPointer => &mut self.tpidr,
            UserContextField::ReturnValue => &mut self.general.x0,
        }
    }

    /// Read a field of the context.
    pub fn get_field(&mut self, which: UserContextField) -> (r: usize)
        ensures
            r == old(self).field(which),
            *final(self) == *old(self),
    {
        *self.field_ref(which)
    }

    /// Write a field of the context.
    pub fn set_field(&mut self, which: UserContextField, value: usize)
        ensures
            *final(self) == old(self).with_field(which, value),
    {
        *self.field_ref(which) = value;
    }

    /// Advance the instruction pointer in trap handler on some architecture.
    /// On aarch64 the saved return address of a trap already points past the
    /// trapping instruction, so the context is left as it is.
    pub fn advance_pc(&mut self, reason: TrapReason)
        ensures
            *final(self) == *old(self),
    {
        let _ = reason;
    }
}

/// Reading a register of the context gives back the last value written to
/// it; writing one register leaves the other registers, the trap number and
/// the saved status unchanged.
pub proof fn lemma_field_write_read(
    ctx: UserContext,
    written: UserContextField,
    read: UserContextField,
    value: usize,
)
    ensures
        ctx.with_field(written, value).field(read) == if written == read {
            value
        } else {
            ctx.field(read)
        },
        ctx.with_field(written, value).trap_num == ctx.trap_num,
        ctx.with_field(written, value).spsr == ctx.spsr,
{
}

/// The four fields name four distinct registers: the instruction pointer is
/// the exception link register and the stack pointer is the user stack
/// pointer, the two that set-up for user space writes from `pc` and `sp`; the
/// return value is general register x0; the thread pointer is TPIDR_EL0, no
/// general register. Writing one of them changes no other register.
pub proof fn lemma_field_registers(ctx: UserContext, value: usize)
    ensures
        ctx.field(UserContextField::InstrPointer) == ctx.elr,
        ctx.field(UserContextField::StackPointer) == ctx.sp,
        ctx.field(UserContextField::ThreadPointer) == ctx.tpidr,
        ctx.field(UserContextField::ReturnValue) == ctx.general.x0,
        ctx.with_field(UserContextField::InstrPointer, value) == (UserContext { elr: value, ..ctx }),
        ctx.with_field(UserContextField::StackPointer, value) == (UserContext { sp: value, ..ctx }),
        ctx.with_field(UserContextField::ThreadPointer, value) == (UserContext {
            tpidr: value,
            ..ctx
        }),
        ctx.with_field(UserContextField::ThreadPointer, value).general == ctx.general,
        ctx.with_field(UserContextField::ReturnValue, value) == (UserContext {
            general: GeneralRegs { x0: value, ..ctx.general },
            ..ctx
        }),
        forall|f: UserContextField, g: UserContextField|
            f != g ==> #[trigger] ctx.with_field(f, value).field(g) == ctx.field(g),
{
}

/// Writing back the value just read leaves the context unchanged, and a
/// second write to the same register replaces the first.
pub proof fn lemma_field_write_idempotent(
    ctx: UserContext,
    which: UserContextField,
    first: usize,
    second: usize,
)
    ensures
        ctx.with_field(which, ctx.field(which)) == ctx,
        ctx.with_field(which, first).with_field(which, second) == ctx.with_field(which, second),
{
}

/// After set-up for user space, the context resumes at `pc` in EL0 with
/// stack pointer `sp` and the first argument as the value of x0; the thread
/// pointer is kept.
pub proof fn lemma_uspace_entry_fields(
    ctx: UserContext,
    pc: usize,
    sp: usize,
    a0: usize,
    a1: usize,
    a2: usize,
)
    ensures
        ctx.with_uspace(pc, sp, a0, a1, a2).field(UserContextField::InstrPointer) == pc,
        ctx.with_uspace(pc, sp, a0, a1, a2).field(UserContextField::StackPointer) == sp,
        ctx.with_uspace(pc, sp, a0, a1, a2).field(UserContextField::ReturnValue) == a0,
        ctx.with_uspace(pc, sp, a0, a1, a2).field(UserContextField::ThreadPointer) == ctx.field(
            UserContextField::ThreadPointer,
        ),
        ctx.with_uspace(pc, sp, a0, a1, a2).spsr == USER_SPSR,
{
}

/// Set-up for user space puts the three arguments into x0, x1 and x2, the
/// entry point into the exception link register, the stack pointer into
/// SP_EL0 and the EL0 status (SError masked, value 0x100) into the saved
/// status; every other register, the thread pointer and the trap number keep
/// their values.
pub proof fn lemma_uspace_registers(ctx: UserContext, pc: usize, sp: usize, a0: usize, a1: usize, a2: usize)
    ensures
        ctx.with_uspace(pc, sp, a0, a1, a2).general.x0 == a0,
        ctx.with_uspace(pc, sp, a0, a1, a2).general.x1 == a1,
        ctx.with_uspace(pc, sp, a0, a1, a2).general.x2 == a2,
        ctx.with_uspace(pc, sp, a0, a1, a2).elr == pc,
        ctx.with_uspace(pc, sp, a0, a1, a2).sp == sp,
        ctx.with_uspace(pc, sp, a0, a1, a2).spsr == 0x100,
        ctx.with_uspace(pc, sp, a0, a1, a2).tpidr == ctx.tpidr,
        ctx.with_uspace(pc, sp, a0, a1, a2).trap_num == ctx.trap_num,
        ctx.with_uspace(pc, sp, a0, a1, a2).general.x3 == ctx.general.x3,
        ctx.with_uspace(pc, sp, a0, a1, a2).general.x4 == ctx.general.x4,
        ctx.with_uspace(pc, sp, a0, a1, a2).general.x5 == ctx.general.x5,
        ctx.with_uspace(pc, sp, a0, a1, a2).general.x6 == ctx.general.x6,
        ctx.with_uspace(pc, sp, a0, a1, a2).general.x7 == ctx.general.x7,
        ctx.with_uspace(pc, sp, a0, a1, a2).general.x8 == ctx.general.x8,
        ctx.with_uspace(pc, sp, a0, a1, a2).general.x9 == ctx.general.x9,
        ctx.with_uspace(pc, sp, a0, a1, a2).general.x10 == ctx.general.x10,
        ctx.with_uspace(pc, sp, a0, a1, a2).general.x11 == ctx.general.x11,
        ctx.with_uspace(pc, sp, a0, a1, a2).general.x12 == ctx.general.x12,
        ctx.with_uspace(pc, sp, a0, a1, a2).general.x13 == ctx.general.x13,
        ctx.with_uspace(pc, sp, a0, a1, a2).general.x14 == ctx.general.x14,
        ctx.with_uspace(pc, sp, a0, a1, a2).general.x15 == ctx.general.x15,
        ctx.with_uspace(pc, sp, a0, a1, a2).general.x16 == ctx.general.x16,
        ctx.with_uspace(pc, sp, a0, a1, a2).general.x17 == ctx.general.x17,
        ctx.with_uspace(pc, sp, a0, a1, a2).general.x18 == ctx.general.x18,
        ctx.with_uspace(pc, sp, a0, a1, a2).general.x19 == ctx.general.x19,
        ctx.with_uspace(pc, sp, a0, a1, a2).general.x20 == ctx.general.x20,
        ctx.with_uspace(pc, sp, a0, a1, a2).general.x21 == ctx.general.x21,
        ctx.with_uspace(pc, sp, a0, a1, a2).general.x22 == ctx.general.x22,
        ctx.with_uspace(pc, sp, a0, a1, a2).general.x23 == ctx.general.x23,
        ctx.with_uspace(pc, sp, a0, a1, a2).general.x24 == ctx.general.x24,
        ctx.with_uspace(pc, sp, a0, a1, a2).general.x25 == ctx.general.x25,
        ctx.with_uspace(pc, sp, a0, a1, a2).general.x26 == ctx.general.x26,
        ctx.with_uspace(pc, sp, a0, a1, a2).general.x27 == ctx.general.x27,
        ctx.with_uspace(pc, sp, a0, a1, a2).general.x28 == ctx.general.x28,
        ctx.with_uspace(pc, sp, a0, a1, a2).general.x29 == ctx.general.x29,
        ctx.with_uspace(pc, sp, a0, a1, a2).general.x30 == ctx.general.x30,
{
    assert(1usize << 8 == 0x100) by (bit_vector);
}

proof fn lemma_user_fault_flags()
    ensures
        MMUFlags::READ | MMUFlags::WRITE | MMUFlags::USER == 0x2c,
        MMUFlags::EXECUTE | MMUFlags::USER == 0x30,
{
    assert((1usize << 2) | (1usize << 3) | (1usize << 5) == 0x2c) by (bit_vector);
    assert((1usize << 4) | (1usize << 5) == 0x30) by (bit_vector);
}

/// A synchronous trap whose exception class is that of an SVC instruction
/// (0x15 in AArch64 state, 0x11 in AArch32 state) is a system call, whatever
/// the other syndrome bits (IL, ISS), the fault address and the interrupt
/// number hold.
pub proof fn lemma_svc_is_syscall(trap_num: usize, esr: u32, far: usize, irq: usize)
    requires
        (trap_num >> 16) & 0xffff == 0,
        esr >> 26 == 0x15 || esr >> 26 == 0x11,
    ensures
        trap_reason_of(trap_num, esr, far, irq) == TrapReason::Syscall,
{
}

/// The reason of a synchronous trap is decided by the exception class of the
/// syndrome (bits 31:26) and, for an abort, its fault status (bits 5:2):
/// two syndromes that agree on those give the same reason, up to the raw
/// syndrome that a general fault reports.
pub proof fn lemma_sync_reason_depends_on_class(
    trap_num: usize,
    esr1: u32,
    esr2: u32,
    far: usize,
    irq: usize,
)
    requires
        (trap_num >> 16) & 0xffff == 0,
        esr1 >> 26 == esr2 >> 26,
        esr1 & 0x3c == esr2 & 0x3c,
    ensures
        trap_reason_of(trap_num, esr1, far, irq) is GernelFault <==> trap_reason_of(
            trap_num,
            esr2,
            far,
            irq,
        ) is GernelFault,
        !(trap_reason_of(trap_num, esr1, far, irq) is GernelFault) ==> trap_reason_of(
            trap_num,
            esr1,
            far,
            irq,
        ) == trap_reason_of(trap_num, esr2, far, irq),
{
}

/// The decoding table of trap reasons, class by class: data aborts are page
/// faults at the fault address with read, write and user access (flag bits
/// 0x2c); instruction aborts for lack of permission are page faults with
/// execute and user access (0x30), other instruction aborts general faults;
/// PC and SP alignment faults are unaligned accesses; breakpoint exceptions
/// are software breakpoints; any other class, and any trap that is neither
/// synchronous nor an IRQ, is a general fault reporting the raw syndrome; an
/// IRQ reports the interrupt number, whatever the syndrome.
pub proof fn lemma_trap_reason_table(trap_num: usize, esr: u32, far: usize, irq: usize)
    ensures
        (trap_num >> 16) & 0xffff == 0 && (esr >> 26 == 0x24 || esr >> 26 == 0x25) ==> trap_reason_of(
            trap_num,
            esr,
            far,
            irq,
        ) == TrapReason::PageFault(far, MMUFlags { bits: 0x2c }),
        (trap_num >> 16) & 0xffff == 0 && (esr >> 26 == 0x20 || esr >> 26 == 0x21) && esr & 0x3c
            == 0x0c ==> trap_reason_of(trap_num, esr, far, irq) == TrapReason::PageFault(
            far,
            MMUFlags { bits: 0x30 },
        ),
        (trap_num >> 16) & 0xffff == 0 && (esr >> 26 == 0x20 || esr >> 26 == 0x21) && esr & 0x3c
            != 0x0c ==> trap_reason_of(trap_num, esr, far, irq) == TrapReason::GernelFault(
            esr as usize,
        ),
        (trap_num >> 16) & 0xffff == 0 && (esr >> 26 == 0x22 || esr >> 26 == 0x26) ==> trap_reason_of(
            trap_num,
            esr,
            far,
            irq,
        ) == TrapReason::UnalignedAccess,
        (trap_num >> 16) & 0xffff == 0 && (esr >> 26 == 0x30 || esr >> 26 == 0x31) ==> trap_reason_of(
            trap_num,
            esr,
            far,
            irq,
        ) == TrapReason::SoftwareBreakpoint,
        (trap_num >> 16) & 0xffff == 0 && esr >> 26 != 0x11 && esr >> 26 != 0x15 && esr >> 26
            != 0x20 && esr >> 26 != 0x21 && esr >> 26 != 0x22 && esr >> 26 != 0x24 && esr >> 26
            != 0x25 && esr >> 26 != 0x26 && esr >> 26 != 0x30 && esr >> 26 != 0x31 ==> trap_reason_of(
            trap_num,
            esr,
            far,
            irq,
        ) == TrapReason::GernelFault(esr as usize),
        (trap_num >> 16) & 0xffff == 1 ==> trap_reason_of(trap_num, esr, far, irq)
            == TrapReason::Interrupt(irq),
        (trap_num >> 16) & 0xffff > 1 ==> trap_reason_of(trap_num, esr, far, irq)
            == TrapReason::GernelFault(esr as usize),
{
    lemma_user_fault_flags();
}

/// An empty context holds zero in every register, the saved status and the
/// trap number.
pub proof fn lemma_zeroed_context()
    ensures
        zeroed_context().trap_num == 0,
        zeroed_context().elr == 0,
        zeroed_context().spsr == 0,
        zeroed_context().sp == 0,
        zeroed_context().tpidr == 0,
        zeroed_context().general.x0 == 0,
        zeroed_context().general.x1 == 0,
        zeroed_context().general.x2 == 0,
        zeroed_context().general.x3 == 0,
        zeroed_context().general.x4 == 0,
        zeroed_context().general.x5 == 0,
        zeroed_context().general.x6 == 0,
        zeroed_context().general.x7 == 0,
        zeroed_context().general.x8 == 0,
        zeroed_context().general.x9 == 0,
        zeroed_context().general.x10 == 0,
        zeroed_context().general.x11 == 0,
        zeroed_context().general.x12 == 0,
        zeroed_context().general.x13 == 0,
        zeroed_context().general.x14 == 0,
        zeroed_context().general.x15 == 0,
        zeroed_context().general.x16 == 0,
        zeroed_context().general.x17 == 0,
        zeroed_context().general.x18 == 0,
        zeroed_context().general.x19 == 0,
        zeroed_context().general.x20 == 0,
        zeroed_context().general.x21 == 0,
        zeroed_context().general.x22 == 0,
        zeroed_context().general.x23 == 0,
        zeroed_context().general.x24 == 0,
        zeroed_context().general.x25 == 0,
        zeroed_context().general.x26 == 0,
        zeroed_context().general.x27 == 0,
        zeroed_context().general.x28 == 0,
        zeroed_context().general.x29 == 0,
        zeroed_context().general.x30 == 0,
{
}

impl Default for UserContext {
    fn default() -> (r: Self)
        ensures
            r == zeroed_context(),
    {
        Self::new()
    }
}

} // verus!
