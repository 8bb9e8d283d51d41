//! Decisions of the simple init-process loader: where the init program
//! starts and where its stack is, which system call a trap asks for, and
//! how the user-mode run loop reacts to the outcome of each trap.

use vstd::prelude::*;
use crate::context::{MMUFlags, TrapReason, UserContext, VirtAddr};

verus! {

/// Size in bytes of a page.
pub const PAGE_SIZE: usize = 4096;

/// Number of pages of the init program's stack.
pub const STACK_PAGES: usize = 8;

/// Size in bytes of the init program's stack.
pub const STACK_SIZE: usize = 0x8000;

/// Length of the first, class-independent part of an ELF header.
pub const ELF_IDENT_LEN: usize = 16;

/// Length of a complete 32-bit ELF header.
pub const ELF32_HEADER_LEN: usize = 52;

/// Length of a complete 64-bit ELF header.
pub const ELF64_HEADER_LEN: usize = 64;

/// Whether `data` starts with an ELF header that the loader accepts: it holds
/// the ELF magic number, a 32-bit or 64-bit class byte, and a complete
/// header of that class. Nothing else of the header is checked.
pub open spec fn elf_header_accepted(data: Seq<u8>) -> bool {
    &&& data.len() >= ELF_IDENT_LEN
    &&& data[0] == 0x7f && data[1] == 0x45 && data[2] == 0x4c && data[3] == 0x46
    &&& (data[4] == 1 && data.len() >= ELF32_HEADER_LEN) || (data[4] == 2 && data.len()
        >= ELF64_HEADER_LEN)
}

/// Offset of the entry-point field in an ELF header, of either class.
pub const ELF_ENTRY_OFFSET: usize = 24;

/// The little-endian 32-bit value in the four bytes of `d` from `i`.
pub open spec fn le_u32(d: Seq<u8>, i: int) -> int {
    d[i] + 0x100 * d[i + 1] + 0x1_0000 * d[i + 2] + 0x100_0000 * d[i + 3]
}

/// The little-endian 64-bit value in the eight bytes of `d` from `i`.
pub open spec fn le_u64(d: Seq<u8>, i: int) -> int {
    le_u32(d, i) + 0x1_0000_0000 * le_u32(d, i + 4)
}

/// The entry point recorded in the ELF header at the start of `data` (at
/// offset 24: four bytes in a 32-bit header, eight in a 64-bit one, in the
/// little-endian byte order of the aarch64 targets), or `None` where the
/// header is not accepted.
pub open spec fn elf_entry_point(data: Seq<u8>) -> Option<u64> {
    if !elf_header_accepted(data) {
        None
    } else if data[4] == 1 {
        Some(le_u32(data, ELF_ENTRY_OFFSET as int) as u64)
    } else {
        Some(le_u64(data, ELF_ENTRY_OFFSET as int) as u64)
    }
}

fn read_le_u32(data: &[u8], i: usize) -> (v: u64)
    requires
        i + 4 <= data@.len(),
    ensures
        v == le_u32(data@, i as int),
        v < 0x1_0000_0000,
{
    data[i] as u64 + 0x100 * (data[i + 1] as u64) + 0x1_0000 * (data[i + 2] as u64) + 0x100_0000 * (
    data[i + 3] as u64)
}

/// Reads the entry point from the ELF header at the start of `elf_data`;
/// `None` where the header is not accepted.
///
/// The header is read here rather than with an ELF parsing crate: the
/// checks are those of `elf_header_accepted` and the read is one field, and
/// a parser that maps its header structures onto the buffer in place asserts
/// that the buffer is aligned for them, so it could not take any byte slice
/// that a loader is handed.
pub fn elf_entry(elf_data: &[u8]) -> (entry: Option<u64>)
    ensures
        entry == elf_entry_point(elf_data@),
        entry is Some <==> elf_header_accepted(elf_data@),
{
    let n = elf_data.len();
    if n < ELF_IDENT_LEN || elf_data[0] != 0x7f || elf_data[1] != 0x45 || elf_data[2] != 0x4c
        || elf_data[3] != 0x46 {
        return None;
    }
    if elf_data[4] == 1 && n >= ELF32_HEADER_LEN {
        Some(read_le_u32(elf_data, ELF_ENTRY_OFFSET))
    } else if elf_data[4] == 2 && n >= ELF64_HEADER_LEN {
        let lo = read_le_u32(elf_data, ELF_ENTRY_OFFSET);
        let hi = read_le_u32(elf_data, ELF_ENTRY_OFFSET + 4);
        Some(lo + 0x1_0000_0000 * hi)
    } else {
        None
    }
}

/// The address at which the init program starts: its ELF entry point
/// relative to the base of the region it is loaded into.
pub fn entry_address(vmar_base: usize, entry: u64) -> (addr: usize)
    requires
        vmar_base + (entry as usize) <= usize::MAX,
    ensures
        addr == vmar_base + (entry as usize),
{
    vmar_base + entry as usize
}

/// The start address of the init program in `elf_data` once it is loaded at
/// `vmar_base`. Loading fails outright on an image whose header is not
/// accepted, or whose start address does not fit in a `usize`.
pub fn elf_entry_address(elf_data: &[u8], vmar_base: usize) -> (addr: usize)
    requires
        elf_entry_point(elf_data@) is Some,
        vmar_base + (elf_entry_point(elf_data@)->0 as usize) <= usize::MAX,
    ensures
        addr == vmar_base + (elf_entry_point(elf_data@)->0 as usize),
{
    match elf_entry(elf_data) {
        Some(entry) => entry_address(vmar_base, entry),
        None => 0,
    }
}

/// The initial stack pointer of the init program: the top of its stack,
/// which starts at `stack_bottom`.
pub fn initial_stack_pointer(stack_bottom: usize) -> (sp: usize)
    requires
        stack_bottom + STACK_SIZE <= usize::MAX,
    ensures
        sp == stack_bottom + STACK_PAGES * PAGE_SIZE,
{
    stack_bottom + STACK_SIZE
}

/// The system call number a trapping thread asks for (register x16).
pub fn syscall_num(ctx: &UserContext) -> (num: usize)
    ensures
        num == ctx.general.x16,
{
    ctx.general.x16
}

/// The arguments of a system call (registers x0 to x7).
pub fn syscall_args(ctx: &UserContext) -> (args: [usize; 8])
    ensures
        args@ == seq![
            ctx.general.x0,
            ctx.general.x1,
            ctx.general.x2,
            ctx.general.x3,
            ctx.general.x4,
            ctx.general.x5,
            ctx.general.x6,
            ctx.general.x7,
        ],
{
    let r = ctx.general();
    [r.x0, r.x1, r.x2, r.x3, r.x4, r.x5, r.x6, r.x7]
}

/// An exception that a thread raises to its exception handlers.
#[derive(Debug, Clone, Copy, PartialEq, Eq, Structural)]
pub enum ExceptionType {
    /// A trap that user mode may not take.
    General,
    /// A page fault that could not be resolved.
    FatalPageFault,
    /// The thread is exiting.
    ThreadExiting,
    /// The first thread of a process is about to run.
    ProcessStarting,
    /// A thread is about to run.
    ThreadStarting,
}

/// What the kernel does about a trap from user mode.
#[derive(Debug, PartialEq, Eq)]
pub enum TrapAction {
    /// Run system call `num` with arguments `args`, then write its result
    /// into the return-value register.
    Syscall { num: usize, args: [usize; 8] },
    /// Handle interrupt `vector`, then yield the processor.
    Interrupt(usize),
    /// Resolve a page fault at the address with the access flags.
    PageFault(VirtAddr, MMUFlags),
    /// Step over a software breakpoint.
    Breakpoint,
    /// Raise a general exception: the trap is not supported in user mode.
    Unsupported,
}

/// The action for a trap of reason `reason` taken with context `ctx`.
pub open spec fn trap_action_of(ctx: UserContext, reason: TrapReason) -> TrapAction {
    match reason {
        TrapReason::Syscall => TrapAction::Syscall {
            num: ctx.general.x16,
            args: [
                ctx.general.x0,
                ctx.general.x1,
                ctx.general.x2,
                ctx.general.x3,
                ctx.general.x4,
                ctx.general.x5,
                ctx.general.x6,
                ctx.general.x7,
            ],
        },
        TrapReason::Interrupt(vector) => TrapAction::Interrupt(vector),
        TrapReason::PageFault(vaddr, flags) => TrapAction::PageFault(vaddr, flags),
        TrapReason::SoftwareBreakpoint => TrapAction::Breakpoint,
        _ => TrapAction::Unsupported,
    }
}

/// Decides what to do about a trap from user mode of reason `reason`. For a
/// system call, the number and arguments are read from the context and the
/// instruction pointer is advanced past the call (which leaves an aarch64
/// context unchanged).
pub fn user_trap_action(ctx: &mut UserContext, reason: TrapReason) -> (action: TrapAction)
    ensures
        action == trap_action_of(*old(ctx), reason),
        *final(ctx) == *old(ctx),
{
    match reason {
        TrapReason::Syscall => {
            let num = syscall_num(ctx);
            let args = syscall_args(ctx);
            ctx.advance_pc(reason);
            assert(args =~= [
                old(ctx).general.x0,
                old(ctx).general.x1,
                old(ctx).general.x2,
                old(ctx).general.x3,
                old(ctx).general.x4,
                old(ctx).general.x5,
                old(ctx).general.x6,
                old(ctx).general.x7,
            ]);
            TrapAction::Syscall { num, args }
        },
        TrapReason::Interrupt(vector) => TrapAction::Interrupt(vector),
        TrapReason::PageFault(vaddr, flags) => TrapAction::PageFault(vaddr, flags),
        TrapReason::SoftwareBreakpoint => TrapAction::Breakpoint,
        _ => TrapAction::Unsupported,
    }
}

/// What the user-mode run loop does after a trap has been handled.
#[derive(Debug, Clone, Copy, PartialEq, Eq, Structural)]
pub enum RunStep {
    /// Return to user mode.
    Resume,
    /// Raise the exception to the thread's handlers, then return to user mode.
    Raise(ExceptionType),
    /// Leave the loop: the thread is exiting.
    Exit,
}

/// The next step of the run loop after the outcome `outcome` of handling a trap.
pub fn run_step_after_trap(outcome: Result<(), ExceptionType>) -> (step: RunStep)
    ensures
        step == match outcome {
            Ok(()) => RunStep::Resume,
            Err(ExceptionType::ThreadExiting) => RunStep::Exit,
            Err(e) => RunStep::Raise(e),
        },
{
    match outcome {
        Ok(()) => RunStep::Resume,
        Err(ExceptionType::ThreadExiting) => RunStep::Exit,
        Err(e) => RunStep::Raise(e),
    }
}

/// The outcome of a trap once the kernel step that its action asks for has
/// run, where `step_ok` tells whether that step succeeded: writing a system
/// call's result back into the thread's context, stepping the context over a
/// breakpoint, or resolving a page fault. A context that can no longer be
/// written means the thread is exiting; an unresolved page fault is fatal.
pub open spec fn trap_outcome_of(action: TrapAction, step_ok: bool) -> Result<(), ExceptionType> {
    match action {
        TrapAction::Syscall { .. } => if step_ok {
            Ok(())
        } else {
            Err(ExceptionType::ThreadExiting)
        },
        TrapAction::Breakpoint => if step_ok {
            Ok(())
        } else {
            Err(ExceptionType::ThreadExiting)
        },
        TrapAction::Interrupt(_) => Ok(()),
        TrapAction::PageFault(_, _) => if step_ok {
            Ok(())
        } else {
            Err(ExceptionType::FatalPageFault)
        },
        TrapAction::Unsupported => Err(ExceptionType::General),
    }
}

/// Decides the outcome of handling a trap, from its action and whether the
/// kernel step that the action asked for succeeded.
pub fn trap_outcome(action: &TrapAction, step_ok: bool) -> (r: Result<(), ExceptionType>)
    ensures
        r == trap_outcome_of(*action, step_ok),
{
    match action {
        TrapAction::Syscall { .. } | TrapAction::Breakpoint => {
            if step_ok {
                Ok(())
            } else {
                Err(ExceptionType::ThreadExiting)
            }
        },
        TrapAction::Interrupt(_) => Ok(()),
        TrapAction::PageFault(_, _) => {
            if step_ok {
                Ok(())
            } else {
                Err(ExceptionType::FatalPageFault)
            }
        },
        TrapAction::Unsupported => Err(ExceptionType::General),
    }
}

/// The exceptions a thread raises, in order, before it first runs in user
/// mode: the first thread of a process announces the process, then every
/// thread announces itself.
pub fn startup_exceptions(is_first_thread: bool) -> (es: Vec<ExceptionType>)
    ensures
        es@ == if is_first_thread {
            seq![ExceptionType::ProcessStarting, ExceptionType::ThreadStarting]
        } else {
            seq![ExceptionType::ThreadStarting]
        },
{
    let mut es = Vec::new();
    if is_first_thread {
        es.push(ExceptionType::ProcessStarting);
    }
    es.push(ExceptionType::ThreadStarting);
    es
}

/// The step of the run loop when the thread is scheduled again: a dying
/// thread leaves the loop, any other returns to user mode.
pub fn run_step_on_wakeup(dying: bool) -> (step: RunStep)
    ensures
        step == if dying {
            RunStep::Exit
        } else {
            RunStep::Resume
        },
{
    if dying {
        RunStep::Exit
    } else {
        RunStep::Resume
    }
}

/// The exception a thread raises when it leaves the run loop.
pub const EXIT_EXCEPTION: ExceptionType = ExceptionType::ThreadExiting;

/// The ELF header check reads only the magic number, the class byte and the
/// length, and the entry point only bytes 24 to 31: two images of the same
/// length that agree on bytes 0 to 4 and 24 to 31 give the same entry point,
/// whatever their type, machine, version and other header fields hold.
pub proof fn lemma_elf_entry_reads_only_ident_and_entry(a: Seq<u8>, b: Seq<u8>)
    requires
        a.len() == b.len(),
        forall|i: int| 0 <= i < 5 && i < a.len() ==> a[i] == b[i],
        forall|i: int| 24 <= i < 32 && i < a.len() ==> a[i] == b[i],
    ensures
        elf_entry_point(a) == elf_entry_point(b),
{
    if elf_header_accepted(a) {
        assert(a[24] == b[24] && a[25] == b[25] && a[26] == b[26] && a[27] == b[27]);
        if a[4] == 2 {
            assert(a[28] == b[28] && a[29] == b[29] && a[30] == b[30] && a[31] == b[31]);
        }
    }
}

/// A 64-bit ELF header (magic 7f 45 4c 46, class 2, 64 bytes or more) is
/// always accepted, and its entry point is the little-endian value of bytes
/// 24 to 31.
pub proof fn lemma_elf64_entry(data: Seq<u8>)
    requires
        data.len() >= 64,
        data[0] == 0x7f && data[1] == 0x45 && data[2] == 0x4c && data[3] == 0x46,
        data[4] == 2,
    ensures
        elf_entry_point(data) == Some(
            (data[24] + 0x100 * data[25] + 0x1_0000 * data[26] + 0x100_0000 * data[27]
                + 0x1_0000_0000 * data[28] + 0x100_0000_0000 * data[29] + 0x1_0000_0000_0000
                * data[30] + 0x100_0000_0000_0000 * data[31]) as u64,
        ),
{
}

/// A 32-bit ELF header (magic 7f 45 4c 46, class 1, 52 bytes or more) is
/// always accepted, and its entry point is the little-endian value of bytes
/// 24 to 27.
pub proof fn lemma_elf32_entry(data: Seq<u8>)
    requires
        data.len() >= 52,
        data[0] == 0x7f && data[1] == 0x45 && data[2] == 0x4c && data[3] == 0x46,
        data[4] == 1,
    ensures
        elf_entry_point(data) == Some(
            (data[24] + 0x100 * data[25] + 0x1_0000 * data[26] + 0x100_0000 * data[27]) as u64,
        ),
{
}

/// An image is refused exactly when it lacks the magic number, has a class
/// byte other than 1 or 2, or is shorter than a header of its class.
pub proof fn lemma_elf_refused(data: Seq<u8>)
    ensures
        elf_entry_point(data) is None <==> (data.len() < 16 || data[0] != 0x7f || data[1] != 0x45
            || data[2] != 0x4c || data[3] != 0x46 || (data[4] != 1 && data[4] != 2) || (data[4]
            == 1 && data.len() < 52) || (data[4] == 2 && data.len() < 64)),
{
}

/// The init program's stack pointer lies 0x8000 bytes, eight 4 KiB pages,
/// above the bottom of its stack.
pub proof fn lemma_stack_size()
    ensures
        STACK_SIZE == 0x8000,
        STACK_PAGES * PAGE_SIZE == 0x8000,
{
}

/// A trap is handed on to the kernel with its payload unchanged: a page fault
/// keeps its address and access flags, an interrupt its vector; a system
/// call carries the number in x16 and the arguments in x0 to x7; a software
/// breakpoint is stepped over; every other reason is unsupported.
pub proof fn lemma_trap_action_payload(
    ctx: UserContext,
    vaddr: VirtAddr,
    flags: MMUFlags,
    vector: usize,
    code: usize,
)
    ensures
        trap_action_of(ctx, TrapReason::PageFault(vaddr, flags)) == TrapAction::PageFault(
            vaddr,
            flags,
        ),
        trap_action_of(ctx, TrapReason::PageFault(vaddr, flags)) matches TrapAction::PageFault(
            v,
            f,
        ) && v == vaddr && f.bits == flags.bits,
        trap_action_of(ctx, TrapReason::Interrupt(vector)) == TrapAction::Interrupt(vector),
        trap_action_of(ctx, TrapReason::Syscall) matches TrapAction::Syscall { num, args } && num
            == ctx.general.x16 && args@ =~= seq![
            ctx.general.x0,
            ctx.general.x1,
            ctx.general.x2,
            ctx.general.x3,
            ctx.general.x4,
            ctx.general.x5,
            ctx.general.x6,
            ctx.general.x7,
        ],
        trap_action_of(ctx, TrapReason::SoftwareBreakpoint) == TrapAction::Breakpoint,
        trap_action_of(ctx, TrapReason::HardwareBreakpoint) == TrapAction::Unsupported,
        trap_action_of(ctx, TrapReason::UndefinedInstruction) == TrapAction::Unsupported,
        trap_action_of(ctx, TrapReason::UnalignedAccess) == TrapAction::Unsupported,
        trap_action_of(ctx, TrapReason::GernelFault(code)) == TrapAction::Unsupported,
{
}

/// The outcome of a handled trap: an unsupported trap always raises the
/// general exception and an interrupt always succeeds, whatever the step
/// reported; the other actions succeed exactly when their kernel step did,
/// and a failure is fatal for a page fault and means the thread is exiting
/// for a system call or a breakpoint. Only those two ever report that the
/// thread is exiting.
pub proof fn lemma_trap_outcome(action: TrapAction, step_ok: bool)
    ensures
        trap_outcome_of(TrapAction::Unsupported, step_ok) == Err::<(), ExceptionType>(
            ExceptionType::General,
        ),
        action is Interrupt ==> trap_outcome_of(action, step_ok) == Ok::<(), ExceptionType>(()),
        (action is Syscall || action is Breakpoint || action is PageFault) ==> (trap_outcome_of(
            action,
            step_ok,
        ) is Ok <==> step_ok),
        (action is Syscall || action is Breakpoint) && !step_ok ==> trap_outcome_of(action, step_ok)
            == Err::<(), ExceptionType>(ExceptionType::ThreadExiting),
        action is PageFault && !step_ok ==> trap_outcome_of(action, step_ok) == Err::<
            (),
            ExceptionType,
        >(ExceptionType::FatalPageFault),
        trap_outcome_of(action, step_ok) == Err::<(), ExceptionType>(ExceptionType::ThreadExiting)
            ==> !step_ok && (action is Syscall || action is Breakpoint),
{
}

} // verus!
