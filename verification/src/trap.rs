//! The trap dispatcher.
//!
//! The assembly trap entry saves a `TrapContext` on the current task's
//! kernel stack and hands it here together with the decoded trap cause.
//! The dispatcher makes the kernel's decision on the saved context — for
//! an `ecall` it steps the user PC past the instruction and decodes the
//! request — and returns what the trap handler does next: reprogram the
//! timer and suspend, complete a system call, terminate a faulting task,
//! or give up on an unhandled cause.

use vstd::prelude::*;
use crate::context::{trap_context_wf, TrapContext};
use crate::syscall::{decode_syscall, SyscallRequest};

verus! {

/// The trap causes the kernel distinguishes, read from the cause CSR.
#[derive(Copy, Clone, PartialEq, Eq, Structural, Debug)]
pub enum TrapCause {
    /// Supervisor timer interrupt.
    SupervisorTimer,
    /// Environment call from user mode.
    UserEnvCall,
    /// The task executed an undefined instruction.
    IllegalInstruction,
    /// The task faulted on a store.
    StoreFault,
    /// The task faulted on a load.
    LoadFault,
    /// Any cause the kernel does not handle.
    Unhandled,
}

/// What the trap handler does after dispatch.
#[derive(Copy, Clone, PartialEq, Eq, Structural, Debug)]
pub enum TrapOutcome {
    /// Program the next timer tick, then suspend the current task.
    TimerPreempt,
    /// Complete the decoded system call, then return to user mode (or
    /// suspend or exit, for `yield` and `exit`).
    Syscall(SyscallRequest),
    /// Log a fault diagnostic and terminate the offending task.
    FatalToTask,
    /// A trap the kernel cannot handle: a kernel bug, fail loud.
    KernelPanic,
}

/// Whether the cause terminates the offending task: an illegal
/// instruction or a memory-access fault it raised.
pub open spec fn cause_faults_task(cause: TrapCause) -> bool {
    ||| cause == TrapCause::IllegalInstruction
    ||| cause == TrapCause::StoreFault
    ||| cause == TrapCause::LoadFault
}

/// Dispatches one trap taken from user mode.  For an environment call the
/// user PC is advanced past the 4-byte `ecall` instruction and the request
/// is decoded from x17 and x10..x12 of the saved context; every other
/// cause leaves the context untouched.
pub fn trap_dispatch(cx: &mut TrapContext, cause: TrapCause) -> (r: TrapOutcome)
    requires
        trap_context_wf(*old(cx)),
        cause == TrapCause::UserEnvCall ==> old(cx).sepc + 4 <= usize::MAX,
    ensures
        trap_context_wf(*final(cx)),
        final(cx).x@ == old(cx).x@,
        final(cx).sstatus == old(cx).sstatus,
        cause == TrapCause::SupervisorTimer ==> {
            &&& r == TrapOutcome::TimerPreempt
            &&& final(cx).sepc == old(cx).sepc
        },
        cause == TrapCause::UserEnvCall ==> {
            &&& r == TrapOutcome::Syscall(
                decode_syscall(old(cx).x[17], old(cx).x[10], old(cx).x[11], old(cx).x[12]))
            &&& final(cx).sepc == old(cx).sepc + 4
        },
        cause_faults_task(cause) ==> {
            &&& r == TrapOutcome::FatalToTask
            &&& final(cx).sepc == old(cx).sepc
        },
        cause == TrapCause::Unhandled ==> {
            &&& r == TrapOutcome::KernelPanic
            &&& final(cx).sepc == old(cx).sepc
        },
{
    match cause {
        TrapCause::SupervisorTimer => TrapOutcome::TimerPreempt,
        TrapCause::UserEnvCall => {
            cx.sepc = cx.sepc + 4;
            let id = cx.x[17];
            let a0 = cx.x[10];
            let a1 = cx.x[11];
            let a2 = cx.x[12];
            TrapOutcome::Syscall(decode_syscall(id, a0, a1, a2))
        },
        TrapCause::IllegalInstruction => TrapOutcome::FatalToTask,
        TrapCause::StoreFault => TrapOutcome::FatalToTask,
        TrapCause::LoadFault => TrapOutcome::FatalToTask,
        TrapCause::Unhandled => TrapOutcome::KernelPanic,
    }
}

} // verus!
