//! Saved register contexts.
//!
//! `TaskContext` is the minimum register set preserved across a voluntary
//! context switch in supervisor mode; `TrapContext` is the full snapshot
//! captured on entry from user mode.  Both layouts are fixed: the words of
//! a `TrapContext` stand on the task's kernel stack in the order given by
//! `trap_frame_words`, and the trap-entry and trap-return stubs read and
//! write exactly that frame.

use vstd::prelude::*;

verus! {

/// Number of general-purpose registers captured on a trap.
pub const TRAP_GPR_COUNT: usize = 32;

/// Number of words in a flat trap frame: the registers, `sstatus`, `sepc`.
pub const TRAP_FRAME_WORDS: usize = 34;

/// The previous-privilege field of the supervisor status register.  The
/// trap-return `sret` drops to user mode exactly when this bit is clear.
pub const SSTATUS_SPP: usize = 0x100;

/// The status word with its previous privilege set to user, as the
/// initial trap frame of every application carries it.
pub fn sstatus_with_user_spp(sstatus: usize) -> (r: usize)
    ensures
        r == sstatus & !SSTATUS_SPP,
        r & SSTATUS_SPP == 0,
{
    let r = sstatus & !SSTATUS_SPP;
    proof {
        assert((sstatus & !0x100usize) & 0x100usize == 0) by (bit_vector);
    }
    r
}

/// The register set saved and restored by the context-switch primitive:
/// the return address where the switchee resumes, its kernel stack
/// pointer, and the callee-saved registers s0–s11.
#[derive(Copy, Clone, PartialEq, Eq, Debug)]
pub struct TaskContext {
    /// Return address loaded by the switch routine.
    pub ra: usize,
    /// Kernel stack pointer of the task.
    pub sp: usize,
    /// Callee-saved registers s0..s11.
    pub s: [usize; 12],
}

impl TaskContext {
    /// The all-zero context used as the throwaway "current" of the very
    /// first dispatch.
    pub fn zero_init() -> (r: Self)
        ensures
            r.ra == 0,
            r.sp == 0,
            forall|i: int| 0 <= i < 12 ==> r.s[i] == 0,
    {
        TaskContext { ra: 0, sp: 0, s: [0; 12] }
    }

    /// The context that makes the switch routine return into the
    /// trap-return stub on the given kernel stack.  The stub's address is
    /// a link-time symbol of the surrounding runtime and is passed in by
    /// the caller; the stack top must already hold a valid trap frame.
    pub fn goto_restore(kstack_ptr: usize, restore_addr: usize) -> (r: Self)
        ensures
            r.ra == restore_addr,
            r.sp == kstack_ptr,
            forall|i: int| 0 <= i < 12 ==> r.s[i] == 0,
    {
        TaskContext { ra: restore_addr, sp: kstack_ptr, s: [0; 12] }
    }
}

/// The full register snapshot captured on entry from user mode: all 32
/// general registers, the supervisor status register, and the supervisor
/// exception program counter (the user PC).
pub struct TrapContext {
    /// General registers x0..x31.
    pub x: Vec<usize>,
    /// Supervisor status register at the trap.
    pub sstatus: usize,
    /// User program counter at the trap.
    pub sepc: usize,
}

/// A trap context is well formed when it holds exactly the 32 general
/// registers.
pub open spec fn trap_context_wf(cx: TrapContext) -> bool {
    cx.x.len() == TRAP_GPR_COUNT
}

/// The fixed stack layout of a trap frame: x0..x31, then `sstatus`, then
/// `sepc`.
pub open spec fn trap_frame_words(cx: TrapContext) -> Seq<usize> {
    cx.x@ + seq![cx.sstatus, cx.sepc]
}

impl TrapContext {
    /// The initial snapshot for an application about to start: every
    /// register zero except the user stack pointer, the user PC at the
    /// entry point, and the given status word (its privilege field must
    /// already say "user").
    pub fn app_init_context(entry: usize, sp: usize, sstatus: usize) -> (r: Self)
        ensures
            trap_context_wf(r),
            r.x@ == Seq::new(TRAP_GPR_COUNT as nat, |i: int| 0usize).update(2, sp),
            r.sstatus == sstatus,
            r.sepc == entry,
    {
        let mut x: Vec<usize> = Vec::new();
        let mut i: usize = 0;
        while i < TRAP_GPR_COUNT
            invariant
                i <= TRAP_GPR_COUNT,
                x.len() == i,
                forall|j: int| 0 <= j < i ==> x[j] == 0usize,
            decreases TRAP_GPR_COUNT - i,
        {
            x.push(0);
            i = i + 1;
        }
        x.set(2, sp);
        let r = TrapContext { x, sstatus, sepc: entry };
        proof {
            assert(r.x@ =~= Seq::new(TRAP_GPR_COUNT as nat, |i: int| 0usize).update(2, sp));
        }
        r
    }

    /// Writes the system-call return value into the register the ABI uses
    /// for a0.
    pub fn set_a0(&mut self, value: usize)
        requires
            trap_context_wf(*old(self)),
        ensures
            trap_context_wf(*final(self)),
            final(self).x@ == old(self).x@.update(10, value),
            final(self).sstatus == old(self).sstatus,
            final(self).sepc == old(self).sepc,
    {
        self.x.set(10, value);
    }

    /// Stores the snapshot as the flat frame the trap-entry stub writes on
    /// the kernel stack.
    pub fn save_to_frame(&self) -> (words: Vec<usize>)
        requires
            trap_context_wf(*self),
        ensures
            words@ == trap_frame_words(*self),
            words.len() == TRAP_FRAME_WORDS,
    {
        let mut words: Vec<usize> = Vec::new();
        let mut i: usize = 0;
        while i < TRAP_GPR_COUNT
            invariant
                i <= TRAP_GPR_COUNT,
                trap_context_wf(*self),
                words.len() == i,
                forall|j: int| 0 <= j < i ==> words[j] == self.x[j],
            decreases TRAP_GPR_COUNT - i,
        {
            let w = self.x[i];
            words.push(w);
            i = i + 1;
        }
        words.push(self.sstatus);
        words.push(self.sepc);
        proof {
            assert(words@ =~= trap_frame_words(*self));
        }
        words
    }

    /// Reads a snapshot back from a flat frame, as the trap-return stub
    /// does before it drops to user mode.
    pub fn restore_from_frame(words: &Vec<usize>) -> (r: Self)
        requires
            words.len() == TRAP_FRAME_WORDS,
        ensures
            trap_context_wf(r),
            r.x@ == words@.subrange(0, TRAP_GPR_COUNT as int),
            r.sstatus == words[32],
            r.sepc == words[33],
    {
        let mut x: Vec<usize> = Vec::new();
        let mut i: usize = 0;
        while i < TRAP_GPR_COUNT
            invariant
                i <= TRAP_GPR_COUNT,
                words.len() == TRAP_FRAME_WORDS,
                x.len() == i,
                forall|j: int| 0 <= j < i ==> x[j] == words[j],
            decreases TRAP_GPR_COUNT - i,
        {
            let w = words[i];
            x.push(w);
            i = i + 1;
        }
        let r = TrapContext { x, sstatus: words[32], sepc: words[33] };
        proof {
            assert(r.x@ =~= words@.subrange(0, TRAP_GPR_COUNT as int));
        }
        r
    }
}

/// Round trip of a trap context: a snapshot saved to its stack frame and
/// restored from it is register-for-register identical, so a no-op trap
/// leaves user-visible state unchanged.
pub proof fn lemma_trap_frame_round_trip(cx: TrapContext)
    requires
        trap_context_wf(cx),
    ensures
        trap_frame_words(cx).subrange(0, TRAP_GPR_COUNT as int) == cx.x@,
        trap_frame_words(cx)[32] == cx.sstatus,
        trap_frame_words(cx)[33] == cx.sepc,
{
    assert(trap_frame_words(cx).subrange(0, TRAP_GPR_COUNT as int) =~= cx.x@);
}

} // verus!
