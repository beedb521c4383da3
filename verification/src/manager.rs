//! The task manager: round-robin scheduler, lifecycle transitions, and
//! user/kernel time accounting.
//!
//! The manager decides; the machine acts.  Each entry point takes the
//! monotonic clock as a plain value and returns what the kernel does next
//! (which slot to switch to, or that every application has completed), so
//! the caller that owns the real context-switch primitive and the SBI
//! shutdown can carry the decision out.  The task table sits in a
//! uniprocessor cell: an entry point called while the table's exclusive
//! borrow is outstanding reports the conflict instead of touching the
//! table, and the caller treats that as the fatal error it is.

use vstd::prelude::*;
use vstd::arithmetic::div_mod::{lemma_small_mod, lemma_mod_add_multiples_vanish, lemma_mod_bound};
use crate::config::MAX_APP_NUM;
use crate::context::TaskContext;
use crate::sync::UPSafeCell;
use crate::task::{TaskControlBlock, TaskStatus};

verus! {

/// The one kernel-internal fault: a scheduler entry point was reached
/// while the task table's exclusive borrow was still outstanding.  The
/// violation is detected and reported, never silently ignored; the
/// kernel treats it as fatal.
#[derive(Copy, Clone, PartialEq, Eq, Structural, Debug)]
pub enum KernelError {
    TaskTableBorrowed,
}

/// What the scheduler decided: switch from slot `prev` to slot `next`, or
/// report that no ready task remains and the machine is to shut down.
#[derive(Copy, Clone, PartialEq, Eq, Structural, Debug)]
pub enum RunNextAction {
    SwitchTo { prev: usize, next: usize },
    AllCompleted,
}

/// Final accounting for an exited task, for the one-line termination
/// summary the kernel prints.
#[derive(Copy, Clone, PartialEq, Eq, Structural, Debug)]
pub struct TaskExitReport {
    pub task_id: usize,
    pub user_time: u64,
    pub kernel_time: u64,
}

/// The mutable half of the task manager, kept behind the uniprocessor
/// cell.
pub struct TaskManagerInner {
    /// One control block per application slot.
    pub tasks: Vec<TaskControlBlock>,
    /// Index of the current task.
    pub current_task: usize,
    /// Wall-clock microsecond timestamp at which the running mode segment
    /// (user or kernel) began.
    pub stop_watch: u64,
}

impl TaskManagerInner {
    /// Reads the stop watch and restarts it at `now_us`; the elapsed
    /// microseconds are credited by the caller to user or kernel time.
    pub fn refresh_stop_watch(&mut self, now_us: u64) -> (elapsed: u64)
        requires
            old(self).stop_watch <= now_us,
        ensures
            elapsed == now_us - old(self).stop_watch,
            final(self).stop_watch == now_us,
            final(self).tasks == old(self).tasks,
            final(self).current_task == old(self).current_task,
    {
        let start = self.stop_watch;
        self.stop_watch = now_us;
        now_us - start
    }
}

/// Whether slot `i` is ready to run.
pub open spec fn task_ready(tasks: Seq<TaskControlBlock>, i: int) -> bool {
    tasks[i].task_status == TaskStatus::Ready
}

/// The slot visited at cyclic offset `off` after `current`.
pub open spec fn cyclic_slot(current: int, off: int, num_app: int) -> int {
    (current + off) % num_app
}

/// The smallest offset in `off..=num_app` whose slot is ready, if any:
/// the scan order of the round-robin scheduler.
pub open spec fn first_ready_offset(
    tasks: Seq<TaskControlBlock>,
    current: int,
    num_app: int,
    off: int,
) -> Option<int>
    decreases num_app + 1 - off,
{
    if num_app < 1 || off < 1 || off > num_app {
        None
    } else if task_ready(tasks, cyclic_slot(current, off, num_app)) {
        Some(off)
    } else {
        first_ready_offset(tasks, current, num_app, off + 1)
    }
}

/// The slot the scheduler selects next: the first ready slot in cyclic
/// order strictly after `current` (wrapping, `current` itself last).
pub open spec fn spec_find_next(
    tasks: Seq<TaskControlBlock>,
    current: int,
    num_app: int,
) -> Option<int> {
    match first_ready_offset(tasks, current, num_app, 1) {
        Some(off) => Some(cyclic_slot(current, off, num_app)),
        None => None,
    }
}

/// No two distinct slots are `Running`: the exclusivity invariant of the
/// uniprocessor scheduler.
pub open spec fn at_most_one_running(tasks: Seq<TaskControlBlock>) -> bool {
    forall|i: int, j: int|
        0 <= i < tasks.len() && 0 <= j < tasks.len()
            && tasks[i].task_status == TaskStatus::Running
            && tasks[j].task_status == TaskStatus::Running ==> i == j
}

/// No slot is `Running`: holds before the first dispatch and between
/// marking the current task off and dispatching the next.
pub open spec fn no_running(tasks: Seq<TaskControlBlock>) -> bool {
    forall|i: int| 0 <= i < tasks.len() ==> tasks[i].task_status != TaskStatus::Running
}

/// `t` with its status replaced.
pub open spec fn tcb_with_status(t: TaskControlBlock, st: TaskStatus) -> TaskControlBlock {
    TaskControlBlock { task_status: st, ..t }
}

/// `t` with its status replaced and `elapsed` microseconds credited to
/// kernel time.
pub open spec fn tcb_after_kernel_credit(
    t: TaskControlBlock,
    st: TaskStatus,
    elapsed: u64,
) -> TaskControlBlock {
    TaskControlBlock { task_status: st, kernel_time: (t.kernel_time + elapsed) as u64, ..t }
}

/// `t` with `elapsed` microseconds credited to user time.
pub open spec fn tcb_after_user_credit(t: TaskControlBlock, elapsed: u64) -> TaskControlBlock {
    TaskControlBlock { user_time: (t.user_time + elapsed) as u64, ..t }
}

/// Per-task time counters never decrease across a transition: the
/// monotonicity of `user_time` and `kernel_time`.
pub open spec fn times_monotonic(
    before: Seq<TaskControlBlock>,
    after: Seq<TaskControlBlock>,
) -> bool {
    &&& before.len() == after.len()
    &&& forall|i: int| 0 <= i < before.len() ==> {
        &&& before[i].user_time <= after[i].user_time
        &&& before[i].kernel_time <= after[i].kernel_time
    }
}

/// The boot state of a loaded application slot: ready to run, its saved
/// context aimed at the trap-return stub on its own kernel stack, and no
/// time used yet.
pub open spec fn boot_slot_ok(
    t: TaskControlBlock,
    kstack_tops: Seq<usize>,
    i: int,
    restore_addr: usize,
) -> bool {
    &&& t.task_status == TaskStatus::Ready
    &&& t.task_cx.ra == restore_addr
    &&& t.task_cx.sp == kstack_tops[i]
    &&& t.user_time == 0
    &&& t.kernel_time == 0
}

/// The task manager: the fixed application count and the task table
/// behind the uniprocessor cell.
pub struct TaskManager {
    /// Total number of applications, set at boot and read-only after.
    pub num_app: usize,
    /// The mutable scheduler state, under runtime-checked exclusive
    /// borrowing.
    pub inner: UPSafeCell<TaskManagerInner>,
}

impl TaskManager {
    /// The task table as a sequence.
    pub open spec fn tasks_spec(&self) -> Seq<TaskControlBlock> {
        self.inner.inner().tasks@
    }

    /// Index of the current task.
    pub open spec fn current_spec(&self) -> int {
        self.inner.inner().current_task as int
    }

    /// The stop-watch timestamp.
    pub open spec fn stop_watch_spec(&self) -> u64 {
        self.inner.inner().stop_watch
    }

    /// Whether the table's exclusive borrow is outstanding.
    pub open spec fn table_borrowed(&self) -> bool {
        self.inner.is_borrowed()
    }

    /// Structural well-formedness: full-capacity table, at least one
    /// application, current index in range, and at most one running task.
    pub open spec fn wf(&self) -> bool {
        &&& self.tasks_spec().len() == MAX_APP_NUM
        &&& 1 <= self.num_app <= MAX_APP_NUM
        &&& self.current_spec() < self.num_app
        &&& at_most_one_running(self.tasks_spec())
    }

    /// Builds the boot-time task table: slot `i` of the first `num_app`
    /// slots gets a context that resumes in the trap-return stub on its
    /// kernel stack and is marked ready; the remaining capacity stays
    /// uninitialized.  `kstack_tops[i]` is the stack top the loader left
    /// for app `i`, with a valid trap frame already on it, and
    /// `restore_addr` is the stub's link-time address.  A machine with
    /// no applications is refused here, before the first dispatch could
    /// fail on it.
    pub fn new(num_app: usize, kstack_tops: &Vec<usize>, restore_addr: usize) -> (r: Self)
        requires
            1 <= num_app <= MAX_APP_NUM,
            kstack_tops.len() == num_app,
        ensures
            r.wf(),
            r.num_app == num_app,
            !r.table_borrowed(),
            r.current_spec() == 0,
            r.stop_watch_spec() == 0,
            no_running(r.tasks_spec()),
            forall|i: int| 0 <= i < num_app
                ==> #[trigger] boot_slot_ok(r.tasks_spec()[i], kstack_tops@, i, restore_addr),
            forall|i: int| num_app <= i < MAX_APP_NUM
                ==> r.tasks_spec()[i].task_status == TaskStatus::UnInit,
    {
        let mut tasks: Vec<TaskControlBlock> = Vec::new();
        let mut i: usize = 0;
        while i < num_app
            invariant
                i <= num_app,
                num_app <= MAX_APP_NUM,
                kstack_tops.len() == num_app,
                tasks.len() == i,
                forall|j: int| 0 <= j < i
                    ==> #[trigger] boot_slot_ok(tasks[j], kstack_tops@, j, restore_addr),
            decreases num_app - i,
        {
            let cx = TaskContext::goto_restore(kstack_tops[i], restore_addr);
            let tcb = TaskControlBlock {
                task_status: TaskStatus::Ready,
                task_cx: cx,
                user_time: 0,
                kernel_time: 0,
            };
            tasks.push(tcb);
            i = i + 1;
            proof {
                assert(boot_slot_ok(tasks[i - 1], kstack_tops@, i - 1, restore_addr));
            }
        }
        while i < MAX_APP_NUM
            invariant
                num_app <= i <= MAX_APP_NUM,
                kstack_tops.len() == num_app,
                tasks.len() == i,
                forall|j: int| 0 <= j < num_app
                    ==> #[trigger] boot_slot_ok(tasks[j], kstack_tops@, j, restore_addr),
                forall|j: int| num_app <= j < i ==> tasks[j].task_status == TaskStatus::UnInit,
            decreases MAX_APP_NUM - i,
        {
            tasks.push(TaskControlBlock {
                task_status: TaskStatus::UnInit,
                task_cx: TaskContext::zero_init(),
                user_time: 0,
                kernel_time: 0,
            });
            i = i + 1;
        }
        proof {
            assert forall|k: int| 0 <= k < tasks.len()
                implies tasks[k].task_status != TaskStatus::Running by {
                if k < num_app {
                    assert(boot_slot_ok(tasks[k], kstack_tops@, k, restore_addr));
                }
            }
        }
        TaskManager {
            num_app,
            inner: UPSafeCell::new(TaskManagerInner {
                tasks,
                current_task: 0,
                stop_watch: 0,
            }),
        }
    }

    /// Marks the first task running, starts the stop watch at `now_us`,
    /// and hands back the saved context the caller loads with the
    /// context-switch primitive (against a throwaway current context) to
    /// enter user mode for the first time.
    pub fn run_first_task(&mut self, now_us: u64) -> (r: Result<TaskContext, KernelError>)
        requires
            old(self).wf(),
            !old(self).table_borrowed() ==> no_running(old(self).tasks_spec()),
        ensures
            final(self).wf(),
            final(self).num_app == old(self).num_app,
            old(self).table_borrowed() ==> {
                &&& r == Err::<TaskContext, KernelError>(KernelError::TaskTableBorrowed)
                &&& *final(self) == *old(self)
            },
            !old(self).table_borrowed() ==> {
                &&& r == Ok::<TaskContext, KernelError>(old(self).tasks_spec()[0].task_cx)
                &&& !final(self).table_borrowed()
                &&& final(self).tasks_spec() == old(self).tasks_spec().update(
                    0,
                    tcb_with_status(old(self).tasks_spec()[0], TaskStatus::Running),
                )
                &&& final(self).current_spec() == old(self).current_spec()
                &&& final(self).stop_watch_spec() == now_us
                &&& times_monotonic(old(self).tasks_spec(), final(self).tasks_spec())
            },
    {
        if self.inner.currently_borrowed() {
            return Err(KernelError::TaskTableBorrowed);
        }
        let inner = self.inner.exclusive_access();
        let mut task0 = inner.tasks[0];
        task0.task_status = TaskStatus::Running;
        inner.tasks.set(0, task0);
        let next_cx = task0.task_cx;
        inner.stop_watch = now_us;
        self.inner.release();
        Ok(next_cx)
    }

    /// Credits the elapsed kernel time to the current task and marks it
    /// ready: the first half of a yield or preemption.
    pub fn mark_current_suspended(&mut self, now_us: u64) -> (r: Result<(), KernelError>)
        requires
            old(self).wf(),
            !old(self).table_borrowed() ==> {
                &&& old(self).stop_watch_spec() <= now_us
                &&& task_running(old(self).tasks_spec(), old(self).current_spec())
                &&& old(self).tasks_spec()[old(self).current_spec()].kernel_time
                    + (now_us - old(self).stop_watch_spec()) <= u64::MAX
            },
        ensures
            final(self).wf(),
            final(self).num_app == old(self).num_app,
            old(self).table_borrowed() ==> {
                &&& r == Err::<(), KernelError>(KernelError::TaskTableBorrowed)
                &&& *final(self) == *old(self)
            },
            !old(self).table_borrowed() ==> {
                &&& r == Ok::<(), KernelError>(())
                &&& !final(self).table_borrowed()
                &&& final(self).tasks_spec() == old(self).tasks_spec().update(
                    old(self).current_spec(),
                    tcb_after_kernel_credit(
                        old(self).tasks_spec()[old(self).current_spec()],
                        TaskStatus::Ready,
                        (now_us - old(self).stop_watch_spec()) as u64,
                    ),
                )
                &&& final(self).current_spec() == old(self).current_spec()
                &&& final(self).stop_watch_spec() == now_us
                &&& no_running(final(self).tasks_spec())
                &&& times_monotonic(old(self).tasks_spec(), final(self).tasks_spec())
            },
    {
        if self.inner.currently_borrowed() {
            return Err(KernelError::TaskTableBorrowed);
        }
        let inner = self.inner.exclusive_access();
        let current = inner.current_task;
        let elapsed = inner.refresh_stop_watch(now_us);
        let mut tcb = inner.tasks[current];
        tcb.kernel_time = tcb.kernel_time + elapsed;
        tcb.task_status = TaskStatus::Ready;
        inner.tasks.set(current, tcb);
        self.inner.release();
        Ok(())
    }

    /// Credits the elapsed kernel time to the current task, marks it
    /// exited — a terminal state — and reports its final accounting for
    /// the termination summary line.
    pub fn mark_current_exited(&mut self, now_us: u64) -> (r: Result<TaskExitReport, KernelError>)
        requires
            old(self).wf(),
            !old(self).table_borrowed() ==> {
                &&& old(self).stop_watch_spec() <= now_us
                &&& task_running(old(self).tasks_spec(), old(self).current_spec())
                &&& old(self).tasks_spec()[old(self).current_spec()].kernel_time
                    + (now_us - old(self).stop_watch_spec()) <= u64::MAX
            },
        ensures
            final(self).wf(),
            final(self).num_app == old(self).num_app,
            old(self).table_borrowed() ==> {
                &&& r == Err::<TaskExitReport, KernelError>(KernelError::TaskTableBorrowed)
                &&& *final(self) == *old(self)
            },
            !old(self).table_borrowed() ==> {
                &&& r == Ok::<TaskExitReport, KernelError>(TaskExitReport {
                    task_id: old(self).current_spec() as usize,
                    user_time: old(self).tasks_spec()[old(self).current_spec()].user_time,
                    kernel_time: (old(self).tasks_spec()[old(self).current_spec()].kernel_time
                        + (now_us - old(self).stop_watch_spec())) as u64,
                })
                &&& !final(self).table_borrowed()
                &&& final(self).tasks_spec() == old(self).tasks_spec().update(
                    old(self).current_spec(),
                    tcb_after_kernel_credit(
                        old(self).tasks_spec()[old(self).current_spec()],
                        TaskStatus::Exited,
                        (now_us - old(self).stop_watch_spec()) as u64,
                    ),
                )
                &&& final(self).current_spec() == old(self).current_spec()
                &&& final(self).stop_watch_spec() == now_us
                &&& no_running(final(self).tasks_spec())
                &&& times_monotonic(old(self).tasks_spec(), final(self).tasks_spec())
            },
    {
        if self.inner.currently_borrowed() {
            return Err(KernelError::TaskTableBorrowed);
        }
        let inner = self.inner.exclusive_access();
        let current = inner.current_task;
        let elapsed = inner.refresh_stop_watch(now_us);
        let mut tcb = inner.tasks[current];
        tcb.kernel_time = tcb.kernel_time + elapsed;
        tcb.task_status = TaskStatus::Exited;
        inner.tasks.set(current, tcb);
        let report = TaskExitReport {
            task_id: current,
            user_time: tcb.user_time,
            kernel_time: tcb.kernel_time,
        };
        self.inner.release();
        Ok(report)
    }

    /// Scans the slots in cyclic order starting after the current one and
    /// returns the first ready slot: deterministic round-robin.  `None`
    /// means no task is ready any more.
    pub fn find_next_task(&mut self) -> (r: Result<Option<usize>, KernelError>)
        requires
            old(self).wf(),
        ensures
            final(self).wf(),
            final(self).num_app == old(self).num_app,
            final(self).tasks_spec() == old(self).tasks_spec(),
            final(self).current_spec() == old(self).current_spec(),
            final(self).stop_watch_spec() == old(self).stop_watch_spec(),
            final(self).table_borrowed() == old(self).table_borrowed(),
            old(self).table_borrowed()
                ==> r == Err::<Option<usize>, KernelError>(KernelError::TaskTableBorrowed),
            !old(self).table_borrowed() ==> (match spec_find_next(
                old(self).tasks_spec(),
                old(self).current_spec(),
                old(self).num_app as int,
            ) {
                Some(id) => r == Ok::<Option<usize>, KernelError>(Some(id as usize)),
                None => r == Ok::<Option<usize>, KernelError>(None),
            }),
    {
        if self.inner.currently_borrowed() {
            return Err(KernelError::TaskTableBorrowed);
        }
        let inner = self.inner.exclusive_access();
        let current = inner.current_task;
        let num_app = self.num_app;
        let ghost tasks = inner.tasks@;
        let mut off: usize = 1;
        let mut found: Option<usize> = None;
        while off <= num_app && found.is_none()
            invariant
                1 <= off <= num_app + 1,
                1 <= num_app <= MAX_APP_NUM,
                current < num_app,
                inner.tasks@ == tasks,
                tasks.len() == MAX_APP_NUM,
                found.is_none() ==> first_ready_offset(tasks, current as int, num_app as int, 1)
                    == first_ready_offset(tasks, current as int, num_app as int, off as int),
                match found {
                    Some(id) => spec_find_next(tasks, current as int, num_app as int)
                        == Some(id as int),
                    None => true,
                },
            decreases num_app + 1 - off + (if found is Some { 0int } else { 1int }),
        {
            let id = (current + off) % num_app;
            if inner.tasks[id].task_status == TaskStatus::Ready {
                found = Some(id);
            } else {
                off = off + 1;
            }
        }
        proof {
            if found.is_none() {
                assert(first_ready_offset(tasks, current as int, num_app as int, off as int)
                    is None);
            }
        }
        self.inner.release();
        Ok(found)
    }

    /// Picks the next ready task, marks it running, makes it current, and
    /// releases the table borrow — the caller then invokes the
    /// context-switch primitive between the two reported slots.  When no
    /// ready task remains, every application has completed and the caller
    /// shuts the machine down.
    pub fn run_next_task(&mut self) -> (r: Result<RunNextAction, KernelError>)
        requires
            old(self).wf(),
            !old(self).table_borrowed() ==> no_running(old(self).tasks_spec()),
        ensures
            final(self).wf(),
            final(self).num_app == old(self).num_app,
            old(self).table_borrowed() ==> {
                &&& r == Err::<RunNextAction, KernelError>(KernelError::TaskTableBorrowed)
                &&& final(self).table_borrowed()
                &&& final(self).tasks_spec() == old(self).tasks_spec()
                &&& final(self).current_spec() == old(self).current_spec()
                &&& final(self).stop_watch_spec() == old(self).stop_watch_spec()
            },
            !old(self).table_borrowed() ==> {
                &&& !final(self).table_borrowed()
                &&& final(self).stop_watch_spec() == old(self).stop_watch_spec()
                &&& times_monotonic(old(self).tasks_spec(), final(self).tasks_spec())
                &&& match spec_find_next(
                    old(self).tasks_spec(),
                    old(self).current_spec(),
                    old(self).num_app as int,
                ) {
                    Some(id) => {
                        &&& r == Ok::<RunNextAction, KernelError>(RunNextAction::SwitchTo {
                            prev: old(self).current_spec() as usize,
                            next: id as usize,
                        })
                        &&& final(self).current_spec() == id
                        &&& final(self).tasks_spec() == old(self).tasks_spec().update(
                            id,
                            tcb_with_status(old(self).tasks_spec()[id], TaskStatus::Running),
                        )
                    },
                    None => {
                        &&& r == Ok::<RunNextAction, KernelError>(RunNextAction::AllCompleted)
                        &&& final(self).current_spec() == old(self).current_spec()
                        &&& final(self).tasks_spec() == old(self).tasks_spec()
                        &&& forall|i: int| 0 <= i < old(self).num_app
                            ==> old(self).tasks_spec()[i].task_status != TaskStatus::Ready
                    },
                }
            },
    {
        let found = match self.find_next_task() {
            Ok(f) => f,
            Err(e) => {
                return Err(e);
            },
        };
        match found {
            Some(next) => {
                let inner = self.inner.exclusive_access();
                let current = inner.current_task;
                let mut tcb = inner.tasks[next];
                tcb.task_status = TaskStatus::Running;
                inner.tasks.set(next, tcb);
                inner.current_task = next;
                self.inner.release();
                // the borrow is back before the switch: the resumed task
                // re-enters the table through its own trap path
                Ok(RunNextAction::SwitchTo { prev: current, next })
            },
            None => {
                proof {
                    lemma_no_ready_when_find_none(
                        self.tasks_spec(),
                        self.current_spec(),
                        self.num_app as int,
                    );
                }
                Ok(RunNextAction::AllCompleted)
            },
        }
    }

    /// Credits the elapsed stretch to the current task's kernel time and
    /// restarts the stop watch: called at the end of every trap handler,
    /// just before the return to user mode.
    pub fn user_time_start(&mut self, now_us: u64) -> (r: Result<(), KernelError>)
        requires
            old(self).wf(),
            !old(self).table_borrowed() ==> {
                &&& old(self).stop_watch_spec() <= now_us
                &&& old(self).tasks_spec()[old(self).current_spec()].kernel_time
                    + (now_us - old(self).stop_watch_spec()) <= u64::MAX
            },
        ensures
            final(self).wf(),
            final(self).num_app == old(self).num_app,
            old(self).table_borrowed() ==> {
                &&& r == Err::<(), KernelError>(KernelError::TaskTableBorrowed)
                &&& *final(self) == *old(self)
            },
            !old(self).table_borrowed() ==> {
                &&& r == Ok::<(), KernelError>(())
                &&& !final(self).table_borrowed()
                &&& final(self).tasks_spec() == old(self).tasks_spec().update(
                    old(self).current_spec(),
                    tcb_after_kernel_credit(
                        old(self).tasks_spec()[old(self).current_spec()],
                        old(self).tasks_spec()[old(self).current_spec()].task_status,
                        (now_us - old(self).stop_watch_spec()) as u64,
                    ),
                )
                &&& final(self).current_spec() == old(self).current_spec()
                &&& final(self).stop_watch_spec() == now_us
                &&& times_monotonic(old(self).tasks_spec(), final(self).tasks_spec())
            },
    {
        if self.inner.currently_borrowed() {
            return Err(KernelError::TaskTableBorrowed);
        }
        let inner = self.inner.exclusive_access();
        let current = inner.current_task;
        let elapsed = inner.refresh_stop_watch(now_us);
        let mut tcb = inner.tasks[current];
        tcb.kernel_time = tcb.kernel_time + elapsed;
        inner.tasks.set(current, tcb);
        self.inner.release();
        Ok(())
    }

    /// Credits the elapsed stretch to the current task's user time and
    /// restarts the stop watch: called at the very start of every trap
    /// entry, right after the register save.
    pub fn user_time_end(&mut self, now_us: u64) -> (r: Result<(), KernelError>)
        requires
            old(self).wf(),
            !old(self).table_borrowed() ==> {
                &&& old(self).stop_watch_spec() <= now_us
                &&& old(self).tasks_spec()[old(self).current_spec()].user_time
                    + (now_us - old(self).stop_watch_spec()) <= u64::MAX
            },
        ensures
            final(self).wf(),
            final(self).num_app == old(self).num_app,
            old(self).table_borrowed() ==> {
                &&& r == Err::<(), KernelError>(KernelError::TaskTableBorrowed)
                &&& *final(self) == *old(self)
            },
            !old(self).table_borrowed() ==> {
                &&& r == Ok::<(), KernelError>(())
                &&& !final(self).table_borrowed()
                &&& final(self).tasks_spec() == old(self).tasks_spec().update(
                    old(self).current_spec(),
                    tcb_after_user_credit(
                        old(self).tasks_spec()[old(self).current_spec()],
                        (now_us - old(self).stop_watch_spec()) as u64,
                    ),
                )
                &&& final(self).current_spec() == old(self).current_spec()
                &&& final(self).stop_watch_spec() == now_us
                &&& times_monotonic(old(self).tasks_spec(), final(self).tasks_spec())
            },
    {
        if self.inner.currently_borrowed() {
            return Err(KernelError::TaskTableBorrowed);
        }
        let inner = self.inner.exclusive_access();
        let current = inner.current_task;
        let elapsed = inner.refresh_stop_watch(now_us);
        let mut tcb = inner.tasks[current];
        tcb.user_time = tcb.user_time + elapsed;
        inner.tasks.set(current, tcb);
        self.inner.release();
        Ok(())
    }
}

/// Whether slot `i` is the running one.
pub open spec fn task_running(tasks: Seq<TaskControlBlock>, i: int) -> bool {
    tasks[i].task_status == TaskStatus::Running
}

/// When the cyclic scan from `off` finds nothing, no offset in
/// `off..=num_app` leads to a ready slot.
proof fn lemma_first_ready_offset_none(
    tasks: Seq<TaskControlBlock>,
    current: int,
    num_app: int,
    off: int,
)
    requires
        1 <= off,
        num_app >= 1,
        first_ready_offset(tasks, current, num_app, off) is None,
    ensures
        forall|o: int| off <= o <= num_app
            ==> !task_ready(tasks, cyclic_slot(current, o, num_app)),
    decreases num_app + 1 - off,
{
    if off <= num_app {
        lemma_first_ready_offset_none(tasks, current, num_app, off + 1);
    }
}

/// Every slot of `0..num_app` is visited by some cyclic offset in
/// `1..=num_app`, so a scan that found nothing means no task is ready at
/// all: the shutdown condition.
pub proof fn lemma_no_ready_when_find_none(
    tasks: Seq<TaskControlBlock>,
    current: int,
    num_app: int,
)
    requires
        num_app >= 1,
        0 <= current < num_app,
        num_app <= tasks.len(),
        spec_find_next(tasks, current, num_app) is None,
    ensures
        forall|i: int| 0 <= i < num_app ==> tasks[i].task_status != TaskStatus::Ready,
{
    lemma_first_ready_offset_none(tasks, current, num_app, 1);
    assert forall|i: int| 0 <= i < num_app implies tasks[i].task_status != TaskStatus::Ready by {
        let o: int = if i > current { i - current } else { i - current + num_app };
        assert(1 <= o <= num_app);
        if i > current {
            lemma_small_mod(i as nat, num_app as nat);
            assert(cyclic_slot(current, o, num_app) == i);
        } else {
            lemma_mod_add_multiples_vanish(i, num_app);
            lemma_small_mod(i as nat, num_app as nat);
            assert(cyclic_slot(current, o, num_app) == i);
        }
        assert(!task_ready(tasks, i));
    }
}

/// Round-robin takes the nearest ready slot: the offset the scan returns
/// is ready, and every smaller offset in the scanned range is not.
pub proof fn lemma_first_ready_offset_minimal(
    tasks: Seq<TaskControlBlock>,
    current: int,
    num_app: int,
    off: int,
    k: int,
)
    requires
        1 <= off,
        num_app >= 1,
        first_ready_offset(tasks, current, num_app, off) == Some(k),
    ensures
        off <= k <= num_app,
        task_ready(tasks, cyclic_slot(current, k, num_app)),
        forall|o: int| off <= o < k ==> !task_ready(tasks, cyclic_slot(current, o, num_app)),
    decreases num_app + 1 - off,
{
    if !task_ready(tasks, cyclic_slot(current, off, num_app)) {
        lemma_first_ready_offset_minimal(tasks, current, num_app, off + 1, k);
    }
}

/// Exclusivity: in a well-formed manager at most one slot is running at
/// any instant — zero before the first dispatch and between marking the
/// current task off and dispatching the next, one otherwise.  Every
/// transition of the manager preserves `wf`, so this holds across the
/// kernel's lifetime.
pub proof fn lemma_running_exclusive(tm: TaskManager, i: int, j: int)
    requires
        tm.wf(),
        0 <= i < tm.tasks_spec().len(),
        0 <= j < tm.tasks_spec().len(),
        task_running(tm.tasks_spec(), i),
        task_running(tm.tasks_spec(), j),
    ensures
        i == j,
{
}

/// The cyclic offset at which the scan starting after `current` reaches
/// slot `i`: the inverse of `cyclic_slot` on `1..=num_app`.
pub open spec fn cyclic_offset(current: int, i: int, num_app: int) -> int {
    if i > current {
        i - current
    } else {
        i - current + num_app
    }
}

/// Round-robin fairness: whenever some task is ready the scheduler
/// selects one, and the one selected is the ready task nearest in cyclic
/// order after the current one — no ready task is passed over.  Repeated
/// over a cycle, every ready task runs once before any runs twice.
pub proof fn lemma_round_robin_fairness(
    tasks: Seq<TaskControlBlock>,
    current: int,
    num_app: int,
    other: int,
)
    requires
        num_app >= 1,
        0 <= current < num_app,
        num_app <= tasks.len(),
        0 <= other < num_app,
        task_ready(tasks, other),
    ensures
        spec_find_next(tasks, current, num_app) is Some,
        cyclic_offset(current, spec_find_next(tasks, current, num_app)->Some_0, num_app)
            <= cyclic_offset(current, other, num_app),
{
    if spec_find_next(tasks, current, num_app) is None {
        lemma_no_ready_when_find_none(tasks, current, num_app);
        assert(false);
    }
    let k = first_ready_offset(tasks, current, num_app, 1)->Some_0;
    lemma_first_ready_offset_minimal(tasks, current, num_app, 1, k);
    let id = cyclic_slot(current, k, num_app);
    lemma_cyclic_offset_inverse(current, k, num_app);
    assert(cyclic_offset(current, id, num_app) == k);
    let o = cyclic_offset(current, other, num_app);
    assert(1 <= o <= num_app);
    if other > current {
        lemma_small_mod(other as nat, num_app as nat);
        assert(cyclic_slot(current, o, num_app) == other);
    } else {
        lemma_mod_add_multiples_vanish(other, num_app);
        lemma_small_mod(other as nat, num_app as nat);
        assert(cyclic_slot(current, o, num_app) == other);
    }
    if o < k {
        assert(!task_ready(tasks, cyclic_slot(current, o, num_app)));
        assert(false);
    }
}

/// For offsets in the scanned range, `cyclic_offset` undoes
/// `cyclic_slot`.
proof fn lemma_cyclic_offset_inverse(current: int, k: int, num_app: int)
    requires
        num_app >= 1,
        0 <= current < num_app,
        1 <= k <= num_app,
    ensures
        cyclic_offset(current, cyclic_slot(current, k, num_app), num_app) == k,
{
    if current + k < num_app {
        lemma_small_mod((current + k) as nat, num_app as nat);
    } else {
        lemma_mod_add_multiples_vanish(current + k - num_app, num_app);
        lemma_small_mod((current + k - num_app) as nat, num_app as nat);
    }
}

/// Idempotence of yield: when the cyclic successor of the current task is
/// ready — as after a suspend with every task still live — consecutive
/// yields visit the slots in the cyclic order current+1, current+2, ….
pub proof fn lemma_yield_visits_successor(
    tasks: Seq<TaskControlBlock>,
    current: int,
    num_app: int,
)
    requires
        num_app >= 1,
        0 <= current < num_app,
        num_app <= tasks.len(),
        task_ready(tasks, cyclic_slot(current, 1, num_app)),
    ensures
        spec_find_next(tasks, current, num_app) == Some(cyclic_slot(current, 1, num_app)),
{
    assert(first_ready_offset(tasks, current, num_app, 1) == Some(1int));
}

/// One full yield step preserves the round-robin shape: from a state
/// where every live slot but the running one is ready, suspending the
/// current task and dispatching the scheduler's choice lands on the
/// cyclic successor, which then runs while every other slot is ready
/// again.  Iterated, consecutive yields visit current+1, current+2, … in
/// cyclic order.
pub proof fn lemma_yield_step_round_robin(
    tasks: Seq<TaskControlBlock>,
    current: int,
    num_app: int,
    elapsed: u64,
)
    requires
        num_app >= 1,
        num_app <= tasks.len(),
        0 <= current < num_app,
        forall|i: int| 0 <= i < num_app && i != current ==> task_ready(tasks, i),
    ensures
        ({
            let suspended = tasks.update(
                current,
                tcb_after_kernel_credit(tasks[current], TaskStatus::Ready, elapsed),
            );
            let next = cyclic_slot(current, 1, num_app);
            let dispatched = suspended.update(
                next,
                tcb_with_status(suspended[next], TaskStatus::Running),
            );
            &&& 0 <= next < num_app
            &&& spec_find_next(suspended, current, num_app) == Some(next)
            &&& task_running(dispatched, next)
            &&& forall|i: int| 0 <= i < num_app && i != next ==> task_ready(dispatched, i)
        }),
{
    let suspended = tasks.update(
        current,
        tcb_after_kernel_credit(tasks[current], TaskStatus::Ready, elapsed),
    );
    let next = cyclic_slot(current, 1, num_app);
    lemma_mod_bound(current + 1, num_app);
    if next != current {
        assert(task_ready(tasks, next));
        assert(suspended[next] == tasks[next]);
    } else {
        assert(suspended[next].task_status == TaskStatus::Ready);
    }
    assert(task_ready(suspended, next));
    lemma_yield_visits_successor(suspended, current, num_app);
    let dispatched = suspended.update(next, tcb_with_status(suspended[next], TaskStatus::Running));
    assert forall|i: int| 0 <= i < num_app && i != next implies task_ready(dispatched, i) by {
        if i != current {
            assert(task_ready(tasks, i));
        }
        assert(dispatched[i] == suspended[i]);
    }
}

/// Within one cycle the visits are pairwise distinct: the slots reached
/// at two different offsets after the same starting point differ, so no
/// task runs twice before every ready task has run once.
pub proof fn lemma_cycle_visits_are_distinct(current: int, num_app: int, k1: int, k2: int)
    requires
        0 <= current < num_app,
        1 <= k1 < k2 <= num_app,
    ensures
        cyclic_slot(current, k1, num_app) != cyclic_slot(current, k2, num_app),
{
    lemma_cyclic_offset_inverse(current, k1, num_app);
    lemma_cyclic_offset_inverse(current, k2, num_app);
}

/// Aggregate cost of context switches, sampled on the microsecond clock
/// around each invocation of the switch primitive.  The samples are taken
/// without masking supervisor interrupts, so a tick landing between them
/// can inflate a sample: the counters are best-effort, and the contracts
/// state only how the samples combine.
pub struct SwitchStats {
    /// Clock value taken just before the switch.
    pub switch_time_start: u64,
    /// Total sampled microseconds spent switching.
    pub switch_time_count: u64,
}

impl SwitchStats {
    pub fn new() -> (r: Self)
        ensures
            r.switch_time_start == 0,
            r.switch_time_count == 0,
    {
        SwitchStats { switch_time_start: 0, switch_time_count: 0 }
    }

    /// Samples the clock just before the context-switch primitive runs.
    pub fn switch_begin(&mut self, now_us: u64)
        ensures
            final(self).switch_time_start == now_us,
            final(self).switch_time_count == old(self).switch_time_count,
    {
        self.switch_time_start = now_us;
    }

    /// Samples the clock just after the switch and adds the delta to the
    /// running total.
    pub fn switch_end(&mut self, now_us: u64)
        requires
            old(self).switch_time_start <= now_us,
            old(self).switch_time_count + (now_us - old(self).switch_time_start) <= u64::MAX,
        ensures
            final(self).switch_time_start == old(self).switch_time_start,
            final(self).switch_time_count == old(self).switch_time_count
                + (now_us - old(self).switch_time_start),
    {
        self.switch_time_count = self.switch_time_count + (now_us - self.switch_time_start);
    }

    /// The total sampled switching time so far.
    pub fn get_switch_time_count(&self) -> (r: u64)
        ensures
            r == self.switch_time_count,
    {
        self.switch_time_count
    }
}

/// Marks the first task running and returns its saved context: the caller
/// loads it with the context-switch primitive (against a throwaway
/// current context) and the machine enters user mode for the first time.
pub fn run_first_task(tm: &mut TaskManager, now_us: u64) -> (r: Result<TaskContext, KernelError>)
    requires
        old(tm).wf(),
        !old(tm).table_borrowed() ==> no_running(old(tm).tasks_spec()),
    ensures
        final(tm).wf(),
        final(tm).num_app == old(tm).num_app,
        old(tm).table_borrowed() ==> {
            &&& r == Err::<TaskContext, KernelError>(KernelError::TaskTableBorrowed)
            &&& *final(tm) == *old(tm)
        },
        !old(tm).table_borrowed() ==> {
            &&& r == Ok::<TaskContext, KernelError>(old(tm).tasks_spec()[0].task_cx)
            &&& !final(tm).table_borrowed()
            &&& final(tm).tasks_spec() == old(tm).tasks_spec().update(
                0,
                tcb_with_status(old(tm).tasks_spec()[0], TaskStatus::Running),
            )
            &&& final(tm).current_spec() == old(tm).current_spec()
            &&& final(tm).stop_watch_spec() == now_us
            &&& times_monotonic(old(tm).tasks_spec(), final(tm).tasks_spec())
        },
{
    tm.run_first_task(now_us)
}

/// Suspends the current task and schedules the next ready one: credits
/// the elapsed kernel time, marks the caller ready, and reports which
/// slots to switch between.  The caller that was suspended is itself
/// ready again, so a next task always exists: yielding never shuts the
/// machine down.
pub fn suspend_current_and_run_next(
    tm: &mut TaskManager,
    now_us: u64,
) -> (r: Result<RunNextAction, KernelError>)
    requires
        old(tm).wf(),
        !old(tm).table_borrowed() ==> {
            &&& old(tm).stop_watch_spec() <= now_us
            &&& task_running(old(tm).tasks_spec(), old(tm).current_spec())
            &&& old(tm).tasks_spec()[old(tm).current_spec()].kernel_time
                + (now_us - old(tm).stop_watch_spec()) <= u64::MAX
        },
    ensures
        final(tm).wf(),
        final(tm).num_app == old(tm).num_app,
        old(tm).table_borrowed()
            ==> r == Err::<RunNextAction, KernelError>(KernelError::TaskTableBorrowed),
        !old(tm).table_borrowed() ==> {
            &&& !final(tm).table_borrowed()
            &&& final(tm).stop_watch_spec() == now_us
            &&& times_monotonic(old(tm).tasks_spec(), final(tm).tasks_spec())
            &&& {
                let suspended = old(tm).tasks_spec().update(
                    old(tm).current_spec(),
                    tcb_after_kernel_credit(
                        old(tm).tasks_spec()[old(tm).current_spec()],
                        TaskStatus::Ready,
                        (now_us - old(tm).stop_watch_spec()) as u64,
                    ),
                );
                match spec_find_next(suspended, old(tm).current_spec(), old(tm).num_app as int) {
                    Some(id) => {
                        &&& r == Ok::<RunNextAction, KernelError>(RunNextAction::SwitchTo {
                            prev: old(tm).current_spec() as usize,
                            next: id as usize,
                        })
                        &&& final(tm).current_spec() == id
                        &&& final(tm).tasks_spec() == suspended.update(
                            id,
                            tcb_with_status(suspended[id], TaskStatus::Running),
                        )
                    },
                    None => false,
                }
            }
        },
{
    match tm.mark_current_suspended(now_us) {
        Ok(()) => {},
        Err(e) => {
            return Err(e);
        },
    }
    proof {
        if spec_find_next(tm.tasks_spec(), tm.current_spec(), tm.num_app as int) is None {
            lemma_no_ready_when_find_none(tm.tasks_spec(), tm.current_spec(), tm.num_app as int);
            assert(task_ready(tm.tasks_spec(), tm.current_spec()));
            assert(false);
        }
    }
    tm.run_next_task()
}

/// Exits the current task and schedules the next ready one: credits the
/// elapsed kernel time, marks the caller exited for good, reports its
/// final accounting for the termination summary, and either the switch to
/// perform or — when it was the last live task — that all applications
/// have completed and the machine shuts down.
pub fn exit_current_and_run_exit(
    tm: &mut TaskManager,
    now_us: u64,
) -> (r: Result<(TaskExitReport, RunNextAction), KernelError>)
    requires
        old(tm).wf(),
        !old(tm).table_borrowed() ==> {
            &&& old(tm).stop_watch_spec() <= now_us
            &&& task_running(old(tm).tasks_spec(), old(tm).current_spec())
            &&& old(tm).tasks_spec()[old(tm).current_spec()].kernel_time
                + (now_us - old(tm).stop_watch_spec()) <= u64::MAX
        },
    ensures
        final(tm).wf(),
        final(tm).num_app == old(tm).num_app,
        old(tm).table_borrowed()
            ==> r == Err::<(TaskExitReport, RunNextAction), KernelError>(
                KernelError::TaskTableBorrowed),
        !old(tm).table_borrowed() ==> {
            &&& !final(tm).table_borrowed()
            &&& final(tm).stop_watch_spec() == now_us
            &&& times_monotonic(old(tm).tasks_spec(), final(tm).tasks_spec())
            &&& {
                let report = TaskExitReport {
                    task_id: old(tm).current_spec() as usize,
                    user_time: old(tm).tasks_spec()[old(tm).current_spec()].user_time,
                    kernel_time: (old(tm).tasks_spec()[old(tm).current_spec()].kernel_time
                        + (now_us - old(tm).stop_watch_spec())) as u64,
                };
                let exited = old(tm).tasks_spec().update(
                    old(tm).current_spec(),
                    tcb_after_kernel_credit(
                        old(tm).tasks_spec()[old(tm).current_spec()],
                        TaskStatus::Exited,
                        (now_us - old(tm).stop_watch_spec()) as u64,
                    ),
                );
                match spec_find_next(exited, old(tm).current_spec(), old(tm).num_app as int) {
                    Some(id) => {
                        &&& r == Ok::<(TaskExitReport, RunNextAction), KernelError>((
                            report,
                            RunNextAction::SwitchTo {
                                prev: old(tm).current_spec() as usize,
                                next: id as usize,
                            },
                        ))
                        &&& final(tm).current_spec() == id
                        &&& final(tm).tasks_spec() == exited.update(
                            id,
                            tcb_with_status(exited[id], TaskStatus::Running),
                        )
                    },
                    None => {
                        &&& r == Ok::<(TaskExitReport, RunNextAction), KernelError>((
                            report,
                            RunNextAction::AllCompleted,
                        ))
                        &&& final(tm).tasks_spec() == exited
                        &&& final(tm).current_spec() == old(tm).current_spec()
                        &&& forall|i: int| 0 <= i < old(tm).num_app
                            ==> exited[i].task_status != TaskStatus::Ready
                    },
                }
            }
        },
{
    let report = match tm.mark_current_exited(now_us) {
        Ok(rep) => rep,
        Err(e) => {
            return Err(e);
        },
    };
    match tm.run_next_task() {
        Ok(action) => Ok((report, action)),
        Err(e) => Err(e),
    }
}

/// Credits the elapsed kernel time to the current task and restarts the
/// stop watch: from now on the clock runs on the user's account.  Called
/// just before every return to user mode.
pub fn user_time_start(tm: &mut TaskManager, now_us: u64) -> (r: Result<(), KernelError>)
    requires
        old(tm).wf(),
        !old(tm).table_borrowed() ==> {
            &&& old(tm).stop_watch_spec() <= now_us
            &&& old(tm).tasks_spec()[old(tm).current_spec()].kernel_time
                + (now_us - old(tm).stop_watch_spec()) <= u64::MAX
        },
    ensures
        final(tm).wf(),
        final(tm).num_app == old(tm).num_app,
        old(tm).table_borrowed() ==> {
            &&& r == Err::<(), KernelError>(KernelError::TaskTableBorrowed)
            &&& *final(tm) == *old(tm)
        },
        !old(tm).table_borrowed() ==> {
            &&& r == Ok::<(), KernelError>(())
            &&& !final(tm).table_borrowed()
            &&& final(tm).tasks_spec() == old(tm).tasks_spec().update(
                old(tm).current_spec(),
                tcb_after_kernel_credit(
                    old(tm).tasks_spec()[old(tm).current_spec()],
                    old(tm).tasks_spec()[old(tm).current_spec()].task_status,
                    (now_us - old(tm).stop_watch_spec()) as u64,
                ),
            )
            &&& final(tm).current_spec() == old(tm).current_spec()
            &&& final(tm).stop_watch_spec() == now_us
            &&& times_monotonic(old(tm).tasks_spec(), final(tm).tasks_spec())
        },
{
    tm.user_time_start(now_us)
}

/// Credits the elapsed user time to the current task and restarts the
/// stop watch: from now on the clock runs on the kernel's account.
/// Called at the very start of every trap entry.
pub fn user_time_end(tm: &mut TaskManager, now_us: u64) -> (r: Result<(), KernelError>)
    requires
        old(tm).wf(),
        !old(tm).table_borrowed() ==> {
            &&& old(tm).stop_watch_spec() <= now_us
            &&& old(tm).tasks_spec()[old(tm).current_spec()].user_time
                + (now_us - old(tm).stop_watch_spec()) <= u64::MAX
        },
    ensures
        final(tm).wf(),
        final(tm).num_app == old(tm).num_app,
        old(tm).table_borrowed() ==> {
            &&& r == Err::<(), KernelError>(KernelError::TaskTableBorrowed)
            &&& *final(tm) == *old(tm)
        },
        !old(tm).table_borrowed() ==> {
            &&& r == Ok::<(), KernelError>(())
            &&& !final(tm).table_borrowed()
            &&& final(tm).tasks_spec() == old(tm).tasks_spec().update(
                old(tm).current_spec(),
                tcb_after_user_credit(
                    old(tm).tasks_spec()[old(tm).current_spec()],
                    (now_us - old(tm).stop_watch_spec()) as u64,
                ),
            )
            &&& final(tm).current_spec() == old(tm).current_spec()
            &&& final(tm).stop_watch_spec() == now_us
            &&& times_monotonic(old(tm).tasks_spec(), final(tm).tasks_spec())
        },
{
    tm.user_time_end(now_us)
}

} // verus!
