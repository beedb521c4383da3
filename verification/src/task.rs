//! Task control block and task status.

use vstd::prelude::*;
use crate::context::TaskContext;

verus! {

/// Lifecycle of one application slot.  A slot starts `UnInit`, becomes
/// `Ready` when its application is loaded, alternates between `Running`
/// and `Ready` under the scheduler, and ends `Exited`, which is terminal.
#[derive(Copy, Clone, PartialEq, Eq, Structural, Debug)]
pub enum TaskStatus {
    UnInit,
    Ready,
    Running,
    Exited,
}

/// Kernel-side record for one application slot.
#[derive(Copy, Clone)]
pub struct TaskControlBlock {
    /// Lifecycle state of the slot.
    pub task_status: TaskStatus,
    /// The register set that the switch primitive loads to resume this
    /// task.
    pub task_cx: TaskContext,
    /// Cumulative microseconds spent in user mode.
    pub user_time: u64,
    /// Cumulative microseconds spent in supervisor mode on behalf of this
    /// task.
    pub kernel_time: u64,
}

} // verus!
