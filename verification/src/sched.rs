//! Task bookkeeping types and the scheduling interface. A scheduler
//! implementation is a consumer of these types; none ships with the
//! library.

use vstd::prelude::*;

verus! {

/// The run state of a task.
#[derive(Clone, Copy, Debug, PartialEq, Eq, Structural)]
pub enum State {
    /// The task is running or ready to run.
    Runnable,
    /// The task is blocked waiting for an event and may be interrupted.
    Interruptible,
    /// The task is blocked and will not be interrupted while it waits.
    Uninterruptible,
}

/// The exit state of a finished task.
#[derive(Clone, Copy, Debug, PartialEq, Eq, Structural)]
pub enum ExitState {
    /// Finished but not yet reaped by its parent.
    Zombie,
    /// Finished and reaped.
    Dead,
}

/// A process identifier.
#[derive(Clone, Copy, Debug, PartialEq, Eq, PartialOrd, Ord, Hash, Structural)]
pub struct Pid(pub u32);

/// Per-task bookkeeping.
pub struct TaskStruct {
    /// The run state.
    pub state: State,
    /// The exit state, meaningful once the task has finished.
    pub exit_state: ExitState,
    /// The task's identifier.
    pub pid: Pid,
    /// Address of the task's kernel stack.
    pub kernel_stack_addr: u64,
}

/// A scheduling policy: it accepts runnable tasks and picks the next one
/// to run.
pub trait Scheduler {
    /// Adds a task to the run queue.
    fn enqueue_task(&mut self, task: TaskStruct);

    /// Removes and returns the next task to run, if any is queued.
    fn dequeue_task(&mut self) -> Option<TaskStruct>;
}

} // verus!
