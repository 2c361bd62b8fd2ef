//! Threads of a process, as the scheduler sees them.
use vstd::prelude::*;

verus! {

/// What a kernel-level switch saves of a thread: where it resumes and its stack pointer.
#[derive(Clone, Copy, Debug, PartialEq, Eq, Structural)]
pub struct TaskContext {
    pub pc: usize,
    pub sp: usize,
}

impl TaskContext {
    /// The context with every register zero.
    pub fn empty() -> (r: TaskContext)
        ensures
            r == (TaskContext { pc: 0, sp: 0 }),
    {
        TaskContext { pc: 0, sp: 0 }
    }
}

/// A thread: the process it belongs to, its number in that process and its saved context.
#[derive(Clone, Copy, Debug, PartialEq, Eq, Structural)]
pub struct Thread {
    pub pid: usize,
    pub tid: usize,
    pub context: TaskContext,
}

impl Thread {
    /// Thread `tid` of process `pid`; when first switched to, it resumes at `return_to_user`
    /// (the address of the routine that enters user mode).
    pub fn new(pid: usize, tid: usize, return_to_user: usize) -> (r: Thread)
        ensures
            r == (Thread { pid, tid, context: TaskContext { pc: return_to_user, sp: 0 } }),
    {
        let mut context = TaskContext::empty();
        context.pc = return_to_user;
        Thread { pid, tid, context }
    }

    /// The thread that stands for the kernel's own flow of control (the idle thread).
    pub fn empty() -> (r: Thread)
        ensures
            r == (Thread { pid: 0, tid: 0, context: TaskContext { pc: 0, sp: 0 } }),
    {
        let context = TaskContext::empty();
        Thread { pid: 0, tid: 0, context }
    }
}

} // verus!
