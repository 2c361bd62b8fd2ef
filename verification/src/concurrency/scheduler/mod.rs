//! The scheduler: the table of processes, the queue of ready threads and the running
//! thread.
//!
//! The ready queue is used as a stack: a thread made ready is pushed at the back, and
//! the next thread to run is taken from the back.
use vstd::prelude::*;
use std::collections::VecDeque;
use crate::concurrency::process::{Mapping, Process};
use crate::concurrency::process::thread::{TaskContext, Thread};
use crate::cpu::{satp, spec_satp, spec_user_status, user_status};
use crate::intervene::KernelInfo;
use crate::memory::{last_byte_defined, spec_last_byte, Address, Flag};
use crate::runtime::address_space::data_flags;

verus! {

/// Whether `ids` (a process identifier and a thread number) names a thread of `process`.
pub open spec fn valid_thread(process: Seq<Process>, ids: (usize, usize)) -> bool {
    &&& ids.0 < process.len()
    &&& ids.1 < process[ids.0 as int].thread@.len()
}

/// The scheduler's state.
pub struct Scheduler {
    /// Process `i` of the table has identifier `i`; process 0 is the kernel.
    pub process: Vec<Process>,
    /// Threads ready to run; the back is taken first.
    pub ready: VecDeque<(usize, usize)>,
    /// The thread that runs, or ran last.
    pub running: (usize, usize),
}

/// `t` is `s` after `process` was made ready: it is in the table at its identifier and
/// its thread 0 is at the back of the ready queue.
pub open spec fn spec_admitted(s: Scheduler, process: Process, t: Scheduler) -> bool {
    &&& t.process@ == s.process@.insert(process.id as int, process)
    &&& t.ready@ == s.ready@.push((process.id, 0))
    &&& t.running == s.running
}

/// `t` is `s` after the thread `next`, taken from the back of the ready queue, was made
/// the running thread.
pub open spec fn spec_dispatched(s: Scheduler, t: Scheduler, next: (usize, usize)) -> bool {
    &&& s.ready@.len() > 0
    &&& next == s.ready@.last()
    &&& t.ready@ == s.ready@.drop_last()
    &&& t.running == next
    &&& t.process@ == s.process@
}

impl Scheduler {
    /// The invariant of the scheduler: the kernel's idle thread exists, every process sits
    /// at its identifier, and the running thread and every ready thread exist.
    pub open spec fn wf(&self) -> bool {
        &&& valid_thread(self.process@, (0, 0))
        &&& forall|i: int| 0 <= i < self.process@.len() ==> #[trigger] self.process@[i].id == i
        &&& valid_thread(self.process@, self.running)
        &&& forall|j: int| 0 <= j < self.ready@.len() ==> valid_thread(self.process@, #[trigger] self.ready@[j])
    }

    /// A scheduler whose only process is `kernel`, running its idle thread.
    pub fn new(kernel: Process) -> (r: Scheduler)
        requires
            kernel.id == 0,
            kernel.thread.len() > 0,
        ensures
            r.process@ == seq![kernel],
            r.ready@ == Seq::<(usize, usize)>::empty(),
            r.running == (0usize, 0usize),
            r.wf(),
    {
        let mut process = Vec::new();
        process.push(kernel);
        Scheduler { process, ready: VecDeque::new(), running: (0, 0) }
    }

    /// Puts `process` in the table at its identifier and makes its thread 0 ready.
    pub fn make_ready(&mut self, process: Process)
        requires
            process.id <= old(self).process.len(),
        ensures
            spec_admitted(*old(self), process, *final(self)),
            old(self).wf() && process.id == old(self).process.len() && process.thread.len() > 0
                ==> final(self).wf(),
    {
        let pid = process.id;
        self.process.insert(pid, process);
        self.ready.push_back((pid, 0));
    }

    /// Admits the new `process` with the kernel stack whose pages are `kernel_stack`
    /// (first and last): its thread 0 starts with its stack pointer at the last byte of the
    /// stack. Returns what the caller must still do: the user-mode `sstatus` (from the
    /// value `status_raw` read from the hart) and the kernel side of a trap for the
    /// process's trap page (which enters the kernel's address space, root table in frame
    /// `kernel_root`, and runs `service` on the same stack), and the mapping of the stack,
    /// readable and writable, into the kernel's page table.
    pub fn new_process(
        &mut self,
        process: Process,
        kernel_stack: (usize, usize),
        status_raw: u64,
        kernel_root: u64,
        service: usize,
    ) -> (r: (u64, KernelInfo, Mapping))
        requires
            old(self).process.len() > 0,
            process.thread.len() > 0,
            process.id <= old(self).process.len(),
            last_byte_defined(kernel_stack.1),
        ensures
            ({
                let ksp = spec_last_byte(kernel_stack.1);
                let admitted = final(self).process@[process.id as int];
                &&& final(self).process@ == old(self).process@.insert(process.id as int, admitted)
                &&& final(self).ready@ == old(self).ready@.push((process.id, 0))
                &&& final(self).running == old(self).running
                &&& admitted.id == process.id
                &&& admitted.address_space == process.address_space
                &&& admitted.parent == process.parent
                &&& admitted.children@ == process.children@
                &&& admitted.allocator == process.allocator
                &&& admitted.thread@ == process.thread@.update(0, Thread {
                    context: TaskContext { sp: ksp, ..process.thread@[0].context },
                    ..process.thread@[0]
                })
                &&& r.0 == spec_user_status(status_raw)
                &&& r.1 == (KernelInfo { addr_trans: spec_satp(kernel_root), service, sp: ksp })
                &&& r.2 matches Mapping::Area { range, flag } && range == kernel_stack && flag@ == data_flags()
            }),
            old(self).wf() && process.id == old(self).process.len() ==> final(self).wf(),
    {
        let mut process = process;
        let stack = Mapping::Area {
            range: kernel_stack,
            flag: Flag::readable().union(&Flag::writable()),
        };
        proof {
            assert(2u8 | 4u8 == 6u8) by (bit_vector);
        }
        let ksp = Address::last_byte(kernel_stack.1);
        let mut first = process.thread[0];
        first.context.sp = ksp;
        process.thread.set(0, first);
        let status = user_status(status_raw);
        let info = KernelInfo { addr_trans: satp(kernel_root), service, sp: ksp };
        let ghost admitted = process;
        self.make_ready(process);
        assert(self.process@[admitted.id as int] == admitted);
        (status, info, stack)
    }

    /// Forks the running process into a child with identifier `child_id`, puts the child in
    /// the table and makes thread 0 of the running process ready again.
    pub fn fork(&mut self, child_id: usize)
        requires
            old(self).running.0 < old(self).process.len(),
            old(self).process@[old(self).running.0 as int].thread.len() == 0,
            child_id <= old(self).process.len(),
        ensures
            ({
                let parent = old(self).process@[old(self).running.0 as int];
                let child = final(self).process@[child_id as int];
                &&& final(self).process@ == old(self).process@.insert(child_id as int, child)
                &&& child.id == child_id
                &&& child.parent == Some(parent.id)
                &&& child.address_space.segments@ == parent.address_space.segments@
                &&& child.address_space.entry == parent.address_space.entry
                &&& child.allocator == parent.allocator
                &&& child.children@ == Seq::<usize>::empty()
                &&& child.thread@ == parent.thread@
                &&& final(self).ready@ == old(self).ready@.push((old(self).running.0, 0usize))
                &&& final(self).running == old(self).running
            }),
    {
        let (pid, _) = self.running;
        let child = self.process[pid].fork(child_id);
        let ghost c = child;
        self.process.insert(child_id, child);
        self.ready.push_back((pid, 0));
        assert(self.process@[child_id as int] == c);
    }

    /// Takes the thread at the back of the ready queue and makes it the running thread.
    /// Returns it: the caller switches from the kernel's idle thread (0, 0) to it.
    pub fn switch_to_ready(&mut self) -> (next: (usize, usize))
        requires
            old(self).ready.len() > 0,
            valid_thread(old(self).process@, (0, 0)),
            valid_thread(old(self).process@, old(self).ready@.last()),
        ensures
            spec_dispatched(*old(self), *final(self), next),
            valid_thread(final(self).process@, next),
            old(self).wf() ==> final(self).wf(),
    {
        let next = self.ready.pop_back().unwrap();
        self.running = next;
        next
    }

    /// The running thread, which the caller switches from to the kernel's idle thread.
    pub fn switch_to_idle(&self) -> (current: (usize, usize))
        requires
            valid_thread(self.process@, self.running),
            valid_thread(self.process@, (0, 0)),
        ensures
            current == self.running,
    {
        self.running
    }
}

/// A thread made ready is the next one to run, and running it gives back the ready queue
/// that was there before it was made ready.
pub proof fn lemma_last_admitted_runs_first(
    s: Scheduler,
    process: Process,
    t: Scheduler,
    u: Scheduler,
    next: (usize, usize),
)
    requires
        spec_admitted(s, process, t),
        spec_dispatched(t, u, next),
    ensures
        next == (process.id, 0usize),
        u.running == (process.id, 0usize),
        u.ready@ == s.ready@,
        u.process@ == s.process@.insert(process.id as int, process),
{
    assert(u.ready@ =~= s.ready@);
}

} // verus!
