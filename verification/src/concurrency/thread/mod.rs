//! Threads: the data a thread needs to enter and leave user mode.
use vstd::prelude::*;
use crate::cpu::{satp, spec_satp, spec_user_status, user_status};
use crate::intervene::{Data, KernelInfo};
use crate::concurrency::process::Mapping;
use crate::memory::{last_byte_defined, spec_last_byte, Address, Flag};
use crate::runtime::address_space::Segment;

pub mod context;

use context::Context;

verus! {

/// What creating a thread asks of the page tables and of its trap page.
pub struct ThreadSetup {
    /// The thread's trap data.
    pub data: Data,
    /// Mappings into the process's page table: the user stack, open to user mode, then the
    /// trap page.
    pub process_mappings: Vec<Mapping>,
    /// Mappings into the kernel's page table: the interrupt stack.
    pub kernel_mappings: Vec<Mapping>,
}

/// Creation of threads.
pub struct Lib;

impl Lib {
    /// Sets up a new thread of a process whose program starts at `entry`. `segments` are
    /// the thread's user stack, trap page and interrupt stack (the last two one page each),
    /// as the thread allocator handed them out.
    /// - The user stack is mapped for user mode, the trap page into the process, the
    ///   interrupt stack into the kernel.
    /// - The user context starts at `entry` in user mode (`status_raw` is the `sstatus`
    ///   value read from the hart), with `sp` at the last byte of the user stack.
    /// - A trap switches to the kernel's address space (root table in frame `kernel_root`)
    ///   and runs `service` with `sp` at the last byte of the interrupt stack.
    pub fn setup(
        status_raw: u64,
        entry: usize,
        segments: &Vec<Segment>,
        kernel_root: u64,
        service: usize,
    ) -> (r: ThreadSetup)
        requires
            segments.len() >= 3,
            last_byte_defined(segments@[0].range.1),
            last_byte_defined(segments@[2].range.0),
        ensures
            ({
                let user_stack = segments@[0];
                let trap_page = segments@[1];
                let interrupt_stack = segments@[2];
                &&& r.data.cx.data_reg@ == Seq::new(32, |i: int| 0usize).update(2, spec_last_byte(user_stack.range.1))
                &&& r.data.cx.status == spec_user_status(status_raw)
                &&& r.data.cx.pc == entry
                &&& r.data.ki == (KernelInfo {
                    addr_trans: spec_satp(kernel_root),
                    service,
                    sp: spec_last_byte(interrupt_stack.range.0),
                })
                &&& r.process_mappings@.len() == 2
                &&& r.process_mappings@[0] matches Mapping::Area { range, flag }
                    && range == user_stack.range && flag@ == user_stack.flag@ | 16u8
                &&& r.process_mappings@[1] == (Mapping::Page { page: trap_page.range.0, flag: trap_page.flag })
                &&& r.kernel_mappings@ == seq![Mapping::Page { page: interrupt_stack.range.0, flag: interrupt_stack.flag }]
            }),
    {
        let mut cx = Context::new(user_status(status_raw), entry);
        let mut process_mappings: Vec<Mapping> = Vec::new();
        process_mappings.push(Mapping::Area {
            range: segments[0].range,
            flag: segments[0].flag.union(&Flag::user()),
        });
        let sp = Address::last_byte(segments[0].range.1);
        context::Lib::sp_set(&mut cx, sp);
        process_mappings.push(Mapping::Page { page: segments[1].range.0, flag: segments[1].flag });
        let mut kernel_mappings: Vec<Mapping> = Vec::new();
        kernel_mappings.push(Mapping::Page { page: segments[2].range.0, flag: segments[2].flag });
        let isp = Address::last_byte(segments[2].range.0);
        let addr_trans = satp(kernel_root);
        let ki = KernelInfo { addr_trans, service, sp: isp };
        ThreadSetup { data: Data { cx, ki }, process_mappings, kernel_mappings }
    }
}

} // verus!
