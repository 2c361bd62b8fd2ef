use ones_riscv::concurrency::process::thread::{TaskContext, Thread};
use ones_riscv::concurrency::process::{Allocator, Lib as ProcessLib, Mapping, Process};
use ones_riscv::concurrency::scheduler::Scheduler;
use ones_riscv::concurrency::thread::context::{Context, Lib as ContextLib};
use ones_riscv::concurrency::thread::Lib as ThreadLib;
use ones_riscv::concurrency::thread::ThreadSetup;
use ones_riscv::cpu::satp;
use ones_riscv::intervene::KernelInfo;
use ones_riscv::memory::Flag;
use ones_riscv::runtime::address_space::{AddressSpace, Segment};

#[test]
fn thread_new_resumes_at_return_to_user() {
    let t = Thread::new(3, 1, 0x8020_4000);
    assert_eq!(t, Thread { pid: 3, tid: 1, context: TaskContext { pc: 0x8020_4000, sp: 0 } });
    assert_eq!(Thread::empty(), Thread { pid: 0, tid: 0, context: TaskContext { pc: 0, sp: 0 } });
}

#[test]
fn process_new_has_one_thread() {
    let p = Process::new(4, space(), 0x9000);
    assert_eq!(p.address_space.segments, space().segments);
    assert_eq!(p.address_space.entry, 0x10000);
    assert_eq!(p.allocator, Allocator { start: 1, end: 15 });
    assert_eq!(p.id(), 4);
    assert_eq!(p.parent, None);
    assert!(p.children.is_empty());
    assert_eq!(p.thread, vec![Thread::new(4, 0, 0x9000)]);
    assert_eq!(*p.get_context_ref(0), TaskContext { pc: 0x9000, sp: 0 });
    let k = Process::new_kernel(0, empty_space());
    assert_eq!(k.id(), 0);
    assert_eq!(k.allocator, Allocator { start: 0, end: 0 });
    assert_eq!(k.thread, vec![Thread::empty()]);
}

#[test]
fn scheduler_runs_last_ready_first() {
    let mut s = Scheduler::new(Process::new_kernel(0, empty_space()));
    assert_eq!(s.running, (0, 0));
    s.make_ready(Process::new(1, empty_space(), 0x9000));
    s.make_ready(Process::new(2, empty_space(), 0x9000));
    assert_eq!(s.process.len(), 3);
    assert_eq!(s.process[2].id, 2);
    assert_eq!(s.switch_to_ready(), (2, 0));
    assert_eq!(s.switch_to_idle(), (2, 0));
    assert_eq!(s.switch_to_ready(), (1, 0));
    assert_eq!(s.running, (1, 0));
    assert!(s.ready.is_empty());
}

#[test]
fn scheduler_new_process_sets_kernel_stack() {
    let mut s = Scheduler::new(Process::new_kernel(0, empty_space()));
    let (status, info, stack) = s.new_process(Process::new(1, empty_space(), 0x9000), (0x8_00ff, 0x8_0100), 0x122, 0x80200, 0xabc);
    assert_eq!(stack, Mapping::Area { range: (0x8_00ff, 0x8_0100), flag: Flag::readable().union(&Flag::writable()) });
    let ksp = 0x8_0101 * 4096 - 1;
    assert_eq!(status, 0x22);
    assert_eq!(info, KernelInfo { addr_trans: satp(0x80200), service: 0xabc, sp: ksp });
    assert_eq!(s.process[1].thread[0].context, TaskContext { pc: 0x9000, sp: ksp });
    assert_eq!(s.ready.back(), Some(&(1, 0)));
    assert_eq!(s.switch_to_ready(), (1, 0));
}

#[test]
fn context_accessors() {
    let mut c = Context::new(0x22, 0x1000);
    assert_eq!(c.data_reg, [0; 32]);
    assert_eq!((c.status, c.pc), (0x22, 0x1000));
    c.data_reg[17] = 64;
    c.data_reg[10] = 1;
    c.data_reg[11] = 2;
    c.data_reg[12] = 3;
    assert_eq!(ContextLib::iid(&c), 64);
    assert_eq!(ContextLib::iret(&c), 1);
    assert_eq!(ContextLib::iarg(&c), [1, 2, 3]);
    ContextLib::iret_set(&mut c, 7);
    assert_eq!(ContextLib::iret(&c), 7);
    ContextLib::sp_set(&mut c, 0x5000);
    assert_eq!(c.data_reg[2], 0x5000);
}

#[test]
fn thread_setup() {
    let segments = vec![
        Segment { range: (0x3_fffc, 0x3_fffd), flag: Flag::readable().union(&Flag::writable()) },
        Segment { range: (0x3_fffe, 0x3_fffe), flag: Flag::readable().union(&Flag::writable()) },
        Segment { range: (0x8_0200, 0x8_0200), flag: Flag::readable().union(&Flag::writable()) },
    ];
    let ThreadSetup { data: d, process_mappings, kernel_mappings } = ThreadLib::setup(0x122, 0x1_0000, &segments, 0x80200, 0xdef);
    let mut regs = [0usize; 32];
    regs[2] = 0x3_fffe * 4096 - 1;
    assert_eq!(d.cx.data_reg, regs);
    assert_eq!(d.cx.status, 0x22);
    assert_eq!(d.cx.pc, 0x1_0000);
    assert_eq!(d.ki, KernelInfo { addr_trans: satp(0x80200), service: 0xdef, sp: 0x8_0201 * 4096 - 1 });
    assert_eq!(process_mappings, vec![
        Mapping::Area { range: (0x3_fffc, 0x3_fffd), flag: Flag::from_bits(0b1_0110).unwrap() },
        Mapping::Page { page: 0x3_fffe, flag: Flag::from_bits(0b110).unwrap() },
    ]);
    assert_eq!(kernel_mappings, vec![Mapping::Page { page: 0x8_0200, flag: Flag::from_bits(0b110).unwrap() }]);
}

fn empty_space() -> AddressSpace {
    AddressSpace { segments: vec![], entry: 0 }
}

fn space() -> AddressSpace {
    AddressSpace {
        segments: vec![
            Segment { range: (0x10, 0x12), flag: Flag::readable() },
            Segment { range: (0x20, 0x20), flag: Flag::writable() },
        ],
        entry: 0x10000,
    }
}

#[test]
fn user_process_mappings() {
    let itext = Segment { range: (0x3_ffff, 0x3_ffff), flag: Flag::executable() };
    let r = ProcessLib::new(&space(), itext, 0x8020_3000);
    assert_eq!(r, vec![
        Mapping::Area { range: (0x10, 0x12), flag: Flag::readable() },
        Mapping::Area { range: (0x20, 0x20), flag: Flag::writable() },
        Mapping::Fixed { page: 0x3_ffff, frame: 0x80203, flag: Flag::executable() },
    ]);
}

#[test]
fn kernel_mappings_are_identity() {
    let itext = Segment { range: (0x3_ffff, 0x3_ffff), flag: Flag::executable() };
    let r = ProcessLib::new_kernel(&space(), itext, 0x8020_3000);
    assert_eq!(r, vec![
        Mapping::FixedArea { range: (0x10, 0x12), frame: 0x10, flag: Flag::readable() },
        Mapping::FixedArea { range: (0x20, 0x20), frame: 0x20, flag: Flag::writable() },
        Mapping::Fixed { page: 0x3_ffff, frame: 0x80203, flag: Flag::executable() },
    ]);
}

#[test]
fn context_changed_in_place() {
    let mut p = Process::new(2, empty_space(), 0x9000);
    p.get_context_mut(0).sp = 0x7000;
    assert_eq!(p.thread[0], Thread { pid: 2, tid: 0, context: TaskContext { pc: 0x9000, sp: 0x7000 } });
    assert_eq!(p.id, 2);
}

#[test]
fn fork_of_threadless_process() {
    let p = Process { id: 1, address_space: space(), thread: vec![], parent: None, children: vec![], allocator: Allocator { start: 1, end: 15 } };
    let c = p.fork(5);
    assert_eq!(c.address_space.segments, space().segments);
    assert_eq!(c.address_space.entry, space().entry);
    assert_eq!(c.allocator, p.allocator);
    assert_eq!(c.id, 5);
    assert_eq!(c.parent, Some(1));
    assert!(c.children.is_empty() && c.thread.is_empty());
}

#[test]
fn scheduler_fork_readies_parent() {
    let mut s = Scheduler::new(Process::new_kernel(0, empty_space()));
    s.process.push(Process { id: 1, address_space: space(), thread: vec![], parent: None, children: vec![], allocator: Allocator { start: 1, end: 15 } });
    s.running = (1, 0);
    s.fork(2);
    assert_eq!(s.process.len(), 3);
    assert_eq!(s.process[2].id, 2);
    assert_eq!(s.process[2].parent, Some(1));
    assert_eq!(s.ready.back(), Some(&(1, 0)));
    assert_eq!(s.running, (1, 0));
}

#[test]
fn allocator_ranges() {
    assert_eq!(Allocator::new(1, 15), Some(Allocator { start: 1, end: 15 }));
    assert_eq!(Allocator::new(0, 0), Some(Allocator { start: 0, end: 0 }));
    assert_eq!(Allocator::new(3, 2), None);
}

#[test]
fn address_space_duplicate() {
    let a = space();
    let b = a.duplicate();
    assert_eq!(a.segments, b.segments);
    assert_eq!(a.entry, b.entry);
}
