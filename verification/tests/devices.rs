use ones_riscv::peripheral::disk::VirtioHal;
use ones_riscv::peripheral::{interrupts, Lib as PeripheralLib, PlicOp, HART_M, HART_S};
use ones_riscv::runtime::{mmio, Lib as RuntimeLib, Segments, Symbols, END, PLIC_BASE};
use ones_riscv::runtime::address_space::Segment;
use ones_riscv::concurrency::process::{Allocator, Mapping};
use ones_riscv::memory::Flag;
use ones_riscv::system_call::Lib as SystemCall;

#[test]
fn plic_setup_steps() {
    let ops = PeripheralLib::init();
    assert_eq!(ops.len(), 11);
    assert_eq!(ops[0], PlicOp::Init { base: PLIC_BASE });
    assert_eq!(ops[1], PlicOp::Threshold { hart: HART_M, threshold: 1 });
    assert_eq!(ops[2], PlicOp::Threshold { hart: HART_S, threshold: 0 });
    assert_eq!(ops[3], PlicOp::Enable { hart: HART_S, source: 5 });
    assert_eq!(ops[4], PlicOp::Priority { source: 5, priority: 1 });
    assert_eq!(ops[9], PlicOp::Enable { hart: HART_S, source: 10 });
    assert_eq!(ops[10], PlicOp::Priority { source: 10, priority: 1 });
    assert_eq!(interrupts(), vec![(5, 1), (6, 1), (8, 1), (10, 1)]);
}

#[test]
fn dma_alloc_keeps_frames() {
    let mut holder = vec![1];
    let base = VirtioHal::dma_alloc(vec![7, 8, 9], &mut holder);
    assert_eq!(base, 7);
    assert_eq!(holder, vec![1, 7, 8, 9]);
    assert_eq!(VirtioHal::dma_dealloc(0x8000_0000, 3), 0);
    assert_eq!(VirtioHal::phys_to_virt(0x8000_1234), 0x8000_1234);
    assert_eq!(VirtioHal::virt_to_phys(0x8000_1234), 0x8000_1234);
}

fn symbols() -> Symbols {
    Symbols {
        stext: 0x8020_0000,
        etext: 0x8020_5123,
        srodata: 0x8020_6000,
        erodata: 0x8020_7000,
        sdata: 0x8020_8000,
        edata: 0x8020_9800,
        kernel_stack: 0x8020_a000,
        ebss: 0x8021_a000,
        ekernel: 0x8021_b000,
    }
}

#[test]
fn kernel_segments_from_symbols() {
    let s = symbols();
    assert_eq!(RuntimeLib::segments(&s), Segments {
        text: (0x80200, 0x80205),
        read_only_data: (0x80206, 0x80207),
        data: (0x80208, 0x80209),
        static_data: (0x8020a, 0x8021a),
        frame_data: (0x8021b, 0x88000),
    });
    assert_eq!(END, 0x88_000_000);
}

#[test]
fn write_reports_nothing_written() {
    assert_eq!(SystemCall::write(1, 0x1000, 12), 0);
}

#[test]
fn mmio_regions() {
    assert_eq!(mmio(), vec![(0x100, 0x102), (0x2_000, 0x2_010), (0xc_000, 0xc_210), (0x10_000, 0x10_009)]);
}

#[test]
fn start_up_builds_kernel() {
    let itext = Segment { range: (0x3_ffff, 0x3_ffff), flag: Flag::readable().union(&Flag::executable()) };
    let boot = RuntimeLib::init(&symbols(), itext, 0x8020_3000);
    let rx = Flag::readable().union(&Flag::executable());
    let r = Flag::readable();
    let rw = Flag::readable().union(&Flag::writable());
    let expected = vec![
        Segment { range: (0x80200, 0x80205), flag: rx },
        Segment { range: (0x80206, 0x80207), flag: r },
        Segment { range: (0x80208, 0x80209), flag: rw },
        Segment { range: (0x8020a, 0x8021a), flag: rw },
        Segment { range: (0x8021b, 0x88000), flag: rw },
        Segment { range: (0x100, 0x102), flag: rw },
        Segment { range: (0x2_000, 0x2_010), flag: rw },
        Segment { range: (0xc_000, 0xc_210), flag: rw },
        Segment { range: (0x10_000, 0x10_009), flag: rw },
    ];
    assert_eq!(boot.kernel.address_space.segments, expected);
    assert_eq!(boot.kernel.address_space.entry, 0x8020_0000);
    assert_eq!(boot.kernel.id, 0);
    assert_eq!(boot.kernel.allocator, Allocator { start: 0, end: 0 });
    assert_eq!(boot.segments, RuntimeLib::segments(&symbols()));
    assert_eq!(boot.mappings.len(), 10);
    assert_eq!(boot.mappings[5], Mapping::FixedArea { range: (0x100, 0x102), frame: 0x100, flag: rw });
    assert_eq!(boot.mappings[9], Mapping::Fixed { page: 0x3_ffff, frame: 0x80203, flag: rx });
}
