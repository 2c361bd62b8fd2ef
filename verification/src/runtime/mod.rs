//! The kernel's start-up: where the parts of its image lie.
use vstd::prelude::*;
use crate::concurrency::process::{spec_kernel_mappings, Lib as ProcessLib, Mapping, Process};
use crate::concurrency::process::thread::{TaskContext, Thread};
use crate::memory::Address;
use address_space::{segment_values, spec_kernel_segments, AddressSpace, Segment};

pub mod address_space;

verus! {

/// Address of the platform-level interrupt controller.
pub const PLIC_BASE: usize = 0xc_000_000;

/// End of physical memory (bytes).
pub const END: usize = 0x88_000_000;

/// The device regions that the kernel maps onto themselves, as page ranges (first and
/// last page): the test device and RTC, the core-local interruptor (CLINT), the
/// platform-level interrupt controller and the UART, on the QEMU virt machine.
pub open spec fn spec_mmio() -> Seq<(usize, usize)> {
    seq![(0x100usize, 0x102usize), (0x2_000usize, 0x2_010usize), (0xc_000usize, 0xc_210usize), (0x10_000usize, 0x10_009usize)]
}

pub fn mmio() -> (r: Vec<(usize, usize)>)
    ensures
        r@ == spec_mmio(),
{
    let r = vec![(0x100usize, 0x102usize), (0x2_000usize, 0x2_010usize), (0xc_000usize, 0xc_210usize), (0x10_000usize, 0x10_009usize)];
    assert(r@ =~= spec_mmio());
    r
}

/// Addresses of the linker symbols that delimit the kernel image.
pub struct Symbols {
    pub stext: usize,
    pub etext: usize,
    pub srodata: usize,
    pub erodata: usize,
    pub sdata: usize,
    pub edata: usize,
    pub kernel_stack: usize,
    pub ebss: usize,
    pub ekernel: usize,
}

/// Page ranges (first page, page of the end symbol) of the parts of the kernel image and
/// of the memory left for frames.
#[derive(Clone, Copy, Debug, PartialEq, Eq)]
pub struct Segments {
    pub text: (usize, usize),
    pub read_only_data: (usize, usize),
    pub data: (usize, usize),
    pub static_data: (usize, usize),
    pub frame_data: (usize, usize),
}

/// The page ranges of the kernel image given by its linker symbols `symbols`.
pub open spec fn spec_segments(symbols: Symbols) -> Segments {
    Segments {
        text: (symbols.stext / 4096, symbols.etext / 4096),
        read_only_data: (symbols.srodata / 4096, symbols.erodata / 4096),
        data: (symbols.sdata / 4096, symbols.edata / 4096),
        static_data: (symbols.kernel_stack / 4096, symbols.ebss / 4096),
        frame_data: (symbols.ekernel / 4096, END / 4096),
    }
}

/// What start-up builds: the parts of the kernel image, the kernel process and the
/// mappings of its page table.
pub struct Boot {
    pub segments: Segments,
    pub kernel: Process,
    pub mappings: Vec<Mapping>,
}

/// Start-up of the kernel.
pub struct Lib;

impl Lib {
    /// The page ranges of the kernel image, from its linker symbols: code, read-only
    /// data, data, the kernel stack with the zero-initialised data, and the frames from
    /// the end of the image to the end of memory.
    pub fn segments(symbols: &Symbols) -> (r: Segments)
        ensures
            r.text == (symbols.stext / 4096, symbols.etext / 4096),
            r.read_only_data == (symbols.srodata / 4096, symbols.erodata / 4096),
            r.data == (symbols.sdata / 4096, symbols.edata / 4096),
            r.static_data == (symbols.kernel_stack / 4096, symbols.ebss / 4096),
            r.frame_data == (symbols.ekernel / 4096, END / 4096),
            r == spec_segments(*symbols),
    {
        let text = (Address::number(symbols.stext), Address::number(symbols.etext));
        let read_only_data = (Address::number(symbols.srodata), Address::number(symbols.erodata));
        let data = (Address::number(symbols.sdata), Address::number(symbols.edata));
        let static_data = (Address::number(symbols.kernel_stack), Address::number(symbols.ebss));
        let frame_data = (Address::number(symbols.ekernel), Address::number(END));
        Segments { text, read_only_data, data, static_data, frame_data }
    }

    /// Start-up on an empty process table: the kernel image's segments from its linker
    /// symbols; the kernel process, identifier 0, whose address space holds those segments
    /// and the device regions `spec_mmio()` and starts at `stext`; and the mappings of its
    /// page table, every segment onto itself and the trap-handling code `itext` onto its
    /// frame at `itext_address`.
    pub fn init(symbols: &Symbols, itext: Segment, itext_address: usize) -> (r: Boot)
        ensures
            r.segments == spec_segments(*symbols),
            r.kernel.id == 0,
            segment_values(r.kernel.address_space.segments@) == spec_kernel_segments(r.segments, spec_mmio()),
            r.kernel.address_space.entry == symbols.stext,
            r.kernel.thread@ == seq![Thread { pid: 0, tid: 0, context: TaskContext { pc: 0, sp: 0 } }],
            r.kernel.parent is None,
            r.kernel.children@ == Seq::<usize>::empty(),
            r.kernel.allocator == (crate::concurrency::process::Allocator { start: 0, end: 0 }),
            r.mappings@ == spec_kernel_mappings(r.kernel.address_space.segments@, itext, itext_address / 4096),
            r.mappings@.len() == r.kernel.address_space.segments@.len() + 1,
            forall|i: int| 0 <= i < r.kernel.address_space.segments@.len() ==> #[trigger] r.mappings@[i] == (Mapping::FixedArea {
                range: r.kernel.address_space.segments@[i].range,
                frame: r.kernel.address_space.segments@[i].range.0,
                flag: r.kernel.address_space.segments@[i].flag,
            }),
    {
        let segments = Self::segments(symbols);
        let regions = mmio();
        let address_space = AddressSpace::new_kernel(symbols.stext, &regions, &segments);
        let mappings = ProcessLib::new_kernel(&address_space, itext, itext_address);
        let kernel = Process::new_kernel(0, address_space);
        Boot { segments, kernel, mappings }
    }
}

} // verus!
