//! Traps ("intervention"): decoding their cause, the data a trap handler works on, and
//! where the trap handlers lie in memory.
use vstd::prelude::*;
use crate::concurrency::thread::context::Context;
use crate::cpu::{satp, spec_satp};
use crate::memory::{spec_address, Address};

pub mod context;
pub mod system_call;

verus! {

/// The causes of a trap that the kernel tells apart.
#[derive(Clone, Copy, Debug, PartialEq, Eq, Structural)]
pub enum Cause {
    /// Supervisor external interrupt (interrupt code 9).
    External,
    /// `ebreak` (exception code 3).
    Breakpoint,
    /// `ecall` from user mode (exception code 8).
    EnvCall,
    Unknown,
}

/// What a trap switches to: the kernel's address space, the handler and its stack.
#[derive(Clone, Copy, Debug, PartialEq, Eq, Structural)]
pub struct KernelInfo {
    /// The `satp` value of the kernel's address space.
    pub addr_trans: u64,
    /// Address of the routine that serves the trap.
    pub service: usize,
    /// Stack pointer of the trap handler.
    pub sp: usize,
}

/// The per-thread trap data: the saved user context and the kernel side of the trap.
pub struct Data {
    pub cx: Context,
    pub ki: KernelInfo,
}

/// What the return to user mode installs before it jumps to `load_user_context`.
#[derive(Clone, Copy, Debug, PartialEq, Eq, Structural)]
pub struct UserReturn {
    /// The trap handler for traps from user mode.
    pub handler_user: usize,
    /// The routine that restores the user context and leaves the kernel.
    pub load_user_context: usize,
    /// Address of the trap data of the running thread.
    pub idata: usize,
    /// The `satp` value of the running thread's process.
    pub satp: u64,
}

/// Bit 63 of `scause` tells interrupts (1) from exceptions (0).
pub const INTERRUPT_BIT: usize = 63;

/// The cause that an `scause` value denotes.
pub open spec fn spec_cause(scause: u64) -> Cause {
    let code = scause & 0x7fff_ffff_ffff_ffffu64;
    if (scause >> 63u64) & 1u64 == 1u64 {
        if code == 9 { Cause::External } else { Cause::Unknown }
    } else {
        if code == 3 {
            Cause::Breakpoint
        } else if code == 8 {
            Cause::EnvCall
        } else {
            Cause::Unknown
        }
    }
}

/// Calls `bit_field::BitField::get_bit` on a `u64`.
/// Claimed: the result tells whether bit `bit` of `value` is set; the call asserts
/// `bit < 64`, which `requires` states.
#[verifier::external_body]
fn get_bit(value: u64, bit: usize) -> (r: bool)
    requires
        bit < 64,
    ensures
        r == ((value >> bit) & 1u64 == 1u64),
{
    bit_field::BitField::get_bit(&value, bit)
}

/// Calls `riscv::register::scause::Scause::code` on the `scause` value `bits`, converted
/// by `Scause::from_bits` (whose mask keeps every bit).
/// Claimed: the result is bits 0..=62 of `bits`, the RV64 layout of the code field.
/// It converts through `usize`, which is 64 bits wide on the RV64 targets this kernel runs on.
#[verifier::external_body]
fn scause_code(bits: u64) -> (r: u64)
    ensures
        r == bits & 0x7fff_ffff_ffff_ffffu64,
{
    riscv::register::scause::Scause::from_bits(bits as usize).code() as u64
}

/// The decoding of `scause` by its fields: bit 63 tells an interrupt, bits 0..=62 hold
/// the code. The supervisor external interrupt (code 9) is `External`; the breakpoint
/// (exception code 3) is `Breakpoint`; the environment call from user mode (exception
/// code 8) is `EnvCall`; every other interrupt and every other exception is `Unknown`.
/// As `scause` values: exactly `0x8000_0000_0000_0009`, `3` and `8` are known.
pub proof fn lemma_cause_fields(scause: u64)
    ensures
        (spec_cause(scause) == Cause::External) <==> ((scause >> 63u64) == 1u64 && scause % 0x8000_0000_0000_0000u64 == 9),
        (spec_cause(scause) == Cause::Breakpoint) <==> ((scause >> 63u64) == 0u64 && scause % 0x8000_0000_0000_0000u64 == 3),
        (spec_cause(scause) == Cause::EnvCall) <==> ((scause >> 63u64) == 0u64 && scause % 0x8000_0000_0000_0000u64 == 8),
        (spec_cause(scause) == Cause::Unknown) <==> (scause != 0x8000_0000_0000_0009u64 && scause != 3u64 && scause != 8u64),
        (spec_cause(scause) == Cause::External) <==> (scause == 0x8000_0000_0000_0009u64),
        (spec_cause(scause) == Cause::Breakpoint) <==> (scause == 3u64),
        (spec_cause(scause) == Cause::EnvCall) <==> (scause == 8u64),
{
    assert((scause >> 63u64) & 1u64 == scause >> 63u64) by (bit_vector);
    assert(scause & 0x7fff_ffff_ffff_ffffu64 == scause % 0x8000_0000_0000_0000u64) by (bit_vector);
    assert((scause >> 63u64 == 1u64 && scause % 0x8000_0000_0000_0000u64 == 9u64) <==> scause == 0x8000_0000_0000_0009u64) by (bit_vector);
    assert((scause >> 63u64 == 0u64 && scause % 0x8000_0000_0000_0000u64 == 3u64) <==> scause == 3u64) by (bit_vector);
    assert((scause >> 63u64 == 0u64 && scause % 0x8000_0000_0000_0000u64 == 8u64) <==> scause == 8u64) by (bit_vector);
    assert(scause >> 63u64 == 0u64 || scause >> 63u64 == 1u64) by (bit_vector);
}

/// The `satp` value that enters the address space whose root page table is in frame
/// `root`, as the return to user mode writes it.
pub open spec fn spec_user_satp(root: u64) -> u64 {
    (1u64 << 63u64) | root
}

/// Trap handling.
pub struct Lib;

impl Lib {
    /// The cause of a trap, from the `scause` value read from the hart.
    pub fn cause(scause: u64) -> (r: Cause)
        ensures
            r == spec_cause(scause),
            (r == Cause::External) <==> (scause == 0x8000_0000_0000_0009u64),
            (r == Cause::Breakpoint) <==> (scause == 3u64),
            (r == Cause::EnvCall) <==> (scause == 8u64),
    {
        proof {
            lemma_cause_fields(scause);
        }
        let class = get_bit(scause, INTERRUPT_BIT);
        let number = scause_code(scause);
        if class {
            match number {
                9 => Cause::External,
                _ => Cause::Unknown,
            }
        } else {
            match number {
                3 => Cause::Breakpoint,
                8 => Cause::EnvCall,
                _ => Cause::Unknown,
            }
        }
    }

    /// Resumes after a compressed `ebreak`: moves the saved pc past its two bytes.
    pub fn breakpoiont(idata: &mut Data)
        requires
            old(idata).cx.pc + 2 <= usize::MAX,
        ensures
            final(idata).cx.pc == old(idata).cx.pc + 2,
            final(idata).cx.data_reg == old(idata).cx.data_reg,
            final(idata).cx.status == old(idata).cx.status,
            final(idata).ki == old(idata).ki,
    {
        idata.cx.pc += 2;
    }

    /// Addresses of the trap entry points, from the addresses at which they were linked
    /// (`handler_user` first, the others after it) and the page `itext_page` at which the
    /// trap code is mapped: the order is `handler_user`, `load_user_context`,
    /// `handler_kernel`, `load_kernel_context`.
    pub fn layout(
        handler_user: usize,
        load_user_context: usize,
        handler_kernel: usize,
        load_kernel_context: usize,
        itext_page: usize,
    ) -> (r: (usize, usize, usize, usize))
        requires
            handler_user <= load_user_context,
            handler_user <= handler_kernel,
            handler_user <= load_kernel_context,
            spec_address(itext_page) + (load_user_context - handler_user) <= usize::MAX,
            spec_address(itext_page) + (handler_kernel - handler_user) <= usize::MAX,
            spec_address(itext_page) + (load_kernel_context - handler_user) <= usize::MAX,
        ensures
            r.0 == spec_address(itext_page),
            r.1 == spec_address(itext_page) + (load_user_context - handler_user),
            r.2 == spec_address(itext_page) + (handler_kernel - handler_user),
            r.3 == spec_address(itext_page) + (load_kernel_context - handler_user),
    {
        let relative = (
            0usize,
            load_user_context - handler_user,
            handler_kernel - handler_user,
            load_kernel_context - handler_user,
        );
        let base = Address::address(itext_page);
        (base + relative.0, base + relative.1, base + relative.2, base + relative.3)
    }

    /// The return to user mode of the running thread: the trap entry points come from
    /// `layout` (same arguments), the thread's trap data lies in page `idata_page`, and its
    /// process's root page table is in frame `root`.
    pub fn return_to_user(
        handler_user: usize,
        load_user_context: usize,
        handler_kernel: usize,
        load_kernel_context: usize,
        itext_page: usize,
        idata_page: usize,
        root: u64,
    ) -> (r: UserReturn)
        requires
            handler_user <= load_user_context,
            handler_user <= handler_kernel,
            handler_user <= load_kernel_context,
            spec_address(itext_page) + (load_user_context - handler_user) <= usize::MAX,
            spec_address(itext_page) + (handler_kernel - handler_user) <= usize::MAX,
            spec_address(itext_page) + (load_kernel_context - handler_user) <= usize::MAX,
        ensures
            r == (UserReturn {
                handler_user: spec_address(itext_page),
                load_user_context: (spec_address(itext_page) + (load_user_context - handler_user)) as usize,
                idata: spec_address(idata_page),
                satp: spec_user_satp(root),
            }),
    {
        let (handler, load, _, _) = Self::layout(
            handler_user,
            load_user_context,
            handler_kernel,
            load_kernel_context,
            itext_page,
        );
        let idata = Address::address(idata_page);
        let satp = Self::user_satp(root);
        UserReturn { handler_user: handler, load_user_context: load, idata, satp }
    }

    /// The `satp` value with which a return to user mode enters the address space whose
    /// root page table is in frame `root`.
    pub fn user_satp(root: u64) -> (r: u64)
        ensures
            r == spec_user_satp(root),
    {
        1u64 << 63 | root
    }
}

/// The value that the return to user mode writes to `satp` is the SV39 `satp` value of
/// the same root table.
pub proof fn lemma_user_satp_is_sv39(root: u64)
    ensures
        spec_user_satp(root) == spec_satp(root),
{
    assert((1u64 << 63u64) | root == (8u64 << 60u64) | root) by (bit_vector);
}

} // verus!
