//! Control values of the hart: the `satp` register and machine shutdown.
use vstd::prelude::*;

pub mod data_registers;
pub mod timer;

verus! {

/// Address-translation schemes of the `satp.MODE` field.
pub enum Mode {
    Bare,
    Sv39,
    Sv48,
}

impl Mode {
    /// The encoding of the mode in `satp.MODE`.
    pub open spec fn spec_value(self) -> u64 {
        match self {
            Mode::Bare => 0,
            Mode::Sv39 => 8,
            Mode::Sv48 => 9,
        }
    }

    pub fn value(&self) -> (r: u64)
        ensures
            r == self.spec_value(),
    {
        match self {
            Mode::Bare => 0,
            Mode::Sv39 => 8,
            Mode::Sv48 => 9,
        }
    }
}

/// The 64-bit `satp` value that selects `mode` with the root page table in frame `frame_number`.
pub open spec fn spec_general_satp(mode: Mode, frame_number: u64) -> u64 {
    (mode.spec_value() << 60u64) | frame_number
}

/// The `satp` value for SV39 translation rooted at `frame_number`.
pub open spec fn spec_satp(frame_number: u64) -> u64 {
    spec_general_satp(Mode::Sv39, frame_number)
}

pub fn satp(frame_number: u64) -> (r: u64)
    ensures
        r == spec_satp(frame_number),
{
    general_satp(Mode::Sv39, frame_number)
}

fn general_satp(mode: Mode, frame_number: u64) -> (r: u64)
    ensures
        r == spec_general_satp(mode, frame_number),
{
    (mode.value() << 60) | frame_number
}

/// An SV39 `satp` value holds the mode 8 in bits 60..=63 and, for a 44-bit frame
/// number, the frame number in bits 0..=43, with the address-space identifier (bits
/// 44..=59) zero.
pub proof fn lemma_satp_fields(frame_number: u64)
    requires
        frame_number < 0x1000_0000_0000,
    ensures
        spec_satp(frame_number) >> 60u64 == 8,
        spec_satp(frame_number) & 0xfff_ffff_ffffu64 == frame_number,
        (spec_satp(frame_number) >> 44u64) & 0xffffu64 == 0,
{
    assert(frame_number < 0x1000_0000_0000u64 ==> ((8u64 << 60u64) | frame_number) >> 60u64 == 8u64) by (bit_vector);
    assert(frame_number < 0x1000_0000_0000u64 ==> ((8u64 << 60u64) | frame_number) & 0xfff_ffff_ffffu64 == frame_number) by (bit_vector);
    assert(frame_number < 0x1000_0000_0000u64 ==> (((8u64 << 60u64) | frame_number) >> 44u64) & 0xffffu64 == 0u64) by (bit_vector);
}

/// Why the machine is reset, as the SBI system-reset call reports it.
#[derive(Clone, Copy, Debug, PartialEq, Eq, Structural)]
pub enum ResetReason {
    NoReason,
    SystemFailure,
}

/// The hart.
pub struct Handler;

impl Handler {
    /// The reason with which a shutdown is reported: a system failure when `failure`,
    /// none otherwise.
    pub fn shutdown_reason(failure: bool) -> (r: ResetReason)
        ensures
            r == (if failure { ResetReason::SystemFailure } else { ResetReason::NoReason }),
    {
        if !failure {
            ResetReason::NoReason
        } else {
            ResetReason::SystemFailure
        }
    }
}

/// The bits that the `sstatus` register holds on RV64 (`Sstatus::BITMASK` of the riscv crate).
pub const SSTATUS_MASK: u64 = 0x8000_0003_000d_e762;

/// Bit 8 of `sstatus`: SPP, the privilege mode the hart came from (0 is user mode).
pub const SSTATUS_SPP: u64 = 0x100;

/// The `sstatus` value `raw` with SPP set to user mode, so that `sret` enters user mode.
pub open spec fn spec_user_status(raw: u64) -> u64 {
    (raw & SSTATUS_MASK) & !SSTATUS_SPP
}

/// Calls `riscv::register::sstatus::Sstatus::set_spp(SPP::User)` on the `sstatus` value
/// `raw`, converted to and from the riscv crate's `Sstatus` by its `from_bits` and `bits`.
/// Claimed: the result keeps the bits of `raw` under `Sstatus::BITMASK` and clears SPP.
/// It converts through `usize`, which is 64 bits wide on the RV64 targets this kernel runs on.
#[verifier::external_body]
pub(crate) fn status_with_user_spp(raw: u64) -> (r: u64)
    ensures
        r == spec_user_status(raw),
{
    let mut status = riscv::register::sstatus::Sstatus::from_bits(raw as usize);
    status.set_spp(riscv::register::sstatus::SPP::User);
    status.bits() as u64
}

/// The `sstatus` value with which a thread returns to user mode, from the value `raw`
/// read from the register.
pub fn user_status(raw: u64) -> (r: u64)
    ensures
        r == spec_user_status(raw),
        r & SSTATUS_SPP == 0,
{
    let r = status_with_user_spp(raw);
    assert((raw & 0x8000_0003_000d_e762u64) & !0x100u64 & 0x100u64 == 0) by (bit_vector);
    r
}

} // verus!
