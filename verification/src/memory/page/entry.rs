//! Encoding of SV39 page-table entries.
//!
//! An entry is 64 bits wide: bits 0..=7 hold the flags, bits 8..=9 are reserved for
//! software, and bits 10..=53 hold the 44-bit physical frame number.
use vstd::prelude::*;
use crate::memory::Flag;

verus! {

/// Bits 10..=53: the physical frame number.
pub const FRAME_NUMBER_MASK: u64 = 0b111_111_111_111_111_111_111_111_111_111_111_111_111_111_110_000_000_000;

/// Position of the lowest bit of `FRAME_NUMBER_MASK`.
pub const FRAME_NUMBER_SHIFT: u64 = 10;

/// Bits 0..=10: the flags, the software bits and the lowest frame-number bit.
pub const FLAG_MASK: u64 = 0b11_111_111_111;

/// Position of the lowest bit of `FLAG_MASK`.
pub const FLAG_SHIFT: u64 = 0;

/// Frame numbers are 44 bits wide.
pub open spec fn valid_frame_number(frame_number: u64) -> bool {
    frame_number < 0x1000_0000_0000
}

/// The bits of a fresh entry that maps frame `frame_number` with flags `flag`.
pub open spec fn spec_entry_bits(frame_number: u64, flag: u8) -> u64 {
    (frame_number << 10u64) | (flag as u64)
}

/// The frame number stored in an entry.
pub open spec fn spec_frame_number(bits: u64) -> u64 {
    (bits & FRAME_NUMBER_MASK) >> 10u64
}

/// The flags stored in an entry.
pub open spec fn spec_flag(bits: u64) -> u8 {
    (bits & FLAG_MASK) as u8
}

/// The bits of an entry after its flags are replaced by `flag`: the frame number is
/// kept, the software bits and bits 54..=63 are cleared.
pub open spec fn spec_flag_set(bits: u64, flag: u8) -> u64 {
    (bits & FRAME_NUMBER_MASK) | (flag as u64)
}

/// A page-table entry.
#[derive(Clone, Copy, Debug, PartialEq, Eq, Structural)]
pub struct Entry {
    bits: u64,
}

impl View for Entry {
    type V = u64;

    closed spec fn view(&self) -> u64 {
        self.bits
    }
}

impl Entry {
    pub fn from_bits(bits: u64) -> (r: Entry)
        ensures
            r@ == bits,
    {
        Entry { bits }
    }

    pub fn bits(&self) -> (r: u64)
        ensures
            r == self@,
    {
        self.bits
    }

    pub fn bits_set(&mut self, bits: u64)
        ensures
            final(self)@ == bits,
    {
        self.bits = bits;
    }
}

/// Reading and writing the fields of SV39 entries.
pub struct EntryLib;

impl EntryLib {
    /// An entry that maps frame `frame_num` with flags `page_flag`.
    pub fn new(frame_num: u64, page_flag: Flag) -> (r: Entry)
        ensures
            r@ == spec_entry_bits(frame_num, page_flag@),
    {
        let frame_number_bits = frame_num << FRAME_NUMBER_SHIFT;
        let flag_bits = (page_flag.bits() as u64) << FLAG_SHIFT;
        let ghost fb: u8 = page_flag@;
        assert(((fb as u64) << 0u64) == fb as u64) by (bit_vector);
        Entry::from_bits(frame_number_bits | flag_bits)
    }

    /// The frame number that `entry` maps.
    pub fn frame_number(entry: &Entry) -> (r: u64)
        ensures
            r == spec_frame_number(entry@),
            valid_frame_number(r),
    {
        let r = (entry.bits() & FRAME_NUMBER_MASK) >> FRAME_NUMBER_SHIFT;
        let ghost b = entry@;
        assert(((b & 0b111_111_111_111_111_111_111_111_111_111_111_111_111_111_110_000_000_000u64) >> 10u64) < 0x1000_0000_0000u64) by (bit_vector);
        r
    }

    /// The flags of `entry`.
    pub fn flag(entry: &Entry) -> (r: Flag)
        ensures
            r@ == spec_flag(entry@),
    {
        let flag = (entry.bits() & FLAG_MASK) >> FLAG_SHIFT;
        let ghost b = entry@;
        assert(((b & 0b11_111_111_111u64) >> 0u64) == b & 0b11_111_111_111u64) by (bit_vector);
        Flag::from_bits(flag as u8).unwrap()
    }

    /// Replaces the flags of `entry` with `page_flag`, keeping its frame number.
    pub fn flag_set(entry: &mut Entry, page_flag: Flag)
        ensures
            final(entry)@ == spec_flag_set(old(entry)@, page_flag@),
    {
        let frame_number_bits = entry.bits() & FRAME_NUMBER_MASK;
        let flag_bits = (page_flag.bits() as u64) << FLAG_SHIFT;
        let ghost fb: u8 = page_flag@;
        assert(((fb as u64) << 0u64) == fb as u64) by (bit_vector);
        entry.bits_set(frame_number_bits | flag_bits);
    }
}

/// Decoding an entry built by `EntryLib::new` gives back its frame number, for every
/// frame number that fits in 44 bits.
pub proof fn lemma_new_frame_number(frame_number: u64, flag: u8)
    requires
        valid_frame_number(frame_number),
    ensures
        spec_frame_number(spec_entry_bits(frame_number, flag)) == frame_number,
{
    assert(frame_number < 0x1000_0000_0000u64 ==> ((((frame_number << 10u64) | (flag as u64))
        & 0b111_111_111_111_111_111_111_111_111_111_111_111_111_111_110_000_000_000u64) >> 10u64)
        == frame_number) by (bit_vector);
}

/// Decoding an entry built by `EntryLib::new` gives back its flags.
pub proof fn lemma_new_flag(frame_number: u64, flag: u8)
    ensures
        spec_flag(spec_entry_bits(frame_number, flag)) == flag,
{
    assert((((frame_number << 10u64) | (flag as u64)) & 0b11_111_111_111u64) as u8 == flag) by (bit_vector);
}

/// After `EntryLib::flag_set`, the entry reads back the new flags and keeps its frame number.
pub proof fn lemma_flag_set(bits: u64, flag: u8)
    ensures
        spec_flag(spec_flag_set(bits, flag)) == flag,
        spec_frame_number(spec_flag_set(bits, flag)) == spec_frame_number(bits),
{
    assert((((bits & 0b111_111_111_111_111_111_111_111_111_111_111_111_111_111_110_000_000_000u64)
        | (flag as u64)) & 0b11_111_111_111u64) as u8 == flag) by (bit_vector);
    assert(((((bits & 0b111_111_111_111_111_111_111_111_111_111_111_111_111_111_110_000_000_000u64)
        | (flag as u64)) & 0b111_111_111_111_111_111_111_111_111_111_111_111_111_111_110_000_000_000u64)
        >> 10u64) == (bits & 0b111_111_111_111_111_111_111_111_111_111_111_111_111_111_110_000_000_000u64) >> 10u64) by (bit_vector);
}

/// Replacing the flags of a fresh entry gives the entry built with the new flags.
pub proof fn lemma_flag_set_of_new(frame_number: u64, flag: u8, new_flag: u8)
    requires
        valid_frame_number(frame_number),
    ensures
        spec_flag_set(spec_entry_bits(frame_number, flag), new_flag) == spec_entry_bits(frame_number, new_flag),
{
    assert(frame_number < 0x1000_0000_0000u64 ==> ((((frame_number << 10u64) | (flag as u64))
        & 0b111_111_111_111_111_111_111_111_111_111_111_111_111_111_110_000_000_000u64) | (new_flag as u64))
        == ((frame_number << 10u64) | (new_flag as u64))) by (bit_vector);
}

} // verus!
