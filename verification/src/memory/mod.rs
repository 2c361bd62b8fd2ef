//! Memory management: addresses, page numbers and page permission flags.
use vstd::prelude::*;

pub mod page;

verus! {

/// Bits of the byte offset inside a 4 KiB page.
pub const OFFSET_WIDTH: usize = 12;

/// The address of the first byte of page `number`, in a machine word (bits shifted out
/// are lost).
pub open spec fn spec_address(number: usize) -> usize {
    number << 12usize
}

/// Whether the last byte of page `number` can be computed without overflow: the next
/// page number exists and its address is not 0.
pub open spec fn last_byte_defined(number: usize) -> bool {
    number < usize::MAX && spec_address((number + 1) as usize) != 0
}

/// The address of the last byte of page `number`.
pub open spec fn spec_last_byte(number: usize) -> usize {
    (spec_address((number + 1) as usize) - 1) as usize
}

/// Conversions between byte addresses and page (or frame) numbers.
pub struct Address;

impl Address {
    /// The number of the page that holds byte address `address`.
    pub fn number(address: usize) -> (r: usize)
        ensures
            r == address >> 12usize,
            r == address / 4096,
    {
        assert(address >> 12usize == address / 4096) by (bit_vector);
        address >> OFFSET_WIDTH
    }

    /// The address of the first byte of page `number`.
    pub fn address(number: usize) -> (r: usize)
        ensures
            r == spec_address(number),
            number * 4096 <= usize::MAX ==> r == number * 4096,
    {
        proof {
            vstd::arithmetic::power2::lemma2_to64();
            if number * 4096 <= usize::MAX {
                vstd::bits::lemma_usize_shl_is_mul(number, 12);
            }
        }
        number << OFFSET_WIDTH
    }

    /// The address of the last byte of page `number`: the initial stack pointer of a
    /// stack whose highest page is `number`.
    pub fn last_byte(number: usize) -> (r: usize)
        requires
            last_byte_defined(number),
        ensures
            r == spec_last_byte(number),
            (number + 1) * 4096 <= usize::MAX ==> r == (number + 1) * 4096 - 1,
    {
        Self::address(number + 1) - 1
    }
}

/// The first and the last byte of page `number` both lie in page `number`.
pub proof fn lemma_number_of_address(number: usize)
    requires
        number * 4096 <= usize::MAX,
    ensures
        (number * 4096) / 4096 == number,
        (((number + 1) * 4096 - 1) as int) / 4096 == number,
{
    assert((number * 4096) / 4096 == number) by (nonlinear_arith);
    assert((((number + 1) * 4096 - 1) as int) / 4096 == number) by (nonlinear_arith);
}

/// Permission and status bits of an SV39 page-table entry:
/// V (bit 0), R, W, X, U, G, A, D (bit 7).
#[derive(Clone, Copy, Debug, PartialEq, Eq, Structural)]
pub struct Flag {
    bits: u8,
}

impl View for Flag {
    type V = u8;

    closed spec fn view(&self) -> u8 {
        self.bits
    }
}

impl Flag {
    /// The V flag.
    pub fn valid() -> (r: Flag)
        ensures
            r@ == 1,
    {
        Flag { bits: 0b0000_0001 }
    }

    /// The R flag.
    pub fn readable() -> (r: Flag)
        ensures
            r@ == 2,
    {
        Flag { bits: 0b0000_0010 }
    }

    /// The W flag.
    pub fn writable() -> (r: Flag)
        ensures
            r@ == 4,
    {
        Flag { bits: 0b0000_0100 }
    }

    /// The X flag.
    pub fn executable() -> (r: Flag)
        ensures
            r@ == 8,
    {
        Flag { bits: 0b0000_1000 }
    }

    /// The U flag.
    pub fn user() -> (r: Flag)
        ensures
            r@ == 16,
    {
        Flag { bits: 0b0001_0000 }
    }

    /// The G flag.
    pub fn global() -> (r: Flag)
        ensures
            r@ == 32,
    {
        Flag { bits: 0b0010_0000 }
    }

    /// The A flag.
    pub fn accessed() -> (r: Flag)
        ensures
            r@ == 64,
    {
        Flag { bits: 0b0100_0000 }
    }

    /// The D flag.
    pub fn dirty() -> (r: Flag)
        ensures
            r@ == 128,
    {
        Flag { bits: 0b1000_0000 }
    }


    pub fn bits(&self) -> (r: u8)
        ensures
            r == self@,
    {
        self.bits
    }

    /// Every byte is a valid set of flags, so this always succeeds.
    pub fn from_bits(bits: u8) -> (r: Option<Flag>)
        ensures
            r matches Some(f) && f@ == bits,
    {
        Some(Flag { bits })
    }

    /// The flags set in `self` or in `other`.
    pub fn union(&self, other: &Flag) -> (r: Flag)
        ensures
            r@ == self@ | other@,
    {
        Flag { bits: self.bits | other.bits }
    }

    /// Whether every flag of `other` is set in `self`.
    pub fn contains(&self, other: &Flag) -> (r: bool)
        ensures
            r == (self@ & other@ == other@),
    {
        self.bits & other.bits == other.bits
    }
}

} // verus!
