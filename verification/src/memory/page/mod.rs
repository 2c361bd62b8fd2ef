//! SV39 page tables: three levels of 512 entries.
//!
//! A virtual page number is 27 bits wide; it splits into three 9-bit indices, the
//! first one selecting the entry in the root table.
use vstd::prelude::*;
use crate::memory::Flag;

pub mod entry;

use entry::{Entry, EntryLib};

verus! {

/// Index of the entry that translates page `page_num` in the table at `level`
/// (0 is the root).
pub open spec fn spec_index(page_num: usize, level: int) -> usize {
    (page_num >> ((9 * (2 - level)) as usize)) & 511usize
}

/// The page-table operations of SV39.
pub struct Lib;

impl Lib {
    /// The indices of `page_num` in the three levels of tables, root first.
    pub fn index(page_num: usize) -> (r: Vec<usize>)
        ensures
            r@ == seq![(page_num >> 18usize) & 511usize, (page_num >> 9usize) & 511usize, page_num & 511usize],
            r.len() == 3,
            forall|level: int| 0 <= level < 3 ==> #[trigger] r@[level] == spec_index(page_num, level),
    {
        let mut page_num_rest = page_num;
        let mut index: Vec<usize> = vec![0usize, 0usize, 0usize];
        index.set(2, page_num_rest & 0b111_111_111);
        proof {
            assert(page_num >> 0usize == page_num) by (bit_vector);
        }
        let mut i: usize = 2;
        while i > 0
            invariant
                0 <= i <= 2,
                index.len() == 3,
                page_num_rest == page_num >> ((9 * (2 - i)) as usize),
                forall|level: int| i <= level < 3 ==> #[trigger] index@[level] == spec_index(page_num, level),
            decreases i,
        {
            i = i - 1;
            let ghost prev = page_num_rest;
            page_num_rest = page_num_rest >> 9;
            proof {
                let s: usize = (9 * (2 - (i + 1))) as usize;
                assert(s <= 9);
                assert((page_num >> s) >> 9usize == page_num >> ((s + 9) as usize)) by (bit_vector)
                    requires s <= 9;
            }
            index.set(i, page_num_rest & 0b111_111_111);
        }
        proof {
            assert(page_num >> 0usize == page_num) by (bit_vector);
        }
        index
    }

    /// Number of levels of page tables.
    pub fn conf() -> (r: usize)
        ensures
            r == 3,
    {
        3
    }

    pub fn flag(entry: &Entry) -> (r: Flag)
        ensures
            r@ == entry::spec_flag(entry@),
    {
        EntryLib::flag(entry)
    }

    pub fn new_entry(frame_num: u64, page_flag: Flag) -> (r: Entry)
        ensures
            r@ == entry::spec_entry_bits(frame_num, page_flag@),
    {
        EntryLib::new(frame_num, page_flag)
    }

    pub fn frame_number(entry: &Entry) -> (r: u64)
        ensures
            r == entry::spec_frame_number(entry@),
    {
        EntryLib::frame_number(entry)
    }

    pub fn set_flag(entry: &mut Entry, page_flag: Flag)
        ensures
            final(entry)@ == entry::spec_flag_set(old(entry)@, page_flag@),
    {
        EntryLib::flag_set(entry, page_flag);
    }
}

/// The three indices of a 27-bit page number are each below 512, and they give the
/// page number back as its digits in base 512.
pub proof fn lemma_index_digits(page_num: usize)
    requires
        page_num < 0x800_0000,
    ensures
        spec_index(page_num, 0) < 512,
        spec_index(page_num, 1) < 512,
        spec_index(page_num, 2) < 512,
        spec_index(page_num, 0) * 0x4_0000 + spec_index(page_num, 1) * 0x200 + spec_index(page_num, 2)
            == page_num,
{
    assert(spec_index(page_num, 0) == (page_num >> 18usize) & 511usize);
    assert(spec_index(page_num, 1) == (page_num >> 9usize) & 511usize);
    assert(spec_index(page_num, 2) == (page_num >> 0usize) & 511usize);
    assert(page_num < 0x800_0000usize ==> ((page_num >> 18usize) & 511usize) < 512usize
        && ((page_num >> 9usize) & 511usize) < 512usize && ((page_num >> 0usize) & 511usize) < 512usize
        && ((page_num >> 18usize) & 511usize) * 0x4_0000usize + ((page_num >> 9usize) & 511usize) * 0x200usize
        + ((page_num >> 0usize) & 511usize) == page_num) by (bit_vector);
}

} // verus!
