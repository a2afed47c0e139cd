//! Pages of physical memory.
use vstd::prelude::*;

verus! {

/// One page of memory.
pub struct Page([u8; 4096]);

impl Page {
    /// The size of a page in bytes.
    pub const SIZE: usize = 4096;

    /// The number of low address bits that select a byte inside a page.
    pub const OFFSET_BITS: u8 = 12;

    /// The mask of the low address bits that select a byte inside a page.
    pub const OFFSET_MASK: usize = 0xfff;
}

/// A page spans exactly the addresses that its offset bits select: its size
/// is two to the number of offset bits, and the offset mask is the size minus
/// one, so `addr & OFFSET_MASK` is `addr % SIZE`.
pub proof fn lemma_page_geometry(addr: usize)
    ensures
        Page::SIZE == 1usize << Page::OFFSET_BITS,
        Page::OFFSET_MASK == Page::SIZE - 1,
        addr & Page::OFFSET_MASK == addr % Page::SIZE,
        addr & Page::OFFSET_MASK < Page::SIZE,
{
    assert(1usize << 12u8 == 4096) by (bit_vector);
    assert(addr & 0xfff == addr % 4096) by (bit_vector);
    assert(addr & 0xfff < 4096) by (bit_vector);
}

} // verus!
