//! The byte-addressable memory interface shared by every memory-owning
//! component: byte read/write at any 16-bit address, and little-endian word
//! read/write built from the byte primitives.
//!
//! A device may alias several bus addresses to one physical cell (mirroring).
//! The model is therefore pointwise: `spec_mem` gives the byte visible at
//! each address, and `mem_index` names the physical cell an address selects,
//! so that a write is observable exactly at the addresses that share its cell.

use vstd::prelude::*;

verus! {

/// The 16-bit word formed from a low and a high byte, little-endian.
pub open spec fn word_le(low: u8, high: u8) -> u16 {
    (low + 256 * high) as u16
}

/// The low byte of a 16-bit word.
pub open spec fn low_byte(w: u16) -> u8 {
    (w & 0xff) as u8
}

/// The high byte of a 16-bit word.
pub open spec fn high_byte(w: u16) -> u8 {
    (w >> 8) as u8
}

/// Splitting a word into bytes and reassembling them round-trips, and the
/// assembled word is the arithmetic value of its bytes.
pub proof fn lemma_word_le_bytes(w: u16)
    ensures
        word_le(low_byte(w), high_byte(w)) == w,
        low_byte(w) == w % 256,
        high_byte(w) == w / 256,
{
    assert((w & 0xff) == w % 256) by (bit_vector);
    assert((w >> 8) == w / 256) by (bit_vector);
}

pub trait Mem {
    /// Well-formedness of the device's backing storage.
    spec fn mem_wf(&self) -> bool;

    /// The byte visible at each 16-bit address.
    spec fn spec_mem(&self, addr: u16) -> u8;

    /// The physical cell that an address selects; two addresses with the
    /// same cell are mirrors of one another.
    spec fn mem_index(&self, addr: u16) -> int;

    fn mem_read(&self, addr: u16) -> (r: u8)
        requires
            self.mem_wf(),
        ensures
            r == self.spec_mem(addr),
    ;

    fn mem_write(&mut self, addr: u16, data: u8)
        requires
            old(self).mem_wf(),
        ensures
            final(self).mem_wf(),
            forall|a: u16|
                #[trigger] final(self).spec_mem(a) == if old(self).mem_index(a) == old(self).mem_index(
                    addr,
                ) {
                    data
                } else {
                    old(self).spec_mem(a)
                },
            forall|a: u16| #[trigger] final(self).mem_index(a) == old(self).mem_index(a),
    ;

    /// Reads a 16-bit word in little-endian order: the low byte at `addr`,
    /// the high byte at the following address (wrapping at the top of the
    /// address space).
    fn mem_read_u16(&self, addr: u16) -> (r: u16)
        requires
            self.mem_wf(),
        ensures
            r == word_le(self.spec_mem(addr), self.spec_mem(addr.wrapping_add(1))),
    {
        let low = self.mem_read(addr);
        let high = self.mem_read(addr.wrapping_add(1));
        proof {
            assert(((high as u16) << 8) | (low as u16) == low + 256 * high) by (bit_vector);
        }
        ((high as u16) << 8) | (low as u16)
    }

    /// Writes a 16-bit word in little-endian order: the low byte to `addr`,
    /// the high byte to the following address (wrapping at the top of the
    /// address space).
    fn mem_write_u16(&mut self, addr: u16, data: u16)
        requires
            old(self).mem_wf(),
        ensures
            final(self).mem_wf(),
            forall|a: u16|
                #[trigger] final(self).spec_mem(a) == if old(self).mem_index(a) == old(self).mem_index(
                    addr.wrapping_add(1),
                ) {
                    high_byte(data)
                } else if old(self).mem_index(a) == old(self).mem_index(addr) {
                    low_byte(data)
                } else {
                    old(self).spec_mem(a)
                },
            forall|a: u16| #[trigger] final(self).mem_index(a) == old(self).mem_index(a),
    {
        let low = (data & 0xff) as u8;
        let high = (data >> 8) as u8;
        self.mem_write(addr, low);
        self.mem_write(addr.wrapping_add(1), high);
    }
}

} // verus!
