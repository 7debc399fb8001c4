//! The bus routes 16-bit addresses to the correct backing storage, applying
//! the console's mirroring rules:
//!
//! - `0x0000..=0x1FFF`: 2 KiB of RAM mirrored four times; an address is
//!   masked to its low 11 bits before indexing.
//! - `0x2000..=0x3FFF`: a bank of display-controller registers mirrored every
//!   8 addresses. The register side-effects belong to the display controller,
//!   which is outside this core; the bus computes the masked register address
//!   and routes it to a plain 8-byte latch standing in for that device.
//! - everything else: cartridge-mapped space, backed here by a default plain
//!   store so that every address reads and writes without failing.

use vstd::prelude::*;

use crate::mem::Mem;

verus! {

pub const RAM_MIRROR_END: u16 = 0x1FFF;
pub const PPU_REGISTERS_MIRROR_END: u16 = 0x3FFF;
pub const CART_START: u16 = 0x4000;

/// Keep the low 11 bits: the RAM only has 2 KiB behind its 8 KiB window.
pub const RAM_MIRROR_MASK: u16 = 0x07FF;
/// Keep the low 3 bits: 8 registers behind the whole register window.
pub const PPU_REG_MASK: u16 = 0x0007;

pub struct Bus {
    pub cpu_vram: Vec<u8>,
    pub device_regs: Vec<u8>,
    pub cart: Vec<u8>,
}

impl Bus {
    /// The physical cell behind a bus address, numbering RAM cells first,
    /// then the device registers, then the cartridge space.
    pub open spec fn phys(addr: u16) -> int {
        if addr <= RAM_MIRROR_END {
            (addr & RAM_MIRROR_MASK) as int
        } else if addr <= PPU_REGISTERS_MIRROR_END {
            2048 + (addr & PPU_REG_MASK)
        } else {
            2056 + (addr - CART_START)
        }
    }

    pub open spec fn wf(self) -> bool {
        &&& self.cpu_vram@.len() == 2048
        &&& self.device_regs@.len() == 8
        &&& self.cart@.len() == 0xC000
    }

    /// The byte visible at a bus address.
    pub open spec fn spec_read(self, addr: u16) -> u8 {
        if addr <= RAM_MIRROR_END {
            self.cpu_vram@[(addr & RAM_MIRROR_MASK) as int]
        } else if addr <= PPU_REGISTERS_MIRROR_END {
            self.device_regs@[(addr & PPU_REG_MASK) as int]
        } else {
            self.cart@[addr - CART_START]
        }
    }

    pub fn new() -> (r: Bus)
        ensures
            r.wf(),
            forall|a: u16| r.spec_read(a) == 0,
    {
        let bus = Bus {
            cpu_vram: vec![0u8; 2048],
            device_regs: vec![0u8; 8],
            cart: vec![0u8; 0xC000],
        };
        proof {
            assert forall|a: u16| bus.spec_read(a) == 0 by {
                lemma_phys_bounds(a);
            }
        }
        bus
    }
}

/// Each address class masks into its own backing store.
pub proof fn lemma_phys_bounds(addr: u16)
    ensures
        addr <= RAM_MIRROR_END ==> 0 <= (addr & RAM_MIRROR_MASK) < 2048,
        addr > RAM_MIRROR_END && addr <= PPU_REGISTERS_MIRROR_END ==> 0 <= (addr & PPU_REG_MASK)
            < 8,
        addr > PPU_REGISTERS_MIRROR_END ==> 0 <= addr - CART_START < 0xC000,
{
    assert(addr & 0x07FF < 2048) by (bit_vector);
    assert(addr & 0x0007 < 8) by (bit_vector);
}

impl Mem for Bus {
    open spec fn mem_wf(&self) -> bool {
        self.wf()
    }

    open spec fn spec_mem(&self, addr: u16) -> u8 {
        self.spec_read(addr)
    }

    open spec fn mem_index(&self, addr: u16) -> int {
        Bus::phys(addr)
    }

    fn mem_read(&self, addr: u16) -> (r: u8) {
        proof {
            lemma_phys_bounds(addr);
        }
        if addr <= RAM_MIRROR_END {
            let mirrored = addr & RAM_MIRROR_MASK;
            self.cpu_vram[mirrored as usize]
        } else if addr <= PPU_REGISTERS_MIRROR_END {
            let mirrored = addr & PPU_REG_MASK;
            self.device_regs[mirrored as usize]
        } else {
            self.cart[(addr - CART_START) as usize]
        }
    }

    fn mem_write(&mut self, addr: u16, data: u8) {
        proof {
            lemma_phys_bounds(addr);
        }
        if addr <= RAM_MIRROR_END {
            let mirrored = addr & RAM_MIRROR_MASK;
            self.cpu_vram[mirrored as usize] = data;
        } else if addr <= PPU_REGISTERS_MIRROR_END {
            let mirrored = addr & PPU_REG_MASK;
            self.device_regs[mirrored as usize] = data;
        } else {
            self.cart[(addr - CART_START) as usize] = data;
        }
        proof {
            assert forall|a: u16| #[trigger] self.spec_mem(a) == if old(self).mem_index(a) == old(
                self,
            ).mem_index(addr) {
                data
            } else {
                old(self).spec_mem(a)
            } by {
                lemma_phys_bounds(a);
            }
        }
    }
}

} // verus!
