//! The processor status register: eight boolean flags packed into one byte at
//! fixed bit positions. The push/pull masking invariants (bit 5 forced to 1,
//! bit 4 forced to 0 on restore) are centralized here so that no call site can
//! forget them.

use vstd::prelude::*;

verus! {

/// Bit 0: carry out of the last arithmetic or shift operation.
pub const CARRY: u8 = 0x01;
/// Bit 1: the last result was zero.
pub const ZERO: u8 = 0x02;
/// Bit 2: maskable interrupts are disabled.
pub const INTERRUPT_DISABLE: u8 = 0x04;
/// Bit 3: decimal arithmetic mode (stored but never honored by this engine).
pub const DECIMAL_MODE: u8 = 0x08;
/// Bit 4: break marker; meaningful only in the pushed representation.
pub const BREAK_MARKER: u8 = 0x10;
/// Bit 5: unused; always reads as 1 when the flags are externalized.
pub const UNUSED: u8 = 0x20;
/// Bit 6: two's-complement (signed) overflow.
pub const OVERFLOW: u8 = 0x40;
/// Bit 7: the last result had its high bit set.
pub const NEGATIVE: u8 = 0x80;

/// The byte that `set` produces: `mask`'s bits forced to `value`, the rest of
/// `bits` kept.
pub open spec fn spec_set_bits(bits: u8, mask: u8, value: bool) -> u8 {
    if value {
        bits | mask
    } else {
        bits & !mask
    }
}

/// The live flag register, packed into one byte.
#[derive(Clone, Copy, PartialEq, Eq, Structural, Debug)]
pub struct Flags {
    pub bits: u8,
}

impl Flags {
    pub open spec fn spec_contains(self, mask: u8) -> bool {
        self.bits & mask != 0
    }

    pub open spec fn carry(self) -> bool {
        self.spec_contains(CARRY)
    }

    pub open spec fn zero(self) -> bool {
        self.spec_contains(ZERO)
    }

    pub open spec fn interrupt_disable(self) -> bool {
        self.spec_contains(INTERRUPT_DISABLE)
    }

    pub open spec fn decimal_mode(self) -> bool {
        self.spec_contains(DECIMAL_MODE)
    }

    pub open spec fn overflow(self) -> bool {
        self.spec_contains(OVERFLOW)
    }

    pub open spec fn negative(self) -> bool {
        self.spec_contains(NEGATIVE)
    }

    /// The flags after setting or clearing the bits of `mask`.
    pub open spec fn spec_set(self, mask: u8, value: bool) -> Flags {
        Flags { bits: spec_set_bits(self.bits, mask, value) }
    }

    /// The byte pushed for this flag register: bits 4 and 5 forced to 1 on
    /// the exported copy only.
    pub open spec fn spec_pushed_byte(self) -> u8 {
        self.bits | (BREAK_MARKER | UNUSED)
    }

    /// The live flags installed from a byte popped off the stack: bit 5
    /// forced to 1 and bit 4 forced to 0, whatever was stored.
    pub open spec fn spec_pulled(value: u8) -> Flags {
        Flags { bits: (value | UNUSED) & !BREAK_MARKER }
    }

    /// All flags cleared.
    pub fn empty() -> (r: Flags)
        ensures
            r.bits == 0,
    {
        Flags { bits: 0 }
    }

    /// The raw packed byte of the live flags.
    pub fn bits(&self) -> (r: u8)
        ensures
            r == self.bits,
    {
        self.bits
    }

    /// Whether any bit of `mask` is set.
    pub fn contains(&self, mask: u8) -> (r: bool)
        ensures
            r == self.spec_contains(mask),
    {
        self.bits & mask != 0
    }

    /// Sets every bit of `mask`.
    pub fn insert(&mut self, mask: u8)
        ensures
            *final(self) == old(self).spec_set(mask, true),
    {
        self.bits = self.bits | mask;
    }

    /// Clears every bit of `mask`.
    pub fn remove(&mut self, mask: u8)
        ensures
            *final(self) == old(self).spec_set(mask, false),
    {
        self.bits = self.bits & !mask;
    }

    /// Sets or clears every bit of `mask` from a boolean.
    pub fn set(&mut self, mask: u8, value: bool)
        ensures
            *final(self) == old(self).spec_set(mask, value),
    {
        if value {
            self.insert(mask);
        } else {
            self.remove(mask);
        }
    }

    /// The byte to push for this flag register. The live flags are not
    /// mutated; the exported copy has the break marker and the unused bit
    /// forced to 1.
    pub fn pushed_byte(&self) -> (r: u8)
        ensures
            r == self.spec_pushed_byte(),
    {
        self.bits | (BREAK_MARKER | UNUSED)
    }

    /// Installs live flags from a byte popped off the stack, forcing bit 5
    /// to 1 and bit 4 to 0 and discarding whatever break marker was stored.
    pub fn pulled(value: u8) -> (r: Flags)
        ensures
            r == Flags::spec_pulled(value),
    {
        Flags { bits: (value | UNUSED) & !BREAK_MARKER }
    }
}

/// Setting or clearing the bits of `mask` leaves every bit outside `mask`
/// unchanged.
pub proof fn lemma_set_preserves_others(f: Flags, mask: u8, value: bool, other: u8)
    requires
        mask & other == 0,
    ensures
        f.spec_set(mask, value).spec_contains(other) == f.spec_contains(other),
{
    let b = f.bits;
    assert((b | mask) & other == b & other) by (bit_vector)
        requires
            mask & other == 0,
    ;
    assert((b & !mask) & other == b & other) by (bit_vector)
        requires
            mask & other == 0,
    ;
}

/// After `set(mask, value)` with a nonzero mask, `contains(mask)` reads back
/// exactly `value`.
pub proof fn lemma_set_reads_back(f: Flags, mask: u8, value: bool)
    requires
        mask != 0,
    ensures
        f.spec_set(mask, value).spec_contains(mask) == value,
{
    let b = f.bits;
    assert((b | mask) & mask != 0) by (bit_vector)
        requires
            mask != 0,
    ;
    assert((b & !mask) & mask == 0) by (bit_vector);
}

} // verus!
