//! The CPU execution engine: registers, stack pointer, program counter and a
//! handle to the bus, the addressing-mode resolver, and the
//! fetch-decode-execute loop with every instruction's state transition.
//!
//! The engine's behaviour is specified against a mathematical view of the
//! machine ([`CpuView`]): the registers as plain integers and the memory as
//! the sequence of bytes visible at each of the 65536 bus addresses. Every
//! instruction is a function from view to view, and one `step` of the engine
//! equals [`spec_step`] of the old view.

use vstd::prelude::*;

use crate::bus::Bus;
use crate::flags::{Flags, CARRY, ZERO, INTERRUPT_DISABLE, DECIMAL_MODE, OVERFLOW, NEGATIVE};
use crate::mem::{Mem, word_le, low_byte, high_byte};
use crate::opcodes::{AddressingMode, opcode_lookup, spec_opcode};

verus! {

/// The stack lives in the page `0x0100..=0x01FF`.
pub const STACK_BASE: u16 = 0x0100;
/// The stack pointer's power-on value: the top two slots are conventionally
/// reserved.
pub const STACK_RESET: u8 = 0xfd;
/// `reset` seeds the program counter from the word stored here.
pub const RESET_VECTOR: u16 = 0xFFFC;
/// The fixed address at which the convenience loader places a program.
pub const PROGRAM_LOAD_ADDR: u16 = 0x0600;
/// The loader's window ends where the RAM mirror would fold further bytes
/// back onto the zero page.
pub const PROGRAM_LOAD_LIMIT: usize = 0x0200;

/// Why the engine stopped or refused.
#[derive(Clone, Copy, Debug, PartialEq, Eq, Structural)]
pub enum EmuError {
    /// The fetched opcode has no semantics this engine executes: the run
    /// loop stops fatally by design rather than silently mask wrong
    /// emulation.
    UnimplementedOpcode(u8),
    /// A caller-supplied program exceeds the available load space.
    InvalidConfiguration,
}

/// What one successful `step` did.
#[derive(Clone, Copy, Debug, PartialEq, Eq, Structural)]
pub enum StepOutcome {
    /// The instruction completed and the engine can fetch the next one.
    Continue,
    /// A break instruction halted the run loop.
    Halted,
}

/// What a bounded `run` ended with.
#[derive(Clone, Copy, Debug, PartialEq, Eq, Structural)]
pub enum RunOutcome {
    /// A break instruction halted the engine.
    Halted,
    /// The step budget ran out before the engine halted.
    StepLimit,
}

/// The mathematical view of the whole machine: registers, flags, and the
/// byte visible at each 16-bit address (mirroring already applied).
#[verifier::ext_equal]
pub struct CpuView {
    pub pc: u16,
    pub a: u8,
    pub x: u8,
    pub y: u8,
    pub sp: u8,
    pub status: Flags,
    pub mem: Seq<u8>,
}

/// The memory after writing `data` at `addr`: every address backed by the
/// same physical cell (every mirror) shows the new byte.
pub open spec fn spec_store(m: Seq<u8>, addr: u16, data: u8) -> Seq<u8> {
    Seq::new(0x10000, |a: int| if Bus::phys(a as u16) == Bus::phys(addr) {
        data
    } else {
        m[a]
    })
}

impl CpuView {
    /// A view is over the full address space.
    pub open spec fn wf(self) -> bool {
        self.mem.len() == 0x10000
    }

    /// The byte visible at an address.
    pub open spec fn byte(self, addr: u16) -> u8 {
        self.mem[addr as int]
    }

    /// The little-endian word at `addr`, its high byte taken from the next
    /// address (wrapping at the top of the address space).
    pub open spec fn word(self, addr: u16) -> u16 {
        word_le(self.byte(addr), self.byte(addr.wrapping_add(1)))
    }

    /// The little-endian word at `addr` with the high byte's address
    /// confined to the same page: `0x**FF` is followed by `0x**00`.
    pub open spec fn page_word(self, addr: u16) -> u16 {
        word_le(self.byte(addr), self.byte((addr & 0xFF00) | (addr.wrapping_add(1) & 0x00FF)))
    }

    /// The view after writing one byte.
    pub open spec fn store(self, addr: u16, data: u8) -> CpuView {
        CpuView { mem: spec_store(self.mem, addr, data), ..self }
    }
}

pub struct CPU {
    pub program_counter: u16,
    pub register_a: u8,
    pub register_x: u8,
    pub register_y: u8,
    pub status: Flags,
    pub stack_pointer: u8,
    pub bus: Bus,
}

impl View for CPU {
    type V = CpuView;

    open spec fn view(&self) -> CpuView {
        CpuView {
            pc: self.program_counter,
            a: self.register_a,
            x: self.register_x,
            y: self.register_y,
            sp: self.stack_pointer,
            status: self.status,
            mem: Seq::new(0x10000, |a: int| self.bus.spec_read(a as u16)),
        }
    }
}

/// The effective address an instruction reads or writes, resolved from the
/// addressing mode with the program counter at the first operand byte.
pub open spec fn spec_ea(v: CpuView, mode: AddressingMode) -> u16 {
    match mode {
        AddressingMode::Immediate => v.pc,
        AddressingMode::Absolute => v.word(v.pc),
        AddressingMode::ZeroPage => v.byte(v.pc) as u16,
        AddressingMode::ZeroPage_X => v.byte(v.pc).wrapping_add(v.x) as u16,
        AddressingMode::ZeroPage_Y => v.byte(v.pc).wrapping_add(v.y) as u16,
        AddressingMode::Absolute_X => v.word(v.pc).wrapping_add(v.x as u16),
        AddressingMode::Absolute_Y => v.word(v.pc).wrapping_add(v.y as u16),
        AddressingMode::Indirect_X => v.page_word(v.byte(v.pc).wrapping_add(v.x) as u16),
        AddressingMode::Indirect_Y => v.page_word(v.byte(v.pc) as u16).wrapping_add(v.y as u16),
        AddressingMode::Implied => 0,
    }
}

impl CPU {
    pub open spec fn wf(self) -> bool {
        self.bus.wf()
    }

    pub fn new() -> (r: CPU)
        ensures
            r.wf(),
            r@.pc == 0,
            r@.a == 0,
            r@.x == 0,
            r@.y == 0,
            r@.sp == STACK_RESET,
            r@.status.bits == 0,
            forall|a: u16| r@.byte(a) == 0,
    {
        CPU {
            program_counter: 0,
            status: Flags::empty(),
            register_a: 0,
            register_x: 0,
            register_y: 0,
            stack_pointer: STACK_RESET,
            bus: Bus::new(),
        }
    }

    /// The program counter.
    pub fn program_counter(&self) -> (r: u16)
        ensures
            r == self@.pc,
    {
        self.program_counter
    }

    /// The accumulator.
    pub fn register_a(&self) -> (r: u8)
        ensures
            r == self@.a,
    {
        self.register_a
    }

    /// The X index register.
    pub fn register_x(&self) -> (r: u8)
        ensures
            r == self@.x,
    {
        self.register_x
    }

    /// The Y index register.
    pub fn register_y(&self) -> (r: u8)
        ensures
            r == self@.y,
    {
        self.register_y
    }

    /// The stack pointer.
    pub fn stack_pointer(&self) -> (r: u8)
        ensures
            r == self@.sp,
    {
        self.stack_pointer
    }

    /// The live flag register.
    pub fn status(&self) -> (r: Flags)
        ensures
            r == self@.status,
    {
        self.status
    }

    /// Resolves the effective address for an addressing mode, with the
    /// program counter pointing at the first operand byte. The resolver
    /// never advances the counter.
    pub fn get_effective_addr(&mut self, addressing_mode: AddressingMode) -> (r: u16)
        requires
            old(self).wf(),
        ensures
            *final(self) == *old(self),
            r == spec_ea(old(self)@, addressing_mode),
    {
        match addressing_mode {
            AddressingMode::Immediate => self.program_counter,
            AddressingMode::Absolute => self.bus.mem_read_u16(self.program_counter),
            AddressingMode::ZeroPage => self.bus.mem_read(self.program_counter) as u16,
            AddressingMode::ZeroPage_X => {
                let base = self.bus.mem_read(self.program_counter);
                base.wrapping_add(self.register_x) as u16
            },
            AddressingMode::ZeroPage_Y => {
                let base = self.bus.mem_read(self.program_counter);
                base.wrapping_add(self.register_y) as u16
            },
            AddressingMode::Absolute_X => {
                let base = self.bus.mem_read_u16(self.program_counter);
                base.wrapping_add(self.register_x as u16)
            },
            AddressingMode::Absolute_Y => {
                let base = self.bus.mem_read_u16(self.program_counter);
                base.wrapping_add(self.register_y as u16)
            },
            AddressingMode::Indirect_X => {
                let base = self.bus.mem_read(self.program_counter);
                let pointer = base.wrapping_add(self.register_x);
                self.read_zp_16(pointer as u16)
            },
            AddressingMode::Indirect_Y => {
                let base = self.bus.mem_read(self.program_counter);
                let pointer = self.read_zp_16(base as u16);
                pointer.wrapping_add(self.register_y as u16)
            },
            AddressingMode::Implied => 0,
        }
    }

    /// Reads a 16-bit little-endian word whose high byte's address stays on
    /// the same page as `addr`: a pointer at `0x00FF` reads its high byte
    /// from `0x0000`, not `0x0100`.
    fn read_zp_16(&self, addr: u16) -> (r: u16)
        requires
            self.wf(),
        ensures
            r == self@.page_word(addr),
    {
        let low = self.bus.mem_read(addr);
        let high = self.bus.mem_read((addr & 0xFF00) | (addr.wrapping_add(1) & 0x00FF));
        proof {
            assert(((high as u16) << 8) | (low as u16) == low + 256 * high) by (bit_vector);
        }
        ((high as u16) << 8) | (low as u16)
    }
}

/// Zero is set when the value is zero; Negative mirrors the value's bit 7.
pub open spec fn spec_update_zn(f: Flags, value: u8) -> Flags {
    f.spec_set(ZERO, value == 0).spec_set(NEGATIVE, value & 0x80 != 0)
}

/// A branch offset sign-extended to 16 bits.
pub open spec fn spec_rel(off: u8) -> u16 {
    if off < 0x80 {
        off as u16
    } else {
        (off + 0xFF00) as u16
    }
}

/// Load the accumulator from the effective address.
pub open spec fn spec_lda(v: CpuView, mode: AddressingMode) -> CpuView {
    let value = v.byte(spec_ea(v, mode));
    CpuView { a: value, status: spec_update_zn(v.status, value), ..v }
}

/// Load the X register from the effective address.
pub open spec fn spec_ldx(v: CpuView, mode: AddressingMode) -> CpuView {
    let value = v.byte(spec_ea(v, mode));
    CpuView { x: value, status: spec_update_zn(v.status, value), ..v }
}

/// Load the Y register from the effective address.
pub open spec fn spec_ldy(v: CpuView, mode: AddressingMode) -> CpuView {
    let value = v.byte(spec_ea(v, mode));
    CpuView { y: value, status: spec_update_zn(v.status, value), ..v }
}

/// Store the accumulator at the effective address; flags untouched.
pub open spec fn spec_sta(v: CpuView, mode: AddressingMode) -> CpuView {
    v.store(spec_ea(v, mode), v.a)
}

/// Store the X register at the effective address; flags untouched.
pub open spec fn spec_stx(v: CpuView, mode: AddressingMode) -> CpuView {
    v.store(spec_ea(v, mode), v.x)
}

/// Store the Y register at the effective address; flags untouched.
pub open spec fn spec_sty(v: CpuView, mode: AddressingMode) -> CpuView {
    v.store(spec_ea(v, mode), v.y)
}

/// Transfer the accumulator to X.
pub open spec fn spec_tax(v: CpuView) -> CpuView {
    CpuView { x: v.a, status: spec_update_zn(v.status, v.a), ..v }
}

/// Transfer X to the accumulator.
pub open spec fn spec_txa(v: CpuView) -> CpuView {
    CpuView { a: v.x, status: spec_update_zn(v.status, v.x), ..v }
}

/// Transfer the accumulator to Y.
pub open spec fn spec_tay(v: CpuView) -> CpuView {
    CpuView { y: v.a, status: spec_update_zn(v.status, v.a), ..v }
}

/// Transfer Y to the accumulator.
pub open spec fn spec_tya(v: CpuView) -> CpuView {
    CpuView { a: v.y, status: spec_update_zn(v.status, v.y), ..v }
}

/// Transfer the stack pointer to X.
pub open spec fn spec_tsx(v: CpuView) -> CpuView {
    CpuView { x: v.sp, status: spec_update_zn(v.status, v.sp), ..v }
}

/// Transfer X to the stack pointer; no flags are updated.
pub open spec fn spec_txs(v: CpuView) -> CpuView {
    CpuView { sp: v.x, ..v }
}

/// Increment X with wraparound.
pub open spec fn spec_inx(v: CpuView) -> CpuView {
    let value = v.x.wrapping_add(1);
    CpuView { x: value, status: spec_update_zn(v.status, value), ..v }
}

/// Increment Y with wraparound.
pub open spec fn spec_iny(v: CpuView) -> CpuView {
    let value = v.y.wrapping_add(1);
    CpuView { y: value, status: spec_update_zn(v.status, value), ..v }
}

/// Decrement X with wraparound.
pub open spec fn spec_dex(v: CpuView) -> CpuView {
    let value = v.x.wrapping_sub(1);
    CpuView { x: value, status: spec_update_zn(v.status, value), ..v }
}

/// Decrement Y with wraparound.
pub open spec fn spec_dey(v: CpuView) -> CpuView {
    let value = v.y.wrapping_sub(1);
    CpuView { y: value, status: spec_update_zn(v.status, value), ..v }
}

/// Bitwise AND of the accumulator with the operand.
pub open spec fn spec_and(v: CpuView, mode: AddressingMode) -> CpuView {
    let value = v.a & v.byte(spec_ea(v, mode));
    CpuView { a: value, status: spec_update_zn(v.status, value), ..v }
}

/// Bitwise OR of the accumulator with the operand.
pub open spec fn spec_ora(v: CpuView, mode: AddressingMode) -> CpuView {
    let value = v.a | v.byte(spec_ea(v, mode));
    CpuView { a: value, status: spec_update_zn(v.status, value), ..v }
}

/// Bitwise XOR of the accumulator with the operand.
pub open spec fn spec_eor(v: CpuView, mode: AddressingMode) -> CpuView {
    let value = v.a ^ v.byte(spec_ea(v, mode));
    CpuView { a: value, status: spec_update_zn(v.status, value), ..v }
}

/// Bit test: Zero from the masked accumulator, Overflow and Negative copied
/// from the operand's bits 6 and 7; no register is mutated.
pub open spec fn spec_bit(v: CpuView, mode: AddressingMode) -> CpuView {
    let value = v.byte(spec_ea(v, mode));
    CpuView {
        status: v.status.spec_set(ZERO, value & v.a == 0).spec_set(
            OVERFLOW,
            value & 0x40 != 0,
        ).spec_set(NEGATIVE, value & 0x80 != 0),
        ..v
    }
}

/// Compare a register with the operand: Carry is the unsigned
/// greater-or-equal, Zero and Negative come from the wrapping difference;
/// the register itself is unmodified.
pub open spec fn spec_compare(v: CpuView, reg: u8, mode: AddressingMode) -> CpuView {
    let value = v.byte(spec_ea(v, mode));
    let result = reg.wrapping_sub(value);
    CpuView { status: spec_update_zn(v.status.spec_set(CARRY, reg >= value), result), ..v }
}

/// Add a value and the incoming carry to the accumulator: Carry from the
/// 16-bit sum, two's-complement Overflow from the operand/result sign bits,
/// Zero and Negative from the low byte of the sum.
pub open spec fn spec_add_to_a(v: CpuView, value: u8) -> CpuView {
    let carry_in: int = if v.status.carry() {
        1
    } else {
        0
    };
    let sum = v.a + value + carry_in;
    let result = (sum % 256) as u8;
    let overflowed = (v.a ^ result) & (value ^ result) & 0x80 != 0;
    CpuView {
        a: result,
        status: spec_update_zn(
            v.status.spec_set(CARRY, sum > 0xFF).spec_set(OVERFLOW, overflowed),
            result,
        ),
        ..v
    }
}

/// Add-with-carry of the operand at the effective address.
pub open spec fn spec_adc(v: CpuView, mode: AddressingMode) -> CpuView {
    spec_add_to_a(v, v.byte(spec_ea(v, mode)))
}

/// Subtract-with-carry: add-with-carry of the operand's bitwise complement;
/// there is no separate borrow path.
pub open spec fn spec_sbc(v: CpuView, mode: AddressingMode) -> CpuView {
    spec_add_to_a(v, !v.byte(spec_ea(v, mode)))
}

/// A conditional branch: the operand byte is consumed only when the branch
/// is taken, and the counter then moves by the sign-extended offset. (The
/// execution loop advances the counter past the operand of an untaken
/// branch, as it does for every instruction that leaves the counter alone.)
pub open spec fn spec_branch(v: CpuView, condition: bool) -> CpuView {
    if condition {
        let after = v.pc.wrapping_add(1);
        CpuView { pc: after.wrapping_add(spec_rel(v.byte(v.pc))), ..v }
    } else {
        v
    }
}

/// Push one byte: write at the stack page slot named by the pointer, then
/// decrement the pointer with byte wraparound.
pub open spec fn spec_push(v: CpuView, data: u8) -> CpuView {
    let written = v.store((STACK_BASE + v.sp) as u16, data);
    CpuView { sp: v.sp.wrapping_sub(1), ..written }
}

/// The byte a pop returns: the pointer is incremented first, then read.
pub open spec fn spec_pop_value(v: CpuView) -> u8 {
    v.byte((STACK_BASE + v.sp.wrapping_add(1)) as u16)
}

/// The state after a pop: only the stack pointer moves.
pub open spec fn spec_pop_state(v: CpuView) -> CpuView {
    CpuView { sp: v.sp.wrapping_add(1), ..v }
}

/// Reset: accumulator and index registers to 0, flags cleared, and the
/// program counter seeded from the word at the reset vector. The stack
/// pointer is not touched.
pub open spec fn spec_reset(v: CpuView) -> CpuView {
    CpuView { a: 0, x: 0, y: 0, status: (Flags { bits: 0 }), pc: v.word(RESET_VECTOR), ..v }
}

/// Two views read the same bytes everywhere when their buses are equal.
proof fn lemma_same_bus_same_mem(a: CPU, b: CPU)
    requires
        a.bus == b.bus,
    ensures
        a@.mem == b@.mem,
{
    assert(a@.mem =~= b@.mem);
}

/// A bus write is a pointwise store on the view's memory.
proof fn lemma_store_view(pre: CPU, post: CPU, addr: u16, data: u8)
    requires
        forall|x: u16|
            #[trigger] post.bus.spec_mem(x) == if pre.bus.mem_index(x) == pre.bus.mem_index(addr) {
                data
            } else {
                pre.bus.spec_mem(x)
            },
    ensures
        post@.mem == spec_store(pre@.mem, addr, data),
{
    assert forall|i: int| 0 <= i < 0x10000 implies post@.mem[i] == spec_store(
        pre@.mem,
        addr,
        data,
    )[i] by {
        let x = i as u16;
        assert(post.bus.spec_mem(x) == if pre.bus.mem_index(x) == pre.bus.mem_index(addr) {
            data
        } else {
            pre.bus.spec_mem(x)
        });
    }
    assert(post@.mem =~= spec_store(pre@.mem, addr, data));
}

impl CPU {
    fn update_zero_and_negative_flag(&mut self, value: u8)
        ensures
            *final(self) == (CPU { status: spec_update_zn(old(self).status, value), ..*old(self) }),
    {
        self.status.set(ZERO, value == 0);
        self.status.set(NEGATIVE, value & 0x80 != 0);
    }

    /// Reinitializes the registers and seeds the program counter from the
    /// reset vector.
    pub fn reset(&mut self)
        requires
            old(self).wf(),
        ensures
            final(self).wf(),
            final(self)@ == spec_reset(old(self)@),
    {
        self.register_a = 0;
        self.register_x = 0;
        self.register_y = 0;
        self.status = Flags::empty();
        self.program_counter = self.bus.mem_read_u16(RESET_VECTOR);
        proof {
            lemma_same_bus_same_mem(*old(self), *self);
        }
    }

    /// Loads the accumulator; Zero and Negative reflect the loaded byte.
    pub fn lda(&mut self, addressing_mode: AddressingMode)
        requires
            old(self).wf(),
        ensures
            final(self).wf(),
            final(self)@ == spec_lda(old(self)@, addressing_mode),
    {
        let addr = self.get_effective_addr(addressing_mode);
        let value = self.bus.mem_read(addr);
        self.register_a = value;
        self.update_zero_and_negative_flag(value);
        proof {
            lemma_same_bus_same_mem(*old(self), *self);
        }
    }

    /// Loads the X register; Zero and Negative reflect the loaded byte.
    pub fn ldx(&mut self, addressing_mode: AddressingMode)
        requires
            old(self).wf(),
        ensures
            final(self).wf(),
            final(self)@ == spec_ldx(old(self)@, addressing_mode),
    {
        let addr = self.get_effective_addr(addressing_mode);
        let value = self.bus.mem_read(addr);
        self.register_x = value;
        self.update_zero_and_negative_flag(value);
        proof {
            lemma_same_bus_same_mem(*old(self), *self);
        }
    }

    /// Loads the Y register; Zero and Negative reflect the loaded byte.
    pub fn ldy(&mut self, addressing_mode: AddressingMode)
        requires
            old(self).wf(),
        ensures
            final(self).wf(),
            final(self)@ == spec_ldy(old(self)@, addressing_mode),
    {
        let addr = self.get_effective_addr(addressing_mode);
        let value = self.bus.mem_read(addr);
        self.register_y = value;
        self.update_zero_and_negative_flag(value);
        proof {
            lemma_same_bus_same_mem(*old(self), *self);
        }
    }

    /// Stores the accumulator at the effective address.
    pub fn sta(&mut self, addressing_mode: AddressingMode)
        requires
            old(self).wf(),
        ensures
            final(self).wf(),
            final(self)@ == spec_sta(old(self)@, addressing_mode),
    {
        let addr = self.get_effective_addr(addressing_mode);
        self.bus.mem_write(addr, self.register_a);
        proof {
            lemma_store_view(*old(self), *self, addr, old(self).register_a);
        }
    }

    /// Stores the X register at the effective address.
    pub fn stx(&mut self, addressing_mode: AddressingMode)
        requires
            old(self).wf(),
        ensures
            final(self).wf(),
            final(self)@ == spec_stx(old(self)@, addressing_mode),
    {
        let addr = self.get_effective_addr(addressing_mode);
        self.bus.mem_write(addr, self.register_x);
        proof {
            lemma_store_view(*old(self), *self, addr, old(self).register_x);
        }
    }

    /// Stores the Y register at the effective address.
    pub fn sty(&mut self, addressing_mode: AddressingMode)
        requires
            old(self).wf(),
        ensures
            final(self).wf(),
            final(self)@ == spec_sty(old(self)@, addressing_mode),
    {
        let addr = self.get_effective_addr(addressing_mode);
        self.bus.mem_write(addr, self.register_y);
        proof {
            lemma_store_view(*old(self), *self, addr, old(self).register_y);
        }
    }
}


/// A single flag forced to a value; nothing else changes.
pub open spec fn spec_set_flag(v: CpuView, mask: u8, value: bool) -> CpuView {
    CpuView { status: v.status.spec_set(mask, value), ..v }
}

impl CPU {
    /// Transfers the accumulator to X.
    pub fn tax(&mut self)
        requires
            old(self).wf(),
        ensures
            final(self).wf(),
            final(self)@ == spec_tax(old(self)@),
    {
        self.register_x = self.register_a;
        self.update_zero_and_negative_flag(self.register_x);
        proof {
            lemma_same_bus_same_mem(*old(self), *self);
        }
    }

    /// Transfers X to the accumulator.
    pub fn txa(&mut self)
        requires
            old(self).wf(),
        ensures
            final(self).wf(),
            final(self)@ == spec_txa(old(self)@),
    {
        self.register_a = self.register_x;
        self.update_zero_and_negative_flag(self.register_a);
        proof {
            lemma_same_bus_same_mem(*old(self), *self);
        }
    }

    /// Transfers the accumulator to Y.
    pub fn tay(&mut self)
        requires
            old(self).wf(),
        ensures
            final(self).wf(),
            final(self)@ == spec_tay(old(self)@),
    {
        self.register_y = self.register_a;
        self.update_zero_and_negative_flag(self.register_y);
        proof {
            lemma_same_bus_same_mem(*old(self), *self);
        }
    }

    /// Transfers Y to the accumulator.
    pub fn tya(&mut self)
        requires
            old(self).wf(),
        ensures
            final(self).wf(),
            final(self)@ == spec_tya(old(self)@),
    {
        self.register_a = self.register_y;
        self.update_zero_and_negative_flag(self.register_a);
        proof {
            lemma_same_bus_same_mem(*old(self), *self);
        }
    }

    /// Transfers the stack pointer to X.
    pub fn tsx(&mut self)
        requires
            old(self).wf(),
        ensures
            final(self).wf(),
            final(self)@ == spec_tsx(old(self)@),
    {
        self.register_x = self.stack_pointer;
        self.update_zero_and_negative_flag(self.register_x);
        proof {
            lemma_same_bus_same_mem(*old(self), *self);
        }
    }

    /// Transfers X to the stack pointer; no flags are updated.
    pub fn txs(&mut self)
        requires
            old(self).wf(),
        ensures
            final(self).wf(),
            final(self)@ == spec_txs(old(self)@),
    {
        self.stack_pointer = self.register_x;
        proof {
            lemma_same_bus_same_mem(*old(self), *self);
        }
    }

    /// Increments X with wraparound.
    pub fn inx(&mut self)
        requires
            old(self).wf(),
        ensures
            final(self).wf(),
            final(self)@ == spec_inx(old(self)@),
    {
        self.register_x = self.register_x.wrapping_add(1);
        self.update_zero_and_negative_flag(self.register_x);
        proof {
            lemma_same_bus_same_mem(*old(self), *self);
        }
    }

    /// Increments Y with wraparound.
    pub fn iny(&mut self)
        requires
            old(self).wf(),
        ensures
            final(self).wf(),
            final(self)@ == spec_iny(old(self)@),
    {
        self.register_y = self.register_y.wrapping_add(1);
        self.update_zero_and_negative_flag(self.register_y);
        proof {
            lemma_same_bus_same_mem(*old(self), *self);
        }
    }

    /// Decrements X with wraparound.
    pub fn dex(&mut self)
        requires
            old(self).wf(),
        ensures
            final(self).wf(),
            final(self)@ == spec_dex(old(self)@),
    {
        self.register_x = self.register_x.wrapping_sub(1);
        self.update_zero_and_negative_flag(self.register_x);
        proof {
            lemma_same_bus_same_mem(*old(self), *self);
        }
    }

    /// Decrements Y with wraparound.
    pub fn dey(&mut self)
        requires
            old(self).wf(),
        ensures
            final(self).wf(),
            final(self)@ == spec_dey(old(self)@),
    {
        self.register_y = self.register_y.wrapping_sub(1);
        self.update_zero_and_negative_flag(self.register_y);
        proof {
            lemma_same_bus_same_mem(*old(self), *self);
        }
    }

    /// Bitwise AND of the accumulator with the operand.
    pub fn and(&mut self, addressing_mode: AddressingMode)
        requires
            old(self).wf(),
        ensures
            final(self).wf(),
            final(self)@ == spec_and(old(self)@, addressing_mode),
    {
        let addr = self.get_effective_addr(addressing_mode);
        let value = self.bus.mem_read(addr);
        self.register_a = self.register_a & value;
        self.update_zero_and_negative_flag(self.register_a);
        proof {
            lemma_same_bus_same_mem(*old(self), *self);
        }
    }

    /// Bitwise OR of the accumulator with the operand.
    pub fn ora(&mut self, addressing_mode: AddressingMode)
        requires
            old(self).wf(),
        ensures
            final(self).wf(),
            final(self)@ == spec_ora(old(self)@, addressing_mode),
    {
        let addr = self.get_effective_addr(addressing_mode);
        let value = self.bus.mem_read(addr);
        self.register_a = self.register_a | value;
        self.update_zero_and_negative_flag(self.register_a);
        proof {
            lemma_same_bus_same_mem(*old(self), *self);
        }
    }

    /// Bitwise XOR of the accumulator with the operand.
    pub fn eor(&mut self, addressing_mode: AddressingMode)
        requires
            old(self).wf(),
        ensures
            final(self).wf(),
            final(self)@ == spec_eor(old(self)@, addressing_mode),
    {
        let addr = self.get_effective_addr(addressing_mode);
        let value = self.bus.mem_read(addr);
        self.register_a = self.register_a ^ value;
        self.update_zero_and_negative_flag(self.register_a);
        proof {
            lemma_same_bus_same_mem(*old(self), *self);
        }
    }

    /// Bit test of the accumulator against the operand; no register mutated.
    pub fn bit(&mut self, addressing_mode: AddressingMode)
        requires
            old(self).wf(),
        ensures
            final(self).wf(),
            final(self)@ == spec_bit(old(self)@, addressing_mode),
    {
        let addr = self.get_effective_addr(addressing_mode);
        let value = self.bus.mem_read(addr);
        let masked = value & self.register_a;
        if masked == 0 {
            self.status.insert(ZERO);
        } else {
            self.status.remove(ZERO);
        }
        self.status.set(OVERFLOW, value & 0x40 != 0);
        self.status.set(NEGATIVE, value & 0x80 != 0);
        proof {
            lemma_same_bus_same_mem(*old(self), *self);
        }
    }

    /// Compares the accumulator with the operand.
    pub fn cmp(&mut self, addressing_mode: AddressingMode)
        requires
            old(self).wf(),
        ensures
            final(self).wf(),
            final(self)@ == spec_compare(old(self)@, old(self)@.a, addressing_mode),
    {
        let addr = self.get_effective_addr(addressing_mode);
        let value = self.bus.mem_read(addr);
        if self.register_a >= value {
            self.status.insert(CARRY);
        } else {
            self.status.remove(CARRY);
        }
        let result = self.register_a.wrapping_sub(value);
        self.update_zero_and_negative_flag(result);
        proof {
            lemma_same_bus_same_mem(*old(self), *self);
        }
    }

    /// Compares the X register with the operand.
    pub fn cpx(&mut self, addressing_mode: AddressingMode)
        requires
            old(self).wf(),
        ensures
            final(self).wf(),
            final(self)@ == spec_compare(old(self)@, old(self)@.x, addressing_mode),
    {
        let addr = self.get_effective_addr(addressing_mode);
        let value = self.bus.mem_read(addr);
        if self.register_x >= value {
            self.status.insert(CARRY);
        } else {
            self.status.remove(CARRY);
        }
        let result = self.register_x.wrapping_sub(value);
        self.update_zero_and_negative_flag(result);
        proof {
            lemma_same_bus_same_mem(*old(self), *self);
        }
    }

    /// Compares the Y register with the operand.
    pub fn cpy(&mut self, addressing_mode: AddressingMode)
        requires
            old(self).wf(),
        ensures
            final(self).wf(),
            final(self)@ == spec_compare(old(self)@, old(self)@.y, addressing_mode),
    {
        let addr = self.get_effective_addr(addressing_mode);
        let value = self.bus.mem_read(addr);
        if self.register_y >= value {
            self.status.insert(CARRY);
        } else {
            self.status.remove(CARRY);
        }
        let result = self.register_y.wrapping_sub(value);
        self.update_zero_and_negative_flag(result);
        proof {
            lemma_same_bus_same_mem(*old(self), *self);
        }
    }

    /// Adds a value and the incoming carry to the accumulator, the shared
    /// core of add-with-carry and subtract-with-carry.
    pub fn add_to_register_a(&mut self, value: u8)
        requires
            old(self).wf(),
        ensures
            final(self).wf(),
            final(self)@ == spec_add_to_a(old(self)@, value),
    {
        let a = self.register_a as u16;
        let carry: u16 = if self.status.contains(CARRY) {
            1
        } else {
            0
        };
        let sum = a + value as u16 + carry;
        if sum > 0xFF {
            self.status.insert(CARRY);
        } else {
            self.status.remove(CARRY);
        }
        let result = (sum % 256) as u8;
        if (self.register_a ^ result) & (value ^ result) & 0x80 != 0 {
            self.status.insert(OVERFLOW);
        } else {
            self.status.remove(OVERFLOW);
        }
        self.register_a = result;
        self.update_zero_and_negative_flag(result);
        proof {
            lemma_same_bus_same_mem(*old(self), *self);
        }
    }

    /// Add-with-carry of the operand at the effective address.
    pub fn adc(&mut self, addressing_mode: AddressingMode)
        requires
            old(self).wf(),
        ensures
            final(self).wf(),
            final(self)@ == spec_adc(old(self)@, addressing_mode),
    {
        let addr = self.get_effective_addr(addressing_mode);
        let value = self.bus.mem_read(addr);
        self.add_to_register_a(value);
    }

    /// Subtract-with-carry: add-with-carry of the operand's complement.
    pub fn sbc(&mut self, addressing_mode: AddressingMode)
        requires
            old(self).wf(),
        ensures
            final(self).wf(),
            final(self)@ == spec_sbc(old(self)@, addressing_mode),
    {
        let addr = self.get_effective_addr(addressing_mode);
        let value = self.bus.mem_read(addr);
        self.add_to_register_a(!value);
    }

    /// Takes a conditional branch: when the condition holds, consumes the
    /// operand byte and moves the counter by the sign-extended offset.
    pub fn branch(&mut self, condition: bool)
        requires
            old(self).wf(),
        ensures
            final(self).wf(),
            final(self)@ == spec_branch(old(self)@, condition),
    {
        if condition {
            let value = self.bus.mem_read(self.program_counter);
            self.program_counter = self.program_counter.wrapping_add(1);
            let rel: u16 = if value < 0x80 {
                value as u16
            } else {
                value as u16 + 0xFF00
            };
            self.program_counter = self.program_counter.wrapping_add(rel);
            proof {
                lemma_same_bus_same_mem(*old(self), *self);
            }
        }
    }

    /// Clears the carry flag.
    pub fn clc(&mut self)
        requires
            old(self).wf(),
        ensures
            final(self).wf(),
            final(self)@ == spec_set_flag(old(self)@, CARRY, false),
    {
        self.status.remove(CARRY);
        proof {
            lemma_same_bus_same_mem(*old(self), *self);
        }
    }

    /// Sets the carry flag.
    pub fn sec(&mut self)
        requires
            old(self).wf(),
        ensures
            final(self).wf(),
            final(self)@ == spec_set_flag(old(self)@, CARRY, true),
    {
        self.status.insert(CARRY);
        proof {
            lemma_same_bus_same_mem(*old(self), *self);
        }
    }

    /// Clears the interrupt-disable flag.
    pub fn cli(&mut self)
        requires
            old(self).wf(),
        ensures
            final(self).wf(),
            final(self)@ == spec_set_flag(old(self)@, INTERRUPT_DISABLE, false),
    {
        self.status.remove(INTERRUPT_DISABLE);
        proof {
            lemma_same_bus_same_mem(*old(self), *self);
        }
    }

    /// Sets the interrupt-disable flag.
    pub fn sei(&mut self)
        requires
            old(self).wf(),
        ensures
            final(self).wf(),
            final(self)@ == spec_set_flag(old(self)@, INTERRUPT_DISABLE, true),
    {
        self.status.insert(INTERRUPT_DISABLE);
        proof {
            lemma_same_bus_same_mem(*old(self), *self);
        }
    }

    /// Clears the overflow flag.
    pub fn clv(&mut self)
        requires
            old(self).wf(),
        ensures
            final(self).wf(),
            final(self)@ == spec_set_flag(old(self)@, OVERFLOW, false),
    {
        self.status.remove(OVERFLOW);
        proof {
            lemma_same_bus_same_mem(*old(self), *self);
        }
    }

    /// Clears the decimal-mode flag.
    pub fn cld(&mut self)
        requires
            old(self).wf(),
        ensures
            final(self).wf(),
            final(self)@ == spec_set_flag(old(self)@, DECIMAL_MODE, false),
    {
        self.status.remove(DECIMAL_MODE);
        proof {
            lemma_same_bus_same_mem(*old(self), *self);
        }
    }

    /// Sets the decimal-mode flag.
    pub fn sed(&mut self)
        requires
            old(self).wf(),
        ensures
            final(self).wf(),
            final(self)@ == spec_set_flag(old(self)@, DECIMAL_MODE, true),
    {
        self.status.insert(DECIMAL_MODE);
        proof {
            lemma_same_bus_same_mem(*old(self), *self);
        }
    }

    /// Pushes one byte: writes at the slot the stack pointer names, then
    /// decrements the pointer with byte wraparound.
    pub fn stack_push(&mut self, data: u8)
        requires
            old(self).wf(),
        ensures
            final(self).wf(),
            final(self)@ == spec_push(old(self)@, data),
    {
        self.bus.mem_write(STACK_BASE + self.stack_pointer as u16, data);
        let ghost mid = *self;
        self.stack_pointer = self.stack_pointer.wrapping_sub(1);
        proof {
            lemma_store_view(
                *old(self),
                mid,
                (STACK_BASE + old(self).stack_pointer) as u16,
                data,
            );
            lemma_same_bus_same_mem(mid, *self);
        }
    }

    /// Pops one byte: increments the pointer, then reads the slot it names.
    /// The pointer always names the next free slot, never the last value
    /// written.
    pub fn stack_pop(&mut self) -> (r: u8)
        requires
            old(self).wf(),
        ensures
            final(self).wf(),
            final(self)@ == spec_pop_state(old(self)@),
            r == spec_pop_value(old(self)@),
    {
        self.stack_pointer = self.stack_pointer.wrapping_add(1);
        let r = self.bus.mem_read(STACK_BASE + self.stack_pointer as u16);
        proof {
            lemma_same_bus_same_mem(*old(self), *self);
        }
        r
    }
}


/// Arithmetic shift left of the accumulator: Carry takes bit 7.
pub open spec fn spec_asl_a(v: CpuView) -> CpuView {
    let value = v.a << 1;
    CpuView { a: value, status: spec_update_zn(v.status.spec_set(CARRY, (v.a >> 7) & 1 == 1), value), ..v }
}

/// Arithmetic shift left in memory: a read-modify-write of one address.
pub open spec fn spec_asl(v: CpuView, mode: AddressingMode) -> CpuView {
    let addr = spec_ea(v, mode);
    let read = v.byte(addr);
    let value = read << 1;
    CpuView {
        status: spec_update_zn(v.status.spec_set(CARRY, (read >> 7) & 1 == 1), value),
        ..v.store(addr, value)
    }
}

/// Logical shift right of the accumulator: Carry takes bit 0.
pub open spec fn spec_lsr_a(v: CpuView) -> CpuView {
    let value = v.a >> 1;
    CpuView { a: value, status: spec_update_zn(v.status.spec_set(CARRY, v.a & 1 == 1), value), ..v }
}

/// Logical shift right in memory.
pub open spec fn spec_lsr(v: CpuView, mode: AddressingMode) -> CpuView {
    let addr = spec_ea(v, mode);
    let read = v.byte(addr);
    let value = read >> 1;
    CpuView {
        status: spec_update_zn(v.status.spec_set(CARRY, read & 1 == 1), value),
        ..v.store(addr, value)
    }
}

/// Rotate left of the accumulator: the old Carry feeds bit 0, bit 7 leaves
/// through Carry.
pub open spec fn spec_rol_a(v: CpuView) -> CpuView {
    let old_carry: u8 = if v.status.carry() {
        1
    } else {
        0
    };
    let value = (v.a << 1) | old_carry;
    CpuView { a: value, status: spec_update_zn(v.status.spec_set(CARRY, (v.a >> 7) & 1 == 1), value), ..v }
}

/// Rotate left in memory.
pub open spec fn spec_rol(v: CpuView, mode: AddressingMode) -> CpuView {
    let addr = spec_ea(v, mode);
    let read = v.byte(addr);
    let old_carry: u8 = if v.status.carry() {
        1
    } else {
        0
    };
    let value = (read << 1) | old_carry;
    CpuView {
        status: spec_update_zn(v.status.spec_set(CARRY, (read >> 7) & 1 == 1), value),
        ..v.store(addr, value)
    }
}

/// Rotate right of the accumulator: the old Carry feeds bit 7, bit 0 leaves
/// through Carry.
pub open spec fn spec_ror_a(v: CpuView) -> CpuView {
    let old_carry: u8 = if v.status.carry() {
        1
    } else {
        0
    };
    let value = (v.a >> 1) | (old_carry << 7);
    CpuView { a: value, status: spec_update_zn(v.status.spec_set(CARRY, v.a & 1 == 1), value), ..v }
}

/// Rotate right in memory.
pub open spec fn spec_ror(v: CpuView, mode: AddressingMode) -> CpuView {
    let addr = spec_ea(v, mode);
    let read = v.byte(addr);
    let old_carry: u8 = if v.status.carry() {
        1
    } else {
        0
    };
    let value = (read >> 1) | (old_carry << 7);
    CpuView {
        status: spec_update_zn(v.status.spec_set(CARRY, read & 1 == 1), value),
        ..v.store(addr, value)
    }
}

/// Decrement the byte at the effective address with wraparound.
pub open spec fn spec_dec(v: CpuView, mode: AddressingMode) -> CpuView {
    let addr = spec_ea(v, mode);
    let value = v.byte(addr).wrapping_sub(1);
    CpuView { status: spec_update_zn(v.status, value), ..v.store(addr, value) }
}

/// Increment the byte at the effective address with wraparound.
pub open spec fn spec_inc(v: CpuView, mode: AddressingMode) -> CpuView {
    let addr = spec_ea(v, mode);
    let value = v.byte(addr).wrapping_add(1);
    CpuView { status: spec_update_zn(v.status, value), ..v.store(addr, value) }
}

/// Unconditional jump: the counter takes the 16-bit operand.
pub open spec fn spec_jmp_absolute(v: CpuView) -> CpuView {
    CpuView { pc: v.word(v.pc), ..v }
}

/// Indirect jump, with the documented hardware defect: when the operand
/// address's low byte is `0xFF`, the high byte of the target is read from
/// the same page's start rather than the following page.
pub open spec fn spec_jmp_indirect(v: CpuView) -> CpuView {
    let addr = v.word(v.pc);
    let target = if addr & 0x00FF == 0x00FF {
        word_le(v.byte(addr), v.byte(addr & 0xFF00))
    } else {
        v.word(addr)
    };
    CpuView { pc: target, ..v }
}

/// Subroutine call: pushes (return address - 1), high byte first, where the
/// return address is the byte after the 3-byte call instruction, then jumps
/// to the operand. The operand is read after the pushes, as the hardware's
/// bus traffic does.
pub open spec fn spec_jsr(v: CpuView) -> CpuView {
    let return_addr = v.pc.wrapping_add(1);
    let pushed = spec_push(spec_push(v, high_byte(return_addr)), low_byte(return_addr));
    CpuView { pc: pushed.word(v.pc), ..pushed }
}

/// Return from subroutine: pops low byte then high byte and resumes one
/// past the reconstructed address.
pub open spec fn spec_rts(v: CpuView) -> CpuView {
    let low = spec_pop_value(v);
    let v1 = spec_pop_state(v);
    let high = spec_pop_value(v1);
    let v2 = spec_pop_state(v1);
    CpuView { pc: word_le(low, high).wrapping_add(1), ..v2 }
}

/// Push the accumulator; flags untouched.
pub open spec fn spec_pha(v: CpuView) -> CpuView {
    spec_push(v, v.a)
}

/// Pull the accumulator; Zero and Negative reflect the pulled byte.
pub open spec fn spec_pla(v: CpuView) -> CpuView {
    let value = spec_pop_value(v);
    CpuView { a: value, status: spec_update_zn(v.status, value), ..spec_pop_state(v) }
}

/// Push the status byte with the break marker and unused bit forced to 1 on
/// the exported copy only.
pub open spec fn spec_php(v: CpuView) -> CpuView {
    spec_push(v, v.status.spec_pushed_byte())
}

/// Pull the status: bit 5 forced to 1, bit 4 forced to 0, installed live.
pub open spec fn spec_plp(v: CpuView) -> CpuView {
    CpuView { status: Flags::spec_pulled(spec_pop_value(v)), ..spec_pop_state(v) }
}

/// Return from interrupt: pull the status (with the same masking as a plain
/// pull), then pop the counter low byte first, with no further adjustment.
pub open spec fn spec_rti(v: CpuView) -> CpuView {
    let v1 = spec_plp(v);
    let low = spec_pop_value(v1);
    let v2 = spec_pop_state(v1);
    let high = spec_pop_value(v2);
    let v3 = spec_pop_state(v2);
    CpuView { pc: word_le(low, high), ..v3 }
}

/// The memory after the convenience loader ran: the program bytes sit at
/// the fixed load address and the reset vector points at them.
pub open spec fn spec_load_mem(m: Seq<u8>, prog: Seq<u8>) -> Seq<u8> {
    Seq::new(0x10000, |a: int|
        {
            let cell = Bus::phys(a as u16);
            if cell == Bus::phys(RESET_VECTOR) {
                low_byte(PROGRAM_LOAD_ADDR)
            } else if cell == Bus::phys((RESET_VECTOR + 1) as u16) {
                high_byte(PROGRAM_LOAD_ADDR)
            } else if PROGRAM_LOAD_ADDR <= cell < PROGRAM_LOAD_ADDR + prog.len() {
                prog[cell - PROGRAM_LOAD_ADDR]
            } else {
                m[a]
            }
        },
    )
}

/// The machine after the convenience loader ran; registers are untouched.
pub open spec fn spec_load(v: CpuView, prog: Seq<u8>) -> CpuView {
    CpuView { mem: spec_load_mem(v.mem, prog), ..v }
}

impl CPU {
    /// Arithmetic shift left of the accumulator.
    pub fn asl_accumulator(&mut self)
        requires
            old(self).wf(),
        ensures
            final(self).wf(),
            final(self)@ == spec_asl_a(old(self)@),
    {
        let carry = (self.register_a >> 7) & 1;
        self.register_a = self.register_a << 1;
        self.status.set(CARRY, carry == 1);
        self.update_zero_and_negative_flag(self.register_a);
        proof {
            lemma_same_bus_same_mem(*old(self), *self);
        }
    }

    /// Arithmetic shift left of the byte at the effective address.
    pub fn asl(&mut self, addressing_mode: AddressingMode)
        requires
            old(self).wf(),
        ensures
            final(self).wf(),
            final(self)@ == spec_asl(old(self)@, addressing_mode),
    {
        let addr = self.get_effective_addr(addressing_mode);
        let value = self.bus.mem_read(addr);
        let carry = (value >> 7) & 1;
        let shifted = value << 1;
        self.status.set(CARRY, carry == 1);
        let ghost mid = *self;
        self.bus.mem_write(addr, shifted);
        let ghost mid2 = *self;
        self.update_zero_and_negative_flag(shifted);
        proof {
            lemma_same_bus_same_mem(*old(self), mid);
            lemma_store_view(mid, mid2, addr, shifted);
            lemma_same_bus_same_mem(mid2, *self);
        }
    }

    /// Logical shift right of the accumulator.
    pub fn lsr_accumulator(&mut self)
        requires
            old(self).wf(),
        ensures
            final(self).wf(),
            final(self)@ == spec_lsr_a(old(self)@),
    {
        let carry = self.register_a & 0x01;
        self.register_a = self.register_a >> 1;
        self.status.set(CARRY, carry == 1);
        self.update_zero_and_negative_flag(self.register_a);
        proof {
            lemma_same_bus_same_mem(*old(self), *self);
        }
    }

    /// Logical shift right of the byte at the effective address.
    pub fn lsr(&mut self, addressing_mode: AddressingMode)
        requires
            old(self).wf(),
        ensures
            final(self).wf(),
            final(self)@ == spec_lsr(old(self)@, addressing_mode),
    {
        let addr = self.get_effective_addr(addressing_mode);
        let value = self.bus.mem_read(addr);
        let carry = value & 0x01;
        self.status.set(CARRY, carry == 1);
        let shifted = value >> 1;
        let ghost mid = *self;
        self.bus.mem_write(addr, shifted);
        let ghost mid2 = *self;
        self.update_zero_and_negative_flag(shifted);
        proof {
            lemma_same_bus_same_mem(*old(self), mid);
            lemma_store_view(mid, mid2, addr, shifted);
            lemma_same_bus_same_mem(mid2, *self);
        }
    }

    /// Rotate left of the accumulator through Carry.
    pub fn rol_accumulator(&mut self)
        requires
            old(self).wf(),
        ensures
            final(self).wf(),
            final(self)@ == spec_rol_a(old(self)@),
    {
        let old_carry: u8 = if self.status.contains(CARRY) {
            1
        } else {
            0
        };
        let new_carry = (self.register_a >> 7) & 1;
        self.status.set(CARRY, new_carry == 1);
        self.register_a = (self.register_a << 1) | old_carry;
        self.update_zero_and_negative_flag(self.register_a);
        proof {
            lemma_same_bus_same_mem(*old(self), *self);
        }
    }

    /// Rotate left of the byte at the effective address through Carry.
    pub fn rol(&mut self, addressing_mode: AddressingMode)
        requires
            old(self).wf(),
        ensures
            final(self).wf(),
            final(self)@ == spec_rol(old(self)@, addressing_mode),
    {
        let addr = self.get_effective_addr(addressing_mode);
        let value = self.bus.mem_read(addr);
        let old_carry: u8 = if self.status.contains(CARRY) {
            1
        } else {
            0
        };
        let new_carry = (value >> 7) & 1;
        self.status.set(CARRY, new_carry == 1);
        let rotated = (value << 1) | old_carry;
        let ghost mid = *self;
        self.bus.mem_write(addr, rotated);
        let ghost mid2 = *self;
        self.update_zero_and_negative_flag(rotated);
        proof {
            lemma_same_bus_same_mem(*old(self), mid);
            lemma_store_view(mid, mid2, addr, rotated);
            lemma_same_bus_same_mem(mid2, *self);
        }
    }

    /// Rotate right of the accumulator through Carry.
    pub fn ror_accumulator(&mut self)
        requires
            old(self).wf(),
        ensures
            final(self).wf(),
            final(self)@ == spec_ror_a(old(self)@),
    {
        let old_carry: u8 = if self.status.contains(CARRY) {
            1
        } else {
            0
        };
        let new_carry = self.register_a & 1;
        self.status.set(CARRY, new_carry == 1);
        self.register_a = (self.register_a >> 1) | (old_carry << 7);
        self.update_zero_and_negative_flag(self.register_a);
        proof {
            lemma_same_bus_same_mem(*old(self), *self);
        }
    }

    /// Rotate right of the byte at the effective address through Carry.
    pub fn ror(&mut self, addressing_mode: AddressingMode)
        requires
            old(self).wf(),
        ensures
            final(self).wf(),
            final(self)@ == spec_ror(old(self)@, addressing_mode),
    {
        let addr = self.get_effective_addr(addressing_mode);
        let value = self.bus.mem_read(addr);
        let old_carry: u8 = if self.status.contains(CARRY) {
            1
        } else {
            0
        };
        let new_carry = value & 1;
        self.status.set(CARRY, new_carry == 1);
        let rotated = (value >> 1) | (old_carry << 7);
        let ghost mid = *self;
        self.bus.mem_write(addr, rotated);
        let ghost mid2 = *self;
        self.update_zero_and_negative_flag(rotated);
        proof {
            lemma_same_bus_same_mem(*old(self), mid);
            lemma_store_view(mid, mid2, addr, rotated);
            lemma_same_bus_same_mem(mid2, *self);
        }
    }

    /// Decrements the byte at the effective address.
    pub fn dec(&mut self, addressing_mode: AddressingMode)
        requires
            old(self).wf(),
        ensures
            final(self).wf(),
            final(self)@ == spec_dec(old(self)@, addressing_mode),
    {
        let addr = self.get_effective_addr(addressing_mode);
        let value = self.bus.mem_read(addr).wrapping_sub(1);
        self.bus.mem_write(addr, value);
        let ghost mid = *self;
        self.update_zero_and_negative_flag(value);
        proof {
            lemma_store_view(*old(self), mid, addr, value);
            lemma_same_bus_same_mem(mid, *self);
        }
    }

    /// Increments the byte at the effective address.
    pub fn inc(&mut self, addressing_mode: AddressingMode)
        requires
            old(self).wf(),
        ensures
            final(self).wf(),
            final(self)@ == spec_inc(old(self)@, addressing_mode),
    {
        let addr = self.get_effective_addr(addressing_mode);
        let value = self.bus.mem_read(addr).wrapping_add(1);
        self.bus.mem_write(addr, value);
        let ghost mid = *self;
        self.update_zero_and_negative_flag(value);
        proof {
            lemma_store_view(*old(self), mid, addr, value);
            lemma_same_bus_same_mem(mid, *self);
        }
    }

    /// Jumps to the 16-bit operand.
    pub fn jmp_absolute(&mut self)
        requires
            old(self).wf(),
        ensures
            final(self).wf(),
            final(self)@ == spec_jmp_absolute(old(self)@),
    {
        let addr = self.bus.mem_read_u16(self.program_counter);
        self.program_counter = addr;
        proof {
            lemma_same_bus_same_mem(*old(self), *self);
        }
    }

    /// Jumps to the word stored at the operand address, reproducing the
    /// hardware's page-boundary defect.
    pub fn jmp_indirect(&mut self)
        requires
            old(self).wf(),
        ensures
            final(self).wf(),
            final(self)@ == spec_jmp_indirect(old(self)@),
    {
        let addr = self.bus.mem_read_u16(self.program_counter);
        let indirect = if addr & 0x00FF == 0x00FF {
            let low = self.bus.mem_read(addr);
            let high = self.bus.mem_read(addr & 0xFF00);
            proof {
                assert(((high as u16) << 8) | (low as u16) == low + 256 * high) by (bit_vector);
            }
            ((high as u16) << 8) | (low as u16)
        } else {
            self.bus.mem_read_u16(addr)
        };
        self.program_counter = indirect;
        proof {
            lemma_same_bus_same_mem(*old(self), *self);
        }
    }

    /// Calls a subroutine: pushes the return address minus one, high byte
    /// first, then jumps to the 16-bit operand.
    pub fn jsr(&mut self)
        requires
            old(self).wf(),
        ensures
            final(self).wf(),
            final(self)@ == spec_jsr(old(self)@),
    {
        let return_addr = self.program_counter.wrapping_add(1);
        proof {
            crate::mem::lemma_word_le_bytes(return_addr);
        }
        let high = (return_addr >> 8) as u8;
        let low = (return_addr & 0xff) as u8;
        self.stack_push(high);
        self.stack_push(low);
        let target_addr = self.bus.mem_read_u16(self.program_counter);
        self.program_counter = target_addr;
        proof {
            lemma_same_bus_same_mem(
                (CPU { program_counter: old(self).program_counter, ..*self }),
                *self,
            );
        }
    }

    /// Returns from a subroutine: pops low then high byte and resumes one
    /// past the reconstructed address.
    pub fn rts(&mut self)
        requires
            old(self).wf(),
        ensures
            final(self).wf(),
            final(self)@ == spec_rts(old(self)@),
    {
        let low = self.stack_pop() as u16;
        let high = self.stack_pop() as u16;
        let return_addr = (high << 8) | low;
        proof {
            assert((high << 8) | low == low + 256 * high) by (bit_vector)
                requires
                    low < 256 && high < 256,
            ;
        }
        self.program_counter = return_addr.wrapping_add(1);
        proof {
            lemma_same_bus_same_mem(
                (CPU { program_counter: old(self).program_counter, ..*self }),
                *self,
            );
        }
    }

    /// Pushes the accumulator.
    pub fn pha(&mut self)
        requires
            old(self).wf(),
        ensures
            final(self).wf(),
            final(self)@ == spec_pha(old(self)@),
    {
        self.stack_push(self.register_a);
    }

    /// Pulls the accumulator; Zero and Negative reflect the pulled byte.
    pub fn pla(&mut self)
        requires
            old(self).wf(),
        ensures
            final(self).wf(),
            final(self)@ == spec_pla(old(self)@),
    {
        let value = self.stack_pop();
        self.register_a = value;
        let ghost mid = *self;
        self.update_zero_and_negative_flag(self.register_a);
        proof {
            lemma_same_bus_same_mem(mid, *self);
        }
    }

    /// Pushes the status byte, with the break marker and the unused bit
    /// forced to 1 on the exported copy only; the live flags are untouched.
    pub fn php(&mut self)
        requires
            old(self).wf(),
        ensures
            final(self).wf(),
            final(self)@ == spec_php(old(self)@),
    {
        let status = self.status.pushed_byte();
        self.stack_push(status);
    }

    /// Pulls the status byte and installs it with bit 5 forced to 1 and the
    /// break marker cleared.
    pub fn plp(&mut self)
        requires
            old(self).wf(),
        ensures
            final(self).wf(),
            final(self)@ == spec_plp(old(self)@),
    {
        self.restore_status_from_stack();
    }

    fn restore_status_from_stack(&mut self)
        requires
            old(self).wf(),
        ensures
            final(self).wf(),
            final(self)@ == spec_plp(old(self)@),
    {
        let value = self.stack_pop();
        self.status = Flags::pulled(value);
        proof {
            lemma_same_bus_same_mem(
                (CPU { status: old(self).status, ..*self }),
                *self,
            );
        }
    }

    /// Returns from an interrupt: pulls the status, then the counter, which
    /// is not adjusted further.
    pub fn rti(&mut self)
        requires
            old(self).wf(),
        ensures
            final(self).wf(),
            final(self)@ == spec_rti(old(self)@),
    {
        self.restore_status_from_stack();
        let low = self.stack_pop() as u16;
        let high = self.stack_pop() as u16;
        proof {
            assert((high << 8) | low == low + 256 * high) by (bit_vector)
                requires
                    low < 256 && high < 256,
            ;
        }
        self.program_counter = (high << 8) | low;
        proof {
            lemma_same_bus_same_mem(
                (CPU { program_counter: old(self).program_counter, ..*self }),
                *self,
            );
        }
    }

    /// Places a program at the fixed load address and points the reset
    /// vector at it. A program longer than the load window is rejected
    /// whole, with no memory touched.
    pub fn load(&mut self, program: &[u8]) -> (r: Result<(), EmuError>)
        requires
            old(self).wf(),
        ensures
            final(self).wf(),
            program@.len() <= PROGRAM_LOAD_LIMIT ==> r == Ok::<(), EmuError>(())
                && final(self)@ == spec_load(old(self)@, program@),
            program@.len() > PROGRAM_LOAD_LIMIT ==> r == Err::<(), EmuError>(
                EmuError::InvalidConfiguration,
            ) && *final(self) == *old(self),
    {
        if program.len() > PROGRAM_LOAD_LIMIT {
            return Err(EmuError::InvalidConfiguration);
        }
        let mut i: usize = 0;
        while i < program.len()
            invariant
                self.wf(),
                i <= program@.len() <= PROGRAM_LOAD_LIMIT,
                self.program_counter == old(self).program_counter,
                self.register_a == old(self).register_a,
                self.register_x == old(self).register_x,
                self.register_y == old(self).register_y,
                self.stack_pointer == old(self).stack_pointer,
                self.status == old(self).status,
                forall|a: u16|
                    #[trigger] self.bus.spec_mem(a) == if PROGRAM_LOAD_ADDR <= Bus::phys(a)
                        < PROGRAM_LOAD_ADDR + i {
                        program@[Bus::phys(a) - PROGRAM_LOAD_ADDR]
                    } else {
                        old(self).bus.spec_mem(a)
                    },
            decreases program@.len() - i,
        {
            let addr = PROGRAM_LOAD_ADDR + i as u16;
            proof {
                assert(Bus::phys(addr) == addr) by {
                    let x = addr;
                    assert(x & 0x07FF == x) by (bit_vector)
                        requires
                            x <= 0x07FF,
                    ;
                }
            }
            self.bus.mem_write(addr, program[i]);
            i = i + 1;
        }
        self.bus.mem_write_u16(RESET_VECTOR, PROGRAM_LOAD_ADDR);
        proof {
            crate::mem::lemma_word_le_bytes(PROGRAM_LOAD_ADDR);
            assert forall|a: int| 0 <= a < 0x10000 implies self@.mem[a] == spec_load_mem(
                old(self)@.mem,
                program@,
            )[a] by {
                let x = a as u16;
                assert(self.bus.spec_mem(x) == self.bus.spec_read(x));
            }
            assert(self@.mem =~= spec_load_mem(old(self)@.mem, program@));
            assert(self@ =~= spec_load(old(self)@, program@));
        }
        Ok(())
    }
}


/// The execution loop's counter discipline: an instruction that left the
/// counter where dispatch found it is advanced past its operand bytes; one
/// that redirected control flow is not.
pub open spec fn spec_advance(v2: CpuView, pre_pc: u16, len: u8) -> CpuView {
    if v2.pc == pre_pc {
        CpuView { pc: v2.pc.wrapping_add((len - 1) as u16), ..v2 }
    } else {
        v2
    }
}

/// The dispatched transition for an opcode in `0x00..=0x3f`, with the
/// counter already past the opcode byte; `None` for an opcode the engine
/// declines to execute.
pub open spec fn spec_dispatch_00_3f(v1: CpuView, code: u8) -> Option<CpuView> {
    let mode = spec_opcode(code).1;
    match code {
        0x29 | 0x25 | 0x35 | 0x2d | 0x3d | 0x39 | 0x21 | 0x31 => Some(spec_and(v1, mode)),
        0x09 | 0x05 | 0x15 | 0x0d | 0x1d | 0x19 | 0x01 | 0x11 => Some(spec_ora(v1, mode)),
        0x24 | 0x2c => Some(spec_bit(v1, mode)),
        0x10 => Some(spec_branch(v1, !v1.status.negative())),
        0x30 => Some(spec_branch(v1, v1.status.negative())),
        0x0a => Some(spec_asl_a(v1)),
        0x06 | 0x16 | 0x0e | 0x1e => Some(spec_asl(v1, mode)),
        0x2a => Some(spec_rol_a(v1)),
        0x26 | 0x36 | 0x2e | 0x3e => Some(spec_rol(v1, mode)),
        0x08 => Some(spec_php(v1)),
        0x28 => Some(spec_plp(v1)),
        0x18 => Some(spec_set_flag(v1, CARRY, false)),
        0x38 => Some(spec_set_flag(v1, CARRY, true)),
        0x20 => Some(spec_jsr(v1)),
        _ => None,
    }
}

/// The dispatched transition for an opcode in `0x40..=0x7f`, with the
/// counter already past the opcode byte; `None` for an opcode the engine
/// declines to execute.
pub open spec fn spec_dispatch_40_7f(v1: CpuView, code: u8) -> Option<CpuView> {
    let mode = spec_opcode(code).1;
    match code {
        0x49 | 0x45 | 0x55 | 0x4d | 0x5d | 0x59 | 0x41 | 0x51 => Some(spec_eor(v1, mode)),
        0x69 | 0x65 | 0x75 | 0x6d | 0x7d | 0x79 | 0x61 | 0x71 => Some(spec_adc(v1, mode)),
        0x70 => Some(spec_branch(v1, v1.status.overflow())),
        0x50 => Some(spec_branch(v1, !v1.status.overflow())),
        0x6a => Some(spec_ror_a(v1)),
        0x66 | 0x76 | 0x6e | 0x7e => Some(spec_ror(v1, mode)),
        0x4a => Some(spec_lsr_a(v1)),
        0x46 | 0x56 | 0x4e | 0x5e => Some(spec_lsr(v1, mode)),
        0x68 => Some(spec_pla(v1)),
        0x58 => Some(spec_set_flag(v1, INTERRUPT_DISABLE, false)),
        0x78 => Some(spec_set_flag(v1, INTERRUPT_DISABLE, true)),
        0x48 => Some(spec_pha(v1)),
        0x4c => Some(spec_jmp_absolute(v1)),
        0x6c => Some(spec_jmp_indirect(v1)),
        0x60 => Some(spec_rts(v1)),
        0x40 => Some(spec_rti(v1)),
        _ => None,
    }
}

/// The dispatched transition for an opcode in `0x80..=0xbf`, with the
/// counter already past the opcode byte; `None` for an opcode the engine
/// declines to execute.
pub open spec fn spec_dispatch_80_bf(v1: CpuView, code: u8) -> Option<CpuView> {
    let mode = spec_opcode(code).1;
    match code {
        0xa9 | 0xa5 | 0xb5 | 0xad | 0xbd | 0xb9 | 0xa1 | 0xb1 => Some(spec_lda(v1, mode)),
        0xa0 | 0xa4 | 0xb4 | 0xac | 0xbc => Some(spec_ldy(v1, mode)),
        0xa2 | 0xa6 | 0xb6 | 0xae | 0xbe => Some(spec_ldx(v1, mode)),
        0x85 | 0x95 | 0x8d | 0x9d | 0x99 | 0x81 | 0x91 => Some(spec_sta(v1, mode)),
        0x86 | 0x96 | 0x8e => Some(spec_stx(v1, mode)),
        0x84 | 0x94 | 0x8c => Some(spec_sty(v1, mode)),
        0x90 => Some(spec_branch(v1, !v1.status.carry())),
        0xb0 => Some(spec_branch(v1, v1.status.carry())),
        0xb8 => Some(spec_set_flag(v1, OVERFLOW, false)),
        0xaa => Some(spec_tax(v1)),
        0x8a => Some(spec_txa(v1)),
        0xa8 => Some(spec_tay(v1)),
        0x98 => Some(spec_tya(v1)),
        0x88 => Some(spec_dey(v1)),
        0xba => Some(spec_tsx(v1)),
        0x9a => Some(spec_txs(v1)),
        _ => None,
    }
}

/// The dispatched transition for an opcode in `0xc0..=0xff`, with the
/// counter already past the opcode byte; `None` for an opcode the engine
/// declines to execute.
pub open spec fn spec_dispatch_c0_ff(v1: CpuView, code: u8) -> Option<CpuView> {
    let mode = spec_opcode(code).1;
    match code {
        0xc9 | 0xc5 | 0xd5 | 0xcd | 0xdd | 0xd9 | 0xc1 | 0xd1 => Some(spec_compare(v1, v1.a, mode)),
        0xc0 | 0xc4 | 0xcc => Some(spec_compare(v1, v1.y, mode)),
        0xe0 | 0xe4 | 0xec => Some(spec_compare(v1, v1.x, mode)),
        0xe9 | 0xe5 | 0xf5 | 0xed | 0xfd | 0xf9 | 0xe1 | 0xf1 => Some(spec_sbc(v1, mode)),
        0xf0 => Some(spec_branch(v1, v1.status.zero())),
        0xd0 => Some(spec_branch(v1, !v1.status.zero())),
        0xc6 | 0xd6 | 0xce | 0xde => Some(spec_dec(v1, mode)),
        0xe6 | 0xf6 | 0xee | 0xfe => Some(spec_inc(v1, mode)),
        0xd8 => Some(spec_set_flag(v1, DECIMAL_MODE, false)),
        0xf8 => Some(spec_set_flag(v1, DECIMAL_MODE, true)),
        0xe8 => Some(spec_inx(v1)),
        0xc8 => Some(spec_iny(v1)),
        0xca => Some(spec_dex(v1)),
        0xea => Some(v1),
        _ => None,
    }
}

/// The dispatched transition for any opcode, with the counter already past
/// the opcode byte; `None` for an opcode the engine declines to execute.
/// The break instruction is not dispatched here: it halts the loop instead.
pub open spec fn spec_dispatch(v1: CpuView, code: u8) -> Option<CpuView> {
    if code < 0x40 {
        spec_dispatch_00_3f(v1, code)
    } else if code < 0x80 {
        spec_dispatch_40_7f(v1, code)
    } else if code < 0xc0 {
        spec_dispatch_80_bf(v1, code)
    } else {
        spec_dispatch_c0_ff(v1, code)
    }
}

/// One step of the engine: fetch the opcode at the counter, advance the
/// counter past it, dispatch the instruction's transition, and advance past
/// the operand bytes unless the instruction redirected control flow. A break
/// halts; an opcode the engine declines stops the run fatally, the counter
/// left just past the offending byte.
pub open spec fn spec_step(v: CpuView) -> (CpuView, Result<StepOutcome, EmuError>) {
    let code = v.byte(v.pc);
    let v1 = CpuView { pc: v.pc.wrapping_add(1), ..v };
    let len = spec_opcode(code).0;
    if code == 0x00 {
        (v1, Ok(StepOutcome::Halted))
    } else {
        match spec_dispatch(v1, code) {
            Some(v2) => (spec_advance(v2, v1.pc, len), Ok(StepOutcome::Continue)),
            None => (v1, Err(EmuError::UnimplementedOpcode(code))),
        }
    }
}

/// Up to `n` steps of the engine: the state and outcome after the engine
/// halts, stops on an undispatchable opcode, or exhausts the budget.
pub open spec fn spec_run(v: CpuView, n: nat) -> (CpuView, Result<RunOutcome, EmuError>)
    decreases n,
{
    if n == 0 {
        (v, Ok(RunOutcome::StepLimit))
    } else {
        let stepped = spec_step(v);
        match stepped.1 {
            Ok(StepOutcome::Halted) => (stepped.0, Ok(RunOutcome::Halted)),
            Ok(StepOutcome::Continue) => spec_run(stepped.0, (n - 1) as nat),
            Err(e) => (stepped.0, Err(e)),
        }
    }
}

impl CPU {
    #[verifier::rlimit(100)]
    #[verifier::spinoff_prover]
    fn dispatch_00_3f(&mut self, code: u8, mode: AddressingMode) -> (executed: bool)
        requires
            old(self).wf(),
            0x00 <= code <= 0x3f,
            mode == spec_opcode(code).1,
        ensures
            final(self).wf(),
            match spec_dispatch_00_3f(old(self)@, code) {
                Some(v2) => executed && final(self)@ == v2,
                None => !executed && *final(self) == *old(self),
            },
    {
        match code {
            0x29 | 0x25 | 0x35 | 0x2d | 0x3d | 0x39 | 0x21 | 0x31 => self.and(mode),
            0x09 | 0x05 | 0x15 | 0x0d | 0x1d | 0x19 | 0x01 | 0x11 => self.ora(mode),
            0x24 | 0x2c => self.bit(mode),
            0x10 => self.branch(!self.status.contains(NEGATIVE)),
            0x30 => self.branch(self.status.contains(NEGATIVE)),
            0x0a => self.asl_accumulator(),
            0x06 | 0x16 | 0x0e | 0x1e => self.asl(mode),
            0x2a => self.rol_accumulator(),
            0x26 | 0x36 | 0x2e | 0x3e => self.rol(mode),
            0x08 => self.php(),
            0x28 => self.plp(),
            0x18 => self.clc(),
            0x38 => self.sec(),
            0x20 => self.jsr(),
            _ => {
                return false;
            },
        }
        true
    }

    #[verifier::rlimit(100)]
    #[verifier::spinoff_prover]
    fn dispatch_40_7f(&mut self, code: u8, mode: AddressingMode) -> (executed: bool)
        requires
            old(self).wf(),
            0x40 <= code <= 0x7f,
            mode == spec_opcode(code).1,
        ensures
            final(self).wf(),
            match spec_dispatch_40_7f(old(self)@, code) {
                Some(v2) => executed && final(self)@ == v2,
                None => !executed && *final(self) == *old(self),
            },
    {
        match code {
            0x49 | 0x45 | 0x55 | 0x4d | 0x5d | 0x59 | 0x41 | 0x51 => self.eor(mode),
            0x69 | 0x65 | 0x75 | 0x6d | 0x7d | 0x79 | 0x61 | 0x71 => self.adc(mode),
            0x70 => self.branch(self.status.contains(OVERFLOW)),
            0x50 => self.branch(!self.status.contains(OVERFLOW)),
            0x6a => self.ror_accumulator(),
            0x66 | 0x76 | 0x6e | 0x7e => self.ror(mode),
            0x4a => self.lsr_accumulator(),
            0x46 | 0x56 | 0x4e | 0x5e => self.lsr(mode),
            0x68 => self.pla(),
            0x58 => self.cli(),
            0x78 => self.sei(),
            0x48 => self.pha(),
            0x4c => self.jmp_absolute(),
            0x6c => self.jmp_indirect(),
            0x60 => self.rts(),
            0x40 => self.rti(),
            _ => {
                return false;
            },
        }
        true
    }

    #[verifier::rlimit(100)]
    #[verifier::spinoff_prover]
    fn dispatch_80_bf(&mut self, code: u8, mode: AddressingMode) -> (executed: bool)
        requires
            old(self).wf(),
            0x80 <= code <= 0xbf,
            mode == spec_opcode(code).1,
        ensures
            final(self).wf(),
            match spec_dispatch_80_bf(old(self)@, code) {
                Some(v2) => executed && final(self)@ == v2,
                None => !executed && *final(self) == *old(self),
            },
    {
        match code {
            0xa9 | 0xa5 | 0xb5 | 0xad | 0xbd | 0xb9 | 0xa1 | 0xb1 => self.lda(mode),
            0xa0 | 0xa4 | 0xb4 | 0xac | 0xbc => self.ldy(mode),
            0xa2 | 0xa6 | 0xb6 | 0xae | 0xbe => self.ldx(mode),
            0x85 | 0x95 | 0x8d | 0x9d | 0x99 | 0x81 | 0x91 => self.sta(mode),
            0x86 | 0x96 | 0x8e => self.stx(mode),
            0x84 | 0x94 | 0x8c => self.sty(mode),
            0x90 => self.branch(!self.status.contains(CARRY)),
            0xb0 => self.branch(self.status.contains(CARRY)),
            0xb8 => self.clv(),
            0xaa => self.tax(),
            0x8a => self.txa(),
            0xa8 => self.tay(),
            0x98 => self.tya(),
            0x88 => self.dey(),
            0xba => self.tsx(),
            0x9a => self.txs(),
            _ => {
                return false;
            },
        }
        true
    }

    #[verifier::rlimit(100)]
    #[verifier::spinoff_prover]
    fn dispatch_c0_ff(&mut self, code: u8, mode: AddressingMode) -> (executed: bool)
        requires
            old(self).wf(),
            0xc0 <= code <= 0xff,
            mode == spec_opcode(code).1,
        ensures
            final(self).wf(),
            match spec_dispatch_c0_ff(old(self)@, code) {
                Some(v2) => executed && final(self)@ == v2,
                None => !executed && *final(self) == *old(self),
            },
    {
        match code {
            0xc9 | 0xc5 | 0xd5 | 0xcd | 0xdd | 0xd9 | 0xc1 | 0xd1 => self.cmp(mode),
            0xc0 | 0xc4 | 0xcc => self.cpy(mode),
            0xe0 | 0xe4 | 0xec => self.cpx(mode),
            0xe9 | 0xe5 | 0xf5 | 0xed | 0xfd | 0xf9 | 0xe1 | 0xf1 => self.sbc(mode),
            0xf0 => self.branch(self.status.contains(ZERO)),
            0xd0 => self.branch(!self.status.contains(ZERO)),
            0xc6 | 0xd6 | 0xce | 0xde => self.dec(mode),
            0xe6 | 0xf6 | 0xee | 0xfe => self.inc(mode),
            0xd8 => self.cld(),
            0xf8 => self.sed(),
            0xe8 => self.inx(),
            0xc8 => self.iny(),
            0xca => self.dex(),
            0xea => {},
            _ => {
                return false;
            },
        }
        true
    }

    /// Executes exactly one instruction.
    #[verifier::rlimit(100)]
    #[verifier::spinoff_prover]
    pub fn step(&mut self) -> (r: Result<StepOutcome, EmuError>)
        requires
            old(self).wf(),
        ensures
            final(self).wf(),
            final(self)@ == spec_step(old(self)@).0,
            r == spec_step(old(self)@).1,
    {
        let code = self.bus.mem_read(self.program_counter);
        self.program_counter = self.program_counter.wrapping_add(1);
        proof {
            lemma_same_bus_same_mem(*old(self), *self);
        }
        if code == 0x00 {
            return Ok(StepOutcome::Halted);
        }
        let opcode = opcode_lookup(code);
        let old_program_counter = self.program_counter;
        let executed = if code < 0x40 {
            self.dispatch_00_3f(code, opcode.addr_mode)
        } else if code < 0x80 {
            self.dispatch_40_7f(code, opcode.addr_mode)
        } else if code < 0xc0 {
            self.dispatch_80_bf(code, opcode.addr_mode)
        } else {
            self.dispatch_c0_ff(code, opcode.addr_mode)
        };
        if !executed {
            return Err(EmuError::UnimplementedOpcode(code));
        }
        if old_program_counter == self.program_counter {
            let ghost mid = *self;
            self.program_counter = self.program_counter.wrapping_add((opcode.len - 1) as u16);
            proof {
                lemma_same_bus_same_mem(mid, *self);
            }
        }
        Ok(StepOutcome::Continue)
    }

    /// Runs the engine for at most `max_steps` instructions: the bounded
    /// variant an embedding host uses for cooperative scheduling (one video
    /// frame's worth of instructions at a time). It returns early when a
    /// break halts the engine or an undispatchable opcode stops it.
    pub fn run(&mut self, max_steps: usize) -> (r: Result<RunOutcome, EmuError>)
        requires
            old(self).wf(),
        ensures
            final(self).wf(),
            final(self)@ == spec_run(old(self)@, max_steps as nat).0,
            r == spec_run(old(self)@, max_steps as nat).1,
    {
        let mut steps_left = max_steps;
        while steps_left > 0
            invariant
                self.wf(),
                steps_left <= max_steps,
                spec_run(old(self)@, max_steps as nat) == spec_run(self@, steps_left as nat),
            decreases steps_left,
        {
            let outcome = self.step();
            match outcome {
                Ok(StepOutcome::Continue) => {
                    steps_left = steps_left - 1;
                },
                Ok(StepOutcome::Halted) => {
                    return Ok(RunOutcome::Halted);
                },
                Err(e) => {
                    return Err(e);
                },
            }
        }
        Ok(RunOutcome::StepLimit)
    }
}


/// The flag register after a Zero/Negative update reads back exactly the
/// value's properties, and every other flag is untouched.
pub proof fn lemma_update_zn_flags(f: Flags, value: u8)
    ensures
        spec_update_zn(f, value).zero() == (value == 0),
        spec_update_zn(f, value).negative() == (value & 0x80 != 0),
        spec_update_zn(f, value).carry() == f.carry(),
        spec_update_zn(f, value).overflow() == f.overflow(),
        spec_update_zn(f, value).interrupt_disable() == f.interrupt_disable(),
        spec_update_zn(f, value).decimal_mode() == f.decimal_mode(),
{
    assert(ZERO & NEGATIVE == 0 && NEGATIVE & ZERO == 0 && NEGATIVE != 0 && ZERO != 0
        && ZERO & CARRY == 0 && NEGATIVE & CARRY == 0 && ZERO & OVERFLOW == 0
        && NEGATIVE & OVERFLOW == 0 && ZERO & INTERRUPT_DISABLE == 0
        && NEGATIVE & INTERRUPT_DISABLE == 0 && ZERO & DECIMAL_MODE == 0
        && NEGATIVE & DECIMAL_MODE == 0) by (bit_vector);
    let f1 = f.spec_set(ZERO, value == 0);
    crate::flags::lemma_set_reads_back(f, ZERO, value == 0);
    crate::flags::lemma_set_preserves_others(f1, NEGATIVE, value & 0x80 != 0, ZERO);
    crate::flags::lemma_set_reads_back(f1, NEGATIVE, value & 0x80 != 0);
    crate::flags::lemma_set_preserves_others(f, ZERO, value == 0, CARRY);
    crate::flags::lemma_set_preserves_others(f1, NEGATIVE, value & 0x80 != 0, CARRY);
    crate::flags::lemma_set_preserves_others(f, ZERO, value == 0, OVERFLOW);
    crate::flags::lemma_set_preserves_others(f1, NEGATIVE, value & 0x80 != 0, OVERFLOW);
    crate::flags::lemma_set_preserves_others(f, ZERO, value == 0, INTERRUPT_DISABLE);
    crate::flags::lemma_set_preserves_others(f1, NEGATIVE, value & 0x80 != 0, INTERRUPT_DISABLE);
    crate::flags::lemma_set_preserves_others(f, ZERO, value == 0, DECIMAL_MODE);
    crate::flags::lemma_set_preserves_others(f1, NEGATIVE, value & 0x80 != 0, DECIMAL_MODE);
}

/// Load/store round trip: after a byte is stored at an address, a load
/// whose effective address resolves there puts exactly that byte in the
/// accumulator, with Zero and Negative reflecting it.
pub proof fn lemma_load_store_round_trip(v: CpuView, addr: u16, data: u8, mode: AddressingMode)
    requires
        v.wf(),
        spec_ea(v.store(addr, data), mode) == addr,
    ensures
        v.store(addr, data).byte(addr) == data,
        spec_lda(v.store(addr, data), mode).a == data,
        spec_lda(v.store(addr, data), mode).status.zero() == (data == 0),
        spec_lda(v.store(addr, data), mode).status.negative() == (data & 0x80 != 0),
{
    let stored = v.store(addr, data);
    assert(stored.byte(addr) == data);
    lemma_update_zn_flags(stored.status, data);
}

/// Stack round trip: a pop right after a push returns the pushed byte, and
/// the stack pointer is back at its pre-push value; all that remains of the
/// pair is the byte written into the stack page.
pub proof fn lemma_stack_round_trip(v: CpuView, data: u8)
    requires
        v.wf(),
    ensures
        spec_pop_value(spec_push(v, data)) == data,
        spec_pop_state(spec_push(v, data)) == v.store((STACK_BASE + v.sp) as u16, data),
        spec_pop_state(spec_push(v, data)).sp == v.sp,
{
    assert(spec_pop_state(spec_push(v, data)) =~= v.store((STACK_BASE + v.sp) as u16, data));
}

/// Every address whose low eleven bits agree within the RAM window is a
/// mirror of the same cell: a view taken of the machine reads the same byte
/// through every mirror.
pub proof fn lemma_view_respects_mirroring(c: CPU, addr: u16, alias: u16)
    requires
        Bus::phys(addr) == Bus::phys(alias),
    ensures
        c@.byte(addr) == c@.byte(alias),
{
    crate::bus::lemma_phys_bounds(addr);
    crate::bus::lemma_phys_bounds(alias);
}

/// RAM mirroring: a store is visible through every address that names the
/// same physical cell, in particular through each of the four RAM mirrors.
pub proof fn lemma_ram_mirroring(v: CpuView, addr: u16, alias: u16, data: u8)
    requires
        v.wf(),
        Bus::phys(addr) == Bus::phys(alias),
    ensures
        v.store(addr, data).byte(alias) == data,
{
}

/// Zero-page indexed addressing wraps within the zero page: the effective
/// address is the byte-wrapped sum and never leaves the first 256 cells.
pub proof fn lemma_zero_page_indexed_wraps(v: CpuView)
    requires
        v.wf(),
    ensures
        spec_ea(v, AddressingMode::ZeroPage_X) == (v.byte(v.pc) + v.x) % 256,
        spec_ea(v, AddressingMode::ZeroPage_X) < 0x100,
        spec_ea(v, AddressingMode::ZeroPage_Y) == (v.byte(v.pc) + v.y) % 256,
        spec_ea(v, AddressingMode::ZeroPage_Y) < 0x100,
{
}

/// Addresses in the stack page are their own physical cells.
proof fn lemma_stack_page_phys(addr: u16)
    requires
        addr <= 0x07FF,
    ensures
        Bus::phys(addr) == addr,
{
    assert(addr & 0x07FF == addr) by (bit_vector)
        requires
            addr <= 0x07FF,
    ;
}

/// Subroutine linkage: a call followed by a return resumes at the byte
/// after the 3-byte call instruction. The view enters with the counter on
/// the call's first operand byte, so the counter lands two past it.
pub proof fn lemma_subroutine_linkage(v: CpuView)
    requires
        v.wf(),
    ensures
        spec_rts(spec_jsr(v)).pc == v.pc.wrapping_add(2),
{
    let ret = v.pc.wrapping_add(1);
    let high_slot = (STACK_BASE + v.sp) as u16;
    let low_slot = (STACK_BASE + v.sp.wrapping_sub(1)) as u16;
    lemma_stack_page_phys(high_slot);
    lemma_stack_page_phys(low_slot);
    let called = spec_jsr(v);
    assert(called.sp == v.sp.wrapping_sub(2));
    assert(spec_pop_value(called) == low_byte(ret));
    assert(spec_pop_value(spec_pop_state(called)) == high_byte(ret));
    crate::mem::lemma_word_le_bytes(ret);
}

/// The indirect-jump page defect, seen through a whole step: when the
/// operand address's low byte is `0xFF`, the jump target's high byte is read
/// from that page's byte `0x00`, never from the following page. (A target
/// that equals the address right after the opcode byte is left out: the
/// loop's counter discipline then treats the instruction as one that did not
/// redirect control flow and advances past its operand bytes.)
pub proof fn lemma_indirect_jump_page_bug(v: CpuView)
    requires
        v.wf(),
        v.byte(v.pc) == 0x6c,
        v.word(v.pc.wrapping_add(1)) & 0x00FF == 0x00FF,
        word_le(
            v.byte(v.word(v.pc.wrapping_add(1))),
            v.byte(v.word(v.pc.wrapping_add(1)) & 0xFF00),
        ) != v.pc.wrapping_add(1),
    ensures
        spec_step(v).0.pc == word_le(
            v.byte(v.word(v.pc.wrapping_add(1))),
            v.byte(v.word(v.pc.wrapping_add(1)) & 0xFF00),
        ),
        spec_step(v).1 == Ok::<StepOutcome, EmuError>(StepOutcome::Continue),
{
}

/// The condition each conditional-branch opcode tests.
pub open spec fn spec_branch_condition(code: u8, f: Flags) -> bool {
    match code {
        0x90 => !f.carry(),
        0xb0 => f.carry(),
        0xf0 => f.zero(),
        0xd0 => !f.zero(),
        0x70 => f.overflow(),
        0x50 => !f.overflow(),
        0x10 => !f.negative(),
        0x30 => f.negative(),
        _ => false,
    }
}

/// A branch that is not taken still consumes its operand byte: the counter
/// advances by the branch instruction's full 2-byte length.
pub proof fn lemma_branch_not_taken_consumes_operand(v: CpuView, code: u8)
    requires
        v.wf(),
        v.byte(v.pc) == code,
        code == 0x90 || code == 0xb0 || code == 0xf0 || code == 0xd0 || code == 0x70 || code
            == 0x50 || code == 0x10 || code == 0x30,
        !spec_branch_condition(code, v.status),
    ensures
        spec_step(v).0.pc == v.pc.wrapping_add(2),
        spec_step(v).1 == Ok::<StepOutcome, EmuError>(StepOutcome::Continue),
{
}




impl Mem for CPU {
    open spec fn mem_wf(&self) -> bool {
        self.wf()
    }

    open spec fn spec_mem(&self, addr: u16) -> u8 {
        self.bus.spec_read(addr)
    }

    open spec fn mem_index(&self, addr: u16) -> int {
        Bus::phys(addr)
    }

    fn mem_read(&self, addr: u16) -> (r: u8) {
        self.bus.mem_read(addr)
    }

    fn mem_write(&mut self, addr: u16, data: u8) {
        self.bus.mem_write(addr, data);
        proof {
            assert forall|a: u16| #[trigger] self.spec_mem(a) == if old(self).mem_index(a) == old(
                self,
            ).mem_index(addr) {
                data
            } else {
                old(self).spec_mem(a)
            } by {
                assert(self.bus.spec_mem(a) == if old(self).bus.mem_index(a) == old(
                    self,
                ).bus.mem_index(addr) {
                    data
                } else {
                    old(self).bus.spec_mem(a)
                });
            }
        }
    }
}

} // verus!
