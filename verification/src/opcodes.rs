//! The opcode table: a static, read-only mapping from every opcode byte to
//! its descriptor (mnemonic, instruction length in bytes, addressing mode).
//! All official instructions are present across their valid addressing-mode
//! forms, together with the historically common undocumented opcodes; the
//! execution engine applies its own policy to the latter, but the table
//! resolves every byte so that a fetch never fails.
//!
//! Mnemonics beginning with `*` are the undocumented opcodes. The table is
//! split into one row per high nibble of the opcode byte.

use vstd::prelude::*;

verus! {

/// The rule for computing an instruction's effective operand address from
/// the bytes that follow it and the index registers.
#[allow(non_camel_case_types)]
#[derive(Clone, Copy, PartialEq, Eq, Structural, Debug)]
pub enum AddressingMode {
    Immediate,
    ZeroPage,
    ZeroPage_X,
    ZeroPage_Y,
    Absolute,
    Absolute_X,
    Absolute_Y,
    Indirect_X,
    Indirect_Y,
    Implied,
}

/// One opcode descriptor: the mnemonic is diagnostic only; the length counts
/// the opcode byte itself plus its operand bytes; the addressing mode names
/// the rule for resolving the operand.
#[derive(Clone, Copy, Debug)]
pub struct OpCode {
    pub name: &'static str,
    pub code: u8,
    pub len: u8,
    pub addr_mode: AddressingMode,
}

impl OpCode {
    pub fn new(code: u8, name: &'static str, len: u8, addr_mode: AddressingMode) -> (r: OpCode)
        ensures
            r.code == code,
            r.name == name,
            r.len == len,
            r.addr_mode == addr_mode,
    {
        OpCode { code, name, len, addr_mode }
    }
}

pub open spec fn spec_opcode_row_0(code: u8) -> (u8, AddressingMode) {
    match code {
        0x00 => (1, AddressingMode::Implied),
        0x01 => (2, AddressingMode::Indirect_X),
        0x02 => (1, AddressingMode::Implied),
        0x03 => (2, AddressingMode::Indirect_X),
        0x04 => (2, AddressingMode::ZeroPage),
        0x05 => (2, AddressingMode::ZeroPage),
        0x06 => (2, AddressingMode::ZeroPage),
        0x07 => (2, AddressingMode::ZeroPage),
        0x08 => (1, AddressingMode::Implied),
        0x09 => (2, AddressingMode::Immediate),
        0x0a => (1, AddressingMode::Implied),
        0x0b => (2, AddressingMode::Immediate),
        0x0c => (3, AddressingMode::Absolute),
        0x0d => (3, AddressingMode::Absolute),
        0x0e => (3, AddressingMode::Absolute),
        0x0f => (3, AddressingMode::Absolute),
        _ => (1, AddressingMode::Implied),
    }
}

pub open spec fn spec_opcode_row_1(code: u8) -> (u8, AddressingMode) {
    match code {
        0x10 => (2, AddressingMode::Implied),
        0x11 => (2, AddressingMode::Indirect_Y),
        0x12 => (1, AddressingMode::Implied),
        0x13 => (2, AddressingMode::Indirect_Y),
        0x14 => (2, AddressingMode::ZeroPage_X),
        0x15 => (2, AddressingMode::ZeroPage_X),
        0x16 => (2, AddressingMode::ZeroPage_X),
        0x17 => (2, AddressingMode::ZeroPage_X),
        0x18 => (1, AddressingMode::Implied),
        0x19 => (3, AddressingMode::Absolute_Y),
        0x1a => (1, AddressingMode::Implied),
        0x1b => (3, AddressingMode::Absolute_Y),
        0x1c => (3, AddressingMode::Absolute_X),
        0x1d => (3, AddressingMode::Absolute_X),
        0x1e => (3, AddressingMode::Absolute_X),
        0x1f => (3, AddressingMode::Absolute_X),
        _ => (1, AddressingMode::Implied),
    }
}

pub open spec fn spec_opcode_row_2(code: u8) -> (u8, AddressingMode) {
    match code {
        0x20 => (3, AddressingMode::Absolute),
        0x21 => (2, AddressingMode::Indirect_X),
        0x22 => (1, AddressingMode::Implied),
        0x23 => (2, AddressingMode::Indirect_X),
        0x24 => (2, AddressingMode::ZeroPage),
        0x25 => (2, AddressingMode::ZeroPage),
        0x26 => (2, AddressingMode::ZeroPage),
        0x27 => (2, AddressingMode::ZeroPage),
        0x28 => (1, AddressingMode::Implied),
        0x29 => (2, AddressingMode::Immediate),
        0x2a => (1, AddressingMode::Implied),
        0x2b => (2, AddressingMode::Immediate),
        0x2c => (3, AddressingMode::Absolute),
        0x2d => (3, AddressingMode::Absolute),
        0x2e => (3, AddressingMode::Absolute),
        0x2f => (3, AddressingMode::Absolute),
        _ => (1, AddressingMode::Implied),
    }
}

pub open spec fn spec_opcode_row_3(code: u8) -> (u8, AddressingMode) {
    match code {
        0x30 => (2, AddressingMode::Implied),
        0x31 => (2, AddressingMode::Indirect_Y),
        0x32 => (1, AddressingMode::Implied),
        0x33 => (2, AddressingMode::Indirect_Y),
        0x34 => (2, AddressingMode::ZeroPage_X),
        0x35 => (2, AddressingMode::ZeroPage_X),
        0x36 => (2, AddressingMode::ZeroPage_X),
        0x37 => (2, AddressingMode::ZeroPage_X),
        0x38 => (1, AddressingMode::Implied),
        0x39 => (3, AddressingMode::Absolute_Y),
        0x3a => (1, AddressingMode::Implied),
        0x3b => (3, AddressingMode::Absolute_Y),
        0x3c => (3, AddressingMode::Absolute_X),
        0x3d => (3, AddressingMode::Absolute_X),
        0x3e => (3, AddressingMode::Absolute_X),
        0x3f => (3, AddressingMode::Absolute_X),
        _ => (1, AddressingMode::Implied),
    }
}

pub open spec fn spec_opcode_row_4(code: u8) -> (u8, AddressingMode) {
    match code {
        0x40 => (1, AddressingMode::Implied),
        0x41 => (2, AddressingMode::Indirect_X),
        0x42 => (1, AddressingMode::Implied),
        0x43 => (2, AddressingMode::Indirect_X),
        0x44 => (2, AddressingMode::ZeroPage),
        0x45 => (2, AddressingMode::ZeroPage),
        0x46 => (2, AddressingMode::ZeroPage),
        0x47 => (2, AddressingMode::ZeroPage),
        0x48 => (1, AddressingMode::Implied),
        0x49 => (2, AddressingMode::Immediate),
        0x4a => (1, AddressingMode::Implied),
        0x4b => (2, AddressingMode::Immediate),
        0x4c => (3, AddressingMode::Implied),
        0x4d => (3, AddressingMode::Absolute),
        0x4e => (3, AddressingMode::Absolute),
        0x4f => (3, AddressingMode::Absolute),
        _ => (1, AddressingMode::Implied),
    }
}

pub open spec fn spec_opcode_row_5(code: u8) -> (u8, AddressingMode) {
    match code {
        0x50 => (2, AddressingMode::Implied),
        0x51 => (2, AddressingMode::Indirect_Y),
        0x52 => (1, AddressingMode::Implied),
        0x53 => (2, AddressingMode::Indirect_Y),
        0x54 => (2, AddressingMode::ZeroPage_X),
        0x55 => (2, AddressingMode::ZeroPage_X),
        0x56 => (2, AddressingMode::ZeroPage_X),
        0x57 => (2, AddressingMode::ZeroPage_X),
        0x58 => (1, AddressingMode::Implied),
        0x59 => (3, AddressingMode::Absolute_Y),
        0x5a => (1, AddressingMode::Implied),
        0x5b => (3, AddressingMode::Absolute_Y),
        0x5c => (3, AddressingMode::Absolute_X),
        0x5d => (3, AddressingMode::Absolute_X),
        0x5e => (3, AddressingMode::Absolute_X),
        0x5f => (3, AddressingMode::Absolute_X),
        _ => (1, AddressingMode::Implied),
    }
}

pub open spec fn spec_opcode_row_6(code: u8) -> (u8, AddressingMode) {
    match code {
        0x60 => (1, AddressingMode::Implied),
        0x61 => (2, AddressingMode::Indirect_X),
        0x62 => (1, AddressingMode::Implied),
        0x63 => (2, AddressingMode::Indirect_X),
        0x64 => (2, AddressingMode::ZeroPage),
        0x65 => (2, AddressingMode::ZeroPage),
        0x66 => (2, AddressingMode::ZeroPage),
        0x67 => (2, AddressingMode::ZeroPage),
        0x68 => (1, AddressingMode::Implied),
        0x69 => (2, AddressingMode::Immediate),
        0x6a => (1, AddressingMode::Implied),
        0x6b => (2, AddressingMode::Immediate),
        0x6c => (3, AddressingMode::Implied),
        0x6d => (3, AddressingMode::Absolute),
        0x6e => (3, AddressingMode::Absolute),
        0x6f => (3, AddressingMode::Absolute),
        _ => (1, AddressingMode::Implied),
    }
}

pub open spec fn spec_opcode_row_7(code: u8) -> (u8, AddressingMode) {
    match code {
        0x70 => (2, AddressingMode::Implied),
        0x71 => (2, AddressingMode::Indirect_Y),
        0x72 => (1, AddressingMode::Implied),
        0x73 => (2, AddressingMode::Indirect_Y),
        0x74 => (2, AddressingMode::ZeroPage_X),
        0x75 => (2, AddressingMode::ZeroPage_X),
        0x76 => (2, AddressingMode::ZeroPage_X),
        0x77 => (2, AddressingMode::ZeroPage_X),
        0x78 => (1, AddressingMode::Implied),
        0x79 => (3, AddressingMode::Absolute_Y),
        0x7a => (1, AddressingMode::Implied),
        0x7b => (3, AddressingMode::Absolute_Y),
        0x7c => (3, AddressingMode::Absolute_X),
        0x7d => (3, AddressingMode::Absolute_X),
        0x7e => (3, AddressingMode::Absolute_X),
        0x7f => (3, AddressingMode::Absolute_X),
        _ => (1, AddressingMode::Implied),
    }
}

pub open spec fn spec_opcode_row_8(code: u8) -> (u8, AddressingMode) {
    match code {
        0x80 => (2, AddressingMode::Immediate),
        0x81 => (2, AddressingMode::Indirect_X),
        0x82 => (2, AddressingMode::Immediate),
        0x83 => (2, AddressingMode::Indirect_X),
        0x84 => (2, AddressingMode::ZeroPage),
        0x85 => (2, AddressingMode::ZeroPage),
        0x86 => (2, AddressingMode::ZeroPage),
        0x87 => (2, AddressingMode::ZeroPage),
        0x88 => (1, AddressingMode::Implied),
        0x89 => (2, AddressingMode::Immediate),
        0x8a => (1, AddressingMode::Implied),
        0x8b => (2, AddressingMode::Immediate),
        0x8c => (3, AddressingMode::Absolute),
        0x8d => (3, AddressingMode::Absolute),
        0x8e => (3, AddressingMode::Absolute),
        0x8f => (3, AddressingMode::Absolute),
        _ => (1, AddressingMode::Implied),
    }
}

pub open spec fn spec_opcode_row_9(code: u8) -> (u8, AddressingMode) {
    match code {
        0x90 => (2, AddressingMode::Implied),
        0x91 => (2, AddressingMode::Indirect_Y),
        0x92 => (1, AddressingMode::Implied),
        0x93 => (2, AddressingMode::Indirect_Y),
        0x94 => (2, AddressingMode::ZeroPage_X),
        0x95 => (2, AddressingMode::ZeroPage_X),
        0x96 => (2, AddressingMode::ZeroPage_Y),
        0x97 => (2, AddressingMode::ZeroPage_Y),
        0x98 => (1, AddressingMode::Implied),
        0x99 => (3, AddressingMode::Absolute_Y),
        0x9a => (1, AddressingMode::Implied),
        0x9b => (3, AddressingMode::Absolute_Y),
        0x9c => (3, AddressingMode::Absolute_X),
        0x9d => (3, AddressingMode::Absolute_X),
        0x9e => (3, AddressingMode::Absolute_Y),
        0x9f => (3, AddressingMode::Absolute_Y),
        _ => (1, AddressingMode::Implied),
    }
}

pub open spec fn spec_opcode_row_a(code: u8) -> (u8, AddressingMode) {
    match code {
        0xa0 => (2, AddressingMode::Immediate),
        0xa1 => (2, AddressingMode::Indirect_X),
        0xa2 => (2, AddressingMode::Immediate),
        0xa3 => (2, AddressingMode::Indirect_X),
        0xa4 => (2, AddressingMode::ZeroPage),
        0xa5 => (2, AddressingMode::ZeroPage),
        0xa6 => (2, AddressingMode::ZeroPage),
        0xa7 => (2, AddressingMode::ZeroPage),
        0xa8 => (1, AddressingMode::Implied),
        0xa9 => (2, AddressingMode::Immediate),
        0xaa => (1, AddressingMode::Implied),
        0xab => (2, AddressingMode::Immediate),
        0xac => (3, AddressingMode::Absolute),
        0xad => (3, AddressingMode::Absolute),
        0xae => (3, AddressingMode::Absolute),
        0xaf => (3, AddressingMode::Absolute),
        _ => (1, AddressingMode::Implied),
    }
}

pub open spec fn spec_opcode_row_b(code: u8) -> (u8, AddressingMode) {
    match code {
        0xb0 => (2, AddressingMode::Implied),
        0xb1 => (2, AddressingMode::Indirect_Y),
        0xb2 => (1, AddressingMode::Implied),
        0xb3 => (2, AddressingMode::Indirect_Y),
        0xb4 => (2, AddressingMode::ZeroPage_X),
        0xb5 => (2, AddressingMode::ZeroPage_X),
        0xb6 => (2, AddressingMode::ZeroPage_Y),
        0xb7 => (2, AddressingMode::ZeroPage_Y),
        0xb8 => (1, AddressingMode::Implied),
        0xb9 => (3, AddressingMode::Absolute_Y),
        0xba => (1, AddressingMode::Implied),
        0xbb => (3, AddressingMode::Absolute_Y),
        0xbc => (3, AddressingMode::Absolute_X),
        0xbd => (3, AddressingMode::Absolute_X),
        0xbe => (3, AddressingMode::Absolute_Y),
        0xbf => (3, AddressingMode::Absolute_Y),
        _ => (1, AddressingMode::Implied),
    }
}

pub open spec fn spec_opcode_row_c(code: u8) -> (u8, AddressingMode) {
    match code {
        0xc0 => (2, AddressingMode::Immediate),
        0xc1 => (2, AddressingMode::Indirect_X),
        0xc2 => (2, AddressingMode::Immediate),
        0xc3 => (2, AddressingMode::Indirect_X),
        0xc4 => (2, AddressingMode::ZeroPage),
        0xc5 => (2, AddressingMode::ZeroPage),
        0xc6 => (2, AddressingMode::ZeroPage),
        0xc7 => (2, AddressingMode::ZeroPage),
        0xc8 => (1, AddressingMode::Implied),
        0xc9 => (2, AddressingMode::Immediate),
        0xca => (1, AddressingMode::Implied),
        0xcb => (2, AddressingMode::Immediate),
        0xcc => (3, AddressingMode::Absolute),
        0xcd => (3, AddressingMode::Absolute),
        0xce => (3, AddressingMode::Absolute),
        0xcf => (3, AddressingMode::Absolute),
        _ => (1, AddressingMode::Implied),
    }
}

pub open spec fn spec_opcode_row_d(code: u8) -> (u8, AddressingMode) {
    match code {
        0xd0 => (2, AddressingMode::Implied),
        0xd1 => (2, AddressingMode::Indirect_Y),
        0xd2 => (1, AddressingMode::Implied),
        0xd3 => (2, AddressingMode::Indirect_Y),
        0xd4 => (2, AddressingMode::ZeroPage_X),
        0xd5 => (2, AddressingMode::ZeroPage_X),
        0xd6 => (2, AddressingMode::ZeroPage_X),
        0xd7 => (2, AddressingMode::ZeroPage_X),
        0xd8 => (1, AddressingMode::Implied),
        0xd9 => (3, AddressingMode::Absolute_Y),
        0xda => (1, AddressingMode::Implied),
        0xdb => (3, AddressingMode::Absolute_Y),
        0xdc => (3, AddressingMode::Absolute_X),
        0xdd => (3, AddressingMode::Absolute_X),
        0xde => (3, AddressingMode::Absolute_X),
        0xdf => (3, AddressingMode::Absolute_X),
        _ => (1, AddressingMode::Implied),
    }
}

pub open spec fn spec_opcode_row_e(code: u8) -> (u8, AddressingMode) {
    match code {
        0xe0 => (2, AddressingMode::Immediate),
        0xe1 => (2, AddressingMode::Indirect_X),
        0xe2 => (2, AddressingMode::Immediate),
        0xe3 => (2, AddressingMode::Indirect_X),
        0xe4 => (2, AddressingMode::ZeroPage),
        0xe5 => (2, AddressingMode::ZeroPage),
        0xe6 => (2, AddressingMode::ZeroPage),
        0xe7 => (2, AddressingMode::ZeroPage),
        0xe8 => (1, AddressingMode::Implied),
        0xe9 => (2, AddressingMode::Immediate),
        0xea => (1, AddressingMode::Implied),
        0xeb => (2, AddressingMode::Immediate),
        0xec => (3, AddressingMode::Absolute),
        0xed => (3, AddressingMode::Absolute),
        0xee => (3, AddressingMode::Absolute),
        0xef => (3, AddressingMode::Absolute),
        _ => (1, AddressingMode::Implied),
    }
}

pub open spec fn spec_opcode_row_f(code: u8) -> (u8, AddressingMode) {
    match code {
        0xf0 => (2, AddressingMode::Implied),
        0xf1 => (2, AddressingMode::Indirect_Y),
        0xf2 => (1, AddressingMode::Implied),
        0xf3 => (2, AddressingMode::Indirect_Y),
        0xf4 => (2, AddressingMode::ZeroPage_X),
        0xf5 => (2, AddressingMode::ZeroPage_X),
        0xf6 => (2, AddressingMode::ZeroPage_X),
        0xf7 => (2, AddressingMode::ZeroPage_X),
        0xf8 => (1, AddressingMode::Implied),
        0xf9 => (3, AddressingMode::Absolute_Y),
        0xfa => (1, AddressingMode::Implied),
        0xfb => (3, AddressingMode::Absolute_Y),
        0xfc => (3, AddressingMode::Absolute_X),
        0xfd => (3, AddressingMode::Absolute_X),
        0xfe => (3, AddressingMode::Absolute_X),
        0xff => (3, AddressingMode::Absolute_X),
        _ => (1, AddressingMode::Implied),
    }
}

/// The instruction length (in bytes, opcode included) and addressing mode
/// that the table assigns to each opcode byte.
pub open spec fn spec_opcode(code: u8) -> (u8, AddressingMode) {
    if code < 0x10 {
        spec_opcode_row_0(code)
    } else if code < 0x20 {
        spec_opcode_row_1(code)
    } else if code < 0x30 {
        spec_opcode_row_2(code)
    } else if code < 0x40 {
        spec_opcode_row_3(code)
    } else if code < 0x50 {
        spec_opcode_row_4(code)
    } else if code < 0x60 {
        spec_opcode_row_5(code)
    } else if code < 0x70 {
        spec_opcode_row_6(code)
    } else if code < 0x80 {
        spec_opcode_row_7(code)
    } else if code < 0x90 {
        spec_opcode_row_8(code)
    } else if code < 0xa0 {
        spec_opcode_row_9(code)
    } else if code < 0xb0 {
        spec_opcode_row_a(code)
    } else if code < 0xc0 {
        spec_opcode_row_b(code)
    } else if code < 0xd0 {
        spec_opcode_row_c(code)
    } else if code < 0xe0 {
        spec_opcode_row_d(code)
    } else if code < 0xf0 {
        spec_opcode_row_e(code)
    } else {
        spec_opcode_row_f(code)
    }
}

fn opcode_lookup_row_0(code: u8) -> (r: OpCode)
    requires
        0x00 <= code <= 0x0f,
    ensures
        r.code == code,
        r.len == spec_opcode(code).0,
        r.addr_mode == spec_opcode(code).1,
        1 <= r.len <= 3,
{
    match code {
        0x00 => OpCode::new(0x00, "BRK", 1, AddressingMode::Implied),
        0x01 => OpCode::new(0x01, "ORA", 2, AddressingMode::Indirect_X),
        0x02 => OpCode::new(0x02, "*NOP", 1, AddressingMode::Implied),
        0x03 => OpCode::new(0x03, "*SLO", 2, AddressingMode::Indirect_X),
        0x04 => OpCode::new(0x04, "*NOP", 2, AddressingMode::ZeroPage),
        0x05 => OpCode::new(0x05, "ORA", 2, AddressingMode::ZeroPage),
        0x06 => OpCode::new(0x06, "ASL", 2, AddressingMode::ZeroPage),
        0x07 => OpCode::new(0x07, "*SLO", 2, AddressingMode::ZeroPage),
        0x08 => OpCode::new(0x08, "PHP", 1, AddressingMode::Implied),
        0x09 => OpCode::new(0x09, "ORA", 2, AddressingMode::Immediate),
        0x0a => OpCode::new(0x0a, "ASL", 1, AddressingMode::Implied),
        0x0b => OpCode::new(0x0b, "*ANC", 2, AddressingMode::Immediate),
        0x0c => OpCode::new(0x0c, "*NOP", 3, AddressingMode::Absolute),
        0x0d => OpCode::new(0x0d, "ORA", 3, AddressingMode::Absolute),
        0x0e => OpCode::new(0x0e, "ASL", 3, AddressingMode::Absolute),
        0x0f => OpCode::new(0x0f, "*SLO", 3, AddressingMode::Absolute),
        _ => OpCode::new(code, "*NOP", 1, AddressingMode::Implied),
    }
}

fn opcode_lookup_row_1(code: u8) -> (r: OpCode)
    requires
        0x10 <= code <= 0x1f,
    ensures
        r.code == code,
        r.len == spec_opcode(code).0,
        r.addr_mode == spec_opcode(code).1,
        1 <= r.len <= 3,
{
    match code {
        0x10 => OpCode::new(0x10, "BPL", 2, AddressingMode::Implied),
        0x11 => OpCode::new(0x11, "ORA", 2, AddressingMode::Indirect_Y),
        0x12 => OpCode::new(0x12, "*NOP", 1, AddressingMode::Implied),
        0x13 => OpCode::new(0x13, "*SLO", 2, AddressingMode::Indirect_Y),
        0x14 => OpCode::new(0x14, "*NOP", 2, AddressingMode::ZeroPage_X),
        0x15 => OpCode::new(0x15, "ORA", 2, AddressingMode::ZeroPage_X),
        0x16 => OpCode::new(0x16, "ASL", 2, AddressingMode::ZeroPage_X),
        0x17 => OpCode::new(0x17, "*SLO", 2, AddressingMode::ZeroPage_X),
        0x18 => OpCode::new(0x18, "CLC", 1, AddressingMode::Implied),
        0x19 => OpCode::new(0x19, "ORA", 3, AddressingMode::Absolute_Y),
        0x1a => OpCode::new(0x1a, "*NOP", 1, AddressingMode::Implied),
        0x1b => OpCode::new(0x1b, "*SLO", 3, AddressingMode::Absolute_Y),
        0x1c => OpCode::new(0x1c, "*NOP", 3, AddressingMode::Absolute_X),
        0x1d => OpCode::new(0x1d, "ORA", 3, AddressingMode::Absolute_X),
        0x1e => OpCode::new(0x1e, "ASL", 3, AddressingMode::Absolute_X),
        0x1f => OpCode::new(0x1f, "*SLO", 3, AddressingMode::Absolute_X),
        _ => OpCode::new(code, "*NOP", 1, AddressingMode::Implied),
    }
}

fn opcode_lookup_row_2(code: u8) -> (r: OpCode)
    requires
        0x20 <= code <= 0x2f,
    ensures
        r.code == code,
        r.len == spec_opcode(code).0,
        r.addr_mode == spec_opcode(code).1,
        1 <= r.len <= 3,
{
    match code {
        0x20 => OpCode::new(0x20, "JSR", 3, AddressingMode::Absolute),
        0x21 => OpCode::new(0x21, "AND", 2, AddressingMode::Indirect_X),
        0x22 => OpCode::new(0x22, "*NOP", 1, AddressingMode::Implied),
        0x23 => OpCode::new(0x23, "*RLA", 2, AddressingMode::Indirect_X),
        0x24 => OpCode::new(0x24, "BIT", 2, AddressingMode::ZeroPage),
        0x25 => OpCode::new(0x25, "AND", 2, AddressingMode::ZeroPage),
        0x26 => OpCode::new(0x26, "ROL", 2, AddressingMode::ZeroPage),
        0x27 => OpCode::new(0x27, "*RLA", 2, AddressingMode::ZeroPage),
        0x28 => OpCode::new(0x28, "PLP", 1, AddressingMode::Implied),
        0x29 => OpCode::new(0x29, "AND", 2, AddressingMode::Immediate),
        0x2a => OpCode::new(0x2a, "ROL", 1, AddressingMode::Implied),
        0x2b => OpCode::new(0x2b, "*ANC", 2, AddressingMode::Immediate),
        0x2c => OpCode::new(0x2c, "BIT", 3, AddressingMode::Absolute),
        0x2d => OpCode::new(0x2d, "AND", 3, AddressingMode::Absolute),
        0x2e => OpCode::new(0x2e, "ROL", 3, AddressingMode::Absolute),
        0x2f => OpCode::new(0x2f, "*RLA", 3, AddressingMode::Absolute),
        _ => OpCode::new(code, "*NOP", 1, AddressingMode::Implied),
    }
}

fn opcode_lookup_row_3(code: u8) -> (r: OpCode)
    requires
        0x30 <= code <= 0x3f,
    ensures
        r.code == code,
        r.len == spec_opcode(code).0,
        r.addr_mode == spec_opcode(code).1,
        1 <= r.len <= 3,
{
    match code {
        0x30 => OpCode::new(0x30, "BMI", 2, AddressingMode::Implied),
        0x31 => OpCode::new(0x31, "AND", 2, AddressingMode::Indirect_Y),
        0x32 => OpCode::new(0x32, "*NOP", 1, AddressingMode::Implied),
        0x33 => OpCode::new(0x33, "*RLA", 2, AddressingMode::Indirect_Y),
        0x34 => OpCode::new(0x34, "*NOP", 2, AddressingMode::ZeroPage_X),
        0x35 => OpCode::new(0x35, "AND", 2, AddressingMode::ZeroPage_X),
        0x36 => OpCode::new(0x36, "ROL", 2, AddressingMode::ZeroPage_X),
        0x37 => OpCode::new(0x37, "*RLA", 2, AddressingMode::ZeroPage_X),
        0x38 => OpCode::new(0x38, "SEC", 1, AddressingMode::Implied),
        0x39 => OpCode::new(0x39, "AND", 3, AddressingMode::Absolute_Y),
        0x3a => OpCode::new(0x3a, "*NOP", 1, AddressingMode::Implied),
        0x3b => OpCode::new(0x3b, "*RLA", 3, AddressingMode::Absolute_Y),
        0x3c => OpCode::new(0x3c, "*NOP", 3, AddressingMode::Absolute_X),
        0x3d => OpCode::new(0x3d, "AND", 3, AddressingMode::Absolute_X),
        0x3e => OpCode::new(0x3e, "ROL", 3, AddressingMode::Absolute_X),
        0x3f => OpCode::new(0x3f, "*RLA", 3, AddressingMode::Absolute_X),
        _ => OpCode::new(code, "*NOP", 1, AddressingMode::Implied),
    }
}

fn opcode_lookup_row_4(code: u8) -> (r: OpCode)
    requires
        0x40 <= code <= 0x4f,
    ensures
        r.code == code,
        r.len == spec_opcode(code).0,
        r.addr_mode == spec_opcode(code).1,
        1 <= r.len <= 3,
{
    match code {
        0x40 => OpCode::new(0x40, "RTI", 1, AddressingMode::Implied),
        0x41 => OpCode::new(0x41, "EOR", 2, AddressingMode::Indirect_X),
        0x42 => OpCode::new(0x42, "*NOP", 1, AddressingMode::Implied),
        0x43 => OpCode::new(0x43, "*SRE", 2, AddressingMode::Indirect_X),
        0x44 => OpCode::new(0x44, "*NOP", 2, AddressingMode::ZeroPage),
        0x45 => OpCode::new(0x45, "EOR", 2, AddressingMode::ZeroPage),
        0x46 => OpCode::new(0x46, "LSR", 2, AddressingMode::ZeroPage),
        0x47 => OpCode::new(0x47, "*SRE", 2, AddressingMode::ZeroPage),
        0x48 => OpCode::new(0x48, "PHA", 1, AddressingMode::Implied),
        0x49 => OpCode::new(0x49, "EOR", 2, AddressingMode::Immediate),
        0x4a => OpCode::new(0x4a, "LSR", 1, AddressingMode::Implied),
        0x4b => OpCode::new(0x4b, "*ALR", 2, AddressingMode::Immediate),
        0x4c => OpCode::new(0x4c, "JMP", 3, AddressingMode::Implied),
        0x4d => OpCode::new(0x4d, "EOR", 3, AddressingMode::Absolute),
        0x4e => OpCode::new(0x4e, "LSR", 3, AddressingMode::Absolute),
        0x4f => OpCode::new(0x4f, "*SRE", 3, AddressingMode::Absolute),
        _ => OpCode::new(code, "*NOP", 1, AddressingMode::Implied),
    }
}

fn opcode_lookup_row_5(code: u8) -> (r: OpCode)
    requires
        0x50 <= code <= 0x5f,
    ensures
        r.code == code,
        r.len == spec_opcode(code).0,
        r.addr_mode == spec_opcode(code).1,
        1 <= r.len <= 3,
{
    match code {
        0x50 => OpCode::new(0x50, "BVC", 2, AddressingMode::Implied),
        0x51 => OpCode::new(0x51, "EOR", 2, AddressingMode::Indirect_Y),
        0x52 => OpCode::new(0x52, "*NOP", 1, AddressingMode::Implied),
        0x53 => OpCode::new(0x53, "*SRE", 2, AddressingMode::Indirect_Y),
        0x54 => OpCode::new(0x54, "*NOP", 2, AddressingMode::ZeroPage_X),
        0x55 => OpCode::new(0x55, "EOR", 2, AddressingMode::ZeroPage_X),
        0x56 => OpCode::new(0x56, "LSR", 2, AddressingMode::ZeroPage_X),
        0x57 => OpCode::new(0x57, "*SRE", 2, AddressingMode::ZeroPage_X),
        0x58 => OpCode::new(0x58, "CLI", 1, AddressingMode::Implied),
        0x59 => OpCode::new(0x59, "EOR", 3, AddressingMode::Absolute_Y),
        0x5a => OpCode::new(0x5a, "*NOP", 1, AddressingMode::Implied),
        0x5b => OpCode::new(0x5b, "*SRE", 3, AddressingMode::Absolute_Y),
        0x5c => OpCode::new(0x5c, "*NOP", 3, AddressingMode::Absolute_X),
        0x5d => OpCode::new(0x5d, "EOR", 3, AddressingMode::Absolute_X),
        0x5e => OpCode::new(0x5e, "LSR", 3, AddressingMode::Absolute_X),
        0x5f => OpCode::new(0x5f, "*SRE", 3, AddressingMode::Absolute_X),
        _ => OpCode::new(code, "*NOP", 1, AddressingMode::Implied),
    }
}

fn opcode_lookup_row_6(code: u8) -> (r: OpCode)
    requires
        0x60 <= code <= 0x6f,
    ensures
        r.code == code,
        r.len == spec_opcode(code).0,
        r.addr_mode == spec_opcode(code).1,
        1 <= r.len <= 3,
{
    match code {
        0x60 => OpCode::new(0x60, "RTS", 1, AddressingMode::Implied),
        0x61 => OpCode::new(0x61, "ADC", 2, AddressingMode::Indirect_X),
        0x62 => OpCode::new(0x62, "*NOP", 1, AddressingMode::Implied),
        0x63 => OpCode::new(0x63, "*RRA", 2, AddressingMode::Indirect_X),
        0x64 => OpCode::new(0x64, "*NOP", 2, AddressingMode::ZeroPage),
        0x65 => OpCode::new(0x65, "ADC", 2, AddressingMode::ZeroPage),
        0x66 => OpCode::new(0x66, "ROR", 2, AddressingMode::ZeroPage),
        0x67 => OpCode::new(0x67, "*RRA", 2, AddressingMode::ZeroPage),
        0x68 => OpCode::new(0x68, "PLA", 1, AddressingMode::Implied),
        0x69 => OpCode::new(0x69, "ADC", 2, AddressingMode::Immediate),
        0x6a => OpCode::new(0x6a, "ROR", 1, AddressingMode::Implied),
        0x6b => OpCode::new(0x6b, "*ARR", 2, AddressingMode::Immediate),
        0x6c => OpCode::new(0x6c, "JMP", 3, AddressingMode::Implied),
        0x6d => OpCode::new(0x6d, "ADC", 3, AddressingMode::Absolute),
        0x6e => OpCode::new(0x6e, "ROR", 3, AddressingMode::Absolute),
        0x6f => OpCode::new(0x6f, "*RRA", 3, AddressingMode::Absolute),
        _ => OpCode::new(code, "*NOP", 1, AddressingMode::Implied),
    }
}

fn opcode_lookup_row_7(code: u8) -> (r: OpCode)
    requires
        0x70 <= code <= 0x7f,
    ensures
        r.code == code,
        r.len == spec_opcode(code).0,
        r.addr_mode == spec_opcode(code).1,
        1 <= r.len <= 3,
{
    match code {
        0x70 => OpCode::new(0x70, "BVS", 2, AddressingMode::Implied),
        0x71 => OpCode::new(0x71, "ADC", 2, AddressingMode::Indirect_Y),
        0x72 => OpCode::new(0x72, "*NOP", 1, AddressingMode::Implied),
        0x73 => OpCode::new(0x73, "*RRA", 2, AddressingMode::Indirect_Y),
        0x74 => OpCode::new(0x74, "*NOP", 2, AddressingMode::ZeroPage_X),
        0x75 => OpCode::new(0x75, "ADC", 2, AddressingMode::ZeroPage_X),
        0x76 => OpCode::new(0x76, "ROR", 2, AddressingMode::ZeroPage_X),
        0x77 => OpCode::new(0x77, "*RRA", 2, AddressingMode::ZeroPage_X),
        0x78 => OpCode::new(0x78, "SEI", 1, AddressingMode::Implied),
        0x79 => OpCode::new(0x79, "ADC", 3, AddressingMode::Absolute_Y),
        0x7a => OpCode::new(0x7a, "*NOP", 1, AddressingMode::Implied),
        0x7b => OpCode::new(0x7b, "*RRA", 3, AddressingMode::Absolute_Y),
        0x7c => OpCode::new(0x7c, "*NOP", 3, AddressingMode::Absolute_X),
        0x7d => OpCode::new(0x7d, "ADC", 3, AddressingMode::Absolute_X),
        0x7e => OpCode::new(0x7e, "ROR", 3, AddressingMode::Absolute_X),
        0x7f => OpCode::new(0x7f, "*RRA", 3, AddressingMode::Absolute_X),
        _ => OpCode::new(code, "*NOP", 1, AddressingMode::Implied),
    }
}

fn opcode_lookup_row_8(code: u8) -> (r: OpCode)
    requires
        0x80 <= code <= 0x8f,
    ensures
        r.code == code,
        r.len == spec_opcode(code).0,
        r.addr_mode == spec_opcode(code).1,
        1 <= r.len <= 3,
{
    match code {
        0x80 => OpCode::new(0x80, "*NOP", 2, AddressingMode::Immediate),
        0x81 => OpCode::new(0x81, "STA", 2, AddressingMode::Indirect_X),
        0x82 => OpCode::new(0x82, "*NOP", 2, AddressingMode::Immediate),
        0x83 => OpCode::new(0x83, "*SAX", 2, AddressingMode::Indirect_X),
        0x84 => OpCode::new(0x84, "STY", 2, AddressingMode::ZeroPage),
        0x85 => OpCode::new(0x85, "STA", 2, AddressingMode::ZeroPage),
        0x86 => OpCode::new(0x86, "STX", 2, AddressingMode::ZeroPage),
        0x87 => OpCode::new(0x87, "*SAX", 2, AddressingMode::ZeroPage),
        0x88 => OpCode::new(0x88, "DEY", 1, AddressingMode::Implied),
        0x89 => OpCode::new(0x89, "*NOP", 2, AddressingMode::Immediate),
        0x8a => OpCode::new(0x8a, "TXA", 1, AddressingMode::Implied),
        0x8b => OpCode::new(0x8b, "*XAA", 2, AddressingMode::Immediate),
        0x8c => OpCode::new(0x8c, "STY", 3, AddressingMode::Absolute),
        0x8d => OpCode::new(0x8d, "STA", 3, AddressingMode::Absolute),
        0x8e => OpCode::new(0x8e, "STX", 3, AddressingMode::Absolute),
        0x8f => OpCode::new(0x8f, "*SAX", 3, AddressingMode::Absolute),
        _ => OpCode::new(code, "*NOP", 1, AddressingMode::Implied),
    }
}

fn opcode_lookup_row_9(code: u8) -> (r: OpCode)
    requires
        0x90 <= code <= 0x9f,
    ensures
        r.code == code,
        r.len == spec_opcode(code).0,
        r.addr_mode == spec_opcode(code).1,
        1 <= r.len <= 3,
{
    match code {
        0x90 => OpCode::new(0x90, "BCC", 2, AddressingMode::Implied),
        0x91 => OpCode::new(0x91, "STA", 2, AddressingMode::Indirect_Y),
        0x92 => OpCode::new(0x92, "*NOP", 1, AddressingMode::Implied),
        0x93 => OpCode::new(0x93, "*AHX", 2, AddressingMode::Indirect_Y),
        0x94 => OpCode::new(0x94, "STY", 2, AddressingMode::ZeroPage_X),
        0x95 => OpCode::new(0x95, "STA", 2, AddressingMode::ZeroPage_X),
        0x96 => OpCode::new(0x96, "STX", 2, AddressingMode::ZeroPage_Y),
        0x97 => OpCode::new(0x97, "*SAX", 2, AddressingMode::ZeroPage_Y),
        0x98 => OpCode::new(0x98, "TYA", 1, AddressingMode::Implied),
        0x99 => OpCode::new(0x99, "STA", 3, AddressingMode::Absolute_Y),
        0x9a => OpCode::new(0x9a, "TXS", 1, AddressingMode::Implied),
        0x9b => OpCode::new(0x9b, "*TAS", 3, AddressingMode::Absolute_Y),
        0x9c => OpCode::new(0x9c, "*SHY", 3, AddressingMode::Absolute_X),
        0x9d => OpCode::new(0x9d, "STA", 3, AddressingMode::Absolute_X),
        0x9e => OpCode::new(0x9e, "*SHX", 3, AddressingMode::Absolute_Y),
        0x9f => OpCode::new(0x9f, "*AHX", 3, AddressingMode::Absolute_Y),
        _ => OpCode::new(code, "*NOP", 1, AddressingMode::Implied),
    }
}

fn opcode_lookup_row_a(code: u8) -> (r: OpCode)
    requires
        0xa0 <= code <= 0xaf,
    ensures
        r.code == code,
        r.len == spec_opcode(code).0,
        r.addr_mode == spec_opcode(code).1,
        1 <= r.len <= 3,
{
    match code {
        0xa0 => OpCode::new(0xa0, "LDY", 2, AddressingMode::Immediate),
        0xa1 => OpCode::new(0xa1, "LDA", 2, AddressingMode::Indirect_X),
        0xa2 => OpCode::new(0xa2, "LDX", 2, AddressingMode::Immediate),
        0xa3 => OpCode::new(0xa3, "*LAX", 2, AddressingMode::Indirect_X),
        0xa4 => OpCode::new(0xa4, "LDY", 2, AddressingMode::ZeroPage),
        0xa5 => OpCode::new(0xa5, "LDA", 2, AddressingMode::ZeroPage),
        0xa6 => OpCode::new(0xa6, "LDX", 2, AddressingMode::ZeroPage),
        0xa7 => OpCode::new(0xa7, "*LAX", 2, AddressingMode::ZeroPage),
        0xa8 => OpCode::new(0xa8, "TAY", 1, AddressingMode::Implied),
        0xa9 => OpCode::new(0xa9, "LDA", 2, AddressingMode::Immediate),
        0xaa => OpCode::new(0xaa, "TAX", 1, AddressingMode::Implied),
        0xab => OpCode::new(0xab, "*LXA", 2, AddressingMode::Immediate),
        0xac => OpCode::new(0xac, "LDY", 3, AddressingMode::Absolute),
        0xad => OpCode::new(0xad, "LDA", 3, AddressingMode::Absolute),
        0xae => OpCode::new(0xae, "LDX", 3, AddressingMode::Absolute),
        0xaf => OpCode::new(0xaf, "*LAX", 3, AddressingMode::Absolute),
        _ => OpCode::new(code, "*NOP", 1, AddressingMode::Implied),
    }
}

fn opcode_lookup_row_b(code: u8) -> (r: OpCode)
    requires
        0xb0 <= code <= 0xbf,
    ensures
        r.code == code,
        r.len == spec_opcode(code).0,
        r.addr_mode == spec_opcode(code).1,
        1 <= r.len <= 3,
{
    match code {
        0xb0 => OpCode::new(0xb0, "BCS", 2, AddressingMode::Implied),
        0xb1 => OpCode::new(0xb1, "LDA", 2, AddressingMode::Indirect_Y),
        0xb2 => OpCode::new(0xb2, "*NOP", 1, AddressingMode::Implied),
        0xb3 => OpCode::new(0xb3, "*LAX", 2, AddressingMode::Indirect_Y),
        0xb4 => OpCode::new(0xb4, "LDY", 2, AddressingMode::ZeroPage_X),
        0xb5 => OpCode::new(0xb5, "LDA", 2, AddressingMode::ZeroPage_X),
        0xb6 => OpCode::new(0xb6, "LDX", 2, AddressingMode::ZeroPage_Y),
        0xb7 => OpCode::new(0xb7, "*LAX", 2, AddressingMode::ZeroPage_Y),
        0xb8 => OpCode::new(0xb8, "CLV", 1, AddressingMode::Implied),
        0xb9 => OpCode::new(0xb9, "LDA", 3, AddressingMode::Absolute_Y),
        0xba => OpCode::new(0xba, "TSX", 1, AddressingMode::Implied),
        0xbb => OpCode::new(0xbb, "*LAS", 3, AddressingMode::Absolute_Y),
        0xbc => OpCode::new(0xbc, "LDY", 3, AddressingMode::Absolute_X),
        0xbd => OpCode::new(0xbd, "LDA", 3, AddressingMode::Absolute_X),
        0xbe => OpCode::new(0xbe, "LDX", 3, AddressingMode::Absolute_Y),
        0xbf => OpCode::new(0xbf, "*LAX", 3, AddressingMode::Absolute_Y),
        _ => OpCode::new(code, "*NOP", 1, AddressingMode::Implied),
    }
}

fn opcode_lookup_row_c(code: u8) -> (r: OpCode)
    requires
        0xc0 <= code <= 0xcf,
    ensures
        r.code == code,
        r.len == spec_opcode(code).0,
        r.addr_mode == spec_opcode(code).1,
        1 <= r.len <= 3,
{
    match code {
        0xc0 => OpCode::new(0xc0, "CPY", 2, AddressingMode::Immediate),
        0xc1 => OpCode::new(0xc1, "CMP", 2, AddressingMode::Indirect_X),
        0xc2 => OpCode::new(0xc2, "*NOP", 2, AddressingMode::Immediate),
        0xc3 => OpCode::new(0xc3, "*DCP", 2, AddressingMode::Indirect_X),
        0xc4 => OpCode::new(0xc4, "CPY", 2, AddressingMode::ZeroPage),
        0xc5 => OpCode::new(0xc5, "CMP", 2, AddressingMode::ZeroPage),
        0xc6 => OpCode::new(0xc6, "DEC", 2, AddressingMode::ZeroPage),
        0xc7 => OpCode::new(0xc7, "*DCP", 2, AddressingMode::ZeroPage),
        0xc8 => OpCode::new(0xc8, "INY", 1, AddressingMode::Implied),
        0xc9 => OpCode::new(0xc9, "CMP", 2, AddressingMode::Immediate),
        0xca => OpCode::new(0xca, "DEX", 1, AddressingMode::Implied),
        0xcb => OpCode::new(0xcb, "*AXS", 2, AddressingMode::Immediate),
        0xcc => OpCode::new(0xcc, "CPY", 3, AddressingMode::Absolute),
        0xcd => OpCode::new(0xcd, "CMP", 3, AddressingMode::Absolute),
        0xce => OpCode::new(0xce, "DEC", 3, AddressingMode::Absolute),
        0xcf => OpCode::new(0xcf, "*DCP", 3, AddressingMode::Absolute),
        _ => OpCode::new(code, "*NOP", 1, AddressingMode::Implied),
    }
}

fn opcode_lookup_row_d(code: u8) -> (r: OpCode)
    requires
        0xd0 <= code <= 0xdf,
    ensures
        r.code == code,
        r.len == spec_opcode(code).0,
        r.addr_mode == spec_opcode(code).1,
        1 <= r.len <= 3,
{
    match code {
        0xd0 => OpCode::new(0xd0, "BNE", 2, AddressingMode::Implied),
        0xd1 => OpCode::new(0xd1, "CMP", 2, AddressingMode::Indirect_Y),
        0xd2 => OpCode::new(0xd2, "*NOP", 1, AddressingMode::Implied),
        0xd3 => OpCode::new(0xd3, "*DCP", 2, AddressingMode::Indirect_Y),
        0xd4 => OpCode::new(0xd4, "*NOP", 2, AddressingMode::ZeroPage_X),
        0xd5 => OpCode::new(0xd5, "CMP", 2, AddressingMode::ZeroPage_X),
        0xd6 => OpCode::new(0xd6, "DEC", 2, AddressingMode::ZeroPage_X),
        0xd7 => OpCode::new(0xd7, "*DCP", 2, AddressingMode::ZeroPage_X),
        0xd8 => OpCode::new(0xd8, "CLD", 1, AddressingMode::Implied),
        0xd9 => OpCode::new(0xd9, "CMP", 3, AddressingMode::Absolute_Y),
        0xda => OpCode::new(0xda, "*NOP", 1, AddressingMode::Implied),
        0xdb => OpCode::new(0xdb, "*DCP", 3, AddressingMode::Absolute_Y),
        0xdc => OpCode::new(0xdc, "*NOP", 3, AddressingMode::Absolute_X),
        0xdd => OpCode::new(0xdd, "CMP", 3, AddressingMode::Absolute_X),
        0xde => OpCode::new(0xde, "DEC", 3, AddressingMode::Absolute_X),
        0xdf => OpCode::new(0xdf, "*DCP", 3, AddressingMode::Absolute_X),
        _ => OpCode::new(code, "*NOP", 1, AddressingMode::Implied),
    }
}

fn opcode_lookup_row_e(code: u8) -> (r: OpCode)
    requires
        0xe0 <= code <= 0xef,
    ensures
        r.code == code,
        r.len == spec_opcode(code).0,
        r.addr_mode == spec_opcode(code).1,
        1 <= r.len <= 3,
{
    match code {
        0xe0 => OpCode::new(0xe0, "CPX", 2, AddressingMode::Immediate),
        0xe1 => OpCode::new(0xe1, "SBC", 2, AddressingMode::Indirect_X),
        0xe2 => OpCode::new(0xe2, "*NOP", 2, AddressingMode::Immediate),
        0xe3 => OpCode::new(0xe3, "*ISB", 2, AddressingMode::Indirect_X),
        0xe4 => OpCode::new(0xe4, "CPX", 2, AddressingMode::ZeroPage),
        0xe5 => OpCode::new(0xe5, "SBC", 2, AddressingMode::ZeroPage),
        0xe6 => OpCode::new(0xe6, "INC", 2, AddressingMode::ZeroPage),
        0xe7 => OpCode::new(0xe7, "*ISB", 2, AddressingMode::ZeroPage),
        0xe8 => OpCode::new(0xe8, "INX", 1, AddressingMode::Implied),
        0xe9 => OpCode::new(0xe9, "SBC", 2, AddressingMode::Immediate),
        0xea => OpCode::new(0xea, "NOP", 1, AddressingMode::Implied),
        0xeb => OpCode::new(0xeb, "*SBC", 2, AddressingMode::Immediate),
        0xec => OpCode::new(0xec, "CPX", 3, AddressingMode::Absolute),
        0xed => OpCode::new(0xed, "SBC", 3, AddressingMode::Absolute),
        0xee => OpCode::new(0xee, "INC", 3, AddressingMode::Absolute),
        0xef => OpCode::new(0xef, "*ISB", 3, AddressingMode::Absolute),
        _ => OpCode::new(code, "*NOP", 1, AddressingMode::Implied),
    }
}

fn opcode_lookup_row_f(code: u8) -> (r: OpCode)
    requires
        0xf0 <= code <= 0xff,
    ensures
        r.code == code,
        r.len == spec_opcode(code).0,
        r.addr_mode == spec_opcode(code).1,
        1 <= r.len <= 3,
{
    match code {
        0xf0 => OpCode::new(0xf0, "BEQ", 2, AddressingMode::Implied),
        0xf1 => OpCode::new(0xf1, "SBC", 2, AddressingMode::Indirect_Y),
        0xf2 => OpCode::new(0xf2, "*NOP", 1, AddressingMode::Implied),
        0xf3 => OpCode::new(0xf3, "*ISB", 2, AddressingMode::Indirect_Y),
        0xf4 => OpCode::new(0xf4, "*NOP", 2, AddressingMode::ZeroPage_X),
        0xf5 => OpCode::new(0xf5, "SBC", 2, AddressingMode::ZeroPage_X),
        0xf6 => OpCode::new(0xf6, "INC", 2, AddressingMode::ZeroPage_X),
        0xf7 => OpCode::new(0xf7, "*ISB", 2, AddressingMode::ZeroPage_X),
        0xf8 => OpCode::new(0xf8, "SED", 1, AddressingMode::Implied),
        0xf9 => OpCode::new(0xf9, "SBC", 3, AddressingMode::Absolute_Y),
        0xfa => OpCode::new(0xfa, "*NOP", 1, AddressingMode::Implied),
        0xfb => OpCode::new(0xfb, "*ISB", 3, AddressingMode::Absolute_Y),
        0xfc => OpCode::new(0xfc, "*NOP", 3, AddressingMode::Absolute_X),
        0xfd => OpCode::new(0xfd, "SBC", 3, AddressingMode::Absolute_X),
        0xfe => OpCode::new(0xfe, "INC", 3, AddressingMode::Absolute_X),
        0xff => OpCode::new(0xff, "*ISB", 3, AddressingMode::Absolute_X),
        _ => OpCode::new(code, "*NOP", 1, AddressingMode::Implied),
    }
}

/// Looks up the descriptor for an opcode byte. The table recognizes every
/// byte value, so the lookup is total.
pub fn opcode_lookup(code: u8) -> (r: OpCode)
    ensures
        r.code == code,
        r.len == spec_opcode(code).0,
        r.addr_mode == spec_opcode(code).1,
        1 <= r.len <= 3,
{
    if code < 0x10 {
        opcode_lookup_row_0(code)
    } else if code < 0x20 {
        opcode_lookup_row_1(code)
    } else if code < 0x30 {
        opcode_lookup_row_2(code)
    } else if code < 0x40 {
        opcode_lookup_row_3(code)
    } else if code < 0x50 {
        opcode_lookup_row_4(code)
    } else if code < 0x60 {
        opcode_lookup_row_5(code)
    } else if code < 0x70 {
        opcode_lookup_row_6(code)
    } else if code < 0x80 {
        opcode_lookup_row_7(code)
    } else if code < 0x90 {
        opcode_lookup_row_8(code)
    } else if code < 0xa0 {
        opcode_lookup_row_9(code)
    } else if code < 0xb0 {
        opcode_lookup_row_a(code)
    } else if code < 0xc0 {
        opcode_lookup_row_b(code)
    } else if code < 0xd0 {
        opcode_lookup_row_c(code)
    } else if code < 0xe0 {
        opcode_lookup_row_d(code)
    } else if code < 0xf0 {
        opcode_lookup_row_e(code)
    } else {
        opcode_lookup_row_f(code)
    }
}

} // verus!
