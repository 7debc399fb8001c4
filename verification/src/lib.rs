//! A functional emulator core for the 6502-family CPU as embedded in a
//! classic 8-bit home console: the register and flag model, the
//! addressing-mode resolver, the opcode table, the byte-addressable bus with
//! its mirroring rules, and the fetch-decode-execute engine, together with an
//! iNES-style cartridge-image parser and the fixed display palette.

pub mod bus;
pub mod color;
pub mod cpu;
pub mod flags;
pub mod mem;
pub mod opcodes;
pub mod rom;
pub mod screen;
