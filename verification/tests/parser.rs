use nes_core::color::get_rgb_color;
use nes_core::cpu::CPU;
use nes_core::mem::Mem;
use nes_core::opcodes::{opcode_lookup, AddressingMode, OpCode};
use nes_core::rom::{Mirroring, Rom};
use nes_core::screen::should_update_screen;

fn image(prg_pages: u8, chr_pages: u8, flags6: u8, flags7: u8) -> Vec<u8> {
    let mut raw = vec![0x4E, 0x45, 0x53, 0x1A, prg_pages, chr_pages, flags6, flags7];
    raw.resize(16, 0);
    let trainer = if flags6 & 0b100 != 0 { 512 } else { 0 };
    let body = trainer + prg_pages as usize * 16384 + chr_pages as usize * 8192;
    raw.resize(16 + body, 0);
    raw
}

#[test]
fn rom_parses_a_minimal_image() {
    let mut raw = image(1, 1, 0b0001, 0x20);
    raw[16] = 0xEA; // first program byte
    raw[16 + 16384] = 0x55; // first character byte
    let rom = Rom::new(&raw).expect("valid image");
    assert_eq!(rom.prg_rom.len(), 16384);
    assert_eq!(rom.chr_rom.len(), 8192);
    assert_eq!(rom.prg_rom[0], 0xEA);
    assert_eq!(rom.chr_rom[0], 0x55);
    assert_eq!(rom.mapper, 0x20);
    assert_eq!(rom.screen_mirroring, Mirroring::VERTICAL);
}

#[test]
fn rom_reads_mapper_from_both_flag_nibbles() {
    let raw = image(1, 0, 0x50, 0xA0);
    let rom = Rom::new(&raw).expect("valid image");
    assert_eq!(rom.mapper, 0xA5);
}

#[test]
fn rom_mirroring_modes_decode() {
    let rom = Rom::new(&image(1, 0, 0b0000, 0)).expect("valid image");
    assert_eq!(rom.screen_mirroring, Mirroring::HORIZONTAL);
    let rom = Rom::new(&image(1, 0, 0b1000, 0)).expect("valid image");
    assert_eq!(rom.screen_mirroring, Mirroring::FOUR_SCREEN);
    // the four-screen bit wins over the vertical bit
    let rom = Rom::new(&image(1, 0, 0b1001, 0)).expect("valid image");
    assert_eq!(rom.screen_mirroring, Mirroring::FOUR_SCREEN);
}

#[test]
fn rom_skips_a_trainer() {
    let mut raw = image(1, 0, 0b0100, 0);
    raw[16] = 0xDD; // trainer byte, not program
    raw[16 + 512] = 0x77; // first program byte
    let rom = Rom::new(&raw).expect("valid image");
    assert_eq!(rom.prg_rom[0], 0x77);
}

#[test]
fn rom_rejects_a_bad_tag() {
    let mut raw = image(1, 1, 0, 0);
    raw[0] = 0x4D;
    match Rom::new(&raw) {
        Err(m) => assert_eq!(m, "File isn't in iNES format"),
        Ok(_) => panic!("accepted an image with a bad tag"),
    }
    match Rom::new(&[]) {
        Err(m) => assert_eq!(m, "File isn't in iNES format"),
        Ok(_) => panic!("accepted an empty image"),
    }
}

#[test]
fn rom_rejects_a_newer_format_version() {
    let raw = image(1, 1, 0, 0b0000_1000);
    match Rom::new(&raw) {
        Err(m) => assert_eq!(m, "NES2.0 format isn't supported"),
        Ok(_) => panic!("accepted a newer format version"),
    }
}

#[test]
fn rom_rejects_data_shorter_than_declared() {
    let mut raw = image(1, 1, 0, 0);
    raw.truncate(raw.len() - 1);
    match Rom::new(&raw) {
        Err(m) => assert_eq!(m, "File is shorter than its header declares"),
        Ok(_) => panic!("accepted truncated data"),
    }
}

#[test]
fn opcode_table_resolves_official_and_undocumented_bytes() {
    let lda = opcode_lookup(0xA9);
    assert_eq!(lda.code, 0xA9);
    assert_eq!(lda.name, "LDA");
    assert_eq!(lda.len, 2);
    assert!(matches!(lda.addr_mode, AddressingMode::Immediate));
    let sta = opcode_lookup(0x91);
    assert_eq!(sta.len, 2);
    assert!(matches!(sta.addr_mode, AddressingMode::Indirect_Y));
    let brk = opcode_lookup(0x00);
    assert_eq!(brk.len, 1);
    // an undocumented byte still resolves
    let lax = opcode_lookup(0xA7);
    assert_eq!(lax.name, "*LAX");
    assert_eq!(lax.len, 2);
    assert!(matches!(lax.addr_mode, AddressingMode::ZeroPage));
}

#[test]
fn opcode_constructor_keeps_its_fields() {
    let op = OpCode::new(0x4C, "JMP", 3, AddressingMode::Implied);
    assert_eq!(op.code, 0x4C);
    assert_eq!(op.name, "JMP");
    assert_eq!(op.len, 3);
    assert!(matches!(op.addr_mode, AddressingMode::Implied));
}

#[test]
fn palette_maps_bytes_to_fixed_colors() {
    assert_eq!(get_rgb_color(0), (0, 0, 0));
    assert_eq!(get_rgb_color(1), (255, 255, 255));
    assert_eq!(get_rgb_color(2), (128, 128, 128));
    assert_eq!(get_rgb_color(9), (128, 128, 128));
    assert_eq!(get_rgb_color(3), (255, 0, 0));
    assert_eq!(get_rgb_color(10), (255, 0, 0));
    assert_eq!(get_rgb_color(7), (255, 255, 0));
    assert_eq!(get_rgb_color(14), (255, 255, 0));
    assert_eq!(get_rgb_color(8), (0, 255, 255));
    assert_eq!(get_rgb_color(0xFF), (0, 255, 255));
}

#[test]
fn screen_updates_only_when_a_pixel_changes() {
    let mut cpu = CPU::new();
    let mut frame = vec![0u8; 3072];
    // all of the window is palette byte 0 (black), as is the frame
    assert!(!should_update_screen(&cpu, &mut frame));
    cpu.mem_write(0x0200, 1); // first pixel turns white
    assert!(should_update_screen(&cpu, &mut frame));
    assert_eq!(&frame[0..3], &[255, 255, 255]);
    // a second pass sees no further change
    assert!(!should_update_screen(&cpu, &mut frame));
}

#[test]
fn screen_leaves_bytes_past_the_window_alone() {
    let cpu = CPU::new();
    let mut frame = vec![7u8; 3080];
    assert!(should_update_screen(&cpu, &mut frame));
    assert_eq!(frame[0], 0);
    assert_eq!(&frame[3072..], &[7u8; 8]);
}
