use nes_core::cpu::{CPU, RunOutcome};
use nes_core::mem::Mem;

fn run_program(cpu: &mut CPU, program: &[u8]) {
    cpu.load(program).expect("program fits the load window");
    cpu.reset();
    assert_eq!(cpu.run(100), Ok(RunOutcome::Halted));
}

#[test]
fn lda_immediate_takes_the_operand_byte() {
    let mut cpu = CPU::new();
    run_program(&mut cpu, &[0xA9, 0x42, 0x00]);
    assert_eq!(cpu.register_a(), 0x42);
}

#[test]
fn lda_zeropage_loads() {
    let mut cpu = CPU::new();
    cpu.mem_write(0x0010, 0xAB);
    run_program(&mut cpu, &[0xA5, 0x10, 0x00]);
    assert_eq!(cpu.register_a(), 0xAB);
}

#[test]
fn lda_zeropage_x_wraps() {
    let mut cpu = CPU::new();
    // X = 0x0F, base = 0xF8: effective = (0xF8 + 0x0F) & 0xFF = 0x07
    cpu.mem_write(0x0007, 0xCD);
    run_program(&mut cpu, &[0xA2, 0x0F, 0xB5, 0xF8, 0x00]);
    assert_eq!(cpu.register_a(), 0xCD);
}

#[test]
fn lda_zeropage_x_wrap_at_edge_ff() {
    let mut cpu = CPU::new();
    // base = 0xFF, X = 2: effective = 0x01, never 0x101
    cpu.mem_write(0x0001, 0x5A);
    cpu.mem_write(0x0101, 0x99);
    run_program(&mut cpu, &[0xA2, 0x02, 0xB5, 0xFF, 0x00]);
    assert_eq!(cpu.register_a(), 0x5A);
}

#[test]
fn ldx_zeropage_y_wraps() {
    let mut cpu = CPU::new();
    cpu.mem_write(0x0001, 0x3C);
    run_program(&mut cpu, &[0xA0, 0x02, 0xB6, 0xFF, 0x00]);
    assert_eq!(cpu.register_x(), 0x3C);
}

#[test]
fn lda_absolute_loads() {
    let mut cpu = CPU::new();
    cpu.mem_write(0x8000, 0x77);
    run_program(&mut cpu, &[0xAD, 0x00, 0x80, 0x00]);
    assert_eq!(cpu.register_a(), 0x77);
}

#[test]
fn lda_absolute_x_adds_index_with_full_width() {
    let mut cpu = CPU::new();
    cpu.mem_write(0x8005, 0x44);
    run_program(&mut cpu, &[0xA2, 0x05, 0xBD, 0x00, 0x80, 0x00]);
    assert_eq!(cpu.register_a(), 0x44);
}

#[test]
fn lda_absolute_y_adds_index() {
    let mut cpu = CPU::new();
    cpu.mem_write(0x8003, 0x99);
    run_program(&mut cpu, &[0xA0, 0x03, 0xB9, 0x00, 0x80, 0x00]);
    assert_eq!(cpu.register_a(), 0x99);
}

#[test]
fn lda_absolute_x_wraps_around_address_space() {
    let mut cpu = CPU::new();
    // base 0xFFFF + X 2 wraps to 0x0001
    cpu.mem_write(0x0001, 0x21);
    run_program(&mut cpu, &[0xA2, 0x02, 0xBD, 0xFF, 0xFF, 0x00]);
    assert_eq!(cpu.register_a(), 0x21);
}

#[test]
fn lda_indirect_x_dereferences_zero_page_pointer() {
    let mut cpu = CPU::new();
    // X = 4; operand = $20: pointer at $24/$25 -> $8000
    cpu.mem_write(0x0024, 0x00);
    cpu.mem_write(0x0025, 0x80);
    cpu.mem_write(0x8000, 0x66);
    run_program(&mut cpu, &[0xA2, 0x04, 0xA1, 0x20, 0x00]);
    assert_eq!(cpu.register_a(), 0x66);
}

#[test]
fn lda_indirect_x_pointer_wraps_within_zero_page() {
    let mut cpu = CPU::new();
    // X = 0; operand = $FF: pointer low at $FF, high at $00, not $100
    cpu.mem_write(0x00FF, 0x00);
    cpu.mem_write(0x0000, 0x80);
    cpu.mem_write(0x0100, 0x77); // must not be read as the pointer's high byte
    cpu.mem_write(0x8000, 0x13);
    run_program(&mut cpu, &[0xA2, 0x00, 0xA1, 0xFF, 0x00]);
    assert_eq!(cpu.register_a(), 0x13);
}

#[test]
fn lda_indirect_y_adds_index_after_dereference() {
    let mut cpu = CPU::new();
    // pointer at $20/$21 -> $8000 ; Y = 5: effective $8005
    cpu.mem_write(0x0020, 0x00);
    cpu.mem_write(0x0021, 0x80);
    cpu.mem_write(0x8005, 0x42);
    run_program(&mut cpu, &[0xA0, 0x05, 0xB1, 0x20, 0x00]);
    assert_eq!(cpu.register_a(), 0x42);
}

#[test]
fn lda_sets_negative_flag() {
    let mut cpu = CPU::new();
    run_program(&mut cpu, &[0xA9, 0x80, 0x00]);
    assert_ne!(cpu.status().bits & 0b1000_0000, 0);
    assert_eq!(cpu.status().bits & 0b0000_0010, 0);
}

#[test]
fn sta_writes_through_every_addressing_mode_used() {
    let mut cpu = CPU::new();
    // LDA #$5D ; STA $10 ; STA $8000 ; BRK
    run_program(&mut cpu, &[0xA9, 0x5D, 0x85, 0x10, 0x8D, 0x00, 0x80, 0x00]);
    assert_eq!(cpu.mem_read(0x0010), 0x5D);
    assert_eq!(cpu.mem_read(0x8000), 0x5D);
}

#[test]
fn logic_ops_combine_with_accumulator() {
    let mut cpu = CPU::new();
    // LDA #$F0 ; AND #$3C ; BRK
    run_program(&mut cpu, &[0xA9, 0xF0, 0x29, 0x3C, 0x00]);
    assert_eq!(cpu.register_a(), 0x30);
    // LDA #$F0 ; ORA #$0F ; BRK
    run_program(&mut cpu, &[0xA9, 0xF0, 0x09, 0x0F, 0x00]);
    assert_eq!(cpu.register_a(), 0xFF);
    // LDA #$FF ; EOR #$0F ; BRK
    run_program(&mut cpu, &[0xA9, 0xFF, 0x49, 0x0F, 0x00]);
    assert_eq!(cpu.register_a(), 0xF0);
}
