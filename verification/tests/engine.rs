use nes_core::cpu::{CPU, EmuError, RunOutcome, StepOutcome};
use nes_core::flags::{CARRY, NEGATIVE, OVERFLOW, ZERO};
use nes_core::mem::Mem;

fn cpu_with_program(program: &[u8]) -> CPU {
    let mut cpu = CPU::new();
    cpu.load(program).expect("program fits the load window");
    cpu.reset();
    cpu
}

#[test]
fn reset_clears_registers_and_seeds_counter_from_vector() {
    let mut cpu = CPU::new();
    cpu.register_a = 0x55;
    cpu.register_x = 0x66;
    cpu.register_y = 0x77;
    cpu.mem_write(0xFFFC, 0x34);
    cpu.mem_write(0xFFFD, 0x12);
    cpu.reset();
    assert_eq!(cpu.register_a(), 0);
    assert_eq!(cpu.register_x(), 0);
    assert_eq!(cpu.register_y(), 0);
    assert_eq!(cpu.status().bits, 0);
    assert_eq!(cpu.program_counter(), 0x1234);
}

#[test]
fn reset_leaves_stack_pointer_alone() {
    let mut cpu = CPU::new();
    cpu.stack_push(0xAA);
    let sp = cpu.stack_pointer();
    cpu.reset();
    assert_eq!(cpu.stack_pointer(), sp);
}

#[test]
fn load_store_round_trip_reflects_byte_in_flags() {
    // LDA $10 ; BRK, with [$0010] = 0xAB
    let mut cpu = cpu_with_program(&[0xA5, 0x10, 0x00]);
    cpu.mem_write(0x0010, 0xAB);
    assert_eq!(cpu.run(10), Ok(RunOutcome::Halted));
    assert_eq!(cpu.register_a(), 0xAB);
    assert_eq!(cpu.status().bits & ZERO, 0);
    assert_ne!(cpu.status().bits & NEGATIVE, 0);
}

#[test]
fn store_then_load_returns_same_byte() {
    // LDA #$C3 ; STA $42 ; LDA #$00 ; LDA $42 ; BRK
    let mut cpu = cpu_with_program(&[0xA9, 0xC3, 0x85, 0x42, 0xA9, 0x00, 0xA5, 0x42, 0x00]);
    assert_eq!(cpu.run(10), Ok(RunOutcome::Halted));
    assert_eq!(cpu.register_a(), 0xC3);
    assert_eq!(cpu.mem_read(0x42), 0xC3);
}

#[test]
fn adc_signed_overflow_at_boundary() {
    // LDA #$7F ; ADC #$01 ; BRK with carry clear
    let mut cpu = cpu_with_program(&[0xA9, 0x7F, 0x69, 0x01, 0x00]);
    assert_eq!(cpu.run(10), Ok(RunOutcome::Halted));
    assert_eq!(cpu.register_a(), 0x80);
    assert_ne!(cpu.status().bits & OVERFLOW, 0);
    assert_ne!(cpu.status().bits & NEGATIVE, 0);
    assert_eq!(cpu.status().bits & CARRY, 0);
}

#[test]
fn adc_carry_out_wraps_to_zero() {
    // LDA #$FF ; SEC ; ADC #$00 ; BRK -> 0xFF + 0 + 1 = 0x100
    let mut cpu = cpu_with_program(&[0xA9, 0xFF, 0x38, 0x69, 0x00, 0x00]);
    assert_eq!(cpu.run(10), Ok(RunOutcome::Halted));
    assert_eq!(cpu.register_a(), 0x00);
    assert_ne!(cpu.status().bits & CARRY, 0);
    assert_ne!(cpu.status().bits & ZERO, 0);
}

#[test]
fn sbc_borrow_chain_from_zero() {
    // LDA #$00 ; SEC ; SBC #$01 ; BRK (carry-in = 1 means no borrow)
    let mut cpu = cpu_with_program(&[0xA9, 0x00, 0x38, 0xE9, 0x01, 0x00]);
    assert_eq!(cpu.run(10), Ok(RunOutcome::Halted));
    assert_eq!(cpu.register_a(), 0xFF);
    assert_eq!(cpu.status().bits & CARRY, 0);
    assert_ne!(cpu.status().bits & NEGATIVE, 0);
}

#[test]
fn stack_round_trip_returns_byte_and_pointer() {
    let mut cpu = CPU::new();
    let sp = cpu.stack_pointer();
    cpu.stack_push(0xAB);
    assert_eq!(cpu.stack_pointer(), sp.wrapping_sub(1));
    assert_eq!(cpu.stack_pop(), 0xAB);
    assert_eq!(cpu.stack_pointer(), sp);
}

#[test]
fn stack_round_trip_through_push_pull_instructions() {
    // LDA #$AB ; PHA ; LDA #$00 ; PLA ; BRK
    let mut cpu = cpu_with_program(&[0xA9, 0xAB, 0x48, 0xA9, 0x00, 0x68, 0x00]);
    let sp = cpu.stack_pointer();
    assert_eq!(cpu.run(10), Ok(RunOutcome::Halted));
    assert_eq!(cpu.register_a(), 0xAB);
    assert_eq!(cpu.stack_pointer(), sp);
}

#[test]
fn subroutine_call_resumes_after_full_instruction() {
    // 0x0600: JSR $0604 ; 0x0603: BRK ; 0x0604: RTS
    let mut cpu = cpu_with_program(&[0x20, 0x04, 0x06, 0x00, 0x60]);
    assert_eq!(cpu.step(), Ok(StepOutcome::Continue)); // JSR
    assert_eq!(cpu.program_counter(), 0x0604);
    assert_eq!(cpu.step(), Ok(StepOutcome::Continue)); // RTS
    assert_eq!(cpu.program_counter(), 0x0603); // call address + 3
    assert_eq!(cpu.step(), Ok(StepOutcome::Halted)); // BRK
}

#[test]
fn jsr_pushes_return_address_minus_one_high_first() {
    let mut cpu = cpu_with_program(&[0x20, 0x04, 0x06, 0x00, 0x60]);
    assert_eq!(cpu.step(), Ok(StepOutcome::Continue));
    // return address - 1 = 0x0602, pushed high byte first at 0x01FD
    assert_eq!(cpu.mem_read(0x01FD), 0x06);
    assert_eq!(cpu.mem_read(0x01FC), 0x02);
}

#[test]
fn indirect_jump_reads_high_byte_from_same_page() {
    // JMP ($02FF): low target byte at $02FF, high from $0200, not $0300
    let mut cpu = cpu_with_program(&[0x6C, 0xFF, 0x02, 0x00]);
    cpu.mem_write(0x02FF, 0x34);
    cpu.mem_write(0x0200, 0x12); // same page's byte 0x00: used
    cpu.mem_write(0x0300, 0x56); // following page: must not be used
    assert_eq!(cpu.step(), Ok(StepOutcome::Continue));
    assert_eq!(cpu.program_counter(), 0x1234);
}

#[test]
fn indirect_jump_off_boundary_reads_next_byte() {
    // JMP ($02FE): an ordinary indirect jump
    let mut cpu = cpu_with_program(&[0x6C, 0xFE, 0x02, 0x00]);
    cpu.mem_write(0x02FE, 0x78);
    cpu.mem_write(0x02FF, 0x56);
    assert_eq!(cpu.step(), Ok(StepOutcome::Continue));
    assert_eq!(cpu.program_counter(), 0x5678);
}

#[test]
fn branch_not_taken_still_consumes_operand() {
    // LDA #$01 (clears Z) ; BEQ +5 ; BRK
    let mut cpu = cpu_with_program(&[0xA9, 0x01, 0xF0, 0x05, 0x00]);
    assert_eq!(cpu.step(), Ok(StepOutcome::Continue)); // LDA
    assert_eq!(cpu.program_counter(), 0x0602);
    assert_eq!(cpu.step(), Ok(StepOutcome::Continue)); // BEQ, not taken
    assert_eq!(cpu.program_counter(), 0x0604); // advanced by the full 2 bytes
}

#[test]
fn branch_taken_moves_by_signed_offset() {
    // LDA #$00 (sets Z) ; BEQ +2 ; (skipped bytes) ; LDA #$77 ; BRK
    let mut cpu = cpu_with_program(&[0xA9, 0x00, 0xF0, 0x02, 0xA9, 0x55, 0xA9, 0x77, 0x00]);
    assert_eq!(cpu.run(10), Ok(RunOutcome::Halted));
    assert_eq!(cpu.register_a(), 0x77);
}

#[test]
fn branch_backward_offset_is_sign_extended() {
    // LDX #$03 ; DEX ; BNE -3 (back to DEX) ; BRK
    let mut cpu = cpu_with_program(&[0xA2, 0x03, 0xCA, 0xD0, 0xFD, 0x00]);
    assert_eq!(cpu.run(20), Ok(RunOutcome::Halted));
    assert_eq!(cpu.register_x(), 0);
}

#[test]
fn unimplemented_opcode_stops_the_run_fatally() {
    // 0x02 is in the table but the engine declines to execute it
    let mut cpu = cpu_with_program(&[0x02, 0x00]);
    assert_eq!(cpu.run(10), Err(EmuError::UnimplementedOpcode(0x02)));
    assert_eq!(cpu.program_counter(), 0x0601);
}

#[test]
fn oversized_program_is_rejected_whole() {
    let mut cpu = CPU::new();
    let program = vec![0xEA; 0x0201];
    assert_eq!(cpu.load(&program), Err(EmuError::InvalidConfiguration));
    // nothing was written
    assert_eq!(cpu.mem_read(0x0600), 0);
    assert_eq!(cpu.mem_read_u16(0xFFFC), 0);
}

#[test]
fn full_load_window_is_accepted() {
    let mut cpu = CPU::new();
    let mut program = vec![0xEA; 0x0200];
    program[0] = 0xA9;
    program[1] = 0x42;
    assert_eq!(cpu.load(&program), Ok(()));
    assert_eq!(cpu.mem_read(0x0600), 0xA9);
    assert_eq!(cpu.mem_read_u16(0xFFFC), 0x0600);
}

#[test]
fn run_step_limit_reports_and_resumes() {
    let mut cpu = cpu_with_program(&[0xEA, 0xEA, 0xEA, 0x00]);
    assert_eq!(cpu.run(2), Ok(RunOutcome::StepLimit));
    assert_eq!(cpu.program_counter(), 0x0602);
    assert_eq!(cpu.run(10), Ok(RunOutcome::Halted));
    assert_eq!(cpu.program_counter(), 0x0604);
}

#[test]
fn ram_is_mirrored_every_two_kibibytes() {
    let mut cpu = CPU::new();
    cpu.mem_write(0x0000, 0x42);
    assert_eq!(cpu.mem_read(0x0800), 0x42);
    assert_eq!(cpu.mem_read(0x1000), 0x42);
    assert_eq!(cpu.mem_read(0x1800), 0x42);
    cpu.mem_write(0x1801, 0x17);
    assert_eq!(cpu.mem_read(0x0001), 0x17);
}

#[test]
fn device_registers_are_mirrored_every_eight_addresses() {
    let mut cpu = CPU::new();
    cpu.mem_write(0x2002, 0x99);
    assert_eq!(cpu.mem_read(0x200A), 0x99);
    assert_eq!(cpu.mem_read(0x3FFA), 0x99);
}

#[test]
fn little_endian_word_access_wraps_at_address_top() {
    let mut cpu = CPU::new();
    cpu.mem_write_u16(0x0010, 0x1234);
    assert_eq!(cpu.mem_read(0x0010), 0x34);
    assert_eq!(cpu.mem_read(0x0011), 0x12);
    assert_eq!(cpu.mem_read_u16(0x0010), 0x1234);
    cpu.mem_write(0xFFFF, 0x78);
    cpu.mem_write(0x0000, 0x56);
    assert_eq!(cpu.mem_read_u16(0xFFFF), 0x5678);
}

#[test]
fn push_status_sets_break_and_unused_bits_on_the_copy() {
    // SEC ; PHP ; PLA ; BRK
    let mut cpu = cpu_with_program(&[0x38, 0x08, 0x68, 0x00]);
    assert_eq!(cpu.run(10), Ok(RunOutcome::Halted));
    assert_eq!(cpu.register_a() & 0x30, 0x30);
    assert_eq!(cpu.register_a() & CARRY, CARRY);
    // the live flags were not mutated by the push
    assert_eq!(cpu.status().bits & 0x30, 0);
}

#[test]
fn pull_status_forces_bit5_and_clears_break_marker() {
    // LDA #$FF ; PHA ; PLP ; BRK
    let mut cpu = cpu_with_program(&[0xA9, 0xFF, 0x48, 0x28, 0x00]);
    assert_eq!(cpu.run(10), Ok(RunOutcome::Halted));
    assert_eq!(cpu.status().bits, 0xEF);
}

#[test]
fn return_from_interrupt_restores_status_and_counter_without_adjustment() {
    let mut cpu = CPU::new();
    cpu.stack_push(0x06); // counter high byte
    cpu.stack_push(0x10); // counter low byte
    cpu.stack_push(0b1101_0001); // status byte on the stack
    cpu.rti();
    assert_eq!(cpu.program_counter(), 0x0610);
    // bit 5 forced on, break marker forced off
    assert_eq!(cpu.status().bits, 0b1110_0001);
}

#[test]
fn compare_uses_register_minus_operand() {
    // LDA #$10 ; CMP #$10 ; BRK
    let mut cpu = cpu_with_program(&[0xA9, 0x10, 0xC9, 0x10, 0x00]);
    assert_eq!(cpu.run(10), Ok(RunOutcome::Halted));
    assert_ne!(cpu.status().bits & CARRY, 0);
    assert_ne!(cpu.status().bits & ZERO, 0);
    // LDX #$05 ; CPX #$06 ; BRK
    let mut cpu = cpu_with_program(&[0xA2, 0x05, 0xE0, 0x06, 0x00]);
    assert_eq!(cpu.run(10), Ok(RunOutcome::Halted));
    assert_eq!(cpu.status().bits & CARRY, 0);
    assert_ne!(cpu.status().bits & NEGATIVE, 0);
}

#[test]
fn bit_test_copies_operand_bits_and_masks_accumulator() {
    // LDA #$00 ; BIT $10 ; BRK with [$0010] = 0xC0
    let mut cpu = cpu_with_program(&[0xA9, 0x00, 0x24, 0x10, 0x00]);
    cpu.mem_write(0x0010, 0xC0);
    assert_eq!(cpu.run(10), Ok(RunOutcome::Halted));
    assert_ne!(cpu.status().bits & ZERO, 0);
    assert_ne!(cpu.status().bits & OVERFLOW, 0);
    assert_ne!(cpu.status().bits & NEGATIVE, 0);
}

#[test]
fn shifts_and_rotates_move_carry() {
    // LDA #$81 ; ASL A ; BRK
    let mut cpu = cpu_with_program(&[0xA9, 0x81, 0x0A, 0x00]);
    assert_eq!(cpu.run(10), Ok(RunOutcome::Halted));
    assert_eq!(cpu.register_a(), 0x02);
    assert_ne!(cpu.status().bits & CARRY, 0);
    // SEC ; LDA #$01 ; ROR A ; BRK -> carry feeds bit 7, bit 0 leaves
    let mut cpu = cpu_with_program(&[0x38, 0xA9, 0x01, 0x6A, 0x00]);
    assert_eq!(cpu.run(10), Ok(RunOutcome::Halted));
    assert_eq!(cpu.register_a(), 0x80);
    assert_ne!(cpu.status().bits & CARRY, 0);
    // SEC ; LDA #$80 ; ROL A ; BRK -> carry feeds bit 0, bit 7 leaves
    let mut cpu = cpu_with_program(&[0x38, 0xA9, 0x80, 0x2A, 0x00]);
    assert_eq!(cpu.run(10), Ok(RunOutcome::Halted));
    assert_eq!(cpu.register_a(), 0x01);
    assert_ne!(cpu.status().bits & CARRY, 0);
    // LDA #$03 ; LSR A ; BRK
    let mut cpu = cpu_with_program(&[0xA9, 0x03, 0x4A, 0x00]);
    assert_eq!(cpu.run(10), Ok(RunOutcome::Halted));
    assert_eq!(cpu.register_a(), 0x01);
    assert_ne!(cpu.status().bits & CARRY, 0);
}

#[test]
fn memory_shift_is_read_modify_write() {
    // ASL $10 ; BRK with [$0010] = 0xC0
    let mut cpu = cpu_with_program(&[0x06, 0x10, 0x00]);
    cpu.mem_write(0x0010, 0xC0);
    assert_eq!(cpu.run(10), Ok(RunOutcome::Halted));
    assert_eq!(cpu.mem_read(0x0010), 0x80);
    assert_ne!(cpu.status().bits & CARRY, 0);
}

#[test]
fn increment_and_decrement_wrap() {
    // LDX #$FF ; INX ; BRK
    let mut cpu = cpu_with_program(&[0xA2, 0xFF, 0xE8, 0x00]);
    assert_eq!(cpu.run(10), Ok(RunOutcome::Halted));
    assert_eq!(cpu.register_x(), 0);
    assert_ne!(cpu.status().bits & ZERO, 0);
    // DEC $10 ; BRK with [$0010] = 0
    let mut cpu = cpu_with_program(&[0xC6, 0x10, 0x00]);
    assert_eq!(cpu.run(10), Ok(RunOutcome::Halted));
    assert_eq!(cpu.mem_read(0x0010), 0xFF);
    assert_ne!(cpu.status().bits & NEGATIVE, 0);
}

#[test]
fn transfers_update_flags_except_into_stack_pointer() {
    // LDA #$80 ; TAX ; BRK
    let mut cpu = cpu_with_program(&[0xA9, 0x80, 0xAA, 0x00]);
    assert_eq!(cpu.run(10), Ok(RunOutcome::Halted));
    assert_eq!(cpu.register_x(), 0x80);
    assert_ne!(cpu.status().bits & NEGATIVE, 0);
    // LDX #$00 ; TXS ; BRK -> no flags from TXS
    let mut cpu = cpu_with_program(&[0xA2, 0x80, 0x9A, 0xA9, 0x01, 0x00]);
    assert_eq!(cpu.run(10), Ok(RunOutcome::Halted));
    assert_eq!(cpu.stack_pointer(), 0x80);
}
