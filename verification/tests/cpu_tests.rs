//! Tests of the interpreter: arithmetic flags, shifts, skips, call and
//! return, faults and the flow of whole cycles.

use chip8::bus::Bus;
use chip8::cpu::{Fault, CPU, PROGRAM_START};

fn machine_with_rom(rom: &[u8]) -> (CPU, Bus) {
    let cpu = CPU::new();
    let mut bus = Bus::new();
    bus.load_rom(&rom.to_vec());
    (cpu, bus)
}

#[test]
fn new_cpu_starts_at_program_start() {
    let cpu = CPU::new();
    assert_eq!(cpu.get_pc(), PROGRAM_START);
    assert_eq!(cpu.get_sp(), 0);
    assert_eq!(cpu.get_i(), 0);
    for x in 0..16 {
        assert_eq!(cpu.read_register(x), 0);
    }
}

#[test]
fn add_with_carry_sets_flag_iff_sum_exceeds_255() {
    let mut cpu = CPU::new();
    cpu.write_register(0, 200);
    cpu.write_register(1, 100);
    cpu.add_x_y(0, 1);
    assert_eq!(cpu.read_register(0), 44); // (200 + 100) mod 256
    assert_eq!(cpu.read_register(0xF), 1);

    cpu.write_register(2, 10);
    cpu.write_register(3, 5);
    cpu.add_x_y(2, 3);
    assert_eq!(cpu.read_register(2), 15);
    assert_eq!(cpu.read_register(0xF), 0);

    // The boundary: 255 + 0 does not carry, 255 + 1 does.
    cpu.write_register(4, 255);
    cpu.write_register(5, 0);
    cpu.add_x_y(4, 5);
    assert_eq!(cpu.read_register(4), 255);
    assert_eq!(cpu.read_register(0xF), 0);
    cpu.write_register(5, 1);
    cpu.add_x_y(4, 5);
    assert_eq!(cpu.read_register(4), 0);
    assert_eq!(cpu.read_register(0xF), 1);
}

#[test]
fn subtract_not_borrow_sets_flag_iff_strictly_greater() {
    let mut cpu = CPU::new();
    cpu.write_register(0, 7);
    cpu.write_register(1, 5);
    cpu.sub_x_y(0, 1);
    assert_eq!(cpu.read_register(0), 2);
    assert_eq!(cpu.read_register(0xF), 1);

    cpu.write_register(2, 5);
    cpu.write_register(3, 7);
    cpu.sub_x_y(2, 3);
    assert_eq!(cpu.read_register(2), 254); // (5 - 7) mod 256
    assert_eq!(cpu.read_register(0xF), 0);

    // Equal values: no borrow is not enough, the flag stays 0.
    cpu.write_register(4, 9);
    cpu.write_register(5, 9);
    cpu.sub_x_y(4, 5);
    assert_eq!(cpu.read_register(4), 0);
    assert_eq!(cpu.read_register(0xF), 0);
}

#[test]
fn subtract_reversed_not_borrow() {
    let mut cpu = CPU::new();
    cpu.write_register(0, 5);
    cpu.write_register(1, 7);
    cpu.subn_x_y(0, 1);
    assert_eq!(cpu.read_register(0), 2); // 7 - 5
    assert_eq!(cpu.read_register(0xF), 1);

    cpu.write_register(2, 7);
    cpu.write_register(3, 5);
    cpu.subn_x_y(2, 3);
    assert_eq!(cpu.read_register(2), 254); // (5 - 7) mod 256
    assert_eq!(cpu.read_register(0xF), 0);
}

#[test]
fn shift_right_captures_least_significant_bit() {
    let mut cpu = CPU::new();
    cpu.write_register(0, 0x05);
    cpu.shr_x(0);
    assert_eq!(cpu.read_register(0), 0x02);
    assert_eq!(cpu.read_register(0xF), 1);

    cpu.write_register(1, 0x04);
    cpu.shr_x(1);
    assert_eq!(cpu.read_register(1), 0x02);
    assert_eq!(cpu.read_register(0xF), 0);
}

#[test]
fn shift_left_captures_most_significant_bit() {
    let mut cpu = CPU::new();
    cpu.write_register(0, 0x81);
    cpu.shl_x(0);
    assert_eq!(cpu.read_register(0), 0x02);
    assert_eq!(cpu.read_register(0xF), 1);

    cpu.write_register(1, 0x41);
    cpu.shl_x(1);
    assert_eq!(cpu.read_register(1), 0x82);
    assert_eq!(cpu.read_register(0xF), 0);
}

#[test]
fn bitwise_instructions() {
    let mut cpu = CPU::new();
    cpu.write_register(0, 0b1100);
    cpu.write_register(1, 0b1010);
    cpu.or_x_y(0, 1);
    assert_eq!(cpu.read_register(0), 0b1110);

    cpu.write_register(2, 0b1100);
    cpu.and_x_y(2, 1);
    assert_eq!(cpu.read_register(2), 0b1000);

    cpu.write_register(3, 0b1100);
    cpu.xor_x_y(3, 1);
    assert_eq!(cpu.read_register(3), 0b0110);
}

#[test]
fn skip_advances_pc_by_4_when_taken_and_2_otherwise() {
    // 3xkk with V0 == 0x0A: condition holds, one cycle moves the program
    // counter by 4 in all: 2 for the fetch and 2 for the skip.
    let (mut cpu, mut bus) = machine_with_rom(&[0x30, 0x0A]);
    cpu.write_register(0, 0x0A);
    assert_eq!(cpu.cycle(&mut bus), Ok(()));
    assert_eq!(cpu.get_pc(), PROGRAM_START + 4);

    // The same program with the condition false: 2 for the fetch alone.
    let (mut cpu, mut bus) = machine_with_rom(&[0x30, 0x0A]);
    cpu.write_register(0, 0x0B);
    assert_eq!(cpu.cycle(&mut bus), Ok(()));
    assert_eq!(cpu.get_pc(), PROGRAM_START + 2);
}

#[test]
fn skip_not_equal_and_register_skips() {
    let (mut cpu, mut bus) = machine_with_rom(&[0x40, 0x0A]);
    cpu.write_register(0, 0x0B);
    assert_eq!(cpu.cycle(&mut bus), Ok(()));
    assert_eq!(cpu.get_pc(), PROGRAM_START + 4);

    // 5xy0 with V1 == V2.
    let (mut cpu, mut bus) = machine_with_rom(&[0x51, 0x20]);
    cpu.write_register(1, 3);
    cpu.write_register(2, 3);
    assert_eq!(cpu.cycle(&mut bus), Ok(()));
    assert_eq!(cpu.get_pc(), PROGRAM_START + 4);

    // 9xy0 with V1 == V2: not taken.
    let (mut cpu, mut bus) = machine_with_rom(&[0x91, 0x20]);
    cpu.write_register(1, 3);
    cpu.write_register(2, 3);
    assert_eq!(cpu.cycle(&mut bus), Ok(()));
    assert_eq!(cpu.get_pc(), PROGRAM_START + 2);
}

#[test]
fn key_skips_follow_the_latched_key() {
    // Ex9E is taken and jumps over the clear instruction; ExA1 then finds
    // the key pressed and is not taken.
    let (mut cpu, mut bus) = machine_with_rom(&[0xE0, 0x9E, 0x00, 0xE0, 0xE0, 0xA1]);
    cpu.write_register(0, 0x7);
    bus.set_pressed_key(Some(0x7));
    assert_eq!(cpu.cycle(&mut bus), Ok(()));
    assert_eq!(cpu.get_pc(), PROGRAM_START + 4); // Ex9E taken
    assert_eq!(cpu.cycle(&mut bus), Ok(()));
    assert_eq!(cpu.get_pc(), PROGRAM_START + 6); // ExA1 not taken
}

#[test]
fn set_then_add_immediate() {
    // 0x600A sets V0 = 0x0A, 0x7005 adds 5: two cycles leave V0 = 0x0F and
    // the flags register untouched at 0.
    let (mut cpu, mut bus) = machine_with_rom(&[0x60, 0x0A, 0x70, 0x05]);
    assert_eq!(cpu.cycle(&mut bus), Ok(()));
    assert_eq!(cpu.cycle(&mut bus), Ok(()));
    assert_eq!(cpu.read_register(0), 0x0F);
    assert_eq!(cpu.read_register(0xF), 0);
    assert_eq!(cpu.get_pc(), PROGRAM_START + 4);
}

#[test]
fn add_immediate_wraps_without_flag() {
    let (mut cpu, mut bus) = machine_with_rom(&[0x70, 0x10]);
    cpu.write_register(0, 0xF8);
    assert_eq!(cpu.cycle(&mut bus), Ok(()));
    assert_eq!(cpu.read_register(0), 0x08);
    assert_eq!(cpu.read_register(0xF), 0);
}

#[test]
fn call_pushes_return_address_and_ret_restores_it() {
    // 0x200: jump to 0x202; 0x202: call 0x300; 0x300: return.
    let (mut cpu, mut bus) = machine_with_rom(&[0x12, 0x02, 0x23, 0x00]);
    bus.mem_write_byte(0x300, 0x00);
    bus.mem_write_byte(0x301, 0xEE);

    assert_eq!(cpu.cycle(&mut bus), Ok(()));
    assert_eq!(cpu.get_pc(), 0x202);

    // The call is fetched at 0x202; the pushed return address is 0x204.
    assert_eq!(cpu.cycle(&mut bus), Ok(()));
    assert_eq!(cpu.get_pc(), 0x300);
    assert_eq!(cpu.get_sp(), 1);

    assert_eq!(cpu.cycle(&mut bus), Ok(()));
    assert_eq!(cpu.get_pc(), 0x204);
    assert_eq!(cpu.get_sp(), 0);
}

#[test]
fn ret_on_empty_stack_is_a_fault() {
    let (mut cpu, mut bus) = machine_with_rom(&[0x00, 0xEE]);
    assert_eq!(cpu.cycle(&mut bus), Err(Fault::StackUnderflow));
}

#[test]
fn call_on_full_stack_is_a_fault() {
    // 0x2200 calls address 0x200 over and over: the 17th call finds the
    // 16-deep stack full.
    let (mut cpu, mut bus) = machine_with_rom(&[0x22, 0x00]);
    for _ in 0..16 {
        assert_eq!(cpu.cycle(&mut bus), Ok(()));
    }
    assert_eq!(cpu.get_sp(), 16);
    assert_eq!(cpu.cycle(&mut bus), Err(Fault::StackOverflow));
}

#[test]
fn unknown_opcode_is_a_fault() {
    let (mut cpu, mut bus) = machine_with_rom(&[0xFF, 0xFF]);
    assert_eq!(cpu.cycle(&mut bus), Err(Fault::UnknownInstruction(0xFFFF)));

    let (mut cpu, mut bus) = machine_with_rom(&[0x00, 0x00]);
    assert_eq!(cpu.cycle(&mut bus), Err(Fault::UnknownInstruction(0x0000)));

    let (mut cpu, mut bus) = machine_with_rom(&[0x80, 0x18]);
    assert_eq!(cpu.cycle(&mut bus), Err(Fault::UnknownInstruction(0x8018)));
}

#[test]
fn fetch_past_memory_top_is_a_fault() {
    // Jump to the last byte of memory: the next fetch has no second byte.
    let (mut cpu, mut bus) = machine_with_rom(&[0x1F, 0xFF]);
    assert_eq!(cpu.cycle(&mut bus), Ok(()));
    assert_eq!(cpu.get_pc(), 0xFFF);
    assert_eq!(cpu.cycle(&mut bus), Err(Fault::AddressOutOfRange));
}

#[test]
fn bcd_store_past_memory_top_is_a_fault() {
    // Set I = 0xFFF, then store the three decimal digits of V1.
    let (mut cpu, mut bus) = machine_with_rom(&[0xAF, 0xFF, 0xF1, 0x33]);
    assert_eq!(cpu.cycle(&mut bus), Ok(()));
    assert_eq!(cpu.get_i(), 0xFFF);
    assert_eq!(cpu.cycle(&mut bus), Err(Fault::AddressOutOfRange));
}

#[test]
fn bcd_store_writes_three_digits() {
    // I = 0x400, V1 = 237: memory 0x400..0x403 holds 2, 3, 7.
    let (mut cpu, mut bus) = machine_with_rom(&[0xA4, 0x00, 0xF1, 0x33]);
    cpu.write_register(1, 237);
    assert_eq!(cpu.cycle(&mut bus), Ok(()));
    assert_eq!(cpu.cycle(&mut bus), Ok(()));
    assert_eq!(bus.mem_read_byte(0x400), 2);
    assert_eq!(bus.mem_read_byte(0x401), 3);
    assert_eq!(bus.mem_read_byte(0x402), 7);
}

#[test]
fn register_block_store_and_load_round_trip() {
    // Fx55 stores V0..=V2 at I; Fx65 reads them back into a fresh set.
    let (mut cpu, mut bus) = machine_with_rom(&[0xA5, 0x00, 0xF2, 0x55, 0xF2, 0x65]);
    cpu.write_register(0, 11);
    cpu.write_register(1, 22);
    cpu.write_register(2, 33);
    assert_eq!(cpu.cycle(&mut bus), Ok(())); // I = 0x500
    assert_eq!(cpu.cycle(&mut bus), Ok(())); // store
    assert_eq!(bus.mem_read_byte(0x500), 11);
    assert_eq!(bus.mem_read_byte(0x501), 22);
    assert_eq!(bus.mem_read_byte(0x502), 33);
    cpu.write_register(0, 0);
    cpu.write_register(1, 0);
    cpu.write_register(2, 0);
    assert_eq!(cpu.cycle(&mut bus), Ok(())); // load
    assert_eq!(cpu.read_register(0), 11);
    assert_eq!(cpu.read_register(1), 22);
    assert_eq!(cpu.read_register(2), 33);
    assert_eq!(cpu.read_register(3), 0);
}

#[test]
fn index_register_instructions() {
    // Annn, Fx1E and Fx29.
    let (mut cpu, mut bus) = machine_with_rom(&[0xA1, 0x23, 0xF0, 0x1E, 0xF1, 0x29]);
    cpu.write_register(0, 0x10);
    cpu.write_register(1, 0xA);
    assert_eq!(cpu.cycle(&mut bus), Ok(()));
    assert_eq!(cpu.get_i(), 0x123);
    assert_eq!(cpu.cycle(&mut bus), Ok(()));
    assert_eq!(cpu.get_i(), 0x133);
    assert_eq!(cpu.cycle(&mut bus), Ok(()));
    assert_eq!(cpu.get_i(), 0xA * 5);
}

#[test]
fn jump_with_offset_uses_v0() {
    let (mut cpu, mut bus) = machine_with_rom(&[0xB2, 0x06]);
    cpu.write_register(0, 4);
    assert_eq!(cpu.cycle(&mut bus), Ok(()));
    assert_eq!(cpu.get_pc(), 0x20A);
}

#[test]
fn random_masks_with_the_immediate() {
    // Cx0F: whatever byte the generator returns, only its low nibble can
    // reach V0.
    let (mut cpu, mut bus) = machine_with_rom(&[0xC0, 0x0F]);
    assert_eq!(cpu.cycle(&mut bus), Ok(()));
    assert!(cpu.read_register(0) <= 0x0F);

    // A zero mask pins the result to zero.
    let (mut cpu, mut bus) = machine_with_rom(&[0xC5, 0x00]);
    cpu.write_register(5, 0xAA);
    assert_eq!(cpu.cycle(&mut bus), Ok(()));
    assert_eq!(cpu.read_register(5), 0);
}

#[test]
fn timer_instructions_move_values_both_ways() {
    // Fx15 sets the delay timer from V0; Fx07 reads it back into V1;
    // Fx18 sets the sound timer.
    let (mut cpu, mut bus) = machine_with_rom(&[0xF0, 0x15, 0xF1, 0x07, 0xF2, 0x18]);
    cpu.write_register(0, 42);
    cpu.write_register(2, 9);
    assert_eq!(cpu.cycle(&mut bus), Ok(()));
    assert_eq!(bus.get_dt(), 42);
    assert_eq!(cpu.cycle(&mut bus), Ok(()));
    assert_eq!(cpu.read_register(1), 42);
    assert_eq!(cpu.cycle(&mut bus), Ok(()));
    assert_eq!(bus.get_st(), 9);
}

#[test]
fn wait_for_key_holds_the_pc_until_a_key_is_latched() {
    let (mut cpu, mut bus) = machine_with_rom(&[0xF3, 0x0A]);
    // No key: the instruction re-executes on the next cycle.
    assert_eq!(cpu.cycle(&mut bus), Ok(()));
    assert_eq!(cpu.get_pc(), PROGRAM_START);
    assert_eq!(cpu.cycle(&mut bus), Ok(()));
    assert_eq!(cpu.get_pc(), PROGRAM_START);
    // A key arrives: it is stored and execution moves on.
    bus.set_pressed_key(Some(0xB));
    assert_eq!(cpu.cycle(&mut bus), Ok(()));
    assert_eq!(cpu.read_register(3), 0xB);
    assert_eq!(cpu.get_pc(), PROGRAM_START + 2);
}

#[test]
fn load_register_copies() {
    let (mut cpu, mut bus) = machine_with_rom(&[0x84, 0x50]);
    cpu.write_register(5, 77);
    assert_eq!(cpu.cycle(&mut bus), Ok(()));
    assert_eq!(cpu.read_register(4), 77);
}
