//! Tests of the bus, the whole machine, the sprite-drawing instruction and
//! the run loop's pacing decisions.

use chip8::bus::Bus;
use chip8::cpu::{CPU, PROGRAM_START};
use chip8::display::{COLOR_OFF, COLOR_ON, PIXEL_COUNT, WIDTH};
use chip8::machine::{Cadence, Chip8, CPU_CYCLE_TIME, DISPLAY_TIME, KEY_TIME};
use chip8::keyboard::Keyboard;
use chip8::memory::Memory;

#[test]
fn memory_holds_the_glyph_table() {
    let memory = Memory::new();
    // The first glyph, the digit 0: F0 90 90 90 F0.
    assert_eq!(memory.read_byte(0), 0xF0);
    assert_eq!(memory.read_byte(1), 0x90);
    assert_eq!(memory.read_byte(4), 0xF0);
    // The last byte of the glyph table, the digit F: F0 80 F0 80 80.
    assert_eq!(memory.read_byte(79), 0x80);
    // Above the table everything is zero.
    assert_eq!(memory.read_byte(80), 0);
    assert_eq!(memory.read_byte(4095), 0);
}

#[test]
fn memory_write_then_read() {
    let mut memory = Memory::new();
    memory.write_byte(0x234, 0xAB);
    assert_eq!(memory.read_byte(0x234), 0xAB);
    assert_eq!(memory.read_byte(0x235), 0x00);
}

#[test]
fn bus_loads_rom_at_program_start() {
    let mut bus = Bus::new();
    bus.load_rom(&vec![0xDE, 0xAD, 0xBE, 0xEF]);
    assert_eq!(bus.mem_read_byte(PROGRAM_START), 0xDE);
    assert_eq!(bus.mem_read_byte(PROGRAM_START + 3), 0xEF);
    assert_eq!(bus.mem_read_byte(PROGRAM_START + 4), 0x00);
    // The glyph table below is untouched.
    assert_eq!(bus.mem_read_byte(0), 0xF0);
}

#[test]
fn bus_latches_one_key_at_a_time() {
    let mut bus = Bus::new();
    assert_eq!(bus.get_pressed_key(), None);
    assert!(!bus.is_key_pressed(0x4));
    bus.set_pressed_key(Some(0x4));
    assert_eq!(bus.get_pressed_key(), Some(0x4));
    assert!(bus.is_key_pressed(0x4));
    assert!(!bus.is_key_pressed(0x5));
    bus.set_pressed_key(Some(0x5));
    assert_eq!(bus.get_pressed_key(), Some(0x5));
    bus.set_pressed_key(None);
    assert_eq!(bus.get_pressed_key(), None);
}

#[test]
fn keyboard_tracks_the_latched_key() {
    let mut keyboard = Keyboard::new();
    assert_eq!(keyboard.get_pressed_key(), None);
    keyboard.set_pressed_key(Some(0xC));
    assert_eq!(keyboard.get_pressed_key(), Some(0xC));
    assert!(keyboard.is_key_pressed(0xC));
    assert!(!keyboard.is_key_pressed(0xB));
    keyboard.set_pressed_key(None);
    assert!(!keyboard.is_key_pressed(0xC));
}

#[test]
fn timers_saturate_at_zero() {
    // A timer set to 3 and decremented four times ends at 0, never
    // negative.
    let mut bus = Bus::new();
    bus.set_dt(3);
    bus.set_st(3);
    for _ in 0..4 {
        bus.dec_dt();
        bus.dec_st();
    }
    assert_eq!(bus.get_dt(), 0);
    assert_eq!(bus.get_st(), 0);
}

#[test]
fn clearing_after_drawing_blanks_the_snapshot() {
    let mut bus = Bus::new();
    bus.draw_byte(3, 4, 0xFF);
    bus.draw_byte(60, 30, 0x55);
    bus.clear_display();
    let snapshot = bus.get_display_buffer();
    assert_eq!(snapshot.len(), PIXEL_COUNT);
    assert!(snapshot.iter().all(|&c| c == COLOR_OFF));
}

#[test]
fn sprite_draw_instruction_draws_a_glyph() {
    // I is left at 0 by reset, where the glyph for the digit 0 lives.
    // D015 draws its 5 rows at (V0, V1) = (0, 0).
    let mut cpu = CPU::new();
    let mut bus = Bus::new();
    bus.load_rom(&vec![0xD0, 0x15]);
    assert_eq!(cpu.cycle(&mut bus), Ok(()));
    assert_eq!(cpu.read_register(0xF), 0);
    let snapshot = bus.get_display_buffer();
    // The top row of the glyph is 0xF0: four lit pixels.
    for x in 0..4 {
        assert_eq!(snapshot[x], COLOR_ON);
    }
    assert_eq!(snapshot[4], COLOR_OFF);
    // The second row is 0x90: lit at columns 0 and 3.
    assert_eq!(snapshot[WIDTH], COLOR_ON);
    assert_eq!(snapshot[WIDTH + 1], COLOR_OFF);
    assert_eq!(snapshot[WIDTH + 3], COLOR_ON);
}

#[test]
fn sprite_drawn_twice_erases_and_sets_the_collision_flag() {
    let mut cpu = CPU::new();
    let mut bus = Bus::new();
    bus.load_rom(&vec![0xD0, 0x15, 0xD0, 0x15]);
    assert_eq!(cpu.cycle(&mut bus), Ok(()));
    assert_eq!(cpu.read_register(0xF), 0);
    assert_eq!(cpu.cycle(&mut bus), Ok(()));
    assert_eq!(cpu.read_register(0xF), 1);
    let snapshot = bus.get_display_buffer();
    assert!(snapshot.iter().all(|&c| c == COLOR_OFF));
}

#[test]
fn machine_runs_a_program() {
    let mut chip8 = Chip8::new();
    chip8.load_rom(&vec![0x60, 0x0A, 0x70, 0x05]);
    assert_eq!(chip8.cycle(), Ok(()));
    assert_eq!(chip8.cycle(), Ok(()));
    // The program set V0 = 0x0A then added 5; nothing else to observe from
    // outside but a clean display and untouched timers.
    assert_eq!(chip8.get_dt(), 0);
    assert_eq!(chip8.get_st(), 0);
    let snapshot = chip8.display_snapshot();
    assert!(snapshot.iter().all(|&c| c == COLOR_OFF));
}

#[test]
fn machine_timer_tick_saturates() {
    // The program loads V0 = 3 and moves it into the delay timer.
    let mut chip8 = Chip8::new();
    chip8.load_rom(&vec![0x60, 0x03, 0xF0, 0x15]);
    assert_eq!(chip8.cycle(), Ok(()));
    assert_eq!(chip8.cycle(), Ok(()));
    assert_eq!(chip8.get_dt(), 3);
    for _ in 0..4 {
        chip8.tick_timers();
    }
    assert_eq!(chip8.get_dt(), 0);
    assert_eq!(chip8.get_st(), 0);
}

#[test]
fn machine_forwards_keys() {
    let mut chip8 = Chip8::new();
    chip8.load_rom(&vec![0xF2, 0x0A]);
    chip8.set_pressed_key(Some(0x9));
    assert_eq!(chip8.cycle(), Ok(()));
    // The wait-for-key instruction stored the latched key; the next fetch
    // sits past it. Nothing else is observable from outside; a second
    // program reads the key through a skip instead.
    let mut chip8 = Chip8::new();
    chip8.load_rom(&vec![0x6A, 0x09, 0xEA, 0x9E, 0x00, 0xE0]);
    chip8.set_pressed_key(Some(0x9));
    assert_eq!(chip8.cycle(), Ok(())); // VA = 9
    assert_eq!(chip8.cycle(), Ok(())); // skip taken: jumps over 00E0
    assert_eq!(chip8.cycle(), Err(chip8::cpu::Fault::UnknownInstruction(0x0000)));
}

#[test]
fn cadence_fires_each_activity_at_its_own_rate() {
    let mut cadence = Cadence::new(1000);
    // Immediately after firing, nothing is due.
    assert!(!cadence.cycle_due(1000));
    assert!(!cadence.frame_due(1000));
    assert!(!cadence.key_due(1000));
    // Two milliseconds later the instruction cadence is due, the others
    // are not.
    assert!(cadence.cycle_due(1000 + CPU_CYCLE_TIME));
    assert!(!cadence.frame_due(1000 + CPU_CYCLE_TIME));
    assert!(!cadence.key_due(1000 + CPU_CYCLE_TIME));
    // At the frame period the frame cadence fires too.
    assert!(cadence.frame_due(1000 + DISPLAY_TIME));
    // And the key cadence at its own, slower period.
    assert!(!cadence.key_due(1000 + KEY_TIME - 1));
    assert!(cadence.key_due(1000 + KEY_TIME));
    // A fired activity starts its period anew.
    assert!(!cadence.key_due(1000 + KEY_TIME + 1));
    assert!(cadence.key_due(1000 + 2 * KEY_TIME));
}

#[test]
fn cadence_periods_match_the_target_rates() {
    assert_eq!(CPU_CYCLE_TIME, 2); // about 500 Hz
    assert_eq!(DISPLAY_TIME, 16); // about 60 Hz
    assert_eq!(KEY_TIME, 200); // 5 Hz
}
