//! Tests of the framebuffer: XOR drawing, wraparound, collision reporting,
//! clearing and the presentation snapshot.

use chip8::display::{Display, COLOR_OFF, COLOR_ON, HEIGHT, PIXEL_COUNT, WIDTH};

fn pixel(buffer: &[u32], x: usize, y: usize) -> u32 {
    buffer[y * WIDTH + x]
}

#[test]
fn new_display_is_blank() {
    let display = Display::new();
    let buffer = display.get_display_buffer();
    assert_eq!(buffer.len(), PIXEL_COUNT);
    assert!(buffer.iter().all(|&c| c == COLOR_OFF));
}

#[test]
fn draw_byte_sets_pixels_most_significant_first() {
    let mut display = Display::new();
    // 0xF0: the four high bits drawn at columns 0..3, the low bits dark.
    let erased = display.draw_byte(0, 0, 0xF0);
    assert!(!erased);
    let buffer = display.get_display_buffer();
    for x in 0..4 {
        assert_eq!(pixel(&buffer, x, 0), COLOR_ON);
    }
    for x in 4..8 {
        assert_eq!(pixel(&buffer, x, 0), COLOR_OFF);
    }
}

#[test]
fn draw_byte_wraps_horizontally() {
    // Drawing 0xFF at the last column sets that pixel and wraps the other
    // seven bits to columns 0..6.
    let mut display = Display::new();
    let erased = display.draw_byte(WIDTH - 1, 0, 0xFF);
    assert!(!erased);
    let buffer = display.get_display_buffer();
    assert_eq!(pixel(&buffer, WIDTH - 1, 0), COLOR_ON);
    for x in 0..7 {
        assert_eq!(pixel(&buffer, x, 0), COLOR_ON);
    }
    for x in 7..WIDTH - 1 {
        assert_eq!(pixel(&buffer, x, 0), COLOR_OFF);
    }
}

#[test]
fn draw_byte_wraps_vertically() {
    let mut display = Display::new();
    display.draw_byte(0, HEIGHT + 3, 0x80);
    let buffer = display.get_display_buffer();
    assert_eq!(pixel(&buffer, 0, 3), COLOR_ON);
}

#[test]
fn draw_byte_twice_is_a_no_op() {
    // XOR-drawing the same byte twice at the same coordinates returns the
    // plane to its prior state, and only the second call reports an erase.
    let mut display = Display::new();
    display.draw_byte(5, 7, 0x3C);
    let first = display.get_display_buffer();
    let erased_first = display.draw_byte(12, 7, 0xA5);
    assert!(!erased_first);
    let erased_second = display.draw_byte(12, 7, 0xA5);
    assert!(erased_second);
    let last = display.get_display_buffer();
    assert_eq!(first, last);
}

#[test]
fn draw_byte_reports_collision_per_bit() {
    let mut display = Display::new();
    display.draw_byte(0, 0, 0xF0);
    // 0x0F shares no set pixel with 0xF0: no erase.
    let erased = display.draw_byte(0, 0, 0x0F);
    assert!(!erased);
    // 0x10 meets a pixel set by 0x0F: erase.
    let erased = display.draw_byte(0, 0, 0x10);
    assert!(erased);
    let buffer = display.get_display_buffer();
    assert_eq!(pixel(&buffer, 3, 0), COLOR_OFF);
}

#[test]
fn clear_blanks_the_snapshot() {
    let mut display = Display::new();
    display.draw_byte(0, 0, 0xFF);
    display.draw_byte(33, 17, 0xFF);
    display.clear();
    let buffer = display.get_display_buffer();
    assert!(buffer.iter().all(|&c| c == COLOR_OFF));
}

#[test]
fn snapshot_uses_the_foreground_color() {
    let mut display = Display::new();
    display.draw_byte(8, 2, 0x80);
    let buffer = display.get_display_buffer();
    assert_eq!(pixel(&buffer, 8, 2), COLOR_ON);
    assert_eq!(COLOR_ON, 0xFFFFFF);
    assert_eq!(COLOR_OFF, 0x0);
}
