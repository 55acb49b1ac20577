//! The communication bus: owns the memory, the display, the input latch and
//! the two countdown timers, and exposes the single narrow interface through
//! which the interpreter reaches them.

use vstd::prelude::*;

use crate::cpu::PROGRAM_START;
use crate::display::{color_of, draw_applied, draw_erases, Display, PIXEL_COUNT};
use crate::keyboard::Keyboard;
use crate::memory::{font_byte, Memory, FONT_SIZE, MEMORY_SIZE};

verus! {

/// Mathematical state of the bus: the bytes of memory, the logical pixel
/// plane, the latched key, and the two timer counters.
pub ghost struct BusState {
    /// The 4096 bytes of memory.
    pub mem: Seq<u8>,
    /// The logical pixel plane, row-major; `true` is a pixel that is on.
    pub pixels: Seq<bool>,
    /// The key currently latched, if any.
    pub key: Option<u8>,
    /// The delay timer counter.
    pub dt: u8,
    /// The sound timer counter.
    pub st: u8,
}

/// The communication bus of the machine.
pub struct Bus {
    /// Memory of the machine.
    mem: Memory,
    /// The framebuffer.
    display: Display,
    /// The input latch.
    keyboard: Keyboard,
    /// Delay timer.
    dt: u8,
    /// Sound timer.
    st: u8,
}

impl View for Bus {
    type V = BusState;

    closed spec fn view(&self) -> BusState {
        BusState {
            mem: self.mem@,
            pixels: self.display@,
            key: self.keyboard@,
            dt: self.dt,
            st: self.st,
        }
    }
}

impl Bus {
    /// Internal invariant of the owned subsystems.
    pub closed spec fn inv(&self) -> bool {
        &&& self.mem.wf()
        &&& self.display.wf()
    }

    /// A well-formed bus holds well-formed subsystems, one byte per memory
    /// address and one logical state per pixel.
    pub open spec fn wf(&self) -> bool {
        &&& self.inv()
        &&& self@.mem.len() == MEMORY_SIZE
        &&& self@.pixels.len() == PIXEL_COUNT
    }

    /// Creates a new `Bus`: memory seeded with the glyph table, every pixel
    /// off, no key latched, both timers at zero.
    pub fn new() -> (r: Bus)
        ensures
            r.wf(),
            forall|i: int| 0 <= i < FONT_SIZE ==> r@.mem[i] == font_byte(i),
            forall|i: int| FONT_SIZE <= i < MEMORY_SIZE ==> r@.mem[i] == 0u8,
            forall|j: int| 0 <= j < PIXEL_COUNT ==> !r@.pixels[j],
            r@.key is None,
            r@.dt == 0,
            r@.st == 0,
    {
        Bus {
            mem: Memory::new(),
            display: Display::new(),
            keyboard: Keyboard::new(),
            dt: 0,
            st: 0,
        }
    }

    /// Writes the bytes of a program verbatim into memory from
    /// [`PROGRAM_START`] upward. A program longer than the memory above that
    /// address is the loader's fault and is excluded.
    pub fn load_rom(&mut self, buffer: &Vec<u8>)
        requires
            old(self).wf(),
            buffer@.len() <= MEMORY_SIZE - PROGRAM_START,
        ensures
            final(self).wf(),
            final(self)@.mem.len() == MEMORY_SIZE,
            forall|i: int|
                0 <= i < buffer@.len() ==> final(self)@.mem[PROGRAM_START + i] == buffer@[i],
            forall|a: int|
                0 <= a < MEMORY_SIZE && !(PROGRAM_START <= a < PROGRAM_START + buffer@.len())
                    ==> final(self)@.mem[a] == old(self)@.mem[a],
            final(self)@.pixels == old(self)@.pixels,
            final(self)@.key == old(self)@.key,
            final(self)@.dt == old(self)@.dt,
            final(self)@.st == old(self)@.st,
    {
        let mut i: usize = 0;
        while i < buffer.len()
            invariant
                self.wf(),
                i <= buffer@.len(),
                buffer@.len() <= MEMORY_SIZE - PROGRAM_START,
                forall|k: int| 0 <= k < i ==> self@.mem[PROGRAM_START + k] == buffer@[k],
                forall|a: int|
                    0 <= a < MEMORY_SIZE && !(PROGRAM_START <= a < PROGRAM_START + i)
                        ==> self@.mem[a] == old(self)@.mem[a],
                self@.pixels == old(self)@.pixels,
                self@.key == old(self)@.key,
                self@.dt == old(self)@.dt,
                self@.st == old(self)@.st,
            decreases buffer@.len() - i,
        {
            self.mem.write_byte(PROGRAM_START + (i as u16), buffer[i]);
            i += 1;
        }
    }

    /// Writes `value` in memory at `address`.
    pub fn mem_write_byte(&mut self, address: u16, value: u8)
        requires
            old(self).wf(),
            address < MEMORY_SIZE,
        ensures
            final(self).wf(),
            final(self)@ == (BusState {
                mem: old(self)@.mem.update(address as int, value),
                ..old(self)@
            }),
    {
        self.mem.write_byte(address, value);
    }

    /// Reads the byte in memory at `address`.
    pub fn mem_read_byte(&self, address: u16) -> (r: u8)
        requires
            self.wf(),
            address < MEMORY_SIZE,
        ensures
            r == self@.mem[address as int],
    {
        self.mem.read_byte(address)
    }

    /// Draws one sprite row at `(x, y)` on the display, with per-axis
    /// wraparound. Returns `true` iff the draw erased any pixel.
    pub fn draw_byte(&mut self, x: usize, y: usize, value: u8) -> (erased: bool)
        requires
            old(self).wf(),
        ensures
            final(self).wf(),
            draw_applied(old(self)@.pixels, final(self)@.pixels, x as int, y as int, value),
            erased == draw_erases(old(self)@.pixels, x as int, y as int, value),
            final(self)@.mem == old(self)@.mem,
            final(self)@.key == old(self)@.key,
            final(self)@.dt == old(self)@.dt,
            final(self)@.st == old(self)@.st,
    {
        self.display.draw_byte(x, y, value)
    }

    /// Copies out the presentation plane: one color per pixel, row-major.
    pub fn get_display_buffer(&self) -> (r: Vec<u32>)
        requires
            self.wf(),
        ensures
            r@.len() == PIXEL_COUNT,
            forall|j: int| 0 <= j < PIXEL_COUNT ==> r@[j] == color_of(self@.pixels[j]),
    {
        self.display.get_display_buffer()
    }

    /// Clears the display: every pixel off.
    pub fn clear_display(&mut self)
        requires
            old(self).wf(),
        ensures
            final(self).wf(),
            final(self)@.pixels.len() == PIXEL_COUNT,
            forall|j: int| 0 <= j < PIXEL_COUNT ==> !final(self)@.pixels[j],
            final(self)@.mem == old(self)@.mem,
            final(self)@.key == old(self)@.key,
            final(self)@.dt == old(self)@.dt,
            final(self)@.st == old(self)@.st,
    {
        self.display.clear();
    }

    /// Overwrites the latched key; called on each input-sampling tick.
    pub fn set_pressed_key(&mut self, key: Option<u8>)
        requires
            old(self).wf(),
        ensures
            final(self).wf(),
            final(self)@ == (BusState { key, ..old(self)@ }),
    {
        self.keyboard.set_pressed_key(key)
    }

    /// Reads the latched key, if any.
    pub fn get_pressed_key(&self) -> (r: Option<u8>)
        ensures
            r == self@.key,
    {
        self.keyboard.get_pressed_key()
    }

    /// Whether `key` is exactly the key currently latched.
    pub fn is_key_pressed(&self, key: u8) -> (r: bool)
        ensures
            r == (self@.key == Some(key)),
    {
        self.keyboard.is_key_pressed(key)
    }

    /// Sets the delay timer.
    pub fn set_dt(&mut self, value: u8)
        requires
            old(self).wf(),
        ensures
            final(self).wf(),
            final(self)@ == (BusState { dt: value, ..old(self)@ }),
    {
        self.dt = value;
    }

    /// Sets the sound timer.
    pub fn set_st(&mut self, value: u8)
        requires
            old(self).wf(),
        ensures
            final(self).wf(),
            final(self)@ == (BusState { st: value, ..old(self)@ }),
    {
        self.st = value;
    }

    /// Reads the delay timer.
    pub fn get_dt(&self) -> (r: u8)
        ensures
            r == self@.dt,
    {
        self.dt
    }

    /// Reads the sound timer.
    pub fn get_st(&self) -> (r: u8)
        ensures
            r == self@.st,
    {
        self.st
    }

    /// Decrements the delay timer by one, saturating at zero.
    pub fn dec_dt(&mut self)
        requires
            old(self).wf(),
        ensures
            final(self).wf(),
            final(self)@ == (BusState {
                dt: if old(self)@.dt > 0 {
                    (old(self)@.dt - 1) as u8
                } else {
                    0
                },
                ..old(self)@
            }),
    {
        if self.dt > 0 {
            self.dt = self.dt - 1;
        }
    }

    /// Decrements the sound timer by one, saturating at zero.
    pub fn dec_st(&mut self)
        requires
            old(self).wf(),
        ensures
            final(self).wf(),
            final(self)@ == (BusState {
                st: if old(self)@.st > 0 {
                    (old(self)@.st - 1) as u8
                } else {
                    0
                },
                ..old(self)@
            }),
    {
        if self.st > 0 {
            self.st = self.st - 1;
        }
    }
}

} // verus!
