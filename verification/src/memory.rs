//! Flat byte-addressable store of the machine: 4096 bytes, seeded with the
//! built-in glyph sprite table at the lowest addresses.

use vstd::prelude::*;

verus! {

/// Number of addressable bytes.
pub const MEMORY_SIZE: usize = 4096;

/// Number of bytes taken by the built-in glyph table: 16 glyphs of 5 rows each.
pub const FONT_SIZE: usize = 80;

/// The byte at offset `i` of the built-in glyph table: glyph `i / 5`, row
/// `i % 5`. Each glyph is a 5-row sprite for one hexadecimal digit, one row
/// per byte, with the high 4 bits of each row significant.
pub open spec fn font_byte(i: int) -> u8 {
    font_table()[i]
}

/// The whole 80-byte glyph table, one hexadecimal digit (0 through F) after
/// the other, 5 rows each.
pub open spec fn font_table() -> Seq<u8> {
    seq![
        0xF0, 0x90, 0x90, 0x90, 0xF0,
        0x20, 0x60, 0x20, 0x20, 0x70,
        0xF0, 0x10, 0xF0, 0x80, 0xF0,
        0xF0, 0x10, 0xF0, 0x10, 0xF0,
        0x90, 0x90, 0xF0, 0x10, 0x10,
        0xF0, 0x80, 0xF0, 0x10, 0xF0,
        0xF0, 0x80, 0xF0, 0x90, 0xF0,
        0xF0, 0x10, 0x20, 0x40, 0x40,
        0xF0, 0x90, 0xF0, 0x90, 0xF0,
        0xF0, 0x90, 0xF0, 0x10, 0xF0,
        0xF0, 0x90, 0xF0, 0x90, 0x90,
        0xE0, 0x90, 0xE0, 0x90, 0xE0,
        0xF0, 0x80, 0x80, 0x80, 0xF0,
        0xE0, 0x90, 0x90, 0x90, 0xE0,
        0xF0, 0x80, 0xF0, 0x80, 0xF0,
        0xF0, 0x80, 0xF0, 0x80, 0x80,
    ]
}

/// Memory of the machine: a flat store of [`MEMORY_SIZE`] bytes.
pub struct Memory {
    mem: Vec<u8>,
}

impl View for Memory {
    type V = Seq<u8>;

    closed spec fn view(&self) -> Seq<u8> {
        self.mem@
    }
}

impl Memory {
    /// A memory value is well formed when it holds exactly [`MEMORY_SIZE`] bytes.
    pub open spec fn wf(&self) -> bool {
        self@.len() == MEMORY_SIZE
    }

    /// Creates a new `Memory` holding the glyph table at addresses
    /// `[0, FONT_SIZE)` and zeroes everywhere above it.
    pub fn new() -> (r: Memory)
        ensures
            r.wf(),
            forall|i: int| 0 <= i < FONT_SIZE ==> r@[i] == font_byte(i),
            forall|i: int| FONT_SIZE <= i < MEMORY_SIZE ==> r@[i] == 0u8,
    {
        let mut mem: Vec<u8> = vec![
            0xF0, 0x90, 0x90, 0x90, 0xF0,
            0x20, 0x60, 0x20, 0x20, 0x70,
            0xF0, 0x10, 0xF0, 0x80, 0xF0,
            0xF0, 0x10, 0xF0, 0x10, 0xF0,
            0x90, 0x90, 0xF0, 0x10, 0x10,
            0xF0, 0x80, 0xF0, 0x10, 0xF0,
            0xF0, 0x80, 0xF0, 0x90, 0xF0,
            0xF0, 0x10, 0x20, 0x40, 0x40,
            0xF0, 0x90, 0xF0, 0x90, 0xF0,
            0xF0, 0x90, 0xF0, 0x10, 0xF0,
            0xF0, 0x90, 0xF0, 0x90, 0x90,
            0xE0, 0x90, 0xE0, 0x90, 0xE0,
            0xF0, 0x80, 0x80, 0x80, 0xF0,
            0xE0, 0x90, 0x90, 0x90, 0xE0,
            0xF0, 0x80, 0xF0, 0x80, 0xF0,
            0xF0, 0x80, 0xF0, 0x80, 0x80,
        ];
        proof {
            assert(mem@ =~= font_table());
        }
        while mem.len() < MEMORY_SIZE
            invariant
                FONT_SIZE <= mem@.len() <= MEMORY_SIZE,
                forall|i: int| 0 <= i < FONT_SIZE ==> mem@[i] == font_byte(i),
                forall|i: int| FONT_SIZE <= i < mem@.len() ==> mem@[i] == 0u8,
            decreases MEMORY_SIZE - mem@.len(),
        {
            mem.push(0);
        }
        Memory { mem }
    }

    /// Writes `value` at address `address`. An address past the top of memory
    /// is a caller fault; it is excluded rather than wrapped.
    pub fn write_byte(&mut self, address: u16, value: u8)
        requires
            old(self).wf(),
            address < MEMORY_SIZE,
        ensures
            final(self).wf(),
            final(self)@ == old(self)@.update(address as int, value),
    {
        self.mem.set(address as usize, value);
    }

    /// Reads the byte at address `address`. An address past the top of memory
    /// is a caller fault; it is excluded rather than wrapped.
    pub fn read_byte(&self, address: u16) -> (r: u8)
        requires
            self.wf(),
            address < MEMORY_SIZE,
        ensures
            r == self@[address as int],
    {
        self.mem[address as usize]
    }
}

} // verus!
