//! The machine as a whole - interpreter plus bus - and the pacing decisions
//! of the real-time loop that drives it: instruction execution, timer decay
//! with frame presentation, and input sampling each fire at their own rate,
//! gated by elapsed wall-clock time, without blocking one another.

use vstd::prelude::*;

use crate::bus::{Bus, BusState};
use crate::cpu::{cycle_effect, CpuState, Fault, CPU};
use crate::display::{color_of, PIXEL_COUNT};
use crate::memory::MEMORY_SIZE;

verus! {

/// Milliseconds between two instruction cycles (about 500 Hz).
pub const CPU_CYCLE_TIME: u64 = 1000 / 500;

/// Milliseconds between two timer decrements and frame presentations
/// (about 60 Hz).
pub const DISPLAY_TIME: u64 = 1000 / 60;

/// Milliseconds between two input samplings (about 5 Hz).
pub const KEY_TIME: u64 = 1000 / 5;

/// Mathematical state of the whole machine.
pub ghost struct MachineState {
    /// The interpreter state.
    pub cpu: CpuState,
    /// The bus state.
    pub bus: BusState,
}

/// The machine: the interpreter and the bus it executes against.
pub struct Chip8 {
    /// The interpreter.
    cpu: CPU,
    /// The communication bus.
    bus: Bus,
}

impl View for Chip8 {
    type V = MachineState;

    closed spec fn view(&self) -> MachineState {
        MachineState { cpu: self.cpu@, bus: self.bus@ }
    }
}

impl Chip8 {
    /// Internal invariant of the owned subsystems.
    pub closed spec fn inv(&self) -> bool {
        &&& self.cpu.wf()
        &&& self.bus.wf()
    }

    /// A well-formed machine: a well-formed interpreter over a well-formed
    /// bus.
    pub open spec fn wf(&self) -> bool {
        &&& self.inv()
        &&& self@.cpu.wf()
        &&& self@.bus.mem.len() == MEMORY_SIZE
        &&& self@.bus.pixels.len() == PIXEL_COUNT
    }

    /// Creates a new machine in its initial state.
    pub fn new() -> (r: Chip8)
        ensures
            r.wf(),
            r@.cpu == (CpuState {
                vx: Seq::new(16, |j: int| 0u8),
                i: 0u16,
                pc: crate::cpu::PROGRAM_START,
                sp: 0u8,
                stack: Seq::new(16, |j: int| 0u16),
            }),
            forall|i: int|
                crate::memory::FONT_SIZE <= i < MEMORY_SIZE ==> r@.bus.mem[i] == 0u8,
            forall|i: int|
                0 <= i < crate::memory::FONT_SIZE ==> r@.bus.mem[i] == crate::memory::font_byte(i),
            forall|j: int| 0 <= j < PIXEL_COUNT ==> !r@.bus.pixels[j],
            r@.bus.key is None,
            r@.bus.dt == 0,
            r@.bus.st == 0,
    {
        Chip8 { bus: Bus::new(), cpu: CPU::new() }
    }

    /// Loads the bytes of a program into memory at the program-load offset.
    /// A program longer than the memory above that offset is the loader's
    /// fault and is excluded.
    pub fn load_rom(&mut self, buffer: &Vec<u8>)
        requires
            old(self).wf(),
            buffer@.len() <= MEMORY_SIZE - crate::cpu::PROGRAM_START,
        ensures
            final(self).wf(),
            final(self)@.cpu == old(self)@.cpu,
            forall|i: int|
                0 <= i < buffer@.len() ==> final(self)@.bus.mem[crate::cpu::PROGRAM_START + i]
                    == buffer@[i],
            forall|a: int|
                0 <= a < MEMORY_SIZE && !(crate::cpu::PROGRAM_START <= a
                    < crate::cpu::PROGRAM_START + buffer@.len()) ==> final(self)@.bus.mem[a] == old(
                    self,
                )@.bus.mem[a],
            final(self)@.bus == (BusState { mem: final(self)@.bus.mem, ..old(self)@.bus }),
    {
        self.bus.load_rom(buffer);
    }

    /// Performs one instruction cycle. A fault stops execution and is
    /// surfaced to the caller.
    pub fn cycle(&mut self) -> (r: Result<(), Fault>)
        requires
            old(self).wf(),
        ensures
            final(self).wf(),
            cycle_effect(old(self)@.cpu, old(self)@.bus, final(self)@.cpu, final(self)@.bus, r),
    {
        self.cpu.cycle(&mut self.bus)
    }

    /// One firing of the timer cadence: decrements both countdown timers by
    /// one, each saturating at zero.
    pub fn tick_timers(&mut self)
        requires
            old(self).wf(),
        ensures
            final(self).wf(),
            final(self)@.cpu == old(self)@.cpu,
            final(self)@.bus == (BusState {
                dt: if old(self)@.bus.dt > 0 {
                    (old(self)@.bus.dt - 1) as u8
                } else {
                    0
                },
                st: if old(self)@.bus.st > 0 {
                    (old(self)@.bus.st - 1) as u8
                } else {
                    0
                },
                ..old(self)@.bus
            }),
    {
        self.bus.dec_dt();
        self.bus.dec_st();
    }

    /// Copies out the presentation plane for the frame cadence: one color
    /// per pixel, row-major.
    pub fn display_snapshot(&self) -> (r: Vec<u32>)
        requires
            self.wf(),
        ensures
            r@.len() == PIXEL_COUNT,
            forall|j: int| 0 <= j < PIXEL_COUNT ==> r@[j] == color_of(self@.bus.pixels[j]),
    {
        self.bus.get_display_buffer()
    }

    /// One firing of the input cadence: overwrites the latched key.
    pub fn set_pressed_key(&mut self, key: Option<u8>)
        requires
            old(self).wf(),
        ensures
            final(self).wf(),
            final(self)@.cpu == old(self)@.cpu,
            final(self)@.bus == (BusState { key, ..old(self)@.bus }),
    {
        self.bus.set_pressed_key(key);
    }

    /// Reads the delay timer.
    pub fn get_dt(&self) -> (r: u8)
        ensures
            r == self@.bus.dt,
    {
        self.bus.get_dt()
    }

    /// Reads the sound timer.
    pub fn get_st(&self) -> (r: u8)
        ensures
            r == self@.bus.st,
    {
        self.bus.get_st()
    }
}

/// The pacing state of the run loop: when each periodic activity last
/// fired, in milliseconds of a monotone clock.
pub struct Cadence {
    /// When the input-sampling activity last fired.
    pub last_key_ms: u64,
    /// When the instruction-cycle activity last fired.
    pub last_cycle_ms: u64,
    /// When the timer/frame activity last fired.
    pub last_frame_ms: u64,
}

impl Cadence {
    /// Creates the pacing state at instant `now_ms`, as if every activity
    /// had just fired.
    pub fn new(now_ms: u64) -> (r: Cadence)
        ensures
            r.last_key_ms == now_ms,
            r.last_cycle_ms == now_ms,
            r.last_frame_ms == now_ms,
    {
        Cadence { last_key_ms: now_ms, last_cycle_ms: now_ms, last_frame_ms: now_ms }
    }

    /// Whether the input-sampling activity is due at instant `now_ms`: its
    /// period has elapsed since it last fired. When it is due, it fires now;
    /// when it is not, nothing changes and nothing waits. The clock is
    /// monotone, so `now_ms` never lies before a recorded firing.
    pub fn key_due(&mut self, now_ms: u64) -> (r: bool)
        requires
            old(self).last_key_ms <= now_ms,
        ensures
            r == (now_ms - old(self).last_key_ms >= KEY_TIME),
            final(self).last_key_ms == if r {
                now_ms
            } else {
                old(self).last_key_ms
            },
            final(self).last_cycle_ms == old(self).last_cycle_ms,
            final(self).last_frame_ms == old(self).last_frame_ms,
    {
        if now_ms - self.last_key_ms >= KEY_TIME {
            self.last_key_ms = now_ms;
            true
        } else {
            false
        }
    }

    /// Whether the instruction-cycle activity is due at instant `now_ms`;
    /// as [`Cadence::key_due`], for its own period.
    pub fn cycle_due(&mut self, now_ms: u64) -> (r: bool)
        requires
            old(self).last_cycle_ms <= now_ms,
        ensures
            r == (now_ms - old(self).last_cycle_ms >= CPU_CYCLE_TIME),
            final(self).last_cycle_ms == if r {
                now_ms
            } else {
                old(self).last_cycle_ms
            },
            final(self).last_key_ms == old(self).last_key_ms,
            final(self).last_frame_ms == old(self).last_frame_ms,
    {
        if now_ms - self.last_cycle_ms >= CPU_CYCLE_TIME {
            self.last_cycle_ms = now_ms;
            true
        } else {
            false
        }
    }

    /// Whether the timer/frame activity is due at instant `now_ms`;
    /// as [`Cadence::key_due`], for its own period.
    pub fn frame_due(&mut self, now_ms: u64) -> (r: bool)
        requires
            old(self).last_frame_ms <= now_ms,
        ensures
            r == (now_ms - old(self).last_frame_ms >= DISPLAY_TIME),
            final(self).last_frame_ms == if r {
                now_ms
            } else {
                old(self).last_frame_ms
            },
            final(self).last_key_ms == old(self).last_key_ms,
            final(self).last_cycle_ms == old(self).last_cycle_ms,
    {
        if now_ms - self.last_frame_ms >= DISPLAY_TIME {
            self.last_frame_ms = now_ms;
            true
        } else {
            false
        }
    }
}

} // verus!
