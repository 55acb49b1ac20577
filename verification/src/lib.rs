//! A verified interpreter for a small fixed instruction-set architecture:
//! 16 general-purpose 8-bit registers, a 16-bit address register, a 16-bit
//! program counter, a 16-level call stack, 4KB of memory, two countdown
//! timers, a 64x32 monochrome framebuffer and a 16-key input device.

pub mod bus;
pub mod cpu;
pub mod display;
pub mod keyboard;
pub mod machine;
pub mod memory;
