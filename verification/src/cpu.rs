//! The interpreter: registers, program counter, stack and the random-number
//! source; fetches, decodes and executes one instruction per cycle against
//! the bus.

use vstd::prelude::*;

use rand::distributions::{Distribution, Uniform};

use crate::bus::{Bus, BusState};
use crate::display::{draw_erases, lemma_draw_applied_determines, row_plane};
use crate::memory::MEMORY_SIZE;

verus! {

/// Address at which programs are loaded in memory.
pub const PROGRAM_START: u16 = 0x200;

/// Number of general-purpose registers.
pub const REGISTER_COUNT: usize = 16;

/// The register overloaded as the implicit flags register
/// (carry/borrow/collision).
pub const FLAGS_REGISTER: u8 = 0xF;

/// Depth of the call stack.
pub const STACK_DEPTH: usize = 16;

/// Declares rand's handle to the thread-local random number generator, so
/// that the interpreter can own its random-number source.
#[verifier::external_type_specification]
#[verifier::external_body]
pub struct ExThreadRng(rand::rngs::ThreadRng);

/// Relies on rand::thread_rng: hands out the thread-local generator.
#[verifier::external_body]
fn fresh_rng() -> rand::rngs::ThreadRng {
    rand::thread_rng()
}

/// Relies on rand's Uniform distribution over `0..=255`, drawn through
/// Distribution::sample: returns one byte. Nothing is promised of its value.
#[verifier::external_body]
fn random_byte(rng: &mut rand::rngs::ThreadRng) -> u8 {
    let range = Uniform::from(0..=255u8);
    range.sample(rng)
}

/// A fault that stops execution; no fault is recoverable mid-instruction.
#[derive(Clone, Copy, Debug, PartialEq, Eq, Structural)]
pub enum Fault {
    /// An opcode that matches no instruction of the architecture.
    UnknownInstruction(u16),
    /// A return was executed with an empty call stack.
    StackUnderflow,
    /// A call was executed with a full call stack.
    StackOverflow,
    /// An instruction addressed memory past its top.
    AddressOutOfRange,
}

/// One decoded instruction. Operands: `nnn` is a 12-bit address, `x` and `y`
/// are 4-bit register indices, `kk` an 8-bit immediate and `n` a 4-bit
/// immediate.
#[derive(Clone, Copy, Debug, PartialEq, Eq, Structural)]
pub enum Instr {
    /// 00E0: clear the display.
    Cls,
    /// 00EE: return from a subroutine.
    Ret,
    /// 1nnn: jump to `nnn`.
    Jp(u16),
    /// 2nnn: call the subroutine at `nnn`.
    Call(u16),
    /// 3xkk: skip the next instruction if `Vx == kk`.
    SeXKk(u8, u8),
    /// 4xkk: skip the next instruction if `Vx != kk`.
    SneXKk(u8, u8),
    /// 5xy0: skip the next instruction if `Vx == Vy`.
    SeXY(u8, u8),
    /// 6xkk: set `Vx = kk`.
    LdXKk(u8, u8),
    /// 7xkk: set `Vx = Vx + kk`, wrapping, without touching the flags.
    AddXKk(u8, u8),
    /// 8xy0: set `Vx = Vy`.
    LdXY(u8, u8),
    /// 8xy1: set `Vx = Vx | Vy`.
    OrXY(u8, u8),
    /// 8xy2: set `Vx = Vx & Vy`.
    AndXY(u8, u8),
    /// 8xy3: set `Vx = Vx ^ Vy`.
    XorXY(u8, u8),
    /// 8xy4: set `Vx = Vx + Vy`, with the carry in the flags register.
    AddXY(u8, u8),
    /// 8xy5: set `Vx = Vx - Vy`, with NOT borrow in the flags register.
    SubXY(u8, u8),
    /// 8xy6: shift `Vx` right by one, the lost bit in the flags register.
    ShrX(u8),
    /// 8xy7: set `Vx = Vy - Vx`, with NOT borrow in the flags register.
    SubnXY(u8, u8),
    /// 8xyE: shift `Vx` left by one, the lost bit in the flags register.
    ShlX(u8),
    /// 9xy0: skip the next instruction if `Vx != Vy`.
    SneXY(u8, u8),
    /// Annn: set `I = nnn`.
    LdINnn(u16),
    /// Bnnn: jump to `nnn + V0`.
    JpV0Nnn(u16),
    /// Cxkk: set `Vx` to a random byte masked with `kk`.
    RndXKk(u8, u8),
    /// Dxyn: draw the `n`-row sprite at address `I` at `(Vx, Vy)`, with the
    /// collision flag in the flags register.
    Drw(u8, u8, u8),
    /// Ex9E: skip the next instruction if the key `Vx` is pressed.
    SkpX(u8),
    /// ExA1: skip the next instruction if the key `Vx` is not pressed.
    SknpX(u8),
    /// Fx07: set `Vx` to the delay timer.
    LdXDt(u8),
    /// Fx0A: wait for a key press and store the key in `Vx`.
    LdXKey(u8),
    /// Fx15: set the delay timer to `Vx`.
    LdDtX(u8),
    /// Fx18: set the sound timer to `Vx`.
    LdStX(u8),
    /// Fx1E: set `I = I + Vx`.
    AddIX(u8),
    /// Fx29: set `I` to the glyph address for the digit `Vx`.
    LdFX(u8),
    /// Fx33: store the decimal digits of `Vx` at `I`, `I+1` and `I+2`.
    LdBX(u8),
    /// Fx55: store `V0` through `Vx` in memory from `I` upward.
    LdIX(u8),
    /// Fx65: read `V0` through `Vx` from memory from `I` upward.
    LdXI(u8),
}

/// The 12-bit address field of an opcode.
pub open spec fn op_nnn(op: u16) -> u16 {
    (op % 0x1000) as u16
}

/// The low 4-bit immediate of an opcode.
pub open spec fn op_n(op: u16) -> u8 {
    (op % 0x10) as u8
}

/// The first register index of an opcode.
pub open spec fn op_x(op: u16) -> u8 {
    ((op / 0x100) % 0x10) as u8
}

/// The second register index of an opcode.
pub open spec fn op_y(op: u16) -> u8 {
    ((op / 0x10) % 0x10) as u8
}

/// The 8-bit immediate of an opcode.
pub open spec fn op_kk(op: u16) -> u8 {
    (op % 0x100) as u8
}

/// The instruction a 16-bit opcode stands for, or `None` for a bit pattern
/// that matches no instruction. The high nibble selects the family; families
/// 0x0, 0x8, 0xE and 0xF dispatch further on the low nibble or low byte.
pub open spec fn spec_decode(op: u16) -> Option<Instr> {
    let nnn = op_nnn(op);
    let n = op_n(op);
    let x = op_x(op);
    let y = op_y(op);
    let kk = op_kk(op);
    let family = op / 0x1000;
    if family == 0x0 {
        if kk == 0xE0 {
            Some(Instr::Cls)
        } else if kk == 0xEE {
            Some(Instr::Ret)
        } else {
            None
        }
    } else if family == 0x1 {
        Some(Instr::Jp(nnn))
    } else if family == 0x2 {
        Some(Instr::Call(nnn))
    } else if family == 0x3 {
        Some(Instr::SeXKk(x, kk))
    } else if family == 0x4 {
        Some(Instr::SneXKk(x, kk))
    } else if family == 0x5 {
        Some(Instr::SeXY(x, y))
    } else if family == 0x6 {
        Some(Instr::LdXKk(x, kk))
    } else if family == 0x7 {
        Some(Instr::AddXKk(x, kk))
    } else if family == 0x8 {
        if n == 0x0 {
            Some(Instr::LdXY(x, y))
        } else if n == 0x1 {
            Some(Instr::OrXY(x, y))
        } else if n == 0x2 {
            Some(Instr::AndXY(x, y))
        } else if n == 0x3 {
            Some(Instr::XorXY(x, y))
        } else if n == 0x4 {
            Some(Instr::AddXY(x, y))
        } else if n == 0x5 {
            Some(Instr::SubXY(x, y))
        } else if n == 0x6 {
            Some(Instr::ShrX(x))
        } else if n == 0x7 {
            Some(Instr::SubnXY(x, y))
        } else if n == 0xE {
            Some(Instr::ShlX(x))
        } else {
            None
        }
    } else if family == 0x9 {
        Some(Instr::SneXY(x, y))
    } else if family == 0xA {
        Some(Instr::LdINnn(nnn))
    } else if family == 0xB {
        Some(Instr::JpV0Nnn(nnn))
    } else if family == 0xC {
        Some(Instr::RndXKk(x, kk))
    } else if family == 0xD {
        Some(Instr::Drw(x, y, n))
    } else if family == 0xE {
        if kk == 0x9E {
            Some(Instr::SkpX(x))
        } else if kk == 0xA1 {
            Some(Instr::SknpX(x))
        } else {
            None
        }
    } else {
        if kk == 0x07 {
            Some(Instr::LdXDt(x))
        } else if kk == 0x0A {
            Some(Instr::LdXKey(x))
        } else if kk == 0x15 {
            Some(Instr::LdDtX(x))
        } else if kk == 0x18 {
            Some(Instr::LdStX(x))
        } else if kk == 0x1E {
            Some(Instr::AddIX(x))
        } else if kk == 0x29 {
            Some(Instr::LdFX(x))
        } else if kk == 0x33 {
            Some(Instr::LdBX(x))
        } else if kk == 0x55 {
            Some(Instr::LdIX(x))
        } else if kk == 0x65 {
            Some(Instr::LdXI(x))
        } else {
            None
        }
    }
}

/// Both register-index fields of an opcode are below [`REGISTER_COUNT`], and
/// its address field is below 0x1000.
pub proof fn lemma_op_fields_bounded(op: u16)
    ensures
        op_x(op) < 16,
        op_y(op) < 16,
        op_n(op) < 16,
        op_nnn(op) < 0x1000,
{
}

/// Decodes a 16-bit opcode by extracting its fixed bit-fields.
pub fn decode(opcode: u16) -> (r: Option<Instr>)
    ensures
        r == spec_decode(opcode),
{
    let nnn: u16 = opcode & 0x0FFF;
    let n: u8 = (opcode & 0x000F) as u8;
    let x: u8 = ((opcode & 0x0F00) >> 8) as u8;
    let y: u8 = ((opcode & 0x00F0) >> 4) as u8;
    let kk: u8 = (opcode & 0x00FF) as u8;

    proof {
        let op = opcode;
        assert((op & 0x0FFF) == op % 0x1000) by (bit_vector);
        assert((op & 0x000F) == op % 0x10) by (bit_vector);
        assert(((op & 0x0F00) >> 8) == (op / 0x100) % 0x10) by (bit_vector);
        assert(((op & 0x00F0) >> 4) == (op / 0x10) % 0x10) by (bit_vector);
        assert((op & 0x00FF) == op % 0x100) by (bit_vector);
        assert(((op & 0xF000) >> 12) == op / 0x1000) by (bit_vector);
        assert(op / 0x1000 <= 0xF) by (bit_vector);
    }

    match (opcode & 0xF000) >> 12 {
        0x0 => match kk {
            0xE0 => Some(Instr::Cls),
            0xEE => Some(Instr::Ret),
            _ => None,
        },
        0x1 => Some(Instr::Jp(nnn)),
        0x2 => Some(Instr::Call(nnn)),
        0x3 => Some(Instr::SeXKk(x, kk)),
        0x4 => Some(Instr::SneXKk(x, kk)),
        0x5 => Some(Instr::SeXY(x, y)),
        0x6 => Some(Instr::LdXKk(x, kk)),
        0x7 => Some(Instr::AddXKk(x, kk)),
        0x8 => match n {
            0x0 => Some(Instr::LdXY(x, y)),
            0x1 => Some(Instr::OrXY(x, y)),
            0x2 => Some(Instr::AndXY(x, y)),
            0x3 => Some(Instr::XorXY(x, y)),
            0x4 => Some(Instr::AddXY(x, y)),
            0x5 => Some(Instr::SubXY(x, y)),
            0x6 => Some(Instr::ShrX(x)),
            0x7 => Some(Instr::SubnXY(x, y)),
            0xE => Some(Instr::ShlX(x)),
            _ => None,
        },
        0x9 => Some(Instr::SneXY(x, y)),
        0xA => Some(Instr::LdINnn(nnn)),
        0xB => Some(Instr::JpV0Nnn(nnn)),
        0xC => Some(Instr::RndXKk(x, kk)),
        0xD => Some(Instr::Drw(x, y, n)),
        0xE => match kk {
            0x9E => Some(Instr::SkpX(x)),
            0xA1 => Some(Instr::SknpX(x)),
            _ => None,
        },
        _ => match kk {
            0x07 => Some(Instr::LdXDt(x)),
            0x0A => Some(Instr::LdXKey(x)),
            0x15 => Some(Instr::LdDtX(x)),
            0x18 => Some(Instr::LdStX(x)),
            0x1E => Some(Instr::AddIX(x)),
            0x29 => Some(Instr::LdFX(x)),
            0x33 => Some(Instr::LdBX(x)),
            0x55 => Some(Instr::LdIX(x)),
            0x65 => Some(Instr::LdXI(x)),
            _ => None,
        },
    }
}

/// Mathematical state of the interpreter: the 16 registers, the address
/// register, the program counter, the stack pointer and the call stack.
pub ghost struct CpuState {
    /// The general-purpose registers `V0` through `VF`.
    pub vx: Seq<u8>,
    /// The 16-bit address register `I`.
    pub i: u16,
    /// The program counter.
    pub pc: u16,
    /// The stack pointer: the number of return addresses on the stack.
    pub sp: u8,
    /// The call stack slots.
    pub stack: Seq<u16>,
}

impl CpuState {
    /// A well-formed interpreter state: 16 registers, 16 stack slots, and a
    /// stack pointer that never exceeds the stack's depth.
    pub open spec fn wf(self) -> bool {
        &&& self.vx.len() == REGISTER_COUNT
        &&& self.stack.len() == STACK_DEPTH
        &&& self.sp <= STACK_DEPTH
    }

    /// This state with register `x` set to `v`.
    pub open spec fn with_vx(self, x: int, v: u8) -> CpuState {
        CpuState { vx: self.vx.update(x, v), ..self }
    }

    /// This state with the program counter set to `pc`.
    pub open spec fn with_pc(self, pc: u16) -> CpuState {
        CpuState { pc, ..self }
    }
}

/// The interpreter.
pub struct CPU {
    /// Registers `V0` through `VF`.
    vx: Vec<u8>,
    /// Memory address register.
    i: u16,
    /// Program counter.
    pc: u16,
    /// Stack pointer.
    sp: u8,
    /// Call stack.
    stack: Vec<u16>,
    /// Random number generator.
    rng: rand::rngs::ThreadRng,
}

impl View for CPU {
    type V = CpuState;

    closed spec fn view(&self) -> CpuState {
        CpuState { vx: self.vx@, i: self.i, pc: self.pc, sp: self.sp, stack: self.stack@ }
    }
}

impl CPU {
    /// A well-formed interpreter.
    pub open spec fn wf(&self) -> bool {
        self@.wf()
    }

    /// Creates a new `CPU`: every register and stack slot zero, the address
    /// register zero, and the program counter at [`PROGRAM_START`].
    pub fn new() -> (r: CPU)
        ensures
            r.wf(),
            r@.vx =~= Seq::new(REGISTER_COUNT as nat, |j: int| 0u8),
            r@.stack =~= Seq::new(STACK_DEPTH as nat, |j: int| 0u16),
            r@.i == 0,
            r@.pc == PROGRAM_START,
            r@.sp == 0,
    {
        let mut vx: Vec<u8> = Vec::new();
        let mut stack: Vec<u16> = Vec::new();
        let mut j: usize = 0;
        while j < REGISTER_COUNT
            invariant
                j <= REGISTER_COUNT,
                vx@.len() == j,
                stack@.len() == j,
                forall|k: int| 0 <= k < j ==> vx@[k] == 0u8,
                forall|k: int| 0 <= k < j ==> stack@[k] == 0u16,
            decreases REGISTER_COUNT - j,
        {
            vx.push(0);
            stack.push(0);
            j += 1;
        }
        proof {
            assert(vx@ =~= Seq::new(REGISTER_COUNT as nat, |k: int| 0u8));
            assert(stack@ =~= Seq::new(STACK_DEPTH as nat, |k: int| 0u16));
        }
        CPU { vx, i: 0, pc: PROGRAM_START, sp: 0, stack, rng: fresh_rng() }
    }

    /// Writes `value` into register `x`.
    pub fn write_register(&mut self, x: u8, value: u8)
        requires
            old(self).wf(),
            x < REGISTER_COUNT,
        ensures
            final(self).wf(),
            final(self)@ == old(self)@.with_vx(x as int, value),
    {
        self.vx.set(x as usize, value);
    }

    /// Reads the value of register `x`.
    pub fn read_register(&self, x: u8) -> (r: u8)
        requires
            self.wf(),
            x < REGISTER_COUNT,
        ensures
            r == self@.vx[x as int],
    {
        self.vx[x as usize]
    }

    /// Reads the program counter.
    pub fn get_pc(&self) -> (r: u16)
        ensures
            r == self@.pc,
    {
        self.pc
    }

    /// Reads the address register `I`.
    pub fn get_i(&self) -> (r: u16)
        ensures
            r == self@.i,
    {
        self.i
    }

    /// Reads the stack pointer.
    pub fn get_sp(&self) -> (r: u8)
        ensures
            r == self@.sp,
    {
        self.sp
    }

    /// CLS - 00E0: clear the display.
    pub fn cls(&mut self, bus: &mut Bus)
        requires
            old(self).wf(),
            old(bus).wf(),
        ensures
            final(self).wf(),
            final(bus).wf(),
            final(self)@ == old(self)@,
            final(bus)@.pixels.len() == old(bus)@.pixels.len(),
            forall|j: int| 0 <= j < final(bus)@.pixels.len() ==> !final(bus)@.pixels[j],
            final(bus)@.mem == old(bus)@.mem,
            final(bus)@.key == old(bus)@.key,
            final(bus)@.dt == old(bus)@.dt,
            final(bus)@.st == old(bus)@.st,
    {
        bus.clear_display();
    }

    /// RET - 00EE: return from a subroutine. The program counter is set to
    /// the address at the top of the stack, and the stack pointer drops by
    /// one. A return with an empty stack is a fatal stack fault.
    pub fn ret(&mut self) -> (r: Result<(), Fault>)
        requires
            old(self).wf(),
        ensures
            final(self).wf(),
            old(self)@.sp == 0 ==> r == Err::<(), Fault>(Fault::StackUnderflow) && final(self)@
                == old(self)@,
            old(self)@.sp > 0 ==> r == Ok::<(), Fault>(()) && final(self)@ == (CpuState {
                pc: old(self)@.stack[old(self)@.sp - 1],
                sp: (old(self)@.sp - 1) as u8,
                ..old(self)@
            }),
    {
        if self.sp == 0 {
            return Err(Fault::StackUnderflow);
        }
        self.pc = self.stack[(self.sp - 1) as usize];
        self.sp = self.sp - 1;
        Ok(())
    }

    /// JP - 1nnn: jump to location `nnn`.
    pub fn jp(&mut self, nnn: u16)
        requires
            old(self).wf(),
        ensures
            final(self).wf(),
            final(self)@ == old(self)@.with_pc(nnn),
    {
        self.pc = nnn;
    }

    /// CALL - 2nnn: call the subroutine at `nnn`. The current program
    /// counter is pushed onto the stack, and the program counter is set to
    /// `nnn`. A call with a full stack is a fatal stack fault.
    pub fn call(&mut self, nnn: u16) -> (r: Result<(), Fault>)
        requires
            old(self).wf(),
        ensures
            final(self).wf(),
            old(self)@.sp == STACK_DEPTH ==> r == Err::<(), Fault>(Fault::StackOverflow)
                && final(self)@ == old(self)@,
            old(self)@.sp < STACK_DEPTH ==> r == Ok::<(), Fault>(()) && final(self)@ == (CpuState {
                stack: old(self)@.stack.update(old(self)@.sp as int, old(self)@.pc),
                sp: (old(self)@.sp + 1) as u8,
                pc: nnn,
                ..old(self)@
            }),
    {
        if self.sp as usize == STACK_DEPTH {
            return Err(Fault::StackOverflow);
        }
        self.stack.set(self.sp as usize, self.pc);
        self.sp = self.sp + 1;
        self.pc = nnn;
        Ok(())
    }

    /// SE - 3xkk: skip the next instruction if `Vx == kk`.
    pub fn se_x_kk(&mut self, x: u8, kk: u8)
        requires
            old(self).wf(),
            x < REGISTER_COUNT,
            old(self)@.pc + 2 <= u16::MAX,
        ensures
            final(self).wf(),
            final(self)@ == if old(self)@.vx[x as int] == kk {
                old(self)@.with_pc((old(self)@.pc + 2) as u16)
            } else {
                old(self)@
            },
    {
        if self.read_register(x) == kk {
            self.pc = self.pc + 2;
        }
    }

    /// SNE - 4xkk: skip the next instruction if `Vx != kk`.
    pub fn sne_x_kk(&mut self, x: u8, kk: u8)
        requires
            old(self).wf(),
            x < REGISTER_COUNT,
            old(self)@.pc + 2 <= u16::MAX,
        ensures
            final(self).wf(),
            final(self)@ == if old(self)@.vx[x as int] != kk {
                old(self)@.with_pc((old(self)@.pc + 2) as u16)
            } else {
                old(self)@
            },
    {
        if self.read_register(x) != kk {
            self.pc = self.pc + 2;
        }
    }

    /// SE - 5xy0: skip the next instruction if `Vx == Vy`.
    pub fn se_x_y(&mut self, x: u8, y: u8)
        requires
            old(self).wf(),
            x < REGISTER_COUNT,
            y < REGISTER_COUNT,
            old(self)@.pc + 2 <= u16::MAX,
        ensures
            final(self).wf(),
            final(self)@ == if old(self)@.vx[x as int] == old(self)@.vx[y as int] {
                old(self)@.with_pc((old(self)@.pc + 2) as u16)
            } else {
                old(self)@
            },
    {
        if self.read_register(x) == self.read_register(y) {
            self.pc = self.pc + 2;
        }
    }

    /// LD - 6xkk: set `Vx = kk`.
    pub fn ld_x_kk(&mut self, x: u8, kk: u8)
        requires
            old(self).wf(),
            x < REGISTER_COUNT,
        ensures
            final(self).wf(),
            final(self)@ == old(self)@.with_vx(x as int, kk),
    {
        self.write_register(x, kk);
    }

    /// ADD - 7xkk: set `Vx = Vx + kk`, wrapping modulo 256. The flags
    /// register is not touched.
    pub fn add_x_kk(&mut self, x: u8, kk: u8)
        requires
            old(self).wf(),
            x < REGISTER_COUNT,
        ensures
            final(self).wf(),
            final(self)@ == old(self)@.with_vx(
                x as int,
                ((old(self)@.vx[x as int] + kk) % 256) as u8,
            ),
    {
        let vx_value = self.read_register(x);
        self.write_register(x, vx_value.wrapping_add(kk));
    }

    /// LD - 8xy0: set `Vx = Vy`.
    pub fn ld_x_y(&mut self, x: u8, y: u8)
        requires
            old(self).wf(),
            x < REGISTER_COUNT,
            y < REGISTER_COUNT,
        ensures
            final(self).wf(),
            final(self)@ == old(self)@.with_vx(x as int, old(self)@.vx[y as int]),
    {
        let vy = self.read_register(y);
        self.write_register(x, vy);
    }

    /// OR - 8xy1: set `Vx = Vx | Vy`.
    pub fn or_x_y(&mut self, x: u8, y: u8)
        requires
            old(self).wf(),
            x < REGISTER_COUNT,
            y < REGISTER_COUNT,
        ensures
            final(self).wf(),
            final(self)@ == old(self)@.with_vx(
                x as int,
                old(self)@.vx[x as int] | old(self)@.vx[y as int],
            ),
    {
        let r = self.read_register(x) | self.read_register(y);
        self.write_register(x, r);
    }

    /// AND - 8xy2: set `Vx = Vx & Vy`.
    pub fn and_x_y(&mut self, x: u8, y: u8)
        requires
            old(self).wf(),
            x < REGISTER_COUNT,
            y < REGISTER_COUNT,
        ensures
            final(self).wf(),
            final(self)@ == old(self)@.with_vx(
                x as int,
                old(self)@.vx[x as int] & old(self)@.vx[y as int],
            ),
    {
        let r = self.read_register(x) & self.read_register(y);
        self.write_register(x, r);
    }

    /// XOR - 8xy3: set `Vx = Vx ^ Vy`.
    pub fn xor_x_y(&mut self, x: u8, y: u8)
        requires
            old(self).wf(),
            x < REGISTER_COUNT,
            y < REGISTER_COUNT,
        ensures
            final(self).wf(),
            final(self)@ == old(self)@.with_vx(
                x as int,
                old(self)@.vx[x as int] ^ old(self)@.vx[y as int],
            ),
    {
        let r = self.read_register(x) ^ self.read_register(y);
        self.write_register(x, r);
    }

    /// ADD - 8xy4: set `Vx = Vx + Vy` and put the carry in the flags
    /// register: the flags register becomes 1 iff the mathematical sum
    /// exceeds 255, and `Vx` holds the sum modulo 256. The flag is written
    /// after the sum, so it wins when `x` is the flags register itself.
    pub fn add_x_y(&mut self, x: u8, y: u8)
        requires
            old(self).wf(),
            x < REGISTER_COUNT,
            y < REGISTER_COUNT,
        ensures
            final(self).wf(),
            ({
                let sum = old(self)@.vx[x as int] + old(self)@.vx[y as int];
                final(self)@ == old(self)@.with_vx(x as int, (sum % 256) as u8).with_vx(
                    FLAGS_REGISTER as int,
                    if sum > 255 {
                        1u8
                    } else {
                        0u8
                    },
                )
            }),
    {
        let vx = self.read_register(x) as u16;
        let vy = self.read_register(y) as u16;
        let sum = vx + vy;
        self.write_register(x, (sum % 256) as u8);
        if sum > 0xFF {
            self.write_register(FLAGS_REGISTER, 1);
        } else {
            self.write_register(FLAGS_REGISTER, 0);
        }
    }

    /// SUB - 8xy5: set `Vx = Vx - Vy` and put NOT borrow in the flags
    /// register: the flags register becomes 1 iff `Vx > Vy` as unsigned
    /// values, and `Vx` holds the difference modulo 256. The flag is written
    /// after the difference, so it wins when `x` is the flags register
    /// itself.
    pub fn sub_x_y(&mut self, x: u8, y: u8)
        requires
            old(self).wf(),
            x < REGISTER_COUNT,
            y < REGISTER_COUNT,
        ensures
            final(self).wf(),
            ({
                let vx = old(self)@.vx[x as int];
                let vy = old(self)@.vx[y as int];
                final(self)@ == old(self)@.with_vx(x as int, ((vx - vy) % 256) as u8).with_vx(
                    FLAGS_REGISTER as int,
                    if vx > vy {
                        1u8
                    } else {
                        0u8
                    },
                )
            }),
    {
        let vx = self.read_register(x);
        let vy = self.read_register(y);
        let sub = vx.wrapping_sub(vy);
        self.write_register(x, sub);
        if vx > vy {
            self.write_register(FLAGS_REGISTER, 1);
        } else {
            self.write_register(FLAGS_REGISTER, 0);
        }
    }

    /// SHR - 8xy6: capture the least-significant bit of `Vx` in the flags
    /// register, then shift `Vx` right by one (divide by two). The flag is
    /// written first, so the shifted value wins when `x` is the flags
    /// register itself.
    pub fn shr_x(&mut self, x: u8)
        requires
            old(self).wf(),
            x < REGISTER_COUNT,
        ensures
            final(self).wf(),
            ({
                let vx = old(self)@.vx[x as int];
                final(self)@ == old(self)@.with_vx(
                    FLAGS_REGISTER as int,
                    (vx % 2) as u8,
                ).with_vx(x as int, (vx / 2) as u8)
            }),
    {
        let vx = self.read_register(x);
        proof {
            assert(vx & 0x1 == vx % 2) by (bit_vector);
            assert(vx >> 1u8 == vx / 2) by (bit_vector);
        }
        self.write_register(FLAGS_REGISTER, vx & 0x1);
        self.write_register(x, vx >> 1u8);
    }

    /// SUBN - 8xy7: set `Vx = Vy - Vx` and put NOT borrow in the flags
    /// register: the flags register becomes 1 iff `Vy > Vx` as unsigned
    /// values, and `Vx` holds the difference modulo 256. The flag is written
    /// after the difference, so it wins when `x` is the flags register
    /// itself.
    pub fn subn_x_y(&mut self, x: u8, y: u8)
        requires
            old(self).wf(),
            x < REGISTER_COUNT,
            y < REGISTER_COUNT,
        ensures
            final(self).wf(),
            ({
                let vx = old(self)@.vx[x as int];
                let vy = old(self)@.vx[y as int];
                final(self)@ == old(self)@.with_vx(x as int, ((vy - vx) % 256) as u8).with_vx(
                    FLAGS_REGISTER as int,
                    if vy > vx {
                        1u8
                    } else {
                        0u8
                    },
                )
            }),
    {
        let vx = self.read_register(x);
        let vy = self.read_register(y);
        let sub = vy.wrapping_sub(vx);
        self.write_register(x, sub);
        if vy > vx {
            self.write_register(FLAGS_REGISTER, 1);
        } else {
            self.write_register(FLAGS_REGISTER, 0);
        }
    }

    /// SHL - 8xyE: capture the most-significant bit of `Vx` in the flags
    /// register, then shift `Vx` left by one (multiply by two, modulo 256).
    /// The flag is written first, so the shifted value wins when `x` is the
    /// flags register itself.
    pub fn shl_x(&mut self, x: u8)
        requires
            old(self).wf(),
            x < REGISTER_COUNT,
        ensures
            final(self).wf(),
            ({
                let vx = old(self)@.vx[x as int];
                final(self)@ == old(self)@.with_vx(
                    FLAGS_REGISTER as int,
                    (vx / 128) as u8,
                ).with_vx(x as int, ((2 * vx) % 256) as u8)
            }),
    {
        let vx = self.read_register(x);
        proof {
            assert((vx & 0x80) >> 7u8 == vx / 128) by (bit_vector);
            assert(vx << 1u8 == (2 * vx) % 256) by (bit_vector);
        }
        self.write_register(FLAGS_REGISTER, (vx & 0x80) >> 7u8);
        self.write_register(x, vx << 1u8);
    }

    /// SNE - 9xy0: skip the next instruction if `Vx != Vy`.
    pub fn sne(&mut self, x: u8, y: u8)
        requires
            old(self).wf(),
            x < REGISTER_COUNT,
            y < REGISTER_COUNT,
            old(self)@.pc + 2 <= u16::MAX,
        ensures
            final(self).wf(),
            final(self)@ == if old(self)@.vx[x as int] != old(self)@.vx[y as int] {
                old(self)@.with_pc((old(self)@.pc + 2) as u16)
            } else {
                old(self)@
            },
    {
        if self.read_register(x) != self.read_register(y) {
            self.pc = self.pc + 2;
        }
    }

    /// LD - Annn: set `I = nnn`.
    pub fn ld_i_nnn(&mut self, nnn: u16)
        requires
            old(self).wf(),
        ensures
            final(self).wf(),
            final(self)@ == (CpuState { i: nnn, ..old(self)@ }),
    {
        self.i = nnn;
    }

    /// JP - Bnnn: jump to location `nnn + V0`. The address field is at most
    /// 12 bits wide, so the sum fits the program counter.
    pub fn jp_0_nnn(&mut self, nnn: u16)
        requires
            old(self).wf(),
            nnn < 0x1000,
        ensures
            final(self).wf(),
            final(self)@ == old(self)@.with_pc((old(self)@.vx[0] + nnn) as u16),
    {
        self.pc = (self.read_register(0) as u16) + nnn;
    }

    /// RND - Cxkk: set `Vx` to a random byte masked with `kk`. Which byte
    /// the generator returns is not specified; every other part of the state
    /// is untouched.
    pub fn rnd_x_kk(&mut self, x: u8, kk: u8)
        requires
            old(self).wf(),
            x < REGISTER_COUNT,
        ensures
            final(self).wf(),
            exists|rb: u8| final(self)@ == old(self)@.with_vx(x as int, rb & kk),
    {
        let rnd_byte = random_byte(&mut self.rng);
        self.write_register(x, rnd_byte & kk);
    }

    /// SKP - Ex9E: skip the next instruction if the key `Vx` is currently
    /// latched.
    pub fn skp_x(&mut self, x: u8, bus: &Bus)
        requires
            old(self).wf(),
            x < REGISTER_COUNT,
            old(self)@.pc + 2 <= u16::MAX,
        ensures
            final(self).wf(),
            final(self)@ == if bus@.key == Some(old(self)@.vx[x as int]) {
                old(self)@.with_pc((old(self)@.pc + 2) as u16)
            } else {
                old(self)@
            },
    {
        let vx = self.read_register(x);
        if bus.is_key_pressed(vx) {
            self.pc = self.pc + 2;
        }
    }

    /// SKNP - ExA1: skip the next instruction if the key `Vx` is not
    /// currently latched.
    pub fn sknp_x(&mut self, x: u8, bus: &Bus)
        requires
            old(self).wf(),
            x < REGISTER_COUNT,
            old(self)@.pc + 2 <= u16::MAX,
        ensures
            final(self).wf(),
            final(self)@ == if bus@.key != Some(old(self)@.vx[x as int]) {
                old(self)@.with_pc((old(self)@.pc + 2) as u16)
            } else {
                old(self)@
            },
    {
        let vx = self.read_register(x);
        if !bus.is_key_pressed(vx) {
            self.pc = self.pc + 2;
        }
    }

    /// LD - Fx07: set `Vx` to the delay timer.
    pub fn ld_x_dt(&mut self, x: u8, bus: &Bus)
        requires
            old(self).wf(),
            x < REGISTER_COUNT,
        ensures
            final(self).wf(),
            final(self)@ == old(self)@.with_vx(x as int, bus@.dt),
    {
        let dt = bus.get_dt();
        self.write_register(x, dt);
    }

    /// LD - Fx0A: wait for a key press and store the key in `Vx`. When a key
    /// is latched, it is stored and execution moves on; when none is, the
    /// program counter is moved back over this instruction, so that it is
    /// fetched again on the next cycle while timers and frames keep
    /// advancing.
    pub fn ld_x_press(&mut self, x: u8, bus: &Bus)
        requires
            old(self).wf(),
            x < REGISTER_COUNT,
            old(self)@.pc >= 2,
        ensures
            final(self).wf(),
            final(self)@ == match bus@.key {
                Some(key) => old(self)@.with_vx(x as int, key),
                None => old(self)@.with_pc((old(self)@.pc - 2) as u16),
            },
    {
        if let Some(key) = bus.get_pressed_key() {
            self.write_register(x, key);
        } else {
            self.pc = self.pc - 2;
        }
    }

    /// LD - Fx15: set the delay timer to `Vx`.
    pub fn ld_dt_x(&mut self, x: u8, bus: &mut Bus)
        requires
            old(self).wf(),
            old(bus).wf(),
            x < REGISTER_COUNT,
        ensures
            final(self).wf(),
            final(bus).wf(),
            final(self)@ == old(self)@,
            final(bus)@ == (BusState { dt: old(self)@.vx[x as int], ..old(bus)@ }),
    {
        let vx = self.read_register(x);
        bus.set_dt(vx);
    }

    /// LD - Fx18: set the sound timer to `Vx`.
    pub fn ld_st_x(&mut self, x: u8, bus: &mut Bus)
        requires
            old(self).wf(),
            old(bus).wf(),
            x < REGISTER_COUNT,
        ensures
            final(self).wf(),
            final(bus).wf(),
            final(self)@ == old(self)@,
            final(bus)@ == (BusState { st: old(self)@.vx[x as int], ..old(bus)@ }),
    {
        let vx = self.read_register(x);
        bus.set_st(vx);
    }

    /// ADD - Fx1E: set `I = I + Vx`, wrapping modulo the width of the
    /// address register; instructions that use `I` to address memory check
    /// its range themselves.
    pub fn add_i_x(&mut self, x: u8)
        requires
            old(self).wf(),
            x < REGISTER_COUNT,
        ensures
            final(self).wf(),
            final(self)@ == (CpuState {
                i: ((old(self)@.i + old(self)@.vx[x as int]) % 0x10000) as u16,
                ..old(self)@
            }),
    {
        let vx = self.read_register(x);
        self.i = self.i.wrapping_add(vx as u16);
    }

    /// LD - Fx29: set `I` to the glyph address for the digit `Vx`: each
    /// built-in glyph takes 5 bytes from address zero upward.
    pub fn ld_f_x(&mut self, x: u8)
        requires
            old(self).wf(),
            x < REGISTER_COUNT,
        ensures
            final(self).wf(),
            final(self)@ == (CpuState { i: (old(self)@.vx[x as int] * 5) as u16, ..old(self)@ }),
    {
        let vx = self.read_register(x) as u16;
        self.i = vx * 5;
    }

    /// LD - Fx33: store the decimal digits of `Vx` in memory: the hundreds
    /// digit at address `I`, the tens digit at `I+1` and the ones digit at
    /// `I+2`. Addressing past the top of memory is a fatal fault that leaves
    /// every state unchanged.
    pub fn ld_b_x(&mut self, x: u8, bus: &mut Bus) -> (r: Result<(), Fault>)
        requires
            old(self).wf(),
            old(bus).wf(),
            x < REGISTER_COUNT,
        ensures
            final(self).wf(),
            final(bus).wf(),
            final(self)@ == old(self)@,
            old(self)@.i + 3 > MEMORY_SIZE ==> r == Err::<(), Fault>(Fault::AddressOutOfRange)
                && final(bus)@ == old(bus)@,
            old(self)@.i + 3 <= MEMORY_SIZE ==> r == Ok::<(), Fault>(()) && ({
                let vx = old(self)@.vx[x as int];
                let i = old(self)@.i as int;
                final(bus)@ == (BusState {
                    mem: old(bus)@.mem.update(i, (vx / 100) as u8).update(
                        i + 1,
                        ((vx % 100) / 10) as u8,
                    ).update(i + 2, (vx % 10) as u8),
                    ..old(bus)@
                })
            }),
    {
        if self.i as usize + 3 > MEMORY_SIZE {
            return Err(Fault::AddressOutOfRange);
        }
        let vx = self.read_register(x);
        bus.mem_write_byte(self.i, vx / 100);
        bus.mem_write_byte(self.i + 1, (vx % 100) / 10);
        bus.mem_write_byte(self.i + 2, vx % 10);
        Ok(())
    }

    /// LD - Fx55: store registers `V0` through `Vx` in memory from address
    /// `I` upward. Addressing past the top of memory is a fatal fault that
    /// leaves every state unchanged.
    pub fn ld_i_x(&mut self, x: u8, bus: &mut Bus) -> (r: Result<(), Fault>)
        requires
            old(self).wf(),
            old(bus).wf(),
            x < REGISTER_COUNT,
        ensures
            final(self).wf(),
            final(bus).wf(),
            final(self)@ == old(self)@,
            old(self)@.i + x + 1 > MEMORY_SIZE ==> r == Err::<(), Fault>(Fault::AddressOutOfRange)
                && final(bus)@ == old(bus)@,
            old(self)@.i + x + 1 <= MEMORY_SIZE ==> r == Ok::<(), Fault>(()) && ({
                let i = old(self)@.i as int;
                &&& final(bus)@.mem.len() == old(bus)@.mem.len()
                &&& forall|k: int|
                    0 <= k <= x ==> final(bus)@.mem[i + k] == old(self)@.vx[k]
                &&& forall|a: int|
                    0 <= a < old(bus)@.mem.len() && !(i <= a <= i + x) ==> final(bus)@.mem[a]
                        == old(bus)@.mem[a]
                &&& final(bus)@ == (BusState { mem: final(bus)@.mem, ..old(bus)@ })
            }),
    {
        if self.i as usize + x as usize + 1 > MEMORY_SIZE {
            return Err(Fault::AddressOutOfRange);
        }
        let mut v_index: u8 = 0;
        while v_index <= x
            invariant
                self.wf(),
                bus.wf(),
                x < REGISTER_COUNT,
                v_index <= x + 1,
                self@ == old(self)@,
                self@.i + x + 1 <= MEMORY_SIZE,
                bus@.mem.len() == old(bus)@.mem.len(),
                forall|k: int| 0 <= k < v_index ==> bus@.mem[self@.i + k] == self@.vx[k],
                forall|a: int|
                    0 <= a < old(bus)@.mem.len() && !(self@.i <= a < self@.i + v_index)
                        ==> bus@.mem[a] == old(bus)@.mem[a],
                bus@ == (BusState { mem: bus@.mem, ..old(bus)@ }),
            decreases x + 1 - v_index,
        {
            let vv = self.read_register(v_index);
            bus.mem_write_byte(self.i + v_index as u16, vv);
            v_index = v_index + 1;
        }
        Ok(())
    }

    /// LD - Fx65: read registers `V0` through `Vx` from memory from address
    /// `I` upward. Addressing past the top of memory is a fatal fault that
    /// leaves every state unchanged.
    pub fn ld_x_i(&mut self, x: u8, bus: &Bus) -> (r: Result<(), Fault>)
        requires
            old(self).wf(),
            bus.wf(),
            x < REGISTER_COUNT,
        ensures
            final(self).wf(),
            old(self)@.i + x + 1 > MEMORY_SIZE ==> r == Err::<(), Fault>(Fault::AddressOutOfRange)
                && final(self)@ == old(self)@,
            old(self)@.i + x + 1 <= MEMORY_SIZE ==> r == Ok::<(), Fault>(()) && ({
                let i = old(self)@.i as int;
                &&& final(self)@.vx.len() == REGISTER_COUNT
                &&& forall|k: int| 0 <= k <= x ==> final(self)@.vx[k] == bus@.mem[i + k]
                &&& forall|k: int|
                    x < k < REGISTER_COUNT ==> final(self)@.vx[k] == old(self)@.vx[k]
                &&& final(self)@ == (CpuState { vx: final(self)@.vx, ..old(self)@ })
            }),
    {
        if self.i as usize + x as usize + 1 > MEMORY_SIZE {
            return Err(Fault::AddressOutOfRange);
        }
        let mut v_index: u8 = 0;
        while v_index <= x
            invariant
                self.wf(),
                bus.wf(),
                x < REGISTER_COUNT,
                v_index <= x + 1,
                self@.i == old(self)@.i,
                self@.i + x + 1 <= MEMORY_SIZE,
                forall|k: int| 0 <= k < v_index ==> self@.vx[k] == bus@.mem[self@.i + k],
                forall|k: int| v_index <= k < REGISTER_COUNT ==> self@.vx[k] == old(self)@.vx[k],
                self@ == (CpuState { vx: self@.vx, ..old(self)@ }),
            decreases x + 1 - v_index,
        {
            let vv = bus.mem_read_byte(self.i + v_index as u16);
            self.write_register(v_index, vv);
            v_index = v_index + 1;
        }
        Ok(())
    }
}

/// The logical plane that drawing the first `rows` rows of the sprite at
/// address `base` produces over `p0`: row `r` of the sprite is the byte at
/// `base + r` and is drawn at `(x, y + r)`, each row wrapping on its own.
pub open spec fn sprite_plane(
    p0: Seq<bool>,
    mem: Seq<u8>,
    base: int,
    x: int,
    y: int,
    rows: int,
) -> Seq<bool>
    decreases rows,
{
    if rows <= 0 {
        p0
    } else {
        row_plane(
            sprite_plane(p0, mem, base, x, y, rows - 1),
            x,
            y + rows - 1,
            mem[base + rows - 1],
        )
    }
}

/// Whether drawing the first `rows` rows of the sprite at address `base`
/// over `p0` erases any pixel: some row meets a pixel that is on when that
/// row is drawn.
pub open spec fn sprite_erased(
    p0: Seq<bool>,
    mem: Seq<u8>,
    base: int,
    x: int,
    y: int,
    rows: int,
) -> bool
    decreases rows,
{
    if rows <= 0 {
        false
    } else {
        sprite_erased(p0, mem, base, x, y, rows - 1) || draw_erases(
            sprite_plane(p0, mem, base, x, y, rows - 1),
            x,
            y + rows - 1,
            mem[base + rows - 1],
        )
    }
}

impl CPU {
    /// DRW - Dxyn: draw the `n`-row sprite stored at address `I` at the
    /// coordinates `(Vx, Vy)`, XOR-ing it onto the display with per-axis
    /// wraparound, and put the collision flag in the flags register: 1 iff
    /// any pixel was erased. A sprite that runs past the top of memory is a
    /// fatal fault that leaves every state unchanged.
    pub fn drw(&mut self, x: u8, y: u8, n: u8, bus: &mut Bus) -> (r: Result<(), Fault>)
        requires
            old(self).wf(),
            old(bus).wf(),
            x < REGISTER_COUNT,
            y < REGISTER_COUNT,
        ensures
            final(self).wf(),
            final(bus).wf(),
            old(self)@.i + n > MEMORY_SIZE ==> r == Err::<(), Fault>(Fault::AddressOutOfRange)
                && final(self)@ == old(self)@ && final(bus)@ == old(bus)@,
            old(self)@.i + n <= MEMORY_SIZE ==> r == Ok::<(), Fault>(()) && ({
                let er = sprite_erased(
                    old(bus)@.pixels,
                    old(bus)@.mem,
                    old(self)@.i as int,
                    old(self)@.vx[x as int] as int,
                    old(self)@.vx[y as int] as int,
                    n as int,
                );
                &&& final(bus)@ == (BusState {
                    pixels: sprite_plane(
                        old(bus)@.pixels,
                        old(bus)@.mem,
                        old(self)@.i as int,
                        old(self)@.vx[x as int] as int,
                        old(self)@.vx[y as int] as int,
                        n as int,
                    ),
                    ..old(bus)@
                })
                &&& final(self)@ == old(self)@.with_vx(
                    FLAGS_REGISTER as int,
                    if er {
                        1u8
                    } else {
                        0u8
                    },
                )
            }),
    {
        if self.i as usize + n as usize > MEMORY_SIZE {
            return Err(Fault::AddressOutOfRange);
        }
        let vx = self.read_register(x);
        let vy = self.read_register(y);
        let mut erased = false;
        let ghost p_init = bus@.pixels;
        let mut index: u8 = 0;
        while index < n
            invariant
                self.wf(),
                bus.wf(),
                self@ == old(self)@,
                self@.i + n <= MEMORY_SIZE,
                index <= n,
                vx == self@.vx[x as int],
                vy == self@.vx[y as int],
                x < REGISTER_COUNT,
                y < REGISTER_COUNT,
                p_init == old(bus)@.pixels,
                bus@.pixels == sprite_plane(
                    p_init,
                    old(bus)@.mem,
                    self@.i as int,
                    vx as int,
                    vy as int,
                    index as int,
                ),
                erased == sprite_erased(
                    p_init,
                    old(bus)@.mem,
                    self@.i as int,
                    vx as int,
                    vy as int,
                    index as int,
                ),
                bus@ == (BusState { pixels: bus@.pixels, ..old(bus)@ }),
            decreases n - index,
        {
            let value = bus.mem_read_byte(self.i + index as u16);
            let ghost pm = bus@.pixels;
            if bus.draw_byte(vx as usize, vy as usize + index as usize, value) {
                erased = true;
            }
            proof {
                lemma_draw_applied_determines(
                    pm,
                    bus@.pixels,
                    vx as int,
                    vy as int + index as int,
                    value,
                );
            }
            index = index + 1;
        }
        if erased {
            self.write_register(FLAGS_REGISTER, 0x1);
        } else {
            self.write_register(FLAGS_REGISTER, 0x0);
        }
        Ok(())
    }
}

/// The 16-bit opcode stored big-endian at address `pc`: the high byte first.
pub open spec fn opcode_at(mem: Seq<u8>, pc: u16) -> u16 {
    (mem[pc as int] * 0x100 + mem[pc as int + 1]) as u16
}

/// What executing one decoded instruction does: how it takes the
/// interpreter state `c0` and the bus state `b0` to `c1` and `b1`, and what
/// it returns. The program counter in `c0` has already been advanced past
/// the instruction by the fetch.
pub open spec fn instr_effect(
    c0: CpuState,
    b0: BusState,
    instr: Instr,
    c1: CpuState,
    b1: BusState,
    r: Result<(), Fault>,
) -> bool {
    match instr {
        Instr::Cls => r == Ok::<(), Fault>(()) && c1 == c0 && b1.pixels.len() == b0.pixels.len()
            && (forall|j: int| 0 <= j < b1.pixels.len() ==> !b1.pixels[j]) && b1 == (BusState {
            pixels: b1.pixels,
            ..b0
        }),
        Instr::Ret => if c0.sp == 0 {
            r == Err::<(), Fault>(Fault::StackUnderflow) && c1 == c0 && b1 == b0
        } else {
            r == Ok::<(), Fault>(()) && b1 == b0 && c1 == (CpuState {
                pc: c0.stack[c0.sp - 1],
                sp: (c0.sp - 1) as u8,
                ..c0
            })
        },
        Instr::Jp(nnn) => r == Ok::<(), Fault>(()) && b1 == b0 && c1 == c0.with_pc(nnn),
        Instr::Call(nnn) => if c0.sp == STACK_DEPTH {
            r == Err::<(), Fault>(Fault::StackOverflow) && c1 == c0 && b1 == b0
        } else {
            r == Ok::<(), Fault>(()) && b1 == b0 && c1 == (CpuState {
                stack: c0.stack.update(c0.sp as int, c0.pc),
                sp: (c0.sp + 1) as u8,
                pc: nnn,
                ..c0
            })
        },
        Instr::SeXKk(x, kk) => r == Ok::<(), Fault>(()) && b1 == b0 && c1 == (if c0.vx[x as int]
            == kk {
            c0.with_pc((c0.pc + 2) as u16)
        } else {
            c0
        }),
        Instr::SneXKk(x, kk) => r == Ok::<(), Fault>(()) && b1 == b0 && c1 == (if c0.vx[x as int]
            != kk {
            c0.with_pc((c0.pc + 2) as u16)
        } else {
            c0
        }),
        Instr::SeXY(x, y) => r == Ok::<(), Fault>(()) && b1 == b0 && c1 == (if c0.vx[x as int]
            == c0.vx[y as int] {
            c0.with_pc((c0.pc + 2) as u16)
        } else {
            c0
        }),
        Instr::LdXKk(x, kk) => r == Ok::<(), Fault>(()) && b1 == b0 && c1 == c0.with_vx(
            x as int,
            kk,
        ),
        Instr::AddXKk(x, kk) => r == Ok::<(), Fault>(()) && b1 == b0 && c1 == c0.with_vx(
            x as int,
            ((c0.vx[x as int] + kk) % 256) as u8,
        ),
        Instr::LdXY(x, y) => r == Ok::<(), Fault>(()) && b1 == b0 && c1 == c0.with_vx(
            x as int,
            c0.vx[y as int],
        ),
        Instr::OrXY(x, y) => r == Ok::<(), Fault>(()) && b1 == b0 && c1 == c0.with_vx(
            x as int,
            c0.vx[x as int] | c0.vx[y as int],
        ),
        Instr::AndXY(x, y) => r == Ok::<(), Fault>(()) && b1 == b0 && c1 == c0.with_vx(
            x as int,
            c0.vx[x as int] & c0.vx[y as int],
        ),
        Instr::XorXY(x, y) => r == Ok::<(), Fault>(()) && b1 == b0 && c1 == c0.with_vx(
            x as int,
            c0.vx[x as int] ^ c0.vx[y as int],
        ),
        Instr::AddXY(x, y) => r == Ok::<(), Fault>(()) && b1 == b0 && ({
            let sum = c0.vx[x as int] + c0.vx[y as int];
            c1 == c0.with_vx(x as int, (sum % 256) as u8).with_vx(
                FLAGS_REGISTER as int,
                if sum > 255 {
                    1u8
                } else {
                    0u8
                },
            )
        }),
        Instr::SubXY(x, y) => r == Ok::<(), Fault>(()) && b1 == b0 && ({
            let vx = c0.vx[x as int];
            let vy = c0.vx[y as int];
            c1 == c0.with_vx(x as int, ((vx - vy) % 256) as u8).with_vx(
                FLAGS_REGISTER as int,
                if vx > vy {
                    1u8
                } else {
                    0u8
                },
            )
        }),
        Instr::ShrX(x) => r == Ok::<(), Fault>(()) && b1 == b0 && ({
            let vx = c0.vx[x as int];
            c1 == c0.with_vx(FLAGS_REGISTER as int, (vx % 2) as u8).with_vx(
                x as int,
                (vx / 2) as u8,
            )
        }),
        Instr::SubnXY(x, y) => r == Ok::<(), Fault>(()) && b1 == b0 && ({
            let vx = c0.vx[x as int];
            let vy = c0.vx[y as int];
            c1 == c0.with_vx(x as int, ((vy - vx) % 256) as u8).with_vx(
                FLAGS_REGISTER as int,
                if vy > vx {
                    1u8
                } else {
                    0u8
                },
            )
        }),
        Instr::ShlX(x) => r == Ok::<(), Fault>(()) && b1 == b0 && ({
            let vx = c0.vx[x as int];
            c1 == c0.with_vx(FLAGS_REGISTER as int, (vx / 128) as u8).with_vx(
                x as int,
                ((2 * vx) % 256) as u8,
            )
        }),
        Instr::SneXY(x, y) => r == Ok::<(), Fault>(()) && b1 == b0 && c1 == (if c0.vx[x as int]
            != c0.vx[y as int] {
            c0.with_pc((c0.pc + 2) as u16)
        } else {
            c0
        }),
        Instr::LdINnn(nnn) => r == Ok::<(), Fault>(()) && b1 == b0 && c1 == (CpuState {
            i: nnn,
            ..c0
        }),
        Instr::JpV0Nnn(nnn) => r == Ok::<(), Fault>(()) && b1 == b0 && c1 == c0.with_pc(
            (c0.vx[0] + nnn) as u16,
        ),
        Instr::RndXKk(x, kk) => r == Ok::<(), Fault>(()) && b1 == b0 && (exists|rb: u8|
            c1 == c0.with_vx(x as int, rb & kk)),
        Instr::Drw(x, y, n) => if c0.i + n > MEMORY_SIZE {
            r == Err::<(), Fault>(Fault::AddressOutOfRange) && c1 == c0 && b1 == b0
        } else {
            let er = sprite_erased(
                b0.pixels,
                b0.mem,
                c0.i as int,
                c0.vx[x as int] as int,
                c0.vx[y as int] as int,
                n as int,
            );
            &&& r == Ok::<(), Fault>(())
            &&& b1 == (BusState {
                pixels: sprite_plane(
                    b0.pixels,
                    b0.mem,
                    c0.i as int,
                    c0.vx[x as int] as int,
                    c0.vx[y as int] as int,
                    n as int,
                ),
                ..b0
            })
            &&& c1 == c0.with_vx(
                FLAGS_REGISTER as int,
                if er {
                    1u8
                } else {
                    0u8
                },
            )
        },
        Instr::SkpX(x) => r == Ok::<(), Fault>(()) && b1 == b0 && c1 == (if b0.key == Some(
            c0.vx[x as int],
        ) {
            c0.with_pc((c0.pc + 2) as u16)
        } else {
            c0
        }),
        Instr::SknpX(x) => r == Ok::<(), Fault>(()) && b1 == b0 && c1 == (if b0.key != Some(
            c0.vx[x as int],
        ) {
            c0.with_pc((c0.pc + 2) as u16)
        } else {
            c0
        }),
        Instr::LdXDt(x) => r == Ok::<(), Fault>(()) && b1 == b0 && c1 == c0.with_vx(
            x as int,
            b0.dt,
        ),
        Instr::LdXKey(x) => r == Ok::<(), Fault>(()) && b1 == b0 && c1 == (match b0.key {
            Some(key) => c0.with_vx(x as int, key),
            None => c0.with_pc((c0.pc - 2) as u16),
        }),
        Instr::LdDtX(x) => r == Ok::<(), Fault>(()) && c1 == c0 && b1 == (BusState {
            dt: c0.vx[x as int],
            ..b0
        }),
        Instr::LdStX(x) => r == Ok::<(), Fault>(()) && c1 == c0 && b1 == (BusState {
            st: c0.vx[x as int],
            ..b0
        }),
        Instr::AddIX(x) => r == Ok::<(), Fault>(()) && b1 == b0 && c1 == (CpuState {
            i: ((c0.i + c0.vx[x as int]) % 0x10000) as u16,
            ..c0
        }),
        Instr::LdFX(x) => r == Ok::<(), Fault>(()) && b1 == b0 && c1 == (CpuState {
            i: (c0.vx[x as int] * 5) as u16,
            ..c0
        }),
        Instr::LdBX(x) => if c0.i + 3 > MEMORY_SIZE {
            r == Err::<(), Fault>(Fault::AddressOutOfRange) && c1 == c0 && b1 == b0
        } else {
            let vx = c0.vx[x as int];
            let i = c0.i as int;
            r == Ok::<(), Fault>(()) && c1 == c0 && b1 == (BusState {
                mem: b0.mem.update(i, (vx / 100) as u8).update(i + 1, ((vx % 100) / 10) as u8)
                    .update(i + 2, (vx % 10) as u8),
                ..b0
            })
        },
        Instr::LdIX(x) => if c0.i + x + 1 > MEMORY_SIZE {
            r == Err::<(), Fault>(Fault::AddressOutOfRange) && c1 == c0 && b1 == b0
        } else {
            let i = c0.i as int;
            &&& r == Ok::<(), Fault>(())
            &&& c1 == c0
            &&& b1.mem.len() == b0.mem.len()
            &&& forall|k: int| 0 <= k <= x ==> b1.mem[i + k] == c0.vx[k]
            &&& forall|a: int|
                0 <= a < b0.mem.len() && !(i <= a <= i + x) ==> b1.mem[a] == b0.mem[a]
            &&& b1 == (BusState { mem: b1.mem, ..b0 })
        },
        Instr::LdXI(x) => if c0.i + x + 1 > MEMORY_SIZE {
            r == Err::<(), Fault>(Fault::AddressOutOfRange) && c1 == c0 && b1 == b0
        } else {
            let i = c0.i as int;
            &&& r == Ok::<(), Fault>(())
            &&& b1 == b0
            &&& c1.vx.len() == REGISTER_COUNT
            &&& forall|k: int| 0 <= k <= x ==> c1.vx[k] == b0.mem[i + k]
            &&& forall|k: int| x < k < REGISTER_COUNT ==> c1.vx[k] == c0.vx[k]
            &&& c1 == (CpuState { vx: c1.vx, ..c0 })
        },
    }
}

/// What one whole cycle does: how it takes the interpreter state `c0` and
/// the bus state `b0` to `c1` and `b1`, and what it returns. A cycle fetches
/// the two opcode bytes at the program counter, advances it by 2, decodes,
/// and executes; a fetch past the top of memory and an opcode that matches
/// no instruction are fatal faults.
pub open spec fn cycle_effect(
    c0: CpuState,
    b0: BusState,
    c1: CpuState,
    b1: BusState,
    r: Result<(), Fault>,
) -> bool {
    if c0.pc + 1 >= MEMORY_SIZE {
        r == Err::<(), Fault>(Fault::AddressOutOfRange) && c1 == c0 && b1 == b0
    } else {
        let op = opcode_at(b0.mem, c0.pc);
        let cf = c0.with_pc((c0.pc + 2) as u16);
        match spec_decode(op) {
            None => r == Err::<(), Fault>(Fault::UnknownInstruction(op)) && c1 == cf && b1 == b0,
            Some(instr) => instr_effect(cf, b0, instr, c1, b1, r),
        }
    }
}

impl CPU {
    /// Fetches the instruction at the program counter - two bytes, high
    /// byte first - and advances the program counter by 2. A program
    /// counter at the top of memory is a fatal fault.
    fn fetch(&mut self, bus: &Bus) -> (r: Result<u16, Fault>)
        requires
            old(self).wf(),
            bus.wf(),
        ensures
            final(self).wf(),
            if old(self)@.pc + 1 < MEMORY_SIZE {
                r == Ok::<u16, Fault>(opcode_at(bus@.mem, old(self)@.pc)) && final(self)@ == old(
                    self,
                )@.with_pc((old(self)@.pc + 2) as u16)
            } else {
                r == Err::<u16, Fault>(Fault::AddressOutOfRange) && final(self)@ == old(self)@
            },
    {
        if self.pc as usize + 1 >= MEMORY_SIZE {
            return Err(Fault::AddressOutOfRange);
        }
        let hi = bus.mem_read_byte(self.pc);
        let lo = bus.mem_read_byte(self.pc + 1);
        let opcode: u16 = ((hi as u16) << 8u16) | (lo as u16);
        proof {
            let hh = hi as u16;
            let ll = lo as u16;
            assert(hh < 256 && ll < 256 ==> ((hh << 8u16) | ll) == hh * 256 + ll) by (bit_vector);
        }
        self.pc = self.pc + 2;
        Ok(opcode)
    }

    /// Decodes `opcode` and executes it against the bus. The program
    /// counter has already been advanced past the instruction by the fetch.
    /// An opcode that matches no instruction is a fatal decode fault.
    pub fn decode_and_run(&mut self, opcode: u16, bus: &mut Bus) -> (r: Result<(), Fault>)
        requires
            old(self).wf(),
            old(bus).wf(),
            2 <= old(self)@.pc,
            old(self)@.pc + 2 <= u16::MAX,
        ensures
            final(self).wf(),
            final(bus).wf(),
            match spec_decode(opcode) {
                None => r == Err::<(), Fault>(Fault::UnknownInstruction(opcode)) && final(self)@
                    == old(self)@ && final(bus)@ == old(bus)@,
                Some(instr) => instr_effect(
                    old(self)@,
                    old(bus)@,
                    instr,
                    final(self)@,
                    final(bus)@,
                    r,
                ),
            },
    {
        proof {
            lemma_op_fields_bounded(opcode);
        }
        let instr = match decode(opcode) {
            Some(instr) => instr,
            None => {
                return Err(Fault::UnknownInstruction(opcode));
            },
        };
        match instr {
            Instr::Cls => {
                self.cls(bus);
                Ok(())
            },
            Instr::Ret => self.ret(),
            Instr::Jp(nnn) => {
                self.jp(nnn);
                Ok(())
            },
            Instr::Call(nnn) => self.call(nnn),
            Instr::SeXKk(x, kk) => {
                self.se_x_kk(x, kk);
                Ok(())
            },
            Instr::SneXKk(x, kk) => {
                self.sne_x_kk(x, kk);
                Ok(())
            },
            Instr::SeXY(x, y) => {
                self.se_x_y(x, y);
                Ok(())
            },
            Instr::LdXKk(x, kk) => {
                self.ld_x_kk(x, kk);
                Ok(())
            },
            Instr::AddXKk(x, kk) => {
                self.add_x_kk(x, kk);
                Ok(())
            },
            Instr::LdXY(x, y) => {
                self.ld_x_y(x, y);
                Ok(())
            },
            Instr::OrXY(x, y) => {
                self.or_x_y(x, y);
                Ok(())
            },
            Instr::AndXY(x, y) => {
                self.and_x_y(x, y);
                Ok(())
            },
            Instr::XorXY(x, y) => {
                self.xor_x_y(x, y);
                Ok(())
            },
            Instr::AddXY(x, y) => {
                self.add_x_y(x, y);
                Ok(())
            },
            Instr::SubXY(x, y) => {
                self.sub_x_y(x, y);
                Ok(())
            },
            Instr::ShrX(x) => {
                self.shr_x(x);
                Ok(())
            },
            Instr::SubnXY(x, y) => {
                self.subn_x_y(x, y);
                Ok(())
            },
            Instr::ShlX(x) => {
                self.shl_x(x);
                Ok(())
            },
            Instr::SneXY(x, y) => {
                self.sne(x, y);
                Ok(())
            },
            Instr::LdINnn(nnn) => {
                self.ld_i_nnn(nnn);
                Ok(())
            },
            Instr::JpV0Nnn(nnn) => {
                self.jp_0_nnn(nnn);
                Ok(())
            },
            Instr::RndXKk(x, kk) => {
                self.rnd_x_kk(x, kk);
                Ok(())
            },
            Instr::Drw(x, y, n) => self.drw(x, y, n, bus),
            Instr::SkpX(x) => {
                self.skp_x(x, bus);
                Ok(())
            },
            Instr::SknpX(x) => {
                self.sknp_x(x, bus);
                Ok(())
            },
            Instr::LdXDt(x) => {
                self.ld_x_dt(x, bus);
                Ok(())
            },
            Instr::LdXKey(x) => {
                self.ld_x_press(x, bus);
                Ok(())
            },
            Instr::LdDtX(x) => {
                self.ld_dt_x(x, bus);
                Ok(())
            },
            Instr::LdStX(x) => {
                self.ld_st_x(x, bus);
                Ok(())
            },
            Instr::AddIX(x) => {
                self.add_i_x(x);
                Ok(())
            },
            Instr::LdFX(x) => {
                self.ld_f_x(x);
                Ok(())
            },
            Instr::LdBX(x) => self.ld_b_x(x, bus),
            Instr::LdIX(x) => self.ld_i_x(x, bus),
            Instr::LdXI(x) => self.ld_x_i(x, bus),
        }
    }

    /// Performs one cycle: fetches, decodes and runs one instruction. A
    /// fault stops execution and is surfaced to the caller; no fault is
    /// recoverable mid-instruction.
    pub fn cycle(&mut self, bus: &mut Bus) -> (r: Result<(), Fault>)
        requires
            old(self).wf(),
            old(bus).wf(),
        ensures
            final(self).wf(),
            final(bus).wf(),
            cycle_effect(old(self)@, old(bus)@, final(self)@, final(bus)@, r),
    {
        let opcode = match self.fetch(bus) {
            Ok(opcode) => opcode,
            Err(fault) => {
                return Err(fault);
            },
        };
        self.decode_and_run(opcode, bus)
    }
}

/// Whether an instruction is one of the skip instructions.
pub open spec fn is_skip_instr(instr: Instr) -> bool {
    match instr {
        Instr::SeXKk(_, _) => true,
        Instr::SneXKk(_, _) => true,
        Instr::SeXY(_, _) => true,
        Instr::SneXY(_, _) => true,
        Instr::SkpX(_) => true,
        Instr::SknpX(_) => true,
        _ => false,
    }
}

/// The condition under which a skip instruction skips, read over the
/// registers and the latched key.
pub open spec fn skip_condition(c: CpuState, b: BusState, instr: Instr) -> bool {
    match instr {
        Instr::SeXKk(x, kk) => c.vx[x as int] == kk,
        Instr::SneXKk(x, kk) => c.vx[x as int] != kk,
        Instr::SeXY(x, y) => c.vx[x as int] == c.vx[y as int],
        Instr::SneXY(x, y) => c.vx[x as int] != c.vx[y as int],
        Instr::SkpX(x) => b.key == Some(c.vx[x as int]),
        Instr::SknpX(x) => b.key != Some(c.vx[x as int]),
        _ => false,
    }
}

/// Skip instructions advance the program counter by exactly 4 - 2 for the
/// fetch and 2 more for the skip - when their condition holds, and by
/// exactly 2 otherwise; they never fault and touch nothing else.
pub proof fn lemma_skip_pc_advance(
    c0: CpuState,
    b0: BusState,
    c1: CpuState,
    b1: BusState,
    r: Result<(), Fault>,
    instr: Instr,
)
    requires
        c0.pc + 1 < MEMORY_SIZE,
        cycle_effect(c0, b0, c1, b1, r),
        spec_decode(opcode_at(b0.mem, c0.pc)) == Some(instr),
        is_skip_instr(instr),
    ensures
        r == Ok::<(), Fault>(()),
        b1 == b0,
        c1.pc == if skip_condition(c0, b0, instr) {
            c0.pc + 4
        } else {
            c0.pc + 2
        },
        c1.vx == c0.vx,
        c1.i == c0.i,
        c1.sp == c0.sp,
        c1.stack == c0.stack,
{
    let cf = c0.with_pc((c0.pc + 2) as u16);
    assert(instr_effect(cf, b0, instr, c1, b1, r));
}

} // verus!
