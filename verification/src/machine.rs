//! The machine as a mathematical value, and what one instruction cycle does
//! to it.
//!
//! `step_spec` defines the instruction cycle; the executable `Cpu::step` is
//! proved to compute exactly this function on the view of its state.

use vstd::prelude::*;
use crate::display::{row_collides, row_drawn};
use crate::error::Chip8Error;
use crate::instruction::{decode_spec, Instruction};
use crate::keypad::first_pressed;

verus! {

/// Where programs are loaded and where execution starts after a reset.
pub const PROGRAM_ORIGIN: u16 = 0x200;

/// Number of bytes of addressable memory.
pub const MEMORY_SIZE: usize = 4096;

pub ghost struct Machine {
    pub pc: u16,
    pub v: Seq<u8>,
    pub i: u16,
    pub stack: Seq<u16>,
    pub sp: u8,
    pub memory: Seq<u8>,
    pub delay_timer: u8,
    pub pixels: Seq<u8>,
    pub keys: Seq<bool>,
}

impl Machine {
    /// Each store has the size the machine gives it.
    pub open spec fn shaped(self) -> bool {
        &&& self.v.len() == 16
        &&& self.stack.len() == 16
        &&& self.memory.len() == 4096
        &&& self.pixels.len() == 2048
        &&& self.keys.len() == 16
    }

    /// The stack pointer names a slot or the position just past the last one.
    pub open spec fn stack_in_range(self) -> bool {
        self.sp <= 16
    }

    /// The same machine with the program counter moved forward by `by` bytes.
    pub open spec fn advanced(self, by: int) -> Machine {
        Machine { pc: (self.pc + by) as u16, ..self }
    }
}

/// The big-endian word formed by the bytes at `at` and `at + 1`.
pub open spec fn word_at(memory: Seq<u8>, at: int) -> u16 {
    (memory[at] as int * 256 + memory[at + 1] as int) as u16
}

/// Whether both bytes of the instruction at the program counter lie in memory.
pub open spec fn fetchable(m: Machine) -> bool {
    m.pc as int + 1 < 4096
}

/// The word at the program counter.
pub open spec fn fetch_spec(m: Machine) -> Result<u16, Chip8Error> {
    if fetchable(m) {
        Ok(word_at(m.memory, m.pc as int))
    } else {
        Err(Chip8Error::BoundsViolation)
    }
}

/// The instruction at the program counter, if there is one.
pub open spec fn current_instruction(m: Machine) -> Option<Instruction> {
    match fetch_spec(m) {
        Ok(word) => decode_spec(word),
        Err(_) => None,
    }
}

/// The buffer after the rows of a sprite were drawn from `(x, y)` downwards,
/// first row first.
pub open spec fn sprite_drawn(cells: Seq<u8>, x: int, y: int, rows: Seq<u8>) -> Seq<u8>
    decreases rows.len(),
{
    if rows.len() == 0 {
        cells
    } else {
        row_drawn(
            sprite_drawn(cells, x, y, rows.drop_last()),
            x,
            y + rows.len() - 1,
            rows.last(),
        )
    }
}

/// Whether drawing the rows of a sprite from `(x, y)` downwards turns any lit
/// pixel off.
pub open spec fn sprite_collides(cells: Seq<u8>, x: int, y: int, rows: Seq<u8>) -> bool
    decreases rows.len(),
{
    if rows.len() == 0 {
        false
    } else {
        sprite_collides(cells, x, y, rows.drop_last()) || row_collides(
            sprite_drawn(cells, x, y, rows.drop_last()),
            x,
            y + rows.len() - 1,
            rows.last(),
        )
    }
}

/// A buffer with every pixel off.
pub open spec fn blank_pixels() -> Seq<u8> {
    Seq::new(2048, |i: int| 0u8)
}

/// What executing `ins`, taken to sit at the program counter, makes of `m`.
/// An error leaves the machine as it was.
pub open spec fn execute_spec(m: Machine, ins: Instruction) -> Result<Machine, Chip8Error> {
    if !fetchable(m) || !ins.registers_in_range() {
        Err(Chip8Error::BoundsViolation)
    } else {
        match ins {
            Instruction::Cls => Ok(Machine { pixels: blank_pixels(), ..m.advanced(2) }),
            Instruction::Ret => if m.sp == 0 {
                Err(Chip8Error::StackUnderflow)
            } else if m.sp > 16 || m.stack[m.sp - 1] > 0xFFFD {
                Err(Chip8Error::BoundsViolation)
            } else {
                Ok(Machine { pc: (m.stack[m.sp - 1] + 2) as u16, sp: (m.sp - 1) as u8, ..m })
            },
            Instruction::Jp { addr } => Ok(Machine { pc: addr, ..m }),
            Instruction::Call { addr } => if m.sp >= 16 {
                Err(Chip8Error::StackOverflow)
            } else {
                Ok(
                    Machine {
                        stack: m.stack.update(m.sp as int, m.pc),
                        sp: (m.sp + 1) as u8,
                        pc: addr,
                        ..m
                    },
                )
            },
            Instruction::Se { x, kk } => Ok(
                m.advanced(
                    if m.v[x as int] == kk {
                        4
                    } else {
                        2
                    },
                ),
            ),
            Instruction::Sne { x, kk } => Ok(
                m.advanced(
                    if m.v[x as int] != kk {
                        4
                    } else {
                        2
                    },
                ),
            ),
            Instruction::Ld { x, kk } => Ok(Machine { v: m.v.update(x as int, kk), ..m.advanced(2) }),
            Instruction::Add { x, kk } => Ok(
                Machine {
                    v: m.v.update(x as int, ((m.v[x as int] + kk) % 256) as u8),
                    ..m.advanced(2)
                },
            ),
            Instruction::LdReg { x, y } => Ok(
                Machine { v: m.v.update(x as int, m.v[y as int]), ..m.advanced(2) },
            ),
            Instruction::LdI { addr } => Ok(Machine { i: addr, ..m.advanced(2) }),
            Instruction::Drw { x, y, n } => if m.i + n > 4096 {
                Err(Chip8Error::BoundsViolation)
            } else {
                let rows = m.memory.subrange(m.i as int, m.i + n);
                let left = m.v[x as int] as int;
                let top = m.v[y as int] as int;
                let flag: u8 = if sprite_collides(m.pixels, left, top, rows) {
                    1
                } else {
                    0
                };
                Ok(
                    Machine {
                        pixels: sprite_drawn(m.pixels, left, top, rows),
                        v: m.v.update(15, flag),
                        ..m.advanced(2)
                    },
                )
            },
            Instruction::Sknp { x } => if m.v[x as int] >= 16 {
                Err(Chip8Error::BoundsViolation)
            } else {
                Ok(
                    m.advanced(
                        if !m.keys[m.v[x as int] as int] {
                            4
                        } else {
                            2
                        },
                    ),
                )
            },
            Instruction::LdDt { x } => Ok(Machine { delay_timer: m.v[x as int], ..m.advanced(2) }),
            Instruction::AddI { x } => Ok(
                Machine { i: ((m.i + m.v[x as int]) % 65536) as u16, ..m.advanced(2) },
            ),
            Instruction::LdKey { x } => match first_pressed(m.keys) {
                Some(key) => Ok(Machine { v: m.v.update(x as int, key), ..m.advanced(2) }),
                None => Ok(m),
            },
        }
    }
}

/// One instruction cycle: fetch the word at the program counter, decode it,
/// execute it.
pub open spec fn step_spec(m: Machine) -> Result<Machine, Chip8Error> {
    match fetch_spec(m) {
        Err(e) => Err(e),
        Ok(word) => match decode_spec(word) {
            None => Err(Chip8Error::UnknownOpcode(word)),
            Some(ins) => execute_spec(m, ins),
        },
    }
}

/// The delay timer after one tick of the 60 Hz clock.
pub open spec fn ticked(timer: u8) -> u8 {
    if timer > 0 {
        (timer - 1) as u8
    } else {
        0
    }
}

/// Memory after `program` was copied to the program origin.
pub open spec fn loaded(memory: Seq<u8>, program: Seq<u8>) -> Seq<u8> {
    Seq::new(
        memory.len(),
        |a: int|
            if 0x200 <= a < 0x200 + program.len() {
                program[a - 0x200]
            } else {
                memory[a]
            },
    )
}

} // verus!
