//! The executable machine: state, and the fetch/decode/execute cycle.

use vstd::prelude::*;
use crate::display::{blank, Display};
use crate::error::Chip8Error;
use crate::instruction::{decode, Instruction};
use crate::keypad::{none_pressed_from, Keypad};
use crate::machine::{
    blank_pixels, execute_spec, fetch_spec, loaded, sprite_collides, sprite_drawn, step_spec,
    ticked, Machine, MEMORY_SIZE, PROGRAM_ORIGIN,
};

verus! {

pub struct Cpu {
    /// Program counter.
    pub pc: u16,
    /// General-purpose registers `V0` to `VF`.
    pub v: [u8; 16],
    /// Index register.
    pub i: u16,
    /// Return addresses.
    pub stack: [u16; 16],
    /// Index of the next free stack slot.
    pub sp: u8,
    pub memory: [u8; 4096],
    pub delay_timer: u8,
    pub display: Display,
    pub keypad: Keypad,
}

impl View for Cpu {
    type V = Machine;

    open spec fn view(&self) -> Machine {
        Machine {
            pc: self.pc,
            v: self.v@,
            i: self.i,
            stack: self.stack@,
            sp: self.sp,
            memory: self.memory@,
            delay_timer: self.delay_timer,
            pixels: self.display@,
            keys: self.keypad@,
        }
    }
}

/// Every element of `s` is `value`.
pub open spec fn all_equal<T>(s: Seq<T>, value: T) -> bool {
    forall|k: int| 0 <= k < s.len() ==> s[k] == value
}

impl Cpu {
    /// A machine with every store zeroed, the display dark and all keys up.
    pub fn new() -> (cpu: Self)
        ensures
            cpu@.shaped(),
            cpu@.pc == 0,
            cpu@.i == 0,
            cpu@.sp == 0,
            cpu@.delay_timer == 0,
            all_equal(cpu@.v, 0u8),
            all_equal(cpu@.stack, 0u16),
            all_equal(cpu@.memory, 0u8),
            blank(cpu@.pixels),
            none_pressed_from(cpu@.keys, 0),
    {
        Cpu {
            memory: [0; 4096],
            pc: 0,
            v: [0; 16],
            i: 0,
            stack: [0; 16],
            sp: 0,
            delay_timer: 0,
            display: Display::new(),
            keypad: Keypad::new(),
        }
    }

    /// Prepares the machine to run the program in memory: zeroes the
    /// registers, the index register, the stack and the delay timer, darkens
    /// the display, releases the keys and points the program counter at the
    /// program origin. Memory is kept.
    pub fn reset(&mut self)
        ensures
            final(self)@.shaped(),
            final(self)@.pc == PROGRAM_ORIGIN,
            final(self)@.i == 0,
            final(self)@.sp == 0,
            final(self)@.delay_timer == 0,
            all_equal(final(self)@.v, 0u8),
            all_equal(final(self)@.stack, 0u16),
            final(self)@.memory == old(self)@.memory,
            blank(final(self)@.pixels),
            none_pressed_from(final(self)@.keys, 0),
    {
        self.pc = PROGRAM_ORIGIN;
        self.v = [0; 16];
        self.i = 0;
        self.stack = [0; 16];
        self.sp = 0;
        self.delay_timer = 0;
        self.display.clear();
        self.keypad.reset();
    }

    /// Copies a program image into memory at the program origin. An image
    /// that does not fit is rejected and memory is left as it was.
    pub fn load(&mut self, program: &[u8]) -> (loading: Result<(), Chip8Error>)
        ensures
            program@.len() <= 4096 - 0x200 ==> loading is Ok && final(self)@ == (Machine {
                memory: loaded(old(self)@.memory, program@),
                ..old(self)@
            }),
            program@.len() > 4096 - 0x200 ==> loading == Err::<(), Chip8Error>(
                Chip8Error::ProgramTooLarge,
            ) && final(self)@ == old(self)@,
    {
        let len: usize = program.len();
        if len > MEMORY_SIZE - 0x200 {
            return Err(Chip8Error::ProgramTooLarge);
        }
        let mut k: usize = 0;
        while k < len
            invariant
                k <= len,
                len == program@.len(),
                len <= 4096 - 0x200,
                self@ == (Machine { memory: self@.memory, ..old(self)@ }),
                self@.memory == loaded(old(self)@.memory, program@.take(k as int)),
            decreases len - k,
        {
            self.memory[0x200 + k] = program[k];
            k += 1;
            assert(self@.memory =~= loaded(old(self)@.memory, program@.take(k as int)));
        }
        assert(program@.take(len as int) =~= program@);
        Ok(())
    }

    /// Reads the byte of memory at `addr`.
    pub fn read_memory(&self, addr: u16) -> (read: Result<u8, Chip8Error>)
        ensures
            addr < 4096 ==> read == Ok::<u8, Chip8Error>(self@.memory[addr as int]),
            addr >= 4096 ==> read == Err::<u8, Chip8Error>(Chip8Error::BoundsViolation),
    {
        if (addr as usize) < MEMORY_SIZE {
            Ok(self.memory[addr as usize])
        } else {
            Err(Chip8Error::BoundsViolation)
        }
    }

    /// Stores `value` in the byte of memory at `addr`. An address outside
    /// memory is reported and nothing is stored.
    pub fn write_memory(&mut self, addr: u16, value: u8) -> (written: Result<(), Chip8Error>)
        ensures
            addr < 4096 ==> written is Ok && final(self)@ == (Machine {
                memory: old(self)@.memory.update(addr as int, value),
                ..old(self)@
            }),
            addr >= 4096 ==> written == Err::<(), Chip8Error>(Chip8Error::BoundsViolation)
                && final(self)@ == old(self)@,
    {
        if (addr as usize) < MEMORY_SIZE {
            self.memory[addr as usize] = value;
            Ok(())
        } else {
            Err(Chip8Error::BoundsViolation)
        }
    }

    /// Reads register `V<index>`.
    pub fn read_register(&self, index: u8) -> (read: Result<u8, Chip8Error>)
        ensures
            index < 16 ==> read == Ok::<u8, Chip8Error>(self@.v[index as int]),
            index >= 16 ==> read == Err::<u8, Chip8Error>(Chip8Error::BoundsViolation),
    {
        if index < 16 {
            Ok(self.v[index as usize])
        } else {
            Err(Chip8Error::BoundsViolation)
        }
    }

    /// Stores `value` in register `V<index>`. An index beyond `VF` is
    /// reported and nothing is stored.
    pub fn write_register(&mut self, index: u8, value: u8) -> (written: Result<(), Chip8Error>)
        ensures
            index < 16 ==> written is Ok && final(self)@ == (Machine {
                v: old(self)@.v.update(index as int, value),
                ..old(self)@
            }),
            index >= 16 ==> written == Err::<(), Chip8Error>(Chip8Error::BoundsViolation)
                && final(self)@ == old(self)@,
    {
        if index < 16 {
            self.v[index as usize] = value;
            Ok(())
        } else {
            Err(Chip8Error::BoundsViolation)
        }
    }

    /// Counts the delay timer down by one, stopping at zero. The caller
    /// decides the cadence.
    pub fn tick_timer(&mut self)
        ensures
            final(self)@ == (Machine {
                delay_timer: ticked(old(self)@.delay_timer),
                ..old(self)@
            }),
    {
        if self.delay_timer > 0 {
            self.delay_timer -= 1;
        }
    }

    /// Reads the big-endian instruction word at the program counter.
    pub fn fetch(&self) -> (fetched: Result<u16, Chip8Error>)
        ensures
            fetched == fetch_spec(self@),
    {
        let at: usize = self.pc as usize;
        if at + 1 >= MEMORY_SIZE {
            return Err(Chip8Error::BoundsViolation);
        }
        let high: u16 = self.memory[at] as u16;
        let low: u16 = self.memory[at + 1] as u16;
        assert(high << 8 | low == high * 256 + low) by (bit_vector)
            requires
                high < 256,
                low < 256,
        ;
        Ok(high << 8 | low)
    }

    /// Executes `ins` as the instruction at the program counter. On an error
    /// nothing has changed.
    ///
    /// A bounds violation is reported when the program counter does not leave
    /// room for an instruction, when a register operand is beyond `VF`, when a
    /// sprite reaches past the end of memory, when a key number is beyond
    /// 15, and on a return when the stack pointer is beyond 16 or the return
    /// address plus 2 does not fit in sixteen bits. A call with sixteen
    /// addresses on the stack is a stack overflow; a return with none is a
    /// stack underflow.
    pub fn execute(&mut self, ins: Instruction) -> (outcome: Result<(), Chip8Error>)
        ensures
            match execute_spec(old(self)@, ins) {
                Ok(next) => outcome is Ok && final(self)@ == next,
                Err(e) => outcome == Err::<(), Chip8Error>(e) && final(self)@ == old(self)@,
            },
    {
        if self.pc >= 4095 || !ins.has_registers_in_range() {
            return Err(Chip8Error::BoundsViolation);
        }
        match ins {
            Instruction::Cls => {
                self.display.clear();
                self.pc += 2;
                assert(self@.pixels =~= blank_pixels());
            },
            Instruction::Ret => {
                if self.sp == 0 {
                    return Err(Chip8Error::StackUnderflow);
                }
                if self.sp > 16 {
                    return Err(Chip8Error::BoundsViolation);
                }
                let target: u16 = self.stack[(self.sp - 1) as usize];
                if target > 0xFFFD {
                    return Err(Chip8Error::BoundsViolation);
                }
                self.sp -= 1;
                self.pc = target + 2;
            },
            Instruction::Jp { addr } => {
                self.pc = addr;
            },
            Instruction::Call { addr } => {
                if self.sp >= 16 {
                    return Err(Chip8Error::StackOverflow);
                }
                self.stack[self.sp as usize] = self.pc;
                self.sp += 1;
                self.pc = addr;
            },
            Instruction::Se { x, kk } => {
                if self.v[x as usize] == kk {
                    self.pc += 2;
                }
                self.pc += 2;
            },
            Instruction::Sne { x, kk } => {
                if self.v[x as usize] != kk {
                    self.pc += 2;
                }
                self.pc += 2;
            },
            Instruction::Ld { x, kk } => {
                self.v[x as usize] = kk;
                self.pc += 2;
            },
            Instruction::Add { x, kk } => {
                let sum: u8 = self.v[x as usize].wrapping_add(kk);
                self.v[x as usize] = sum;
                self.pc += 2;
            },
            Instruction::LdReg { x, y } => {
                let value: u8 = self.v[y as usize];
                self.v[x as usize] = value;
                self.pc += 2;
            },
            Instruction::LdI { addr } => {
                self.i = addr;
                self.pc += 2;
            },
            Instruction::Drw { x, y, n } => {
                let start: usize = self.i as usize;
                let rows: usize = n as usize;
                if start + rows > MEMORY_SIZE {
                    return Err(Chip8Error::BoundsViolation);
                }
                let left: usize = self.v[x as usize] as usize;
                let top: usize = self.v[y as usize] as usize;
                let mut collision = false;
                let mut r: usize = 0;
                while r < rows
                    invariant
                        r <= rows,
                        rows <= 255,
                        top <= 255,
                        start + rows <= 4096,
                        start == old(self).i,
                        self@ == (Machine { pixels: self@.pixels, ..old(self)@ }),
                        self@.pixels == sprite_drawn(
                            old(self)@.pixels,
                            left as int,
                            top as int,
                            old(self)@.memory.subrange(start as int, start + r),
                        ),
                        collision == sprite_collides(
                            old(self)@.pixels,
                            left as int,
                            top as int,
                            old(self)@.memory.subrange(start as int, start + r),
                        ),
                    decreases rows - r,
                {
                    let row: u8 = self.memory[start + r];
                    proof {
                        let upto = old(self)@.memory.subrange(start as int, start + r + 1);
                        assert(upto.drop_last() =~= old(self)@.memory.subrange(
                            start as int,
                            start + r,
                        ));
                        assert(upto.last() == row);
                    }
                    if self.display.draw_sprite(left, top + r, row) {
                        collision = true;
                    }
                    r += 1;
                }
                self.v[15] = if collision {
                    1
                } else {
                    0
                };
                self.pc += 2;
            },
            Instruction::Sknp { x } => {
                let key: usize = self.v[x as usize] as usize;
                if key >= 16 {
                    return Err(Chip8Error::BoundsViolation);
                }
                if !self.keypad.is_pressed(key) {
                    self.pc += 2;
                }
                self.pc += 2;
            },
            Instruction::LdDt { x } => {
                self.delay_timer = self.v[x as usize];
                self.pc += 2;
            },
            Instruction::AddI { x } => {
                self.i = self.i.wrapping_add(self.v[x as usize] as u16);
                self.pc += 2;
            },
            Instruction::LdKey { x } => {
                match self.keypad.first_pressed() {
                    Some(key) => {
                        self.v[x as usize] = key;
                        self.pc += 2;
                    },
                    None => {},
                }
            },
        }
        Ok(())
    }

    /// Performs exactly one instruction cycle. On an error nothing has
    /// changed; in particular the program counter still points at the
    /// instruction that could not be carried out.
    pub fn step(&mut self) -> (outcome: Result<(), Chip8Error>)
        ensures
            match step_spec(old(self)@) {
                Ok(next) => outcome is Ok && final(self)@ == next,
                Err(e) => outcome == Err::<(), Chip8Error>(e) && final(self)@ == old(self)@,
            },
    {
        let word: u16 = match self.fetch() {
            Ok(word) => word,
            Err(e) => {
                return Err(e);
            },
        };
        match decode(word) {
            Some(ins) => self.execute(ins),
            None => Err(Chip8Error::UnknownOpcode(word)),
        }
    }
}

} // verus!
