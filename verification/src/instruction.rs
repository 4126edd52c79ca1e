//! Instruction words and their decoding.
//!
//! An instruction word is sixteen bits, read as four nibbles. The first
//! nibble selects the operation, alone or together with the last nibble or
//! the last byte; the remaining nibbles are operands.

use vstd::prelude::*;

verus! {

#[derive(Clone, Copy, Debug, PartialEq, Eq, Structural)]
pub enum Instruction {
    /// `00E0`: clear the display.
    Cls,
    /// `00EE`: return from a subroutine.
    Ret,
    /// `1nnn`: jump to `addr`.
    Jp { addr: u16 },
    /// `2nnn`: call the subroutine at `addr`.
    Call { addr: u16 },
    /// `3xkk`: skip the next instruction if `Vx == kk`.
    Se { x: u8, kk: u8 },
    /// `4xkk`: skip the next instruction if `Vx != kk`.
    Sne { x: u8, kk: u8 },
    /// `6xkk`: set `Vx = kk`.
    Ld { x: u8, kk: u8 },
    /// `7xkk`: set `Vx = Vx + kk`, modulo 256.
    Add { x: u8, kk: u8 },
    /// `8xy0`: set `Vx = Vy`.
    LdReg { x: u8, y: u8 },
    /// `Annn`: set the index register to `addr`.
    LdI { addr: u16 },
    /// `Dxyn`: draw the `n`-row sprite at the index register at `(Vx, Vy)`.
    Drw { x: u8, y: u8, n: u8 },
    /// `ExA1`: skip the next instruction if key `Vx` is up.
    Sknp { x: u8 },
    /// `Fx15`: set the delay timer to `Vx`.
    LdDt { x: u8 },
    /// `Fx1E`: add `Vx` to the index register.
    AddI { x: u8 },
    /// `Fx0A`: wait for a key and store its number in `Vx`.
    LdKey { x: u8 },
}

/// The first nibble of a word (bits 15-12).
pub open spec fn high_nibble(word: u16) -> int {
    word as int / 4096
}

/// The register operand `x` (bits 11-8).
pub open spec fn operand_x(word: u16) -> u8 {
    ((word as int / 256) % 16) as u8
}

/// The register operand `y` (bits 7-4).
pub open spec fn operand_y(word: u16) -> u8 {
    ((word as int / 16) % 16) as u8
}

/// The nibble operand `n` (bits 3-0).
pub open spec fn operand_n(word: u16) -> u8 {
    (word as int % 16) as u8
}

/// The immediate byte `kk` (bits 7-0).
pub open spec fn operand_kk(word: u16) -> u8 {
    (word as int % 256) as u8
}

/// The address operand `nnn` (bits 11-0).
pub open spec fn operand_nnn(word: u16) -> u16 {
    (word as int % 4096) as u16
}

/// The instruction that a word encodes, if it encodes one.
pub open spec fn decode_spec(word: u16) -> Option<Instruction> {
    let x = operand_x(word);
    let y = operand_y(word);
    let n = operand_n(word);
    let kk = operand_kk(word);
    let addr = operand_nnn(word);
    let class = high_nibble(word);
    if word == 0x00E0 {
        Some(Instruction::Cls)
    } else if word == 0x00EE {
        Some(Instruction::Ret)
    } else if class == 0x1 {
        Some(Instruction::Jp { addr })
    } else if class == 0x2 {
        Some(Instruction::Call { addr })
    } else if class == 0x3 {
        Some(Instruction::Se { x, kk })
    } else if class == 0x4 {
        Some(Instruction::Sne { x, kk })
    } else if class == 0x6 {
        Some(Instruction::Ld { x, kk })
    } else if class == 0x7 {
        Some(Instruction::Add { x, kk })
    } else if class == 0x8 && n == 0 {
        Some(Instruction::LdReg { x, y })
    } else if class == 0xA {
        Some(Instruction::LdI { addr })
    } else if class == 0xD {
        Some(Instruction::Drw { x, y, n })
    } else if class == 0xE && kk == 0xA1 {
        Some(Instruction::Sknp { x })
    } else if class == 0xF && kk == 0x15 {
        Some(Instruction::LdDt { x })
    } else if class == 0xF && kk == 0x1E {
        Some(Instruction::AddI { x })
    } else if class == 0xF && kk == 0x0A {
        Some(Instruction::LdKey { x })
    } else {
        None
    }
}

impl Instruction {
    /// Every register operand names one of the sixteen registers.
    pub open spec fn registers_in_range(self) -> bool {
        match self {
            Instruction::Se { x, .. } => x < 16,
            Instruction::Sne { x, .. } => x < 16,
            Instruction::Ld { x, .. } => x < 16,
            Instruction::Add { x, .. } => x < 16,
            Instruction::LdReg { x, y } => x < 16 && y < 16,
            Instruction::Drw { x, y, .. } => x < 16 && y < 16,
            Instruction::Sknp { x } => x < 16,
            Instruction::LdDt { x } => x < 16,
            Instruction::AddI { x } => x < 16,
            Instruction::LdKey { x } => x < 16,
            _ => true,
        }
    }

    /// Whether the instruction sets the program counter itself.
    pub open spec fn transfers_control(self) -> bool {
        self is Jp || self is Call || self is Ret
    }

    /// Whether the instruction may skip the one after it.
    pub open spec fn may_skip(self) -> bool {
        self is Se || self is Sne || self is Sknp
    }

    /// Exec form of `registers_in_range`.
    pub fn has_registers_in_range(&self) -> (ok: bool)
        ensures
            ok == self.registers_in_range(),
    {
        match *self {
            Instruction::Se { x, .. } => x < 16,
            Instruction::Sne { x, .. } => x < 16,
            Instruction::Ld { x, .. } => x < 16,
            Instruction::Add { x, .. } => x < 16,
            Instruction::LdReg { x, y } => x < 16 && y < 16,
            Instruction::Drw { x, y, .. } => x < 16 && y < 16,
            Instruction::Sknp { x } => x < 16,
            Instruction::LdDt { x } => x < 16,
            Instruction::AddI { x } => x < 16,
            Instruction::LdKey { x } => x < 16,
            _ => true,
        }
    }
}

/// A decoded instruction never names a register beyond `VF`, and its address
/// operand lies inside memory.
pub proof fn lemma_decoded_operands_in_range(word: u16)
    ensures
        match decode_spec(word) {
            Some(ins) => ins.registers_in_range() && match ins {
                Instruction::Jp { addr } => addr < 4096,
                Instruction::Call { addr } => addr < 4096,
                Instruction::LdI { addr } => addr < 4096,
                Instruction::Drw { n, .. } => n < 16,
                _ => true,
            },
            None => true,
        },
{
}

/// Decodes an instruction word. Decoding consults nothing but the word.
pub fn decode(word: u16) -> (decoded: Option<Instruction>)
    ensures
        decoded == decode_spec(word),
{
    let class: u16 = (word & 0xF000) >> 12;
    let x: u8 = ((word & 0x0F00) >> 8) as u8;
    let y: u8 = ((word & 0x00F0) >> 4) as u8;
    let n: u8 = (word & 0x000F) as u8;
    let kk: u8 = (word & 0x00FF) as u8;
    let addr: u16 = word & 0x0FFF;
    proof {
        assert((word & 0xF000) >> 12 == word / 4096) by (bit_vector);
        assert(((word & 0x0F00) >> 8) == (word / 256) % 16) by (bit_vector);
        assert(((word & 0x00F0) >> 4) == (word / 16) % 16) by (bit_vector);
        assert((word & 0x000F) == word % 16) by (bit_vector);
        assert((word & 0x00FF) == word % 256) by (bit_vector);
        assert((word & 0x0FFF) == word % 4096) by (bit_vector);
    }
    if word == 0x00E0 {
        Some(Instruction::Cls)
    } else if word == 0x00EE {
        Some(Instruction::Ret)
    } else if class == 0x1 {
        Some(Instruction::Jp { addr })
    } else if class == 0x2 {
        Some(Instruction::Call { addr })
    } else if class == 0x3 {
        Some(Instruction::Se { x, kk })
    } else if class == 0x4 {
        Some(Instruction::Sne { x, kk })
    } else if class == 0x6 {
        Some(Instruction::Ld { x, kk })
    } else if class == 0x7 {
        Some(Instruction::Add { x, kk })
    } else if class == 0x8 && n == 0 {
        Some(Instruction::LdReg { x, y })
    } else if class == 0xA {
        Some(Instruction::LdI { addr })
    } else if class == 0xD {
        Some(Instruction::Drw { x, y, n })
    } else if class == 0xE && kk == 0xA1 {
        Some(Instruction::Sknp { x })
    } else if class == 0xF && kk == 0x15 {
        Some(Instruction::LdDt { x })
    } else if class == 0xF && kk == 0x1E {
        Some(Instruction::AddI { x })
    } else if class == 0xF && kk == 0x0A {
        Some(Instruction::LdKey { x })
    } else {
        None
    }
}

} // verus!
