//! Instruction words and their decoding.
//!
//! An instruction is a 16-bit word of four hexadecimal digits. From the most
//! significant digit down they are the class, `x`, `y` and `d`; the low three
//! digits together are the address `nnn`, the low two the immediate `kk`.
use vstd::prelude::*;

verus! {

/// A 16-bit instruction word.
pub type OPCODETYPE = u16;

/// The instructions that the machine gives a meaning to.
#[derive(Clone, Copy, Debug, PartialEq, Eq, Structural)]
pub enum Instruction {
    /// `0000`: stop the machine.
    Halt,
    /// `00E0`: accepted and ignored.
    ClearScreen,
    /// `00EE`: return to the address on top of the call stack.
    Return,
    /// `1nnn`: continue at `addr`.
    Jump { addr: u16 },
    /// `2nnn`: save the program counter on the call stack and continue at `addr`.
    Call { addr: u16 },
    /// `3xkk`: skip the next instruction if register `x` equals `kk`.
    SkipEqImm { x: u8, kk: u8 },
    /// `4xkk`: skip the next instruction if register `x` differs from `kk`.
    SkipNeImm { x: u8, kk: u8 },
    /// `5xy0`: skip the next instruction if registers `x` and `y` are equal.
    SkipEqReg { x: u8, y: u8 },
    /// `6xkk`: store `kk` in register `x`.
    LoadImm { x: u8, kk: u8 },
    /// `7xkk`: add `kk` to register `x`, wrapping, without touching the flag.
    AddImm { x: u8, kk: u8 },
    /// `8xy0`: copy register `y` to register `x`.
    LoadReg { x: u8, y: u8 },
    /// `8xy1`: bitwise OR of registers `x` and `y` into `x`.
    OrReg { x: u8, y: u8 },
    /// `8xy2`: bitwise AND of registers `x` and `y` into `x`.
    AndReg { x: u8, y: u8 },
    /// `8xy3`: bitwise XOR of registers `x` and `y` into `x`.
    XorReg { x: u8, y: u8 },
    /// `8xy4`: add register `y` to register `x`, wrapping; the flag register
    /// becomes 1 on carry and 0 otherwise.
    AddReg { x: u8, y: u8 },
    /// `8xy5`: subtract register `y` from register `x`, wrapping; the flag
    /// register becomes 0 on borrow and 1 otherwise.
    SubReg { x: u8, y: u8 },
    /// `9xy0`: skip the next instruction if registers `x` and `y` differ.
    SkipNeReg { x: u8, y: u8 },
}

impl Instruction {
    /// Every register operand names one of the sixteen registers and every
    /// address fits in twelve bits.
    pub open spec fn wf(self) -> bool {
        match self {
            Instruction::Halt | Instruction::ClearScreen | Instruction::Return => true,
            Instruction::Jump { addr } | Instruction::Call { addr } => addr < 0x1000,
            Instruction::SkipEqImm { x, .. }
            | Instruction::SkipNeImm { x, .. }
            | Instruction::LoadImm { x, .. }
            | Instruction::AddImm { x, .. } => x < 16,
            Instruction::SkipEqReg { x, y }
            | Instruction::SkipNeReg { x, y }
            | Instruction::LoadReg { x, y }
            | Instruction::OrReg { x, y }
            | Instruction::AndReg { x, y }
            | Instruction::XorReg { x, y }
            | Instruction::AddReg { x, y }
            | Instruction::SubReg { x, y } => x < 16 && y < 16,
        }
    }

    /// Whether the instruction may move the program counter past the next
    /// instruction.
    pub open spec fn is_skip(self) -> bool {
        self is SkipEqImm || self is SkipNeImm || self is SkipEqReg || self is SkipNeReg
    }
}

/// The class of an instruction word: its most significant hexadecimal digit.
pub open spec fn class_of(opcode: u16) -> u8 {
    (opcode / 0x1000) as u8
}

/// The `x` field: the second hexadecimal digit.
pub open spec fn x_of(opcode: u16) -> u8 {
    ((opcode / 0x100) % 0x10) as u8
}

/// The `y` field: the third hexadecimal digit.
pub open spec fn y_of(opcode: u16) -> u8 {
    ((opcode / 0x10) % 0x10) as u8
}

/// The `d` field: the least significant hexadecimal digit.
pub open spec fn d_of(opcode: u16) -> u8 {
    (opcode % 0x10) as u8
}

/// The `nnn` field: the low twelve bits.
pub open spec fn nnn_of(opcode: u16) -> u16 {
    opcode % 0x1000
}

/// The `kk` field: the low eight bits.
pub open spec fn kk_of(opcode: u16) -> u8 {
    (opcode % 0x100) as u8
}

/// The instruction word made of the four hexadecimal digits `class`, `x`,
/// `y` and `d`.
pub open spec fn word_xyd(class: u8, x: u8, y: u8, d: u8) -> u16
    recommends
        class < 16,
        x < 16,
        y < 16,
        d < 16,
{
    (class * 0x1000 + x * 0x100 + y * 0x10 + d) as u16
}

/// The instruction word made of the digits `class` and `x` and the
/// immediate `kk`.
pub open spec fn word_xkk(class: u8, x: u8, kk: u8) -> u16
    recommends
        class < 16,
        x < 16,
{
    (class * 0x1000 + x * 0x100 + kk) as u16
}

/// The instruction word made of the digit `class` and the address `nnn`.
pub open spec fn word_nnn(class: u8, nnn: u16) -> u16
    recommends
        class < 16,
        nnn < 0x1000,
{
    (class * 0x1000 + nnn) as u16
}

/// The instruction that a word stands for, if any.
pub open spec fn decode_spec(opcode: u16) -> Option<Instruction> {
    let class = class_of(opcode);
    let x = x_of(opcode);
    let y = y_of(opcode);
    let d = d_of(opcode);
    let addr = nnn_of(opcode);
    let kk = kk_of(opcode);
    if opcode == 0x0000 {
        Some(Instruction::Halt)
    } else if opcode == 0x00E0 {
        Some(Instruction::ClearScreen)
    } else if opcode == 0x00EE {
        Some(Instruction::Return)
    } else if class == 0x1 {
        Some(Instruction::Jump { addr })
    } else if class == 0x2 {
        Some(Instruction::Call { addr })
    } else if class == 0x3 {
        Some(Instruction::SkipEqImm { x, kk })
    } else if class == 0x4 {
        Some(Instruction::SkipNeImm { x, kk })
    } else if class == 0x5 && d == 0x0 {
        Some(Instruction::SkipEqReg { x, y })
    } else if class == 0x6 {
        Some(Instruction::LoadImm { x, kk })
    } else if class == 0x7 {
        Some(Instruction::AddImm { x, kk })
    } else if class == 0x8 && d == 0x0 {
        Some(Instruction::LoadReg { x, y })
    } else if class == 0x8 && d == 0x1 {
        Some(Instruction::OrReg { x, y })
    } else if class == 0x8 && d == 0x2 {
        Some(Instruction::AndReg { x, y })
    } else if class == 0x8 && d == 0x3 {
        Some(Instruction::XorReg { x, y })
    } else if class == 0x8 && d == 0x4 {
        Some(Instruction::AddReg { x, y })
    } else if class == 0x8 && d == 0x5 {
        Some(Instruction::SubReg { x, y })
    } else if class == 0x9 && d == 0x0 {
        Some(Instruction::SkipNeReg { x, y })
    } else {
        None
    }
}

/// Masking and shifting an instruction word yields its hexadecimal digits
/// and its low twelve and eight bits.
proof fn lemma_fields_by_mask(opcode: u16)
    ensures
        (opcode & 0xF000) >> 12 == opcode / 0x1000,
        (opcode & 0x0F00) >> 8 == (opcode / 0x100) % 0x10,
        (opcode & 0x00F0) >> 4 == (opcode / 0x10) % 0x10,
        (opcode & 0x000F) >> 0 == opcode % 0x10,
        opcode & 0x0FFF == opcode % 0x1000,
        opcode & 0x00FF == opcode % 0x100,
        opcode / 0x1000 < 16,
{
    assert((opcode & 0xF000) >> 12 == opcode / 0x1000) by (bit_vector);
    assert((opcode & 0x0F00) >> 8 == (opcode / 0x100) % 0x10) by (bit_vector);
    assert((opcode & 0x00F0) >> 4 == (opcode / 0x10) % 0x10) by (bit_vector);
    assert((opcode & 0x000F) >> 0 == opcode % 0x10) by (bit_vector);
    assert(opcode & 0x0FFF == opcode % 0x1000) by (bit_vector);
    assert(opcode & 0x00FF == opcode % 0x100) by (bit_vector);
}

/// Decodes an instruction word.
///
/// Returns `None` for a word that stands for no instruction.
pub fn decode(opcode: OPCODETYPE) -> (instruction: Option<Instruction>)
    ensures
        instruction == decode_spec(opcode),
        instruction matches Some(i) ==> i.wf(),
{
    proof {
        lemma_fields_by_mask(opcode);
    }
    let c = ((opcode & 0xF000) >> 12) as u8;
    let x = ((opcode & 0x0F00) >> 8) as u8;
    let y = ((opcode & 0x00F0) >> 4) as u8;
    let d = ((opcode & 0x000F) >> 0) as u8;

    let nnn = opcode & 0x0FFF;
    let kk = (opcode & 0x00FF) as u8;

    match (c, x, y, d) {
        (0x0, 0x0, 0x0, 0x0) => Some(Instruction::Halt),
        (0x0, 0x0, 0xE, 0x0) => Some(Instruction::ClearScreen),
        (0x0, 0x0, 0xE, 0xE) => Some(Instruction::Return),
        (0x1, _, _, _) => Some(Instruction::Jump { addr: nnn }),
        (0x2, _, _, _) => Some(Instruction::Call { addr: nnn }),
        (0x3, _, _, _) => Some(Instruction::SkipEqImm { x, kk }),
        (0x4, _, _, _) => Some(Instruction::SkipNeImm { x, kk }),
        (0x5, _, _, 0x0) => Some(Instruction::SkipEqReg { x, y }),
        (0x6, _, _, _) => Some(Instruction::LoadImm { x, kk }),
        (0x7, _, _, _) => Some(Instruction::AddImm { x, kk }),
        (0x8, _, _, 0x0) => Some(Instruction::LoadReg { x, y }),
        (0x8, _, _, 0x1) => Some(Instruction::OrReg { x, y }),
        (0x8, _, _, 0x2) => Some(Instruction::AndReg { x, y }),
        (0x8, _, _, 0x3) => Some(Instruction::XorReg { x, y }),
        (0x8, _, _, 0x4) => Some(Instruction::AddReg { x, y }),
        (0x8, _, _, 0x5) => Some(Instruction::SubReg { x, y }),
        (0x9, _, _, 0x0) => Some(Instruction::SkipNeReg { x, y }),
        _ => None,
    }
}

} // verus!
