//! The instruction set: the closed list of instructions and how a 16-bit word names one.

use vstd::prelude::*;

verus! {

/// One instruction. `x` and `y` are register indices, `n` is a sprite height, `nn` an
/// immediate byte and `addr` a 12-bit address, all taken from the instruction word.
#[derive(Clone, Copy, Debug, PartialEq, Eq, Structural)]
pub enum Instruction {
    /// `0000`: do nothing.
    Nop,
    /// `00E0`: turn every pixel off.
    ClearScreen,
    /// `00EE`: return to the address on top of the stack.
    Return,
    /// `1NNN`: continue at `addr`.
    Jump { addr: u16 },
    /// `2NNN`: push the address of the next instruction and continue at `addr`.
    Call { addr: u16 },
    /// `3XNN`: skip the next instruction if `VX == nn`.
    SkipEqImm { x: u8, nn: u8 },
    /// `4XNN`: skip the next instruction if `VX != nn`.
    SkipNeImm { x: u8, nn: u8 },
    /// `5XY0`: skip the next instruction if `VX == VY`.
    SkipEqReg { x: u8, y: u8 },
    /// `6XNN`: `VX = nn`.
    LoadImm { x: u8, nn: u8 },
    /// `7XNN`: `VX = VX + nn` modulo 256; no flag is touched.
    AddImm { x: u8, nn: u8 },
    /// `8XY0`: `VX = VY`.
    Move { x: u8, y: u8 },
    /// `8XY1`: `VX = VX | VY`.
    Or { x: u8, y: u8 },
    /// `8XY2`: `VX = VX & VY`.
    And { x: u8, y: u8 },
    /// `8XY3`: `VX = VX ^ VY`.
    Xor { x: u8, y: u8 },
    /// `8XY4`: `VX = VX + VY` modulo 256; `VF` is 1 if the sum passed 255, else 0.
    Add { x: u8, y: u8 },
    /// `8XY5`: `VX = VX - VY` modulo 256; `VF` is 0 if a borrow occurred, else 1.
    Sub { x: u8, y: u8 },
    /// `8XY6`: `VX = VX >> 1`; `VF` is the bit shifted out.
    ShiftRight { x: u8 },
    /// `8XY7`: `VX = VY - VX` modulo 256; `VF` is 0 if a borrow occurred, else 1.
    SubFrom { x: u8, y: u8 },
    /// `8XYE`: `VX = VX << 1` modulo 256; `VF` is the bit shifted out.
    ShiftLeft { x: u8 },
    /// `9XY0`: skip the next instruction if `VX != VY`.
    SkipNeReg { x: u8, y: u8 },
    /// `ANNN`: `I = addr`.
    LoadIndex { addr: u16 },
    /// `BNNN`: continue at `V0 + addr`.
    JumpOffset { addr: u16 },
    /// `CXNN`: `VX = r & nn` for a random byte `r`.
    Random { x: u8, nn: u8 },
    /// `DXYN`: draw the `n`-row sprite at `I` at position `(VX, VY)`; `VF` reports a collision.
    Draw { x: u8, y: u8, n: u8 },
    /// `EX9E`: skip the next instruction if key `VX` is held down.
    SkipKey { x: u8 },
    /// `EXA1`: skip the next instruction if key `VX` is not held down.
    SkipNoKey { x: u8 },
    /// `FX07`: `VX = delay timer`.
    GetDelay { x: u8 },
    /// `FX0A`: wait until a key is held down, then store the lowest such key in `VX`.
    WaitKey { x: u8 },
    /// `FX15`: `delay timer = VX`.
    SetDelay { x: u8 },
    /// `FX18`: `sound timer = VX`.
    SetSound { x: u8 },
    /// `FX1E`: `I = I + VX` modulo 65536.
    AddIndex { x: u8 },
    /// `FX29`: `I = 5 * VX`, the address of the glyph for digit `VX`.
    FontAddr { x: u8 },
    /// `FX33`: store the hundreds, tens and ones digits of `VX` at `I`, `I + 1`, `I + 2`.
    Bcd { x: u8 },
    /// `FX55`: store `V0 ..= VX` in memory from `I` on.
    Store { x: u8 },
    /// `FX65`: fill `V0 ..= VX` from memory from `I` on.
    Load { x: u8 },
}

impl Instruction {
    /// The operands fit the fields of an instruction word: register indices and the sprite
    /// height are below 16, addresses below 4096.
    pub open spec fn wf(self) -> bool {
        match self {
            Instruction::Nop | Instruction::ClearScreen | Instruction::Return => true,
            Instruction::Jump { addr }
            | Instruction::Call { addr }
            | Instruction::LoadIndex { addr }
            | Instruction::JumpOffset { addr } => addr < 0x1000,
            Instruction::SkipEqImm { x, nn }
            | Instruction::SkipNeImm { x, nn }
            | Instruction::LoadImm { x, nn }
            | Instruction::AddImm { x, nn }
            | Instruction::Random { x, nn } => x < 16,
            Instruction::SkipEqReg { x, y }
            | Instruction::Move { x, y }
            | Instruction::Or { x, y }
            | Instruction::And { x, y }
            | Instruction::Xor { x, y }
            | Instruction::Add { x, y }
            | Instruction::Sub { x, y }
            | Instruction::SubFrom { x, y }
            | Instruction::SkipNeReg { x, y } => x < 16 && y < 16,
            Instruction::Draw { x, y, n } => x < 16 && y < 16 && n < 16,
            Instruction::ShiftRight { x }
            | Instruction::ShiftLeft { x }
            | Instruction::SkipKey { x }
            | Instruction::SkipNoKey { x }
            | Instruction::GetDelay { x }
            | Instruction::WaitKey { x }
            | Instruction::SetDelay { x }
            | Instruction::SetSound { x }
            | Instruction::AddIndex { x }
            | Instruction::FontAddr { x }
            | Instruction::Bcd { x }
            | Instruction::Store { x }
            | Instruction::Load { x } => x < 16,
        }
    }
}

/// The instruction that the word `op` names, if any. The word is read as four hexadecimal
/// digits: the first selects the family, the others are operands or select within the family.
pub open spec fn spec_decode(op: u16) -> Option<Instruction> {
    let family = op / 0x1000;
    let x = ((op / 0x100) % 0x10) as u8;
    let y = ((op / 0x10) % 0x10) as u8;
    let n = (op % 0x10) as u8;
    let nn = (op % 0x100) as u8;
    let addr = (op % 0x1000) as u16;
    if family == 0x0 {
        if op == 0x0000 {
            Some(Instruction::Nop)
        } else if op == 0x00E0 {
            Some(Instruction::ClearScreen)
        } else if op == 0x00EE {
            Some(Instruction::Return)
        } else {
            None
        }
    } else if family == 0x1 {
        Some(Instruction::Jump { addr })
    } else if family == 0x2 {
        Some(Instruction::Call { addr })
    } else if family == 0x3 {
        Some(Instruction::SkipEqImm { x, nn })
    } else if family == 0x4 {
        Some(Instruction::SkipNeImm { x, nn })
    } else if family == 0x5 {
        if n == 0 {
            Some(Instruction::SkipEqReg { x, y })
        } else {
            None
        }
    } else if family == 0x6 {
        Some(Instruction::LoadImm { x, nn })
    } else if family == 0x7 {
        Some(Instruction::AddImm { x, nn })
    } else if family == 0x8 {
        if n == 0x0 {
            Some(Instruction::Move { x, y })
        } else if n == 0x1 {
            Some(Instruction::Or { x, y })
        } else if n == 0x2 {
            Some(Instruction::And { x, y })
        } else if n == 0x3 {
            Some(Instruction::Xor { x, y })
        } else if n == 0x4 {
            Some(Instruction::Add { x, y })
        } else if n == 0x5 {
            Some(Instruction::Sub { x, y })
        } else if n == 0x6 {
            Some(Instruction::ShiftRight { x })
        } else if n == 0x7 {
            Some(Instruction::SubFrom { x, y })
        } else if n == 0xE {
            Some(Instruction::ShiftLeft { x })
        } else {
            None
        }
    } else if family == 0x9 {
        if n == 0 {
            Some(Instruction::SkipNeReg { x, y })
        } else {
            None
        }
    } else if family == 0xA {
        Some(Instruction::LoadIndex { addr })
    } else if family == 0xB {
        Some(Instruction::JumpOffset { addr })
    } else if family == 0xC {
        Some(Instruction::Random { x, nn })
    } else if family == 0xD {
        Some(Instruction::Draw { x, y, n })
    } else if family == 0xE {
        if nn == 0x9E {
            Some(Instruction::SkipKey { x })
        } else if nn == 0xA1 {
            Some(Instruction::SkipNoKey { x })
        } else {
            None
        }
    } else {
        if nn == 0x07 {
            Some(Instruction::GetDelay { x })
        } else if nn == 0x0A {
            Some(Instruction::WaitKey { x })
        } else if nn == 0x15 {
            Some(Instruction::SetDelay { x })
        } else if nn == 0x18 {
            Some(Instruction::SetSound { x })
        } else if nn == 0x1E {
            Some(Instruction::AddIndex { x })
        } else if nn == 0x29 {
            Some(Instruction::FontAddr { x })
        } else if nn == 0x33 {
            Some(Instruction::Bcd { x })
        } else if nn == 0x55 {
            Some(Instruction::Store { x })
        } else if nn == 0x65 {
            Some(Instruction::Load { x })
        } else {
            None
        }
    }
}

/// Whatever `spec_decode` yields has operands that fit their fields.
pub proof fn lemma_decode_wf(op: u16)
    ensures
        spec_decode(op) matches Some(instr) ==> instr.wf(),
{
}

/// Decodes the instruction word `op`. `None` means that the word names no instruction.
pub fn decode(op: u16) -> (r: Option<Instruction>)
    ensures
        r == spec_decode(op),
        r matches Some(instr) ==> instr.wf(),
{
    let d1: u16 = (op & 0xF000) >> 12;
    let d2: u16 = (op & 0x0F00) >> 8;
    let d3: u16 = (op & 0x00F0) >> 4;
    let d4: u16 = op & 0x000F;
    let low: u16 = op & 0x00FF;
    let addr: u16 = op & 0x0FFF;
    assert(d1 == op / 0x1000 && d1 < 16) by (bit_vector)
        requires
            d1 == (op & 0xF000) >> 12,
    ;
    assert(d2 == (op / 0x100) % 0x10) by (bit_vector)
        requires
            d2 == (op & 0x0F00) >> 8,
    ;
    assert(d3 == (op / 0x10) % 0x10) by (bit_vector)
        requires
            d3 == (op & 0x00F0) >> 4,
    ;
    assert(d4 == op % 0x10) by (bit_vector)
        requires
            d4 == op & 0x000F,
    ;
    assert(low == op % 0x100) by (bit_vector)
        requires
            low == op & 0x00FF,
    ;
    assert(addr == op % 0x1000) by (bit_vector)
        requires
            addr == op & 0x0FFF,
    ;
    assert(low == 16 * d3 + d4);
    let x: u8 = d2 as u8;
    let y: u8 = d3 as u8;
    let n: u8 = d4 as u8;
    let nn: u8 = low as u8;
    match (d1, d2, d3, d4) {
        (0, 0, 0, 0) => Some(Instruction::Nop),
        (0, 0, 0xE, 0) => Some(Instruction::ClearScreen),
        (0, 0, 0xE, 0xE) => Some(Instruction::Return),
        (1, _, _, _) => Some(Instruction::Jump { addr }),
        (2, _, _, _) => Some(Instruction::Call { addr }),
        (3, _, _, _) => Some(Instruction::SkipEqImm { x, nn }),
        (4, _, _, _) => Some(Instruction::SkipNeImm { x, nn }),
        (5, _, _, 0) => Some(Instruction::SkipEqReg { x, y }),
        (6, _, _, _) => Some(Instruction::LoadImm { x, nn }),
        (7, _, _, _) => Some(Instruction::AddImm { x, nn }),
        (8, _, _, 0) => Some(Instruction::Move { x, y }),
        (8, _, _, 1) => Some(Instruction::Or { x, y }),
        (8, _, _, 2) => Some(Instruction::And { x, y }),
        (8, _, _, 3) => Some(Instruction::Xor { x, y }),
        (8, _, _, 4) => Some(Instruction::Add { x, y }),
        (8, _, _, 5) => Some(Instruction::Sub { x, y }),
        (8, _, _, 6) => Some(Instruction::ShiftRight { x }),
        (8, _, _, 7) => Some(Instruction::SubFrom { x, y }),
        (8, _, _, 0xE) => Some(Instruction::ShiftLeft { x }),
        (9, _, _, 0) => Some(Instruction::SkipNeReg { x, y }),
        (0xA, _, _, _) => Some(Instruction::LoadIndex { addr }),
        (0xB, _, _, _) => Some(Instruction::JumpOffset { addr }),
        (0xC, _, _, _) => Some(Instruction::Random { x, nn }),
        (0xD, _, _, _) => Some(Instruction::Draw { x, y, n }),
        (0xE, _, 9, 0xE) => Some(Instruction::SkipKey { x }),
        (0xE, _, 0xA, 1) => Some(Instruction::SkipNoKey { x }),
        (0xF, _, 0, 7) => Some(Instruction::GetDelay { x }),
        (0xF, _, 0, 0xA) => Some(Instruction::WaitKey { x }),
        (0xF, _, 1, 5) => Some(Instruction::SetDelay { x }),
        (0xF, _, 1, 8) => Some(Instruction::SetSound { x }),
        (0xF, _, 1, 0xE) => Some(Instruction::AddIndex { x }),
        (0xF, _, 2, 9) => Some(Instruction::FontAddr { x }),
        (0xF, _, 3, 3) => Some(Instruction::Bcd { x }),
        (0xF, _, 5, 5) => Some(Instruction::Store { x }),
        (0xF, _, 6, 5) => Some(Instruction::Load { x }),
        (_, _, _, _) => None,
    }
}

} // verus!
