//! The instruction set and how an instruction word is taken apart.

use vstd::prelude::*;

verus! {

/// One decoded instruction. Register operands are register numbers, of
/// which only the low four bits count; addresses are twelve bits wide.
#[derive(Clone, Copy, Debug, PartialEq, Eq)]
pub enum Instruction {
    /// `0nnn`: call into the host machine; has no effect here.
    Sys(u16),
    /// `00E0`: blank the frame.
    ClearScreen,
    /// `00EE`: return from a subroutine.
    Return,
    /// `1nnn`: jump to `nnn`.
    Jump(u16),
    /// `2nnn`: call the subroutine at `nnn`.
    Call(u16),
    /// `3xkk`: skip the next instruction if `Vx == kk`.
    SkipIfEqual(u8, u8),
    /// `4xkk`: skip the next instruction if `Vx != kk`.
    SkipIfNotEqual(u8, u8),
    /// `5xy0`: skip the next instruction if `Vx == Vy`.
    SkipIfSame(u8, u8),
    /// `6xkk`: `Vx = kk`.
    Load(u8, u8),
    /// `7xkk`: `Vx += kk`, without carry.
    Add(u8, u8),
    /// `8xy0`: `Vx = Vy`.
    Move(u8, u8),
    /// `8xy1`: `Vx |= Vy`.
    Or(u8, u8),
    /// `8xy2`: `Vx &= Vy`.
    And(u8, u8),
    /// `8xy3`: `Vx ^= Vy`.
    Xor(u8, u8),
    /// `8xy4`: `Vx += Vy`, `VF` = carry.
    AddRegister(u8, u8),
    /// `8xy5`: `Vx -= Vy`, `VF` = no borrow.
    Subtract(u8, u8),
    /// `8xy6`: `Vx >>= 1`, `VF` = the bit shifted out.
    ShiftRight(u8, u8),
    /// `8xy7`: `Vx = Vy - Vx`, `VF` = no borrow.
    SubtractFrom(u8, u8),
    /// `8xyE`: `Vx <<= 1`, `VF` = the bit shifted out.
    ShiftLeft(u8, u8),
    /// `9xy0`: skip the next instruction if `Vx != Vy`.
    SkipIfDifferent(u8, u8),
    /// `Annn`: `I = nnn`.
    LoadIndex(u16),
    /// `Bnnn`: jump to `nnn + V0`.
    JumpOffset(u16),
    /// `Cxkk`: `Vx` = a random byte masked with `kk`.
    Random(u8, u8),
    /// `Dxyn`: draw the `n`-row sprite at `I` at `(Vx, Vy)`, `VF` = collision.
    Draw(u8, u8, u8),
    /// `Ex9E`: skip the next instruction if key `Vx` is held.
    SkipIfPressed(u8),
    /// `ExA1`: skip the next instruction if key `Vx` is not held.
    SkipIfReleased(u8),
    /// `Fx07`: `Vx` = delay timer.
    ReadDelay(u8),
    /// `Fx0A`: wait until a key is held, then `Vx` = that key.
    WaitKey(u8),
    /// `Fx15`: delay timer = `Vx`.
    SetDelay(u8),
    /// `Fx18`: sound timer = `Vx`.
    SetSound(u8),
    /// `Fx1E`: `I += Vx`.
    AddIndex(u8),
    /// `Fx29`: `I` = the address of the glyph for the digit `Vx`.
    Glyph(u8),
    /// `Fx33`: store the three decimal digits of `Vx` at `I`, `I+1`, `I+2`.
    Decimal(u8),
    /// `Fx55`: store `V0..=Vx` from `I` on.
    Store(u8),
    /// `Fx65`: load `V0..=Vx` from `I` on.
    Restore(u8),
    /// Any other word; has no effect.
    Unknown(u16),
}

/// The instruction that the word `opcode` encodes.
pub open spec fn decode_spec(opcode: u16) -> Instruction {
    let x = ((opcode / 0x100) % 16) as u8;
    let y = ((opcode / 0x10) % 16) as u8;
    let n = (opcode % 16) as u8;
    let kk = (opcode % 0x100) as u8;
    let nnn = (opcode % 0x1000) as u16;
    let top = opcode / 0x1000;
    if top == 0x0 {
        if opcode == 0x00E0 {
            Instruction::ClearScreen
        } else if opcode == 0x00EE {
            Instruction::Return
        } else {
            Instruction::Sys(nnn)
        }
    } else if top == 0x1 {
        Instruction::Jump(nnn)
    } else if top == 0x2 {
        Instruction::Call(nnn)
    } else if top == 0x3 {
        Instruction::SkipIfEqual(x, kk)
    } else if top == 0x4 {
        Instruction::SkipIfNotEqual(x, kk)
    } else if top == 0x5 {
        if n == 0 {
            Instruction::SkipIfSame(x, y)
        } else {
            Instruction::Unknown(opcode)
        }
    } else if top == 0x6 {
        Instruction::Load(x, kk)
    } else if top == 0x7 {
        Instruction::Add(x, kk)
    } else if top == 0x8 {
        if n == 0x0 {
            Instruction::Move(x, y)
        } else if n == 0x1 {
            Instruction::Or(x, y)
        } else if n == 0x2 {
            Instruction::And(x, y)
        } else if n == 0x3 {
            Instruction::Xor(x, y)
        } else if n == 0x4 {
            Instruction::AddRegister(x, y)
        } else if n == 0x5 {
            Instruction::Subtract(x, y)
        } else if n == 0x6 {
            Instruction::ShiftRight(x, y)
        } else if n == 0x7 {
            Instruction::SubtractFrom(x, y)
        } else if n == 0xE {
            Instruction::ShiftLeft(x, y)
        } else {
            Instruction::Unknown(opcode)
        }
    } else if top == 0x9 {
        if n == 0 {
            Instruction::SkipIfDifferent(x, y)
        } else {
            Instruction::Unknown(opcode)
        }
    } else if top == 0xA {
        Instruction::LoadIndex(nnn)
    } else if top == 0xB {
        Instruction::JumpOffset(nnn)
    } else if top == 0xC {
        Instruction::Random(x, kk)
    } else if top == 0xD {
        Instruction::Draw(x, y, n)
    } else if top == 0xE {
        if kk == 0x9E {
            Instruction::SkipIfPressed(x)
        } else if kk == 0xA1 {
            Instruction::SkipIfReleased(x)
        } else {
            Instruction::Unknown(opcode)
        }
    } else {
        if kk == 0x07 {
            Instruction::ReadDelay(x)
        } else if kk == 0x0A {
            Instruction::WaitKey(x)
        } else if kk == 0x15 {
            Instruction::SetDelay(x)
        } else if kk == 0x18 {
            Instruction::SetSound(x)
        } else if kk == 0x1E {
            Instruction::AddIndex(x)
        } else if kk == 0x29 {
            Instruction::Glyph(x)
        } else if kk == 0x33 {
            Instruction::Decimal(x)
        } else if kk == 0x55 {
            Instruction::Store(x)
        } else if kk == 0x65 {
            Instruction::Restore(x)
        } else {
            Instruction::Unknown(opcode)
        }
    }
}

/// Takes an instruction word apart.
pub fn decode(opcode: u16) -> (instruction: Instruction)
    ensures
        instruction == decode_spec(opcode),
{
    let x: u8 = ((opcode / 0x100) % 16) as u8;
    let y: u8 = ((opcode / 0x10) % 16) as u8;
    let n: u8 = (opcode % 16) as u8;
    let kk: u8 = (opcode % 0x100) as u8;
    let nnn: u16 = opcode % 0x1000;
    let top: u16 = opcode / 0x1000;
    match top {
        0x0 => match opcode {
            0x00E0 => Instruction::ClearScreen,
            0x00EE => Instruction::Return,
            _ => Instruction::Sys(nnn),
        },
        0x1 => Instruction::Jump(nnn),
        0x2 => Instruction::Call(nnn),
        0x3 => Instruction::SkipIfEqual(x, kk),
        0x4 => Instruction::SkipIfNotEqual(x, kk),
        0x5 => match n {
            0x0 => Instruction::SkipIfSame(x, y),
            _ => Instruction::Unknown(opcode),
        },
        0x6 => Instruction::Load(x, kk),
        0x7 => Instruction::Add(x, kk),
        0x8 => match n {
            0x0 => Instruction::Move(x, y),
            0x1 => Instruction::Or(x, y),
            0x2 => Instruction::And(x, y),
            0x3 => Instruction::Xor(x, y),
            0x4 => Instruction::AddRegister(x, y),
            0x5 => Instruction::Subtract(x, y),
            0x6 => Instruction::ShiftRight(x, y),
            0x7 => Instruction::SubtractFrom(x, y),
            0xE => Instruction::ShiftLeft(x, y),
            _ => Instruction::Unknown(opcode),
        },
        0x9 => match n {
            0x0 => Instruction::SkipIfDifferent(x, y),
            _ => Instruction::Unknown(opcode),
        },
        0xA => Instruction::LoadIndex(nnn),
        0xB => Instruction::JumpOffset(nnn),
        0xC => Instruction::Random(x, kk),
        0xD => Instruction::Draw(x, y, n),
        0xE => match kk {
            0x9E => Instruction::SkipIfPressed(x),
            0xA1 => Instruction::SkipIfReleased(x),
            _ => Instruction::Unknown(opcode),
        },
        _ => match kk {
            0x07 => Instruction::ReadDelay(x),
            0x0A => Instruction::WaitKey(x),
            0x15 => Instruction::SetDelay(x),
            0x18 => Instruction::SetSound(x),
            0x1E => Instruction::AddIndex(x),
            0x29 => Instruction::Glyph(x),
            0x33 => Instruction::Decimal(x),
            0x55 => Instruction::Store(x),
            0x65 => Instruction::Restore(x),
            _ => Instruction::Unknown(opcode),
        },
    }
}

} // verus!
