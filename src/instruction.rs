use vstd::prelude::*;
use crate::error::Chip8Error;
use crate::machine::VirtualMachine;

verus! {

/// One decoded instruction word.
///
/// `x` and `y` name registers (`0..=15`), `nn` is an immediate byte, `n` a
/// sprite height (`0..=15`) and `addr` a twelve-bit address.
#[derive(Clone, Copy, Debug, PartialEq, Eq, Structural)]
pub enum Instruction {
    /// `00E0` (any `0NN0`): clear the display.
    ClearScreen,
    /// `00EE` (any `0NNE`): return from a subroutine.
    Return,
    /// `1NNN`: jump to `addr`.
    Jump { addr: u16 },
    /// `2NNN`: call the subroutine at `addr`.
    Call { addr: u16 },
    /// `3XNN`: skip the next instruction if `VX == NN`.
    SkipIfEqualImm { x: u8, nn: u8 },
    /// `4XNN`: skip the next instruction if `VX != NN`.
    SkipIfNotEqualImm { x: u8, nn: u8 },
    /// `5XY_`: skip the next instruction if `VX == VY`.
    SkipIfEqualReg { x: u8, y: u8 },
    /// `6XNN`: `VX = NN`.
    LoadImm { x: u8, nn: u8 },
    /// `7XNN`: `VX = VX + NN`, wrapping, flag untouched.
    AddImm { x: u8, nn: u8 },
    /// `8XY0`: `VX = VY`.
    Copy { x: u8, y: u8 },
    /// `8XY1`: `VX = VX | VY`.
    Or { x: u8, y: u8 },
    /// `8XY2`: `VX = VX & VY`.
    And { x: u8, y: u8 },
    /// `8XY3`: `VX = VX ^ VY`.
    Xor { x: u8, y: u8 },
    /// `8XY4`: `VX = VX + VY` with carry into `VF`.
    AddReg { x: u8, y: u8 },
    /// `8XY5`: `VX = VX - VY`, `VF` set when no borrow occurs.
    SubReg { x: u8, y: u8 },
    /// `8XY6`: shift `VX` right by one, the bit shifted out goes to `VF`.
    ShiftRight { x: u8 },
    /// `8XY7`: `VX = VY - VX`, `VF` set when no borrow occurs.
    SubReversed { x: u8, y: u8 },
    /// `8XYE`: shift `VX` left by one, the bit shifted out goes to `VF`.
    ShiftLeft { x: u8 },
    /// `9XY_`: skip the next instruction if `VX != VY`.
    SkipIfNotEqualReg { x: u8, y: u8 },
    /// `ANNN`: `I = NNN`.
    SetIndex { addr: u16 },
    /// `BNNN`: `I = NNN + V0`.
    SetIndexOffset { addr: u16 },
    /// `CXNN`: `VX = random byte & NN`.
    Random { x: u8, nn: u8 },
    /// `DXYN`: draw the `N`-row sprite at `I` with its corner at `(VX, VY)`.
    Draw { x: u8, y: u8, n: u8 },
    /// `EX9E`: skip the next instruction if key `VX` is down.
    SkipIfKey { x: u8 },
    /// `EXA1`: skip the next instruction if key `VX` is up.
    SkipIfNotKey { x: u8 },
    /// `FX_7`: `VX = delay timer`.
    ReadDelay { x: u8 },
    /// `FX_A`: block until a key is supplied, then store it in `VX`.
    WaitKey { x: u8 },
    /// `FX15`: `delay timer = VX`.
    SetDelay { x: u8 },
    /// `FX55`: store `V0..=VX` to memory at `I`.
    StoreRegisters { x: u8 },
    /// `FX65`: load `V0..=VX` from memory at `I`.
    LoadRegisters { x: u8 },
    /// `FX_8`: `sound timer = VX`.
    SetSound { x: u8 },
    /// `FX_E`: `I = I + VX`, wrapping.
    AddIndex { x: u8 },
    /// `FX_9`: `I` = address of the glyph for the low nibble of `VX`.
    FontAddress { x: u8 },
    /// `FX_3`: store the decimal digits of `VX` at `I`, `I + 1`, `I + 2`.
    StoreBcd { x: u8 },
}

/// The four hexadecimal digits of an instruction word, most significant first.
pub open spec fn nibble(op: u16, k: int) -> u8 {
    if k == 0 {
        (op / 0x1000) as u8
    } else if k == 1 {
        ((op / 0x100) % 0x10) as u8
    } else if k == 2 {
        ((op / 0x10) % 0x10) as u8
    } else {
        (op % 0x10) as u8
    }
}

/// The low twelve bits of an instruction word.
pub open spec fn address_of(op: u16) -> u16 {
    (op % 0x1000) as u16
}

/// The low byte of an instruction word.
pub open spec fn byte_of(op: u16) -> u8 {
    (op % 0x100) as u8
}

/// The instruction that `op` encodes, or `None` where it encodes none.
pub open spec fn decode_spec(op: u16) -> Option<Instruction> {
    let x = nibble(op, 1);
    let y = nibble(op, 2);
    let n = nibble(op, 3);
    let nn = byte_of(op);
    let addr = address_of(op);
    let top = nibble(op, 0);
    if top == 0x0 {
        if n == 0x0 {
            Some(Instruction::ClearScreen)
        } else if n == 0xE {
            Some(Instruction::Return)
        } else {
            None
        }
    } else if top == 0x1 {
        Some(Instruction::Jump { addr })
    } else if top == 0x2 {
        Some(Instruction::Call { addr })
    } else if top == 0x3 {
        Some(Instruction::SkipIfEqualImm { x, nn })
    } else if top == 0x4 {
        Some(Instruction::SkipIfNotEqualImm { x, nn })
    } else if top == 0x5 {
        Some(Instruction::SkipIfEqualReg { x, y })
    } else if top == 0x6 {
        Some(Instruction::LoadImm { x, nn })
    } else if top == 0x7 {
        Some(Instruction::AddImm { x, nn })
    } else if top == 0x8 {
        if n == 0x0 {
            Some(Instruction::Copy { x, y })
        } else if n == 0x1 {
            Some(Instruction::Or { x, y })
        } else if n == 0x2 {
            Some(Instruction::And { x, y })
        } else if n == 0x3 {
            Some(Instruction::Xor { x, y })
        } else if n == 0x4 {
            Some(Instruction::AddReg { x, y })
        } else if n == 0x5 {
            Some(Instruction::SubReg { x, y })
        } else if n == 0x6 {
            Some(Instruction::ShiftRight { x })
        } else if n == 0x7 {
            Some(Instruction::SubReversed { x, y })
        } else if n == 0xE {
            Some(Instruction::ShiftLeft { x })
        } else {
            None
        }
    } else if top == 0x9 {
        Some(Instruction::SkipIfNotEqualReg { x, y })
    } else if top == 0xA {
        Some(Instruction::SetIndex { addr })
    } else if top == 0xB {
        Some(Instruction::SetIndexOffset { addr })
    } else if top == 0xC {
        Some(Instruction::Random { x, nn })
    } else if top == 0xD {
        Some(Instruction::Draw { x, y, n })
    } else if top == 0xE {
        if nn == 0x9E {
            Some(Instruction::SkipIfKey { x })
        } else if nn == 0xA1 {
            Some(Instruction::SkipIfNotKey { x })
        } else {
            None
        }
    } else {
        if n == 0x7 {
            Some(Instruction::ReadDelay { x })
        } else if n == 0xA {
            Some(Instruction::WaitKey { x })
        } else if n == 0x5 {
            if y == 0x1 {
                Some(Instruction::SetDelay { x })
            } else if y == 0x5 {
                Some(Instruction::StoreRegisters { x })
            } else if y == 0x6 {
                Some(Instruction::LoadRegisters { x })
            } else {
                None
            }
        } else if n == 0x8 {
            Some(Instruction::SetSound { x })
        } else if n == 0xE {
            Some(Instruction::AddIndex { x })
        } else if n == 0x9 {
            Some(Instruction::FontAddress { x })
        } else if n == 0x3 {
            Some(Instruction::StoreBcd { x })
        } else {
            None
        }
    }
}

/// Operands stay inside their fields: registers and heights are nibbles,
/// addresses twelve bits.
pub open spec fn well_formed(ins: Instruction) -> bool {
    match ins {
        Instruction::Jump { addr } | Instruction::Call { addr } | Instruction::SetIndex { addr }
        | Instruction::SetIndexOffset { addr } => addr < 0x1000,
        Instruction::SkipIfEqualImm { x, .. } | Instruction::SkipIfNotEqualImm { x, .. }
        | Instruction::LoadImm { x, .. } | Instruction::AddImm { x, .. }
        | Instruction::Random { x, .. } | Instruction::ShiftRight { x }
        | Instruction::ShiftLeft { x } | Instruction::SkipIfKey { x }
        | Instruction::SkipIfNotKey { x } | Instruction::ReadDelay { x }
        | Instruction::WaitKey { x } | Instruction::SetDelay { x }
        | Instruction::StoreRegisters { x } | Instruction::LoadRegisters { x }
        | Instruction::SetSound { x } | Instruction::AddIndex { x }
        | Instruction::FontAddress { x } | Instruction::StoreBcd { x } => x < 16,
        Instruction::SkipIfEqualReg { x, y } | Instruction::Copy { x, y }
        | Instruction::Or { x, y } | Instruction::And { x, y } | Instruction::Xor { x, y }
        | Instruction::AddReg { x, y } | Instruction::SubReg { x, y }
        | Instruction::SubReversed { x, y } | Instruction::SkipIfNotEqualReg { x, y } => x < 16
            && y < 16,
        Instruction::Draw { x, y, n } => x < 16 && y < 16 && n < 16,
        Instruction::ClearScreen | Instruction::Return => true,
    }
}

proof fn lemma_fields(op: u16)
    ensures
        (op >> 12u16) as int == op / 0x1000,
        (op & 0x000Fu16) as int == op % 0x10,
        (op & 0x00FFu16) as int == op % 0x100,
        (op & 0x0FFFu16) as int == op % 0x1000,
{
    assert((op >> 12u16) == op / 0x1000) by (bit_vector);
    assert((op & 0x000Fu16) == op % 0x10) by (bit_vector);
    assert((op & 0x00FFu16) == op % 0x100) by (bit_vector);
    assert((op & 0x0FFFu16) == op % 0x1000) by (bit_vector);
}

/// Classifies an instruction word by its high nibble and, for the `0`, `8`,
/// `E` and `F` families, by its lower digits.
pub fn decode(op: u16) -> (r: Result<Instruction, Chip8Error>)
    ensures
        decode_spec(op) is Some ==> r == Ok::<Instruction, Chip8Error>(decode_spec(op)->0),
        decode_spec(op) is None ==> r == Err::<Instruction, Chip8Error>(
            Chip8Error::UnknownOpcode { opcode: op },
        ),
        r is Ok ==> well_formed(r->Ok_0),
{
    proof {
        lemma_fields(op);
    }
    let top = (op >> 12) as u8;
    let x = VirtualMachine::get_register_x(op) as u8;
    let y = VirtualMachine::get_register_y(op) as u8;
    let n = (op & 0x000F) as u8;
    let nn = (op & 0x00FF) as u8;
    let addr = op & 0x0FFF;
    let unknown = Err(Chip8Error::UnknownOpcode { opcode: op });
    match top {
        0x0 => match n {
            0x0 => Ok(Instruction::ClearScreen),
            0xE => Ok(Instruction::Return),
            _ => unknown,
        },
        0x1 => Ok(Instruction::Jump { addr }),
        0x2 => Ok(Instruction::Call { addr }),
        0x3 => Ok(Instruction::SkipIfEqualImm { x, nn }),
        0x4 => Ok(Instruction::SkipIfNotEqualImm { x, nn }),
        0x5 => Ok(Instruction::SkipIfEqualReg { x, y }),
        0x6 => Ok(Instruction::LoadImm { x, nn }),
        0x7 => Ok(Instruction::AddImm { x, nn }),
        0x8 => match n {
            0x0 => Ok(Instruction::Copy { x, y }),
            0x1 => Ok(Instruction::Or { x, y }),
            0x2 => Ok(Instruction::And { x, y }),
            0x3 => Ok(Instruction::Xor { x, y }),
            0x4 => Ok(Instruction::AddReg { x, y }),
            0x5 => Ok(Instruction::SubReg { x, y }),
            0x6 => Ok(Instruction::ShiftRight { x }),
            0x7 => Ok(Instruction::SubReversed { x, y }),
            0xE => Ok(Instruction::ShiftLeft { x }),
            _ => unknown,
        },
        0x9 => Ok(Instruction::SkipIfNotEqualReg { x, y }),
        0xA => Ok(Instruction::SetIndex { addr }),
        0xB => Ok(Instruction::SetIndexOffset { addr }),
        0xC => Ok(Instruction::Random { x, nn }),
        0xD => Ok(Instruction::Draw { x, y, n }),
        0xE => match nn {
            0x9E => Ok(Instruction::SkipIfKey { x }),
            0xA1 => Ok(Instruction::SkipIfNotKey { x }),
            _ => unknown,
        },
        _ => match n {
            0x7 => Ok(Instruction::ReadDelay { x }),
            0xA => Ok(Instruction::WaitKey { x }),
            0x5 => match y {
                0x1 => Ok(Instruction::SetDelay { x }),
                0x5 => Ok(Instruction::StoreRegisters { x }),
                0x6 => Ok(Instruction::LoadRegisters { x }),
                _ => unknown,
            },
            0x8 => Ok(Instruction::SetSound { x }),
            0xE => Ok(Instruction::AddIndex { x }),
            0x9 => Ok(Instruction::FontAddress { x }),
            0x3 => Ok(Instruction::StoreBcd { x }),
            _ => unknown,
        },
    }
}

} // verus!
