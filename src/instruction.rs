use vstd::prelude::*;

verus! {

/// One decoded CHIP-8 instruction.
///
/// Register operands (`x`, `y`) are always below 16, `n` is a nibble, `nn` a
/// byte and `nnn` a 12-bit address, as `decode` produces them.
#[derive(Clone, Copy, Debug, PartialEq, Eq, Structural)]
pub enum Instruction {
    /// 00E0: clear the framebuffer.
    ClearScreen,
    /// 00EE: return from a subroutine.
    Return,
    /// 1NNN: jump to NNN.
    Jump { nnn: u16 },
    /// 2NNN: call the subroutine at NNN.
    Call { nnn: u16 },
    /// 3XNN: skip the next instruction if VX == NN.
    SkipIfEqualImm { x: u8, nn: u8 },
    /// 4XNN: skip the next instruction if VX != NN.
    SkipIfNotEqualImm { x: u8, nn: u8 },
    /// 5XY_: skip the next instruction if VX == VY.
    SkipIfEqualReg { x: u8, y: u8 },
    /// 6XNN: VX := NN.
    SetImm { x: u8, nn: u8 },
    /// 7XNN: VX := VX + NN, wrapping, flag untouched.
    AddImm { x: u8, nn: u8 },
    /// 8XY0: VX := VY.
    Assign { x: u8, y: u8 },
    /// 8XY1: VX := VX | VY.
    Or { x: u8, y: u8 },
    /// 8XY2: VX := VX & VY.
    And { x: u8, y: u8 },
    /// 8XY3: VX := VX ^ VY.
    Xor { x: u8, y: u8 },
    /// 8XY4: VX := VX + VY, VF := carry.
    AddCarry { x: u8, y: u8 },
    /// 8XY5: VX := VX - VY, VF := no borrow.
    Subtract { x: u8, y: u8 },
    /// 8XY6: VX := VX >> 1, VF := the bit shifted out.
    ShiftRight { x: u8 },
    /// 8XY7: VX := VY - VX, VF := no borrow.
    SubtractReversed { x: u8, y: u8 },
    /// 8XYE: VX := VX << 1, VF := the bit shifted out.
    ShiftLeft { x: u8 },
    /// 9XY_: skip the next instruction if VX != VY.
    SkipIfNotEqualReg { x: u8, y: u8 },
    /// ANNN: I := NNN.
    SetIndex { nnn: u16 },
    /// BNNN: jump to NNN + V0.
    JumpOffset { nnn: u16 },
    /// CXNN: VX := random byte & NN.
    Random { x: u8, nn: u8 },
    /// DXYN: draw an N-row sprite from memory at I at (VX, VY).
    Draw { x: u8, y: u8, n: u8 },
    /// EX9E: skip the next instruction if the key VX is down.
    SkipIfKey { x: u8 },
    /// EXA1: skip the next instruction if the key VX is up.
    SkipIfNotKey { x: u8 },
    /// FX07: VX := delay timer.
    GetDelay { x: u8 },
    /// FX0A: wait for a key press and store it in VX.
    WaitForKey { x: u8 },
    /// FX15: delay timer := VX.
    SetDelay { x: u8 },
    /// FX18: sound timer := VX.
    SetSound { x: u8 },
    /// FX29: I := address of the font glyph for VX.
    FontGlyph { x: u8 },
    /// FX33: store the decimal digits of VX at I, I+1, I+2.
    Bcd { x: u8 },
    /// FX55: store V0..=VX at I onward.
    RegDump { x: u8 },
    /// FX65: load V0..=VX from I onward.
    RegLoad { x: u8 },
    /// Any word that names no instruction; executed as a no-op.
    Unknown,
}

/// The leading nibble of an instruction word.
pub open spec fn op_of(w: u16) -> u8 {
    (w / 4096) as u8
}

/// The second nibble (register operand X).
pub open spec fn x_of(w: u16) -> u8 {
    ((w / 256) % 16) as u8
}

/// The third nibble (register operand Y).
pub open spec fn y_of(w: u16) -> u8 {
    ((w / 16) % 16) as u8
}

/// The trailing nibble.
pub open spec fn n_of(w: u16) -> u8 {
    (w % 16) as u8
}

/// The trailing byte.
pub open spec fn nn_of(w: u16) -> u8 {
    (w % 256) as u8
}

/// The trailing twelve bits.
pub open spec fn nnn_of(w: u16) -> u16 {
    (w % 4096) as u16
}

/// The register-register ALU group (leading nibble 8), by trailing nibble.
pub open spec fn decode_alu(w: u16) -> Instruction {
    let x = x_of(w);
    let y = y_of(w);
    let n = n_of(w);
    if n == 0 {
        Instruction::Assign { x, y }
    } else if n == 1 {
        Instruction::Or { x, y }
    } else if n == 2 {
        Instruction::And { x, y }
    } else if n == 3 {
        Instruction::Xor { x, y }
    } else if n == 4 {
        Instruction::AddCarry { x, y }
    } else if n == 5 {
        Instruction::Subtract { x, y }
    } else if n == 6 {
        Instruction::ShiftRight { x }
    } else if n == 7 {
        Instruction::SubtractReversed { x, y }
    } else if n == 0xE {
        Instruction::ShiftLeft { x }
    } else {
        Instruction::Unknown
    }
}

/// The system group (leading nibble F), by trailing byte.
pub open spec fn decode_system(w: u16) -> Instruction {
    let x = x_of(w);
    let nn = nn_of(w);
    if nn == 0x07 {
        Instruction::GetDelay { x }
    } else if nn == 0x0A {
        Instruction::WaitForKey { x }
    } else if nn == 0x15 {
        Instruction::SetDelay { x }
    } else if nn == 0x18 {
        Instruction::SetSound { x }
    } else if nn == 0x29 {
        Instruction::FontGlyph { x }
    } else if nn == 0x33 {
        Instruction::Bcd { x }
    } else if nn == 0x55 {
        Instruction::RegDump { x }
    } else if nn == 0x65 {
        Instruction::RegLoad { x }
    } else {
        Instruction::Unknown
    }
}

/// The instruction that a 16-bit word encodes.
pub open spec fn decode_spec(w: u16) -> Instruction {
    let op = op_of(w);
    let x = x_of(w);
    let y = y_of(w);
    let nn = nn_of(w);
    let nnn = nnn_of(w);
    if op == 0 {
        if w == 0x00E0 {
            Instruction::ClearScreen
        } else if w == 0x00EE {
            Instruction::Return
        } else {
            Instruction::Unknown
        }
    } else if op == 1 {
        Instruction::Jump { nnn }
    } else if op == 2 {
        Instruction::Call { nnn }
    } else if op == 3 {
        Instruction::SkipIfEqualImm { x, nn }
    } else if op == 4 {
        Instruction::SkipIfNotEqualImm { x, nn }
    } else if op == 5 {
        Instruction::SkipIfEqualReg { x, y }
    } else if op == 6 {
        Instruction::SetImm { x, nn }
    } else if op == 7 {
        Instruction::AddImm { x, nn }
    } else if op == 8 {
        decode_alu(w)
    } else if op == 9 {
        Instruction::SkipIfNotEqualReg { x, y }
    } else if op == 0xA {
        Instruction::SetIndex { nnn }
    } else if op == 0xB {
        Instruction::JumpOffset { nnn }
    } else if op == 0xC {
        Instruction::Random { x, nn }
    } else if op == 0xD {
        Instruction::Draw { x, y, n: n_of(w) }
    } else if op == 0xE {
        if nn == 0x9E {
            Instruction::SkipIfKey { x }
        } else if nn == 0xA1 {
            Instruction::SkipIfNotKey { x }
        } else {
            Instruction::Unknown
        }
    } else {
        decode_system(w)
    }
}

impl Instruction {
    /// Every operand is within the range of its field.
    pub open spec fn wf(self) -> bool {
        match self {
            Instruction::Jump { nnn } => nnn < 4096,
            Instruction::Call { nnn } => nnn < 4096,
            Instruction::SetIndex { nnn } => nnn < 4096,
            Instruction::JumpOffset { nnn } => nnn < 4096,
            Instruction::SkipIfEqualImm { x, .. } => x < 16,
            Instruction::SkipIfNotEqualImm { x, .. } => x < 16,
            Instruction::SetImm { x, .. } => x < 16,
            Instruction::AddImm { x, .. } => x < 16,
            Instruction::Random { x, .. } => x < 16,
            Instruction::SkipIfEqualReg { x, y } => x < 16 && y < 16,
            Instruction::SkipIfNotEqualReg { x, y } => x < 16 && y < 16,
            Instruction::Assign { x, y } => x < 16 && y < 16,
            Instruction::Or { x, y } => x < 16 && y < 16,
            Instruction::And { x, y } => x < 16 && y < 16,
            Instruction::Xor { x, y } => x < 16 && y < 16,
            Instruction::AddCarry { x, y } => x < 16 && y < 16,
            Instruction::Subtract { x, y } => x < 16 && y < 16,
            Instruction::SubtractReversed { x, y } => x < 16 && y < 16,
            Instruction::Draw { x, y, n } => x < 16 && y < 16 && n < 16,
            Instruction::ShiftRight { x } => x < 16,
            Instruction::ShiftLeft { x } => x < 16,
            Instruction::SkipIfKey { x } => x < 16,
            Instruction::SkipIfNotKey { x } => x < 16,
            Instruction::GetDelay { x } => x < 16,
            Instruction::WaitForKey { x } => x < 16,
            Instruction::SetDelay { x } => x < 16,
            Instruction::SetSound { x } => x < 16,
            Instruction::FontGlyph { x } => x < 16,
            Instruction::Bcd { x } => x < 16,
            Instruction::RegDump { x } => x < 16,
            Instruction::RegLoad { x } => x < 16,
            _ => true,
        }
    }
}

/// Combines two bytes big-endian into one instruction word.
pub fn word_from_bytes(hi: u8, lo: u8) -> (r: u16)
    ensures
        r == hi as int * 256 + lo as int,
{
    (hi as u16) * 256 + (lo as u16)
}

fn decode_alu_group(w: u16) -> (r: Instruction)
    requires
        op_of(w) == 8,
    ensures
        r == decode_alu(w),
{
    let x = ((w / 256) % 16) as u8;
    let y = ((w / 16) % 16) as u8;
    match w % 16 {
        0 => Instruction::Assign { x, y },
        1 => Instruction::Or { x, y },
        2 => Instruction::And { x, y },
        3 => Instruction::Xor { x, y },
        4 => Instruction::AddCarry { x, y },
        5 => Instruction::Subtract { x, y },
        6 => Instruction::ShiftRight { x },
        7 => Instruction::SubtractReversed { x, y },
        0xE => Instruction::ShiftLeft { x },
        _ => Instruction::Unknown,
    }
}

fn decode_system_group(w: u16) -> (r: Instruction)
    requires
        op_of(w) == 0xF,
    ensures
        r == decode_system(w),
{
    let x = ((w / 256) % 16) as u8;
    match w % 256 {
        0x07 => Instruction::GetDelay { x },
        0x0A => Instruction::WaitForKey { x },
        0x15 => Instruction::SetDelay { x },
        0x18 => Instruction::SetSound { x },
        0x29 => Instruction::FontGlyph { x },
        0x33 => Instruction::Bcd { x },
        0x55 => Instruction::RegDump { x },
        0x65 => Instruction::RegLoad { x },
        _ => Instruction::Unknown,
    }
}

/// Decodes an instruction word; words that name no instruction decode to
/// `Instruction::Unknown`.
pub fn decode(w: u16) -> (r: Instruction)
    ensures
        r == decode_spec(w),
        r.wf(),
{
    let x = ((w / 256) % 16) as u8;
    let y = ((w / 16) % 16) as u8;
    let n = (w % 16) as u8;
    let nn = (w % 256) as u8;
    let nnn = w % 4096;
    match w / 4096 {
        0 => {
            if w == 0x00E0 {
                Instruction::ClearScreen
            } else if w == 0x00EE {
                Instruction::Return
            } else {
                Instruction::Unknown
            }
        },
        1 => Instruction::Jump { nnn },
        2 => Instruction::Call { nnn },
        3 => Instruction::SkipIfEqualImm { x, nn },
        4 => Instruction::SkipIfNotEqualImm { x, nn },
        5 => Instruction::SkipIfEqualReg { x, y },
        6 => Instruction::SetImm { x, nn },
        7 => Instruction::AddImm { x, nn },
        8 => decode_alu_group(w),
        9 => Instruction::SkipIfNotEqualReg { x, y },
        0xA => Instruction::SetIndex { nnn },
        0xB => Instruction::JumpOffset { nnn },
        0xC => Instruction::Random { x, nn },
        0xD => Instruction::Draw { x, y, n },
        0xE => {
            if nn == 0x9E {
                Instruction::SkipIfKey { x }
            } else if nn == 0xA1 {
                Instruction::SkipIfNotKey { x }
            } else {
                Instruction::Unknown
            }
        },
        _ => decode_system_group(w),
    }
}

} // verus!
