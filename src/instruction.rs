use vstd::prelude::*;

verus! {

/// One decoded CHIP-8 instruction. `x` and `y` name registers (0..=15),
/// `n`, `nn` and `nnn` are the 4-, 8- and 12-bit immediates of the opcode.
#[derive(Clone, Copy, Debug, PartialEq, Eq, Structural)]
pub enum Instruction {
    /// 00E0
    ClearScreen,
    /// 00EE
    Return,
    /// 1NNN
    Jump { nnn: u16 },
    /// 2NNN
    Call { nnn: u16 },
    /// 3XNN
    SkipIfEqualImm { x: u8, nn: u8 },
    /// 4XNN
    SkipIfNotEqualImm { x: u8, nn: u8 },
    /// 5XY0
    SkipIfEqualReg { x: u8, y: u8 },
    /// 6XNN
    SetImm { x: u8, nn: u8 },
    /// 7XNN
    AddImm { x: u8, nn: u8 },
    /// 8XY0
    Assign { x: u8, y: u8 },
    /// 8XY1
    Or { x: u8, y: u8 },
    /// 8XY2
    And { x: u8, y: u8 },
    /// 8XY3
    Xor { x: u8, y: u8 },
    /// 8XY4
    AddReg { x: u8, y: u8 },
    /// 8XY5
    SubReg { x: u8, y: u8 },
    /// 8XY6
    ShiftRight { x: u8 },
    /// 8XY7
    SubReversed { x: u8, y: u8 },
    /// 8XYE
    ShiftLeft { x: u8 },
    /// 9XY0
    SkipIfNotEqualReg { x: u8, y: u8 },
    /// ANNN
    SetIndex { nnn: u16 },
    /// BNNN
    JumpOffset { x: u8, nnn: u16 },
    /// CXNN
    Random { x: u8, nn: u8 },
    /// DXYN
    Draw { x: u8, y: u8, n: u8 },
    /// EX9E
    SkipIfKey { x: u8 },
    /// EXA1
    SkipIfNotKey { x: u8 },
    /// FX07
    GetDelay { x: u8 },
    /// FX0A
    WaitKey { x: u8 },
    /// FX15
    SetDelay { x: u8 },
    /// FX18
    SetSound { x: u8 },
    /// FX1E
    AddIndex { x: u8 },
    /// FX29
    FontGlyph { x: u8 },
    /// FX33
    Bcd { x: u8 },
    /// FX55
    Dump { x: u8 },
    /// FX65
    Load { x: u8 },
    /// Any opcode outside the instruction set.
    Unknown { opcode: u16 },
}

/// The instruction family: the top four bits of the opcode.
pub open spec fn family(op: u16) -> int {
    op as int / 4096
}

/// The first register operand: bits 8..12.
pub open spec fn x_of(op: u16) -> u8 {
    ((op as int / 256) % 16) as u8
}

/// The second register operand: bits 4..8.
pub open spec fn y_of(op: u16) -> u8 {
    ((op as int / 16) % 16) as u8
}

/// The low nibble.
pub open spec fn n_of(op: u16) -> u8 {
    (op as int % 16) as u8
}

/// The low byte.
pub open spec fn nn_of(op: u16) -> u8 {
    (op as int % 256) as u8
}

/// The low twelve bits.
pub open spec fn nnn_of(op: u16) -> u16 {
    (op as int % 4096) as u16
}

/// What an opcode means: the family first, then the sub-selector that the
/// family reads (the whole operand, the low nibble or the low byte).
pub open spec fn decode_spec(op: u16) -> Instruction {
    let f = family(op);
    let x = x_of(op);
    let y = y_of(op);
    let n = n_of(op);
    let nn = nn_of(op);
    let nnn = nnn_of(op);
    if f == 0x0 {
        if nnn == 0x0E0 {
            Instruction::ClearScreen
        } else if nnn == 0x0EE {
            Instruction::Return
        } else {
            Instruction::Unknown { opcode: op }
        }
    } else if f == 0x1 {
        Instruction::Jump { nnn }
    } else if f == 0x2 {
        Instruction::Call { nnn }
    } else if f == 0x3 {
        Instruction::SkipIfEqualImm { x, nn }
    } else if f == 0x4 {
        Instruction::SkipIfNotEqualImm { x, nn }
    } else if f == 0x5 {
        Instruction::SkipIfEqualReg { x, y }
    } else if f == 0x6 {
        Instruction::SetImm { x, nn }
    } else if f == 0x7 {
        Instruction::AddImm { x, nn }
    } else if f == 0x8 {
        if n == 0x0 {
            Instruction::Assign { x, y }
        } else if n == 0x1 {
            Instruction::Or { x, y }
        } else if n == 0x2 {
            Instruction::And { x, y }
        } else if n == 0x3 {
            Instruction::Xor { x, y }
        } else if n == 0x4 {
            Instruction::AddReg { x, y }
        } else if n == 0x5 {
            Instruction::SubReg { x, y }
        } else if n == 0x6 {
            Instruction::ShiftRight { x }
        } else if n == 0x7 {
            Instruction::SubReversed { x, y }
        } else if n == 0xE {
            Instruction::ShiftLeft { x }
        } else {
            Instruction::Unknown { opcode: op }
        }
    } else if f == 0x9 {
        Instruction::SkipIfNotEqualReg { x, y }
    } else if f == 0xA {
        Instruction::SetIndex { nnn }
    } else if f == 0xB {
        Instruction::JumpOffset { x, nnn }
    } else if f == 0xC {
        Instruction::Random { x, nn }
    } else if f == 0xD {
        Instruction::Draw { x, y, n }
    } else if f == 0xE {
        if nn == 0x9E {
            Instruction::SkipIfKey { x }
        } else if nn == 0xA1 {
            Instruction::SkipIfNotKey { x }
        } else {
            Instruction::Unknown { opcode: op }
        }
    } else {
        if nn == 0x07 {
            Instruction::GetDelay { x }
        } else if nn == 0x0A {
            Instruction::WaitKey { x }
        } else if nn == 0x15 {
            Instruction::SetDelay { x }
        } else if nn == 0x18 {
            Instruction::SetSound { x }
        } else if nn == 0x1E {
            Instruction::AddIndex { x }
        } else if nn == 0x29 {
            Instruction::FontGlyph { x }
        } else if nn == 0x33 {
            Instruction::Bcd { x }
        } else if nn == 0x55 {
            Instruction::Dump { x }
        } else if nn == 0x65 {
            Instruction::Load { x }
        } else {
            Instruction::Unknown { opcode: op }
        }
    }
}

impl Instruction {
    /// Operands lie in the ranges that an opcode can encode.
    pub open spec fn wf(self) -> bool {
        match self {
            Instruction::Jump { nnn } => nnn < 4096,
            Instruction::Call { nnn } => nnn < 4096,
            Instruction::SkipIfEqualImm { x, .. } => x < 16,
            Instruction::SkipIfNotEqualImm { x, .. } => x < 16,
            Instruction::SkipIfEqualReg { x, y } => x < 16 && y < 16,
            Instruction::SetImm { x, .. } => x < 16,
            Instruction::AddImm { x, .. } => x < 16,
            Instruction::Assign { x, y } => x < 16 && y < 16,
            Instruction::Or { x, y } => x < 16 && y < 16,
            Instruction::And { x, y } => x < 16 && y < 16,
            Instruction::Xor { x, y } => x < 16 && y < 16,
            Instruction::AddReg { x, y } => x < 16 && y < 16,
            Instruction::SubReg { x, y } => x < 16 && y < 16,
            Instruction::ShiftRight { x } => x < 16,
            Instruction::SubReversed { x, y } => x < 16 && y < 16,
            Instruction::ShiftLeft { x } => x < 16,
            Instruction::SkipIfNotEqualReg { x, y } => x < 16 && y < 16,
            Instruction::SetIndex { nnn } => nnn < 4096,
            Instruction::JumpOffset { x, nnn } => x < 16 && nnn < 4096,
            Instruction::Random { x, .. } => x < 16,
            Instruction::Draw { x, y, n } => x < 16 && y < 16 && n < 16,
            Instruction::SkipIfKey { x } => x < 16,
            Instruction::SkipIfNotKey { x } => x < 16,
            Instruction::GetDelay { x } => x < 16,
            Instruction::WaitKey { x } => x < 16,
            Instruction::SetDelay { x } => x < 16,
            Instruction::SetSound { x } => x < 16,
            Instruction::AddIndex { x } => x < 16,
            Instruction::FontGlyph { x } => x < 16,
            Instruction::Bcd { x } => x < 16,
            Instruction::Dump { x } => x < 16,
            Instruction::Load { x } => x < 16,
            _ => true,
        }
    }
}

/// Splits an opcode into its family and operand fields and selects the
/// instruction they denote.
pub fn decode(opcode: u16) -> (r: Instruction)
    ensures
        r == decode_spec(opcode),
        r.wf(),
{
    proof {
        assert(opcode >> 12 == opcode / 4096) by (bit_vector);
        assert((opcode >> 8) & 0xF == (opcode / 256) % 16) by (bit_vector);
        assert((opcode >> 4) & 0xF == (opcode / 16) % 16) by (bit_vector);
        assert(opcode & 0xF == opcode % 16) by (bit_vector);
        assert(opcode & 0xFF == opcode % 256) by (bit_vector);
        assert(opcode & 0xFFF == opcode % 4096) by (bit_vector);
    }
    let family: u16 = opcode >> 12;
    let x: u8 = ((opcode >> 8) & 0xF) as u8;
    let y: u8 = ((opcode >> 4) & 0xF) as u8;
    let n: u8 = (opcode & 0xF) as u8;
    let nn: u8 = (opcode & 0xFF) as u8;
    let nnn: u16 = opcode & 0xFFF;
    match family {
        0x0 => {
            if nnn == 0x0E0 {
                Instruction::ClearScreen
            } else if nnn == 0x0EE {
                Instruction::Return
            } else {
                Instruction::Unknown { opcode }
            }
        },
        0x1 => Instruction::Jump { nnn },
        0x2 => Instruction::Call { nnn },
        0x3 => Instruction::SkipIfEqualImm { x, nn },
        0x4 => Instruction::SkipIfNotEqualImm { x, nn },
        0x5 => Instruction::SkipIfEqualReg { x, y },
        0x6 => Instruction::SetImm { x, nn },
        0x7 => Instruction::AddImm { x, nn },
        0x8 => match n {
            0x0 => Instruction::Assign { x, y },
            0x1 => Instruction::Or { x, y },
            0x2 => Instruction::And { x, y },
            0x3 => Instruction::Xor { x, y },
            0x4 => Instruction::AddReg { x, y },
            0x5 => Instruction::SubReg { x, y },
            0x6 => Instruction::ShiftRight { x },
            0x7 => Instruction::SubReversed { x, y },
            0xE => Instruction::ShiftLeft { x },
            _ => Instruction::Unknown { opcode },
        },
        0x9 => Instruction::SkipIfNotEqualReg { x, y },
        0xA => Instruction::SetIndex { nnn },
        0xB => Instruction::JumpOffset { x, nnn },
        0xC => Instruction::Random { x, nn },
        0xD => Instruction::Draw { x, y, n },
        0xE => match nn {
            0x9E => Instruction::SkipIfKey { x },
            0xA1 => Instruction::SkipIfNotKey { x },
            _ => Instruction::Unknown { opcode },
        },
        _ => match nn {
            0x07 => Instruction::GetDelay { x },
            0x0A => Instruction::WaitKey { x },
            0x15 => Instruction::SetDelay { x },
            0x18 => Instruction::SetSound { x },
            0x1E => Instruction::AddIndex { x },
            0x29 => Instruction::FontGlyph { x },
            0x33 => Instruction::Bcd { x },
            0x55 => Instruction::Dump { x },
            0x65 => Instruction::Load { x },
            _ => Instruction::Unknown { opcode },
        },
    }
}

} // verus!
