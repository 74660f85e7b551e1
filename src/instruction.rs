use vstd::prelude::*;

verus! {

/// One decoded CHIP-8 instruction. Register operands `x` and `y` name
/// registers `V0`..`VF`, `n` is a 4-bit sprite height, `nn` a byte and
/// `addr` a 12-bit address.
#[derive(Clone, Copy, Debug, PartialEq, Eq, Structural)]
pub enum Instruction {
    /// `00E0`: clear the framebuffer.
    ClearScreen,
    /// `00EE`: return from a subroutine.
    Return,
    /// `1NNN`: jump to `addr`.
    Jump { addr: u16 },
    /// `2NNN`: call the subroutine at `addr`.
    Call { addr: u16 },
    /// `3XNN`: skip if `Vx == nn`.
    SkipIfEqual { x: u8, nn: u8 },
    /// `4XNN`: skip if `Vx != nn`.
    SkipIfNotEqual { x: u8, nn: u8 },
    /// `5XY0`: skip if `Vx == Vy`.
    SkipIfRegistersEqual { x: u8, y: u8 },
    /// `6XNN`: `Vx = nn`.
    SetImmediate { x: u8, nn: u8 },
    /// `7XNN`: `Vx += nn`, wrapping, `VF` untouched.
    AddImmediate { x: u8, nn: u8 },
    /// `8XY0`: `Vx = Vy`.
    Move { x: u8, y: u8 },
    /// `8XY1`: `Vx |= Vy`.
    Or { x: u8, y: u8 },
    /// `8XY2`: `Vx &= Vy`.
    And { x: u8, y: u8 },
    /// `8XY3`: `Vx ^= Vy`.
    Xor { x: u8, y: u8 },
    /// `8XY4`: `Vx += Vy`, `VF` = carry.
    AddRegisters { x: u8, y: u8 },
    /// `8XY5`: `Vx -= Vy`, `VF` = no borrow.
    Subtract { x: u8, y: u8 },
    /// `8XY6`: `Vx >>= 1`, `VF` = the bit shifted out.
    ShiftRight { x: u8, y: u8 },
    /// `8XY7`: `Vx = Vy - Vx`, `VF` = no borrow.
    SubtractReversed { x: u8, y: u8 },
    /// `8XYE`: `Vx <<= 1`, `VF` = the bit shifted out.
    ShiftLeft { x: u8, y: u8 },
    /// `9XY0`: skip if `Vx != Vy`.
    SkipIfRegistersNotEqual { x: u8, y: u8 },
    /// `ANNN`: `I = addr`.
    SetIndex { addr: u16 },
    /// `BNNN`: jump to `addr + V0`.
    JumpOffset { addr: u16 },
    /// `CXNN`: `Vx = random & nn`.
    Random { x: u8, nn: u8 },
    /// `DXYN`: draw an `n`-row sprite from memory at `I` at `(Vx, Vy)`.
    Draw { x: u8, y: u8, n: u8 },
    /// `EX9E`: skip if the key named by `Vx` is pressed.
    SkipIfKeyPressed { x: u8 },
    /// `EXA1`: skip if the key named by `Vx` is not pressed.
    SkipIfKeyNotPressed { x: u8 },
    /// `FX07`: `Vx = delay timer`.
    ReadDelayTimer { x: u8 },
    /// `FX0A`: wait for a key press and store its number in `Vx`.
    WaitForKey { x: u8 },
    /// `FX15`: `delay timer = Vx`.
    SetDelayTimer { x: u8 },
    /// `FX18`: `sound timer = Vx`.
    SetSoundTimer { x: u8 },
    /// `FX1E`: `I += Vx`.
    AddToIndex { x: u8 },
    /// `FX29`: `I` = address of the font glyph for the low nibble of `Vx`.
    FontGlyph { x: u8 },
    /// `FX33`: store the three decimal digits of `Vx` at `I`, `I+1`, `I+2`.
    StoreBcd { x: u8 },
    /// `FX55`: store `V0..=Vx` at `I..`.
    StoreRegisters { x: u8 },
    /// `FX65`: load `V0..=Vx` from `I..`.
    LoadRegisters { x: u8 },
}

impl Instruction {
    /// Every operand is within the width of its opcode field.
    pub open spec fn wf(self) -> bool {
        match self {
            Instruction::ClearScreen | Instruction::Return => true,
            Instruction::Jump { addr }
            | Instruction::Call { addr }
            | Instruction::SetIndex { addr }
            | Instruction::JumpOffset { addr } => addr < 0x1000,
            Instruction::SkipIfEqual { x, nn }
            | Instruction::SkipIfNotEqual { x, nn }
            | Instruction::SetImmediate { x, nn }
            | Instruction::AddImmediate { x, nn }
            | Instruction::Random { x, nn } => x < 16,
            Instruction::SkipIfRegistersEqual { x, y }
            | Instruction::Move { x, y }
            | Instruction::Or { x, y }
            | Instruction::And { x, y }
            | Instruction::Xor { x, y }
            | Instruction::AddRegisters { x, y }
            | Instruction::Subtract { x, y }
            | Instruction::ShiftRight { x, y }
            | Instruction::SubtractReversed { x, y }
            | Instruction::ShiftLeft { x, y }
            | Instruction::SkipIfRegistersNotEqual { x, y } => x < 16 && y < 16,
            Instruction::Draw { x, y, n } => x < 16 && y < 16 && n < 16,
            Instruction::SkipIfKeyPressed { x }
            | Instruction::SkipIfKeyNotPressed { x }
            | Instruction::ReadDelayTimer { x }
            | Instruction::WaitForKey { x }
            | Instruction::SetDelayTimer { x }
            | Instruction::SetSoundTimer { x }
            | Instruction::AddToIndex { x }
            | Instruction::FontGlyph { x }
            | Instruction::StoreBcd { x }
            | Instruction::StoreRegisters { x }
            | Instruction::LoadRegisters { x } => x < 16,
        }
    }

    /// The 16-bit opcode of the instruction.
    pub open spec fn encoding(self) -> int {
        match self {
            Instruction::ClearScreen => 0x00E0,
            Instruction::Return => 0x00EE,
            Instruction::Jump { addr } => 0x1000 + addr,
            Instruction::Call { addr } => 0x2000 + addr,
            Instruction::SkipIfEqual { x, nn } => 0x3000 + x * 0x100 + nn,
            Instruction::SkipIfNotEqual { x, nn } => 0x4000 + x * 0x100 + nn,
            Instruction::SkipIfRegistersEqual { x, y } => 0x5000 + x * 0x100 + y * 0x10,
            Instruction::SetImmediate { x, nn } => 0x6000 + x * 0x100 + nn,
            Instruction::AddImmediate { x, nn } => 0x7000 + x * 0x100 + nn,
            Instruction::Move { x, y } => 0x8000 + x * 0x100 + y * 0x10,
            Instruction::Or { x, y } => 0x8001 + x * 0x100 + y * 0x10,
            Instruction::And { x, y } => 0x8002 + x * 0x100 + y * 0x10,
            Instruction::Xor { x, y } => 0x8003 + x * 0x100 + y * 0x10,
            Instruction::AddRegisters { x, y } => 0x8004 + x * 0x100 + y * 0x10,
            Instruction::Subtract { x, y } => 0x8005 + x * 0x100 + y * 0x10,
            Instruction::ShiftRight { x, y } => 0x8006 + x * 0x100 + y * 0x10,
            Instruction::SubtractReversed { x, y } => 0x8007 + x * 0x100 + y * 0x10,
            Instruction::ShiftLeft { x, y } => 0x800E + x * 0x100 + y * 0x10,
            Instruction::SkipIfRegistersNotEqual { x, y } => 0x9000 + x * 0x100 + y * 0x10,
            Instruction::SetIndex { addr } => 0xA000 + addr,
            Instruction::JumpOffset { addr } => 0xB000 + addr,
            Instruction::Random { x, nn } => 0xC000 + x * 0x100 + nn,
            Instruction::Draw { x, y, n } => 0xD000 + x * 0x100 + y * 0x10 + n,
            Instruction::SkipIfKeyPressed { x } => 0xE09E + x * 0x100,
            Instruction::SkipIfKeyNotPressed { x } => 0xE0A1 + x * 0x100,
            Instruction::ReadDelayTimer { x } => 0xF007 + x * 0x100,
            Instruction::WaitForKey { x } => 0xF00A + x * 0x100,
            Instruction::SetDelayTimer { x } => 0xF015 + x * 0x100,
            Instruction::SetSoundTimer { x } => 0xF018 + x * 0x100,
            Instruction::AddToIndex { x } => 0xF01E + x * 0x100,
            Instruction::FontGlyph { x } => 0xF029 + x * 0x100,
            Instruction::StoreBcd { x } => 0xF033 + x * 0x100,
            Instruction::StoreRegisters { x } => 0xF055 + x * 0x100,
            Instruction::LoadRegisters { x } => 0xF065 + x * 0x100,
        }
    }
}

impl Instruction {
    /// Whether every operand is within the width of its opcode field.
    pub fn is_well_formed(&self) -> (r: bool)
        ensures
            r == self.wf(),
    {
        match *self {
            Instruction::ClearScreen | Instruction::Return => true,
            Instruction::Jump { addr }
            | Instruction::Call { addr }
            | Instruction::SetIndex { addr }
            | Instruction::JumpOffset { addr } => addr < 0x1000,
            Instruction::SkipIfEqual { x, .. }
            | Instruction::SkipIfNotEqual { x, .. }
            | Instruction::SetImmediate { x, .. }
            | Instruction::AddImmediate { x, .. }
            | Instruction::Random { x, .. } => x < 16,
            Instruction::SkipIfRegistersEqual { x, y }
            | Instruction::Move { x, y }
            | Instruction::Or { x, y }
            | Instruction::And { x, y }
            | Instruction::Xor { x, y }
            | Instruction::AddRegisters { x, y }
            | Instruction::Subtract { x, y }
            | Instruction::ShiftRight { x, y }
            | Instruction::SubtractReversed { x, y }
            | Instruction::ShiftLeft { x, y }
            | Instruction::SkipIfRegistersNotEqual { x, y } => x < 16 && y < 16,
            Instruction::Draw { x, y, n } => x < 16 && y < 16 && n < 16,
            Instruction::SkipIfKeyPressed { x }
            | Instruction::SkipIfKeyNotPressed { x }
            | Instruction::ReadDelayTimer { x }
            | Instruction::WaitForKey { x }
            | Instruction::SetDelayTimer { x }
            | Instruction::SetSoundTimer { x }
            | Instruction::AddToIndex { x }
            | Instruction::FontGlyph { x }
            | Instruction::StoreBcd { x }
            | Instruction::StoreRegisters { x }
            | Instruction::LoadRegisters { x } => x < 16,
        }
    }
}

/// The instruction table: the instruction that `opcode` stands for, or
/// `None` when it stands for none.
pub open spec fn decoded(opcode: u16) -> Option<Instruction> {
    let class = opcode / 0x1000;
    let x = ((opcode / 0x100) % 0x10) as u8;
    let y = ((opcode / 0x10) % 0x10) as u8;
    let n = (opcode % 0x10) as u8;
    let nn = (opcode % 0x100) as u8;
    let addr = opcode % 0x1000;
    if class == 0x0 {
        if opcode == 0x00E0 {
            Some(Instruction::ClearScreen)
        } else if opcode == 0x00EE {
            Some(Instruction::Return)
        } else {
            None
        }
    } else if class == 0x1 {
        Some(Instruction::Jump { addr })
    } else if class == 0x2 {
        Some(Instruction::Call { addr })
    } else if class == 0x3 {
        Some(Instruction::SkipIfEqual { x, nn })
    } else if class == 0x4 {
        Some(Instruction::SkipIfNotEqual { x, nn })
    } else if class == 0x5 {
        if n == 0 {
            Some(Instruction::SkipIfRegistersEqual { x, y })
        } else {
            None
        }
    } else if class == 0x6 {
        Some(Instruction::SetImmediate { x, nn })
    } else if class == 0x7 {
        Some(Instruction::AddImmediate { x, nn })
    } else if class == 0x8 {
        match n {
            0x0 => Some(Instruction::Move { x, y }),
            0x1 => Some(Instruction::Or { x, y }),
            0x2 => Some(Instruction::And { x, y }),
            0x3 => Some(Instruction::Xor { x, y }),
            0x4 => Some(Instruction::AddRegisters { x, y }),
            0x5 => Some(Instruction::Subtract { x, y }),
            0x6 => Some(Instruction::ShiftRight { x, y }),
            0x7 => Some(Instruction::SubtractReversed { x, y }),
            0xE => Some(Instruction::ShiftLeft { x, y }),
            _ => None,
        }
    } else if class == 0x9 {
        if n == 0 {
            Some(Instruction::SkipIfRegistersNotEqual { x, y })
        } else {
            None
        }
    } else if class == 0xA {
        Some(Instruction::SetIndex { addr })
    } else if class == 0xB {
        Some(Instruction::JumpOffset { addr })
    } else if class == 0xC {
        Some(Instruction::Random { x, nn })
    } else if class == 0xD {
        Some(Instruction::Draw { x, y, n })
    } else if class == 0xE {
        match nn {
            0x9E => Some(Instruction::SkipIfKeyPressed { x }),
            0xA1 => Some(Instruction::SkipIfKeyNotPressed { x }),
            _ => None,
        }
    } else {
        match nn {
            0x07 => Some(Instruction::ReadDelayTimer { x }),
            0x0A => Some(Instruction::WaitForKey { x }),
            0x15 => Some(Instruction::SetDelayTimer { x }),
            0x18 => Some(Instruction::SetSoundTimer { x }),
            0x1E => Some(Instruction::AddToIndex { x }),
            0x29 => Some(Instruction::FontGlyph { x }),
            0x33 => Some(Instruction::StoreBcd { x }),
            0x55 => Some(Instruction::StoreRegisters { x }),
            0x65 => Some(Instruction::LoadRegisters { x }),
            _ => None,
        }
    }
}

/// A 16-bit value put together from four nibbles gives them back.
proof fn lemma_nibbles_compose(a: u16, b: u16, c: u16, d: u16)
    by (bit_vector)
    requires
        a < 16,
        b < 16,
        c < 16,
        d < 16,
    ensures
        (a * 0x1000 + b * 0x100 + c * 0x10 + d) / 0x1000 == a,
        ((a * 0x1000 + b * 0x100 + c * 0x10 + d) / 0x100) % 0x10 == b,
        ((a * 0x1000 + b * 0x100 + c * 0x10 + d) / 0x10) % 0x10 == c,
        (a * 0x1000 + b * 0x100 + c * 0x10 + d) % 0x10 == d,
{
}

/// A 16-bit value is put together from its four nibbles.
proof fn lemma_nibbles_split(op: u16)
    by (bit_vector)
    ensures
        op == (op / 0x1000) * 0x1000 + ((op / 0x100) % 0x10) * 0x100 + ((op / 0x10) % 0x10) * 0x10
            + op % 0x10,
        op / 0x1000 < 0x10,
{
}

/// An opcode that decodes to an instruction is that instruction's encoding.
proof fn lemma_decoded_encodes(opcode: u16)
    ensures
        decoded(opcode) matches Some(ins) ==> ins.wf() && ins.encoding() == opcode,
{
    lemma_nibbles_split(opcode);
}

/// A well-formed instruction's encoding decodes to it.
#[verifier::rlimit(50)]
proof fn lemma_encoding_decodes(ins: Instruction)
    requires
        ins.wf(),
    ensures
        0 <= ins.encoding() < 0x10000,
        decoded(ins.encoding() as u16) == Some(ins),
{
    match ins {
        Instruction::ClearScreen => lemma_nibbles_compose(0, 0, 0xE, 0),
        Instruction::Return => lemma_nibbles_compose(0, 0, 0xE, 0xE),
        Instruction::Jump { addr } => lemma_nibbles_compose(1, addr / 0x100, (addr / 0x10) % 0x10, addr % 0x10),
        Instruction::Call { addr } => lemma_nibbles_compose(2, addr / 0x100, (addr / 0x10) % 0x10, addr % 0x10),
        Instruction::SkipIfEqual { x, nn } => lemma_nibbles_compose(3, x as u16, (nn / 0x10) as u16, (nn % 0x10) as u16),
        Instruction::SkipIfNotEqual { x, nn } => lemma_nibbles_compose(4, x as u16, (nn / 0x10) as u16, (nn % 0x10) as u16),
        Instruction::SkipIfRegistersEqual { x, y } => lemma_nibbles_compose(5, x as u16, y as u16, 0),
        Instruction::SetImmediate { x, nn } => lemma_nibbles_compose(6, x as u16, (nn / 0x10) as u16, (nn % 0x10) as u16),
        Instruction::AddImmediate { x, nn } => lemma_nibbles_compose(7, x as u16, (nn / 0x10) as u16, (nn % 0x10) as u16),
        Instruction::Move { x, y } => lemma_nibbles_compose(8, x as u16, y as u16, 0),
        Instruction::Or { x, y } => lemma_nibbles_compose(8, x as u16, y as u16, 1),
        Instruction::And { x, y } => lemma_nibbles_compose(8, x as u16, y as u16, 2),
        Instruction::Xor { x, y } => lemma_nibbles_compose(8, x as u16, y as u16, 3),
        Instruction::AddRegisters { x, y } => lemma_nibbles_compose(8, x as u16, y as u16, 4),
        Instruction::Subtract { x, y } => lemma_nibbles_compose(8, x as u16, y as u16, 5),
        Instruction::ShiftRight { x, y } => lemma_nibbles_compose(8, x as u16, y as u16, 6),
        Instruction::SubtractReversed { x, y } => lemma_nibbles_compose(8, x as u16, y as u16, 7),
        Instruction::ShiftLeft { x, y } => lemma_nibbles_compose(8, x as u16, y as u16, 0xE),
        Instruction::SkipIfRegistersNotEqual { x, y } => lemma_nibbles_compose(9, x as u16, y as u16, 0),
        Instruction::SetIndex { addr } => lemma_nibbles_compose(0xA, addr / 0x100, (addr / 0x10) % 0x10, addr % 0x10),
        Instruction::JumpOffset { addr } => lemma_nibbles_compose(0xB, addr / 0x100, (addr / 0x10) % 0x10, addr % 0x10),
        Instruction::Random { x, nn } => lemma_nibbles_compose(0xC, x as u16, (nn / 0x10) as u16, (nn % 0x10) as u16),
        Instruction::Draw { x, y, n } => lemma_nibbles_compose(0xD, x as u16, y as u16, n as u16),
        Instruction::SkipIfKeyPressed { x } => lemma_nibbles_compose(0xE, x as u16, 9, 0xE),
        Instruction::SkipIfKeyNotPressed { x } => lemma_nibbles_compose(0xE, x as u16, 0xA, 1),
        Instruction::ReadDelayTimer { x } => lemma_nibbles_compose(0xF, x as u16, 0, 7),
        Instruction::WaitForKey { x } => lemma_nibbles_compose(0xF, x as u16, 0, 0xA),
        Instruction::SetDelayTimer { x } => lemma_nibbles_compose(0xF, x as u16, 1, 5),
        Instruction::SetSoundTimer { x } => lemma_nibbles_compose(0xF, x as u16, 1, 8),
        Instruction::AddToIndex { x } => lemma_nibbles_compose(0xF, x as u16, 1, 0xE),
        Instruction::FontGlyph { x } => lemma_nibbles_compose(0xF, x as u16, 2, 9),
        Instruction::StoreBcd { x } => lemma_nibbles_compose(0xF, x as u16, 3, 3),
        Instruction::StoreRegisters { x } => lemma_nibbles_compose(0xF, x as u16, 5, 5),
        Instruction::LoadRegisters { x } => lemma_nibbles_compose(0xF, x as u16, 6, 5),
    }
}

/// Decoding inverts encoding: an opcode decodes to an instruction exactly
/// when that instruction is well formed and encodes to the opcode.
pub proof fn lemma_decoded_iff_encoding(opcode: u16, ins: Instruction)
    ensures
        decoded(opcode) == Some(ins) <==> (ins.wf() && ins.encoding() == opcode),
{
    lemma_decoded_encodes(opcode);
    if ins.wf() && ins.encoding() == opcode {
        lemma_encoding_decodes(ins);
    }
}

/// Decodes a 16-bit opcode by the instruction table.
pub fn decode(opcode: u16) -> (r: Option<Instruction>)
    ensures
        r == decoded(opcode),
{
    let class: u16 = opcode / 0x1000;
    let x: u8 = ((opcode / 0x100) % 0x10) as u8;
    let y: u8 = ((opcode / 0x10) % 0x10) as u8;
    let n: u8 = (opcode % 0x10) as u8;
    let nn: u8 = (opcode % 0x100) as u8;
    let addr: u16 = opcode % 0x1000;
    if class == 0x0 {
        if opcode == 0x00E0 {
            Some(Instruction::ClearScreen)
        } else if opcode == 0x00EE {
            Some(Instruction::Return)
        } else {
            None
        }
    } else if class == 0x1 {
        Some(Instruction::Jump { addr })
    } else if class == 0x2 {
        Some(Instruction::Call { addr })
    } else if class == 0x3 {
        Some(Instruction::SkipIfEqual { x, nn })
    } else if class == 0x4 {
        Some(Instruction::SkipIfNotEqual { x, nn })
    } else if class == 0x5 {
        if n == 0 {
            Some(Instruction::SkipIfRegistersEqual { x, y })
        } else {
            None
        }
    } else if class == 0x6 {
        Some(Instruction::SetImmediate { x, nn })
    } else if class == 0x7 {
        Some(Instruction::AddImmediate { x, nn })
    } else if class == 0x8 {
        match n {
            0x0 => Some(Instruction::Move { x, y }),
            0x1 => Some(Instruction::Or { x, y }),
            0x2 => Some(Instruction::And { x, y }),
            0x3 => Some(Instruction::Xor { x, y }),
            0x4 => Some(Instruction::AddRegisters { x, y }),
            0x5 => Some(Instruction::Subtract { x, y }),
            0x6 => Some(Instruction::ShiftRight { x, y }),
            0x7 => Some(Instruction::SubtractReversed { x, y }),
            0xE => Some(Instruction::ShiftLeft { x, y }),
            _ => None,
        }
    } else if class == 0x9 {
        if n == 0 {
            Some(Instruction::SkipIfRegistersNotEqual { x, y })
        } else {
            None
        }
    } else if class == 0xA {
        Some(Instruction::SetIndex { addr })
    } else if class == 0xB {
        Some(Instruction::JumpOffset { addr })
    } else if class == 0xC {
        Some(Instruction::Random { x, nn })
    } else if class == 0xD {
        Some(Instruction::Draw { x, y, n })
    } else if class == 0xE {
        match nn {
            0x9E => Some(Instruction::SkipIfKeyPressed { x }),
            0xA1 => Some(Instruction::SkipIfKeyNotPressed { x }),
            _ => None,
        }
    } else {
        match nn {
            0x07 => Some(Instruction::ReadDelayTimer { x }),
            0x0A => Some(Instruction::WaitForKey { x }),
            0x15 => Some(Instruction::SetDelayTimer { x }),
            0x18 => Some(Instruction::SetSoundTimer { x }),
            0x1E => Some(Instruction::AddToIndex { x }),
            0x29 => Some(Instruction::FontGlyph { x }),
            0x33 => Some(Instruction::StoreBcd { x }),
            0x55 => Some(Instruction::StoreRegisters { x }),
            0x65 => Some(Instruction::LoadRegisters { x }),
            _ => None,
        }
    }
}


} // verus!
