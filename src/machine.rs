use vstd::prelude::*;

use crate::instruction::{decoded, Instruction};
use crate::sprite::{collides, drawn, is_frame};

verus! {

/// Bytes of addressable memory.
pub const MEMORY_SIZE: usize = 4096;

/// Address at which programs are loaded and execution starts.
pub const PROGRAM_START: usize = 0x200;

/// Depth of the return-address stack.
pub const STACK_DEPTH: usize = 16;

/// Number of general-purpose registers; the last one, `VF`, is the flag.
pub const REGISTER_COUNT: usize = 16;

/// Number of keys on the hexadecimal keypad.
pub const KEY_COUNT: usize = 16;

/// Bytes of the built-in font: five rows for each of the glyphs 0 to F.
pub const FONT_SIZE: usize = 80;

/// The flag register `VF`.
pub const FLAG: usize = 15;

/// The built-in font, one glyph of five rows for each hexadecimal digit.
pub open spec fn font_glyphs() -> Seq<u8> {
    seq![
        0xF0u8, 0x90, 0x90, 0x90, 0xF0, 0x20, 0x60, 0x20, 0x20, 0x70,
        0xF0, 0x10, 0xF0, 0x80, 0xF0, 0xF0, 0x10, 0xF0, 0x10, 0xF0,
        0x90, 0x90, 0xF0, 0x10, 0x10, 0xF0, 0x80, 0xF0, 0x10, 0xF0,
        0xF0, 0x80, 0xF0, 0x90, 0xF0, 0xF0, 0x10, 0x20, 0x40, 0x40,
        0xF0, 0x90, 0xF0, 0x90, 0xF0, 0xF0, 0x90, 0xF0, 0x10, 0xF0,
        0xF0, 0x90, 0xF0, 0x90, 0x90, 0xE0, 0x90, 0xE0, 0x90, 0xE0,
        0xF0, 0x80, 0x80, 0x80, 0xF0, 0xE0, 0x90, 0x90, 0x90, 0xE0,
        0xF0, 0x80, 0xF0, 0x80, 0xF0, 0xF0, 0x80, 0xF0, 0x80, 0x80,
    ]
}

/// A fault that stops an instruction; the machine is left as it was.
#[derive(Clone, Copy, Debug, PartialEq, Eq, Structural)]
pub enum Fault {
    /// No instruction has this opcode.
    UnknownOpcode { opcode: u16 },
    /// The program counter does not address a whole instruction in memory.
    ProgramCounterOutOfBounds,
    /// The instruction reads or writes memory past the last address.
    MemoryOutOfBounds,
    /// A call with all sixteen return addresses in use.
    StackOverflow,
    /// A return with no return address saved.
    StackUnderflow,
    /// A register number above `VF` or an address above 12 bits.
    InvalidOperand,
    /// A key instruction whose register names no key.
    KeyOutOfRange,
}

/// Why a program could not be loaded.
#[derive(Clone, Copy, Debug, PartialEq, Eq, Structural)]
pub enum LoadError {
    /// The program does not fit between the load address and the end of
    /// memory.
    RomTooLarge { size: usize },
}

/// The whole machine state, as a value.
pub struct Machine {
    pub memory: Seq<u8>,
    pub v: Seq<u8>,
    pub index: u16,
    pub pc: u16,
    pub stack: Seq<u16>,
    pub frame: Seq<u8>,
    pub delay_timer: u8,
    pub sound_timer: u8,
    pub keypad: Seq<bool>,
    pub draw_flag: bool,
}

impl Machine {
    /// The sizes are fixed, cells are 0 or 1, addresses stay within reach.
    pub open spec fn wf(self) -> bool {
        &&& self.memory.len() == 4096
        &&& self.v.len() == 16
        &&& self.index < 0x1000
        &&& self.pc <= 0x1002
        &&& self.stack.len() <= 16
        &&& forall|i: int| 0 <= i < self.stack.len() ==> #[trigger] self.stack[i] <= 0xFFE
        &&& is_frame(self.frame)
        &&& self.keypad.len() == 16
    }

    /// The state a fresh machine starts in: the font at the bottom of memory
    /// and everything else zero, with the program counter at `0x200`.
    pub open spec fn initial() -> Machine {
        Machine {
            memory: Seq::new(4096, |a: int| if a < 80 { font_glyphs()[a] } else { 0u8 }),
            v: Seq::new(16, |i: int| 0u8),
            index: 0,
            pc: 0x200,
            stack: Seq::empty(),
            frame: Seq::new(2048, |p: int| 0u8),
            delay_timer: 0,
            sound_timer: 0,
            keypad: Seq::new(16, |k: int| false),
            draw_flag: false,
        }
    }

    /// The opcode stored big-endian at the program counter.
    pub open spec fn fetched(self) -> int {
        self.memory[self.pc as int] * 0x100 + self.memory[self.pc + 1]
    }

    /// Moves on to the next instruction.
    pub open spec fn next(self) -> Machine {
        Machine { pc: (self.pc + 2) as u16, ..self }
    }

    /// Skips the next instruction when `cond` holds.
    pub open spec fn skip_if(self, cond: bool) -> Machine {
        Machine { pc: (self.pc + if cond { 4int } else { 2int }) as u16, ..self }
    }

    /// Sets register `x` and moves on.
    pub open spec fn set_reg(self, x: u8, val: u8) -> Machine {
        Machine { v: self.v.update(x as int, val), ..self }.next()
    }

    /// Sets register `x`, then the flag register, and moves on.
    pub open spec fn set_reg_flag(self, x: u8, val: u8, flag: bool) -> Machine {
        Machine {
            v: self.v.update(x as int, val).update(15, if flag { 1u8 } else { 0u8 }),
            ..self
        }.next()
    }

    /// The smallest number of a pressed key, if any key is pressed.
    pub open spec fn first_pressed(self) -> Option<int> {
        if exists|k: int| 0 <= k < 16 && self.keypad[k] {
            Some(
                choose|k: int|
                    0 <= k < 16 && self.keypad[k] && forall|j: int| 0 <= j < k ==> !self.keypad[j],
            )
        } else {
            None
        }
    }

    /// The effect of executing `ins`, with `random` as the byte a `CXNN`
    /// draws: the next state, or the fault that stops it.
    pub open spec fn step(self, ins: Instruction, random: u8) -> Result<Machine, Fault> {
        if !ins.wf() {
            Err(Fault::InvalidOperand)
        } else if self.pc > 0xFFE {
            Err(Fault::ProgramCounterOutOfBounds)
        } else {
            let v = self.v;
            match ins {
                Instruction::ClearScreen => Ok(
                    Machine { frame: Seq::new(2048, |p: int| 0u8), draw_flag: true, ..self }.next(),
                ),
                Instruction::Return => if self.stack.len() == 0 {
                    Err(Fault::StackUnderflow)
                } else {
                    Ok(
                        Machine {
                            pc: (self.stack.last() + 2) as u16,
                            stack: self.stack.drop_last(),
                            ..self
                        },
                    )
                },
                Instruction::Jump { addr } => Ok(Machine { pc: addr, ..self }),
                Instruction::Call { addr } => if self.stack.len() >= 16 {
                    Err(Fault::StackOverflow)
                } else {
                    Ok(Machine { pc: addr, stack: self.stack.push(self.pc), ..self })
                },
                Instruction::SkipIfEqual { x, nn } => Ok(self.skip_if(v[x as int] == nn)),
                Instruction::SkipIfNotEqual { x, nn } => Ok(self.skip_if(v[x as int] != nn)),
                Instruction::SkipIfRegistersEqual { x, y } => Ok(
                    self.skip_if(v[x as int] == v[y as int]),
                ),
                Instruction::SetImmediate { x, nn } => Ok(self.set_reg(x, nn)),
                Instruction::AddImmediate { x, nn } => Ok(
                    self.set_reg(x, ((v[x as int] + nn) % 256) as u8),
                ),
                Instruction::Move { x, y } => Ok(self.set_reg(x, v[y as int])),
                Instruction::Or { x, y } => Ok(self.set_reg(x, v[x as int] | v[y as int])),
                Instruction::And { x, y } => Ok(self.set_reg(x, v[x as int] & v[y as int])),
                Instruction::Xor { x, y } => Ok(self.set_reg(x, v[x as int] ^ v[y as int])),
                Instruction::AddRegisters { x, y } => Ok(
                    self.set_reg_flag(
                        x,
                        ((v[x as int] + v[y as int]) % 256) as u8,
                        v[x as int] + v[y as int] > 255,
                    ),
                ),
                Instruction::Subtract { x, y } => Ok(
                    self.set_reg_flag(
                        x,
                        ((v[x as int] - v[y as int]) % 256) as u8,
                        v[x as int] >= v[y as int],
                    ),
                ),
                Instruction::ShiftRight { x, y } => Ok(
                    self.set_reg_flag(x, v[x as int] / 2, v[x as int] % 2 == 1),
                ),
                Instruction::SubtractReversed { x, y } => Ok(
                    self.set_reg_flag(
                        x,
                        ((v[y as int] - v[x as int]) % 256) as u8,
                        v[y as int] >= v[x as int],
                    ),
                ),
                Instruction::ShiftLeft { x, y } => Ok(
                    self.set_reg_flag(x, ((v[x as int] * 2) % 256) as u8, v[x as int] >= 128),
                ),
                Instruction::SkipIfRegistersNotEqual { x, y } => Ok(
                    self.skip_if(v[x as int] != v[y as int]),
                ),
                Instruction::SetIndex { addr } => Ok(Machine { index: addr, ..self }.next()),
                Instruction::JumpOffset { addr } => Ok(
                    Machine { pc: ((addr + v[0]) % 0x1000) as u16, ..self },
                ),
                Instruction::Random { x, nn } => Ok(self.set_reg(x, random & nn)),
                Instruction::Draw { x, y, n } => if self.index + n > 4096 {
                    Err(Fault::MemoryOutOfBounds)
                } else {
                    let rows = self.memory.subrange(self.index as int, self.index + n);
                    let (vx, vy) = (v[x as int], v[y as int]);
                    Ok(
                        Machine {
                            frame: drawn(self.frame, rows, vx, vy),
                            v: v.update(15, if collides(self.frame, rows, vx, vy) { 1u8 } else { 0u8 }),
                            draw_flag: true,
                            ..self
                        }.next(),
                    )
                },
                Instruction::SkipIfKeyPressed { x } => if v[x as int] >= 16 {
                    Err(Fault::KeyOutOfRange)
                } else {
                    Ok(self.skip_if(self.keypad[v[x as int] as int]))
                },
                Instruction::SkipIfKeyNotPressed { x } => if v[x as int] >= 16 {
                    Err(Fault::KeyOutOfRange)
                } else {
                    Ok(self.skip_if(!self.keypad[v[x as int] as int]))
                },
                Instruction::ReadDelayTimer { x } => Ok(self.set_reg(x, self.delay_timer)),
                Instruction::WaitForKey { x } => match self.first_pressed() {
                    Some(k) => Ok(self.set_reg(x, k as u8)),
                    None => Ok(self),
                },
                Instruction::SetDelayTimer { x } => Ok(
                    Machine { delay_timer: v[x as int], ..self }.next(),
                ),
                Instruction::SetSoundTimer { x } => Ok(
                    Machine { sound_timer: v[x as int], ..self }.next(),
                ),
                Instruction::AddToIndex { x } => Ok(
                    Machine { index: ((self.index + v[x as int]) % 0x1000) as u16, ..self }.next(),
                ),
                Instruction::FontGlyph { x } => Ok(
                    Machine { index: ((v[x as int] % 16) * 5) as u16, ..self }.next(),
                ),
                Instruction::StoreBcd { x } => if self.index + 3 > 4096 {
                    Err(Fault::MemoryOutOfBounds)
                } else {
                    let i = self.index as int;
                    let val = v[x as int];
                    Ok(
                        Machine {
                            memory: self.memory.update(i, val / 100).update(i + 1, (val / 10) % 10).update(
                                i + 2,
                                val % 10,
                            ),
                            ..self
                        }.next(),
                    )
                },
                Instruction::StoreRegisters { x } => if self.index + x + 1 > 4096 {
                    Err(Fault::MemoryOutOfBounds)
                } else {
                    let i = self.index as int;
                    Ok(
                        Machine {
                            memory: Seq::new(
                                4096,
                                |a: int|
                                    if i <= a <= i + x {
                                        v[a - i]
                                    } else {
                                        self.memory[a]
                                    },
                            ),
                            ..self
                        }.next(),
                    )
                },
                Instruction::LoadRegisters { x } => if self.index + x + 1 > 4096 {
                    Err(Fault::MemoryOutOfBounds)
                } else {
                    let i = self.index as int;
                    Ok(
                        Machine {
                            v: Seq::new(
                                16,
                                |j: int|
                                    if j <= x {
                                        self.memory[i + j]
                                    } else {
                                        v[j]
                                    },
                            ),
                            ..self
                        }.next(),
                    )
                },
            }
        }
    }

    /// One timer tick: each timer that is above zero counts down by one.
    pub open spec fn tick(self) -> Machine {
        Machine {
            delay_timer: if self.delay_timer > 0 { (self.delay_timer - 1) as u8 } else { 0 },
            sound_timer: if self.sound_timer > 0 { (self.sound_timer - 1) as u8 } else { 0 },
            ..self
        }
    }

    /// One cycle: fetch the opcode at the program counter, decode it,
    /// execute it and tick the timers. The result is the next state and
    /// whether the sound timer ran out, or the fault that stops the cycle.
    pub open spec fn cycled(self, random: u8) -> Result<(Machine, bool), Fault> {
        if self.pc > 0xFFE {
            Err(Fault::ProgramCounterOutOfBounds)
        } else {
            let opcode = self.fetched() as u16;
            match decoded(opcode) {
                None => Err(Fault::UnknownOpcode { opcode }),
                Some(ins) => match self.step(ins, random) {
                    Ok(m) => Ok((m.tick(), m.tone_ends())),
                    Err(e) => Err(e),
                },
            }
        }
    }

    /// The sound timer runs out on this tick.
    pub open spec fn tone_ends(self) -> bool {
        self.sound_timer == 1
    }
}

} // verus!
