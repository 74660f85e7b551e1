use vstd::prelude::*;

use crate::instruction::{decode, Instruction};
use crate::machine::{
    font_glyphs, Fault, LoadError, Machine, FLAG, FONT_SIZE, KEY_COUNT, MEMORY_SIZE, PROGRAM_START,
    REGISTER_COUNT, STACK_DEPTH,
};
use crate::sprite::{blit, FRAME_CELLS};

verus! {

/// A CHIP-8 machine: memory, registers, return stack, framebuffer, timers
/// and keypad, driven one instruction at a time by [`Chip8::cycle`].
pub struct Chip8 {
    memory: Vec<u8>,
    v: Vec<u8>,
    index: u16,
    pc: u16,
    stack: Vec<u16>,
    frame: Vec<u8>,
    delay_timer: u8,
    sound_timer: u8,
    keypad: Vec<bool>,
    /// Set by instructions that change the framebuffer; cleared by
    /// [`Chip8::draw`] once the host has the frame.
    pub draw_flag: bool,
}

impl View for Chip8 {
    type V = Machine;

    closed spec fn view(&self) -> Machine {
        Machine {
            memory: self.memory@,
            v: self.v@,
            index: self.index,
            pc: self.pc,
            stack: self.stack@,
            frame: self.frame@,
            delay_timer: self.delay_timer,
            sound_timer: self.sound_timer,
            keypad: self.keypad@,
            draw_flag: self.draw_flag,
        }
    }
}

/// The font bytes, in glyph order.
fn font_set() -> (r: [u8; 80])
    ensures
        r@ == font_glyphs(),
{
    let r: [u8; 80] = [
        0xF0, 0x90, 0x90, 0x90, 0xF0, 0x20, 0x60, 0x20, 0x20, 0x70,
        0xF0, 0x10, 0xF0, 0x80, 0xF0, 0xF0, 0x10, 0xF0, 0x10, 0xF0,
        0x90, 0x90, 0xF0, 0x10, 0x10, 0xF0, 0x80, 0xF0, 0x10, 0xF0,
        0xF0, 0x80, 0xF0, 0x90, 0xF0, 0xF0, 0x10, 0x20, 0x40, 0x40,
        0xF0, 0x90, 0xF0, 0x90, 0xF0, 0xF0, 0x90, 0xF0, 0x10, 0xF0,
        0xF0, 0x90, 0xF0, 0x90, 0x90, 0xE0, 0x90, 0xE0, 0x90, 0xE0,
        0xF0, 0x80, 0x80, 0x80, 0xF0, 0xE0, 0x90, 0x90, 0x90, 0xE0,
        0xF0, 0x80, 0xF0, 0x80, 0xF0, 0xF0, 0x80, 0xF0, 0x80, 0x80,
    ];
    assert(r@ =~= font_glyphs());
    r
}

/// `len` copies of `val`.
fn filled<T: Copy>(val: T, len: usize) -> (r: Vec<T>)
    ensures
        r@ == Seq::new(len as nat, |i: int| val),
{
    let mut r: Vec<T> = Vec::new();
    while r.len() < len
        invariant
            r.len() <= len,
            r@ == Seq::new(r.len() as nat, |i: int| val),
        decreases len - r.len(),
    {
        r.push(val);
        assert(r@ =~= Seq::new(r.len() as nat, |i: int| val));
    }
    r
}

/// Instructions that decide where execution goes on, or clear the screen.
spec fn is_control(ins: Instruction) -> bool {
    match ins {
        Instruction::ClearScreen
        | Instruction::Return
        | Instruction::Jump { .. }
        | Instruction::Call { .. }
        | Instruction::SkipIfEqual { .. }
        | Instruction::SkipIfNotEqual { .. }
        | Instruction::SkipIfRegistersEqual { .. }
        | Instruction::SkipIfRegistersNotEqual { .. }
        | Instruction::JumpOffset { .. }
        | Instruction::SkipIfKeyPressed { .. }
        | Instruction::SkipIfKeyNotPressed { .. }
        | Instruction::WaitForKey { .. } => true,
        _ => false,
    }
}

/// Instructions that compute a register from registers and operands.
spec fn is_arithmetic(ins: Instruction) -> bool {
    match ins {
        Instruction::SetImmediate { .. }
        | Instruction::AddImmediate { .. }
        | Instruction::Move { .. }
        | Instruction::Or { .. }
        | Instruction::And { .. }
        | Instruction::Xor { .. }
        | Instruction::AddRegisters { .. }
        | Instruction::Subtract { .. }
        | Instruction::ShiftRight { .. }
        | Instruction::SubtractReversed { .. }
        | Instruction::ShiftLeft { .. }
        | Instruction::Random { .. } => true,
        _ => false,
    }
}

/// Whether `ins` is one of the control-flow instructions or `00E0`.
fn is_control_op(ins: &Instruction) -> (r: bool)
    ensures
        r == is_control(*ins),
{
    match *ins {
        Instruction::ClearScreen
        | Instruction::Return
        | Instruction::Jump { .. }
        | Instruction::Call { .. }
        | Instruction::SkipIfEqual { .. }
        | Instruction::SkipIfNotEqual { .. }
        | Instruction::SkipIfRegistersEqual { .. }
        | Instruction::SkipIfRegistersNotEqual { .. }
        | Instruction::JumpOffset { .. }
        | Instruction::SkipIfKeyPressed { .. }
        | Instruction::SkipIfKeyNotPressed { .. }
        | Instruction::WaitForKey { .. } => true,
        _ => false,
    }
}

/// Whether `ins` is one of the register arithmetic instructions.
fn is_arithmetic_op(ins: &Instruction) -> (r: bool)
    ensures
        r == is_arithmetic(*ins),
{
    match *ins {
        Instruction::SetImmediate { .. }
        | Instruction::AddImmediate { .. }
        | Instruction::Move { .. }
        | Instruction::Or { .. }
        | Instruction::And { .. }
        | Instruction::Xor { .. }
        | Instruction::AddRegisters { .. }
        | Instruction::Subtract { .. }
        | Instruction::ShiftRight { .. }
        | Instruction::SubtractReversed { .. }
        | Instruction::ShiftLeft { .. }
        | Instruction::Random { .. } => true,
        _ => false,
    }
}

impl Chip8 {
    /// The machine invariant.
    pub open spec fn wf(&self) -> bool {
        self@.wf()
    }

    /// A fresh machine: the font at address 0, all else zero, execution
    /// starting at `0x200`.
    pub fn new() -> (r: Chip8)
        ensures
            r@ == Machine::initial(),
            r.wf(),
    {
        let font = font_set();
        let mut memory = filled(0u8, MEMORY_SIZE);
        let mut a: usize = 0;
        while a < FONT_SIZE
            invariant
                a <= 80,
                font@ == font_glyphs(),
                memory@.len() == 4096,
                forall|b: int| 0 <= b < 4096 ==> #[trigger] memory@[b] == if b < a { font_glyphs()[b] } else { 0u8 },
            decreases 80 - a,
        {
            memory.set(a, font[a]);
            a = a + 1;
        }
        let r = Chip8 {
            memory,
            v: filled(0u8, REGISTER_COUNT),
            index: 0,
            pc: PROGRAM_START as u16,
            stack: Vec::new(),
            frame: filled(0u8, FRAME_CELLS),
            delay_timer: 0,
            sound_timer: 0,
            keypad: filled(false, KEY_COUNT),
            draw_flag: false,
        };
        assert(r@.memory =~= Machine::initial().memory);
        assert(r@.stack =~= Machine::initial().stack);
        r
    }

    /// Copies `rom` into memory from `0x200` on. A program that does not fit
    /// before the end of memory is refused and nothing is written.
    pub fn load(&mut self, rom: &[u8]) -> (r: Result<(), LoadError>)
        requires
            old(self).wf(),
        ensures
            final(self).wf(),
            rom@.len() > 4096 - 0x200 ==> r == (Err::<(), LoadError>(LoadError::RomTooLarge { size: rom@.len() as usize }))
                && final(self)@ == old(self)@,
            rom@.len() <= 4096 - 0x200 ==> r is Ok && final(self)@ == (Machine {
                memory: old(self)@.memory.take(0x200) + rom@ + old(self)@.memory.skip(0x200 + rom@.len() as int),
                ..old(self)@
            }),
    {
        if rom.len() > MEMORY_SIZE - PROGRAM_START {
            return Err(LoadError::RomTooLarge { size: rom.len() });
        }
        let ghost before = self.memory@;
        let ghost s0 = self@;
        let mut i: usize = 0;
        while i < rom.len()
            invariant
                s0.wf(),
                before == s0.memory,
                self@ == (Machine { memory: self.memory@, ..s0 }),
                rom@.len() <= 4096 - 0x200,
                i <= rom@.len(),
                self.memory@.len() == 4096,
                forall|a: int| 0 <= a < 4096 ==> #[trigger] self.memory@[a] == if 0x200 <= a < 0x200 + i { rom@[a - 0x200] } else { before[a] },
            decreases rom@.len() - i,
        {
            self.memory.set(PROGRAM_START + i, rom[i]);
            i = i + 1;
        }
        assert(self.memory@ =~= before.take(0x200) + rom@ + before.skip(0x200 + rom@.len() as int));
        Ok(())
    }

    /// Records a key going down or up.
    pub fn set_keys(&mut self, key: usize, is_pressed: bool)
        requires
            old(self).wf(),
            key < 16,
        ensures
            final(self).wf(),
            final(self)@ == (Machine { keypad: old(self)@.keypad.update(key as int, is_pressed), ..old(self)@ }),
    {
        self.keypad.set(key, is_pressed);
    }

    /// Hands out the framebuffer for presenting and clears the redraw flag.
    pub fn draw(&mut self) -> (r: Vec<u8>)
        requires
            old(self).wf(),
        ensures
            final(self).wf(),
            r@ == old(self)@.frame,
            final(self)@ == (Machine { draw_flag: false, ..old(self)@ }),
    {
        self.draw_flag = false;
        self.frame.clone()
    }

    /// Moves on to the next instruction.
    fn advance(&mut self)
        requires
            old(self).wf(),
            old(self)@.pc <= 0xFFE,
        ensures
            final(self).wf(),
            final(self)@ == old(self)@.next(),
    {
        self.pc = self.pc + 2;
    }

    /// Skips the next instruction when `cond` holds, else moves on to it.
    fn skip_if(&mut self, cond: bool)
        requires
            old(self).wf(),
            old(self)@.pc <= 0xFFE,
        ensures
            final(self).wf(),
            final(self)@ == old(self)@.skip_if(cond),
    {
        if cond {
            self.pc = self.pc + 4;
        } else {
            self.pc = self.pc + 2;
        }
    }

    /// Sets register `x` and moves on.
    fn set_reg(&mut self, x: u8, val: u8)
        requires
            old(self).wf(),
            old(self)@.pc <= 0xFFE,
            x < 16,
        ensures
            final(self).wf(),
            final(self)@ == old(self)@.set_reg(x, val),
    {
        self.v.set(x as usize, val);
        self.advance();
    }

    /// Sets register `x`, then the flag register, and moves on.
    fn set_reg_flag(&mut self, x: u8, val: u8, flag: bool)
        requires
            old(self).wf(),
            old(self)@.pc <= 0xFFE,
            x < 16,
        ensures
            final(self).wf(),
            final(self)@ == old(self)@.set_reg_flag(x, val, flag),
    {
        self.v.set(x as usize, val);
        self.v.set(FLAG, if flag { 1 } else { 0 });
        self.advance();
    }

    /// The number of the lowest pressed key, if any.
    fn first_pressed(&self) -> (r: Option<u8>)
        requires
            self.wf(),
        ensures
            match self@.first_pressed() {
                Some(k) => r == Some(k as u8),
                None => r is None,
            },
    {
        let mut k: usize = 0;
        while k < KEY_COUNT
            invariant
                k <= 16,
                self.keypad@.len() == 16,
                forall|j: int| 0 <= j < k ==> !self.keypad@[j],
            decreases 16 - k,
        {
            if self.keypad[k] {
                let ghost kk = k as int;
                proof {
                    let c = choose|c: int|
                        0 <= c < 16 && self@.keypad[c] && forall|j: int| 0 <= j < c ==> !self@.keypad[j];
                    assert(self@.keypad[kk]);
                    if c < kk {
                        assert(!self@.keypad[c]);
                    } else if c > kk {
                        assert(!self@.keypad[kk]);
                    }
                }
                return Some(k as u8);
            }
            k = k + 1;
        }
        None
    }

    /// `FX55`: stores `V0..=Vx` at `I..`.
    fn store_registers(&mut self, x: u8) -> (r: Result<(), Fault>)
        requires
            old(self).wf(),
            old(self)@.pc <= 0xFFE,
            x < 16,
        ensures
            final(self).wf(),
            match old(self)@.step(Instruction::StoreRegisters { x }, 0) {
                Ok(m) => r is Ok && final(self)@ == m,
                Err(e) => r == Err::<(), Fault>(e) && final(self)@ == old(self)@,
            },
    {
        let i = self.index as usize;
        if i + x as usize + 1 > MEMORY_SIZE {
            return Err(Fault::MemoryOutOfBounds);
        }
        let ghost s0 = self@;
        let mut j: usize = 0;
        while j <= x as usize
            invariant
                s0.wf(),
                s0.pc <= 0xFFE,
                x < 16,
                i == s0.index,
                i + x + 1 <= 4096,
                j <= x + 1,
                self@ == (Machine { memory: self.memory@, ..s0 }),
                self.memory@.len() == 4096,
                forall|a: int| 0 <= a < 4096 ==> #[trigger] self.memory@[a] == if i <= a < i + j { s0.v[a - i] } else { s0.memory[a] },
            decreases x + 1 - j,
        {
            let val = self.v[j];
            self.memory.set(i + j, val);
            j = j + 1;
        }
        proof {
            let m = s0.step(Instruction::StoreRegisters { x }, 0)->Ok_0;
            assert(self.memory@ =~= m.memory);
        }
        self.advance();
        Ok(())
    }

    /// `FX65`: loads `V0..=Vx` from `I..`.
    fn load_registers(&mut self, x: u8) -> (r: Result<(), Fault>)
        requires
            old(self).wf(),
            old(self)@.pc <= 0xFFE,
            x < 16,
        ensures
            final(self).wf(),
            match old(self)@.step(Instruction::LoadRegisters { x }, 0) {
                Ok(m) => r is Ok && final(self)@ == m,
                Err(e) => r == Err::<(), Fault>(e) && final(self)@ == old(self)@,
            },
    {
        let i = self.index as usize;
        if i + x as usize + 1 > MEMORY_SIZE {
            return Err(Fault::MemoryOutOfBounds);
        }
        let ghost s0 = self@;
        let mut j: usize = 0;
        while j <= x as usize
            invariant
                s0.wf(),
                s0.pc <= 0xFFE,
                x < 16,
                i == s0.index,
                i + x + 1 <= 4096,
                j <= x + 1,
                self@ == (Machine { v: self.v@, ..s0 }),
                self.v@.len() == 16,
                forall|k: int| 0 <= k < 16 ==> #[trigger] self.v@[k] == if k < j { s0.memory[i + k] } else { s0.v[k] },
            decreases x + 1 - j,
        {
            let val = self.memory[i + j];
            self.v.set(j, val);
            j = j + 1;
        }
        proof {
            let m = s0.step(Instruction::LoadRegisters { x }, 0)->Ok_0;
            assert(self.v@ =~= m.v);
        }
        self.advance();
        Ok(())
    }

    /// Executes a control-flow instruction or `00E0`.
    #[verifier::rlimit(40)]
    fn execute_control(&mut self, ins: Instruction, random: u8) -> (r: Result<(), Fault>)
        requires
            old(self).wf(),
            old(self)@.pc <= 0xFFE,
            ins.wf(),
            is_control(ins),
        ensures
            final(self).wf(),
            match old(self)@.step(ins, random) {
                Ok(m) => r is Ok && final(self)@ == m,
                Err(e) => r == Err::<(), Fault>(e) && final(self)@ == old(self)@,
            },
    {
        match ins {
            Instruction::ClearScreen => {
                self.frame = filled(0u8, FRAME_CELLS);
                self.draw_flag = true;
                self.advance();
            },
            Instruction::Return => {
                match self.stack.pop() {
                    Some(ret) => {
                        self.pc = ret + 2;
                    },
                    None => {
                        return Err(Fault::StackUnderflow);
                    },
                }
            },
            Instruction::Jump { addr } => {
                self.pc = addr;
            },
            Instruction::Call { addr } => {
                if self.stack.len() >= STACK_DEPTH {
                    return Err(Fault::StackOverflow);
                }
                self.stack.push(self.pc);
                self.pc = addr;
            },
            Instruction::SkipIfEqual { x, nn } => {
                let c = self.v[x as usize] == nn;
                self.skip_if(c);
            },
            Instruction::SkipIfNotEqual { x, nn } => {
                let c = self.v[x as usize] != nn;
                self.skip_if(c);
            },
            Instruction::SkipIfRegistersEqual { x, y } => {
                let c = self.v[x as usize] == self.v[y as usize];
                self.skip_if(c);
            },
            Instruction::SkipIfRegistersNotEqual { x, y } => {
                let c = self.v[x as usize] != self.v[y as usize];
                self.skip_if(c);
            },
            Instruction::JumpOffset { addr } => {
                self.pc = (addr + self.v[0] as u16) % 0x1000;
            },
            Instruction::SkipIfKeyPressed { x } => {
                let key = self.v[x as usize];
                if key as usize >= KEY_COUNT {
                    return Err(Fault::KeyOutOfRange);
                }
                let c = self.keypad[key as usize];
                self.skip_if(c);
            },
            Instruction::SkipIfKeyNotPressed { x } => {
                let key = self.v[x as usize];
                if key as usize >= KEY_COUNT {
                    return Err(Fault::KeyOutOfRange);
                }
                let c = !self.keypad[key as usize];
                self.skip_if(c);
            },
            Instruction::WaitForKey { x } => {
                match self.first_pressed() {
                    Some(k) => self.set_reg(x, k),
                    None => {},
                }
            },
            _ => {},
        }
        Ok(())
    }

    /// Executes a register arithmetic instruction.
    #[verifier::rlimit(40)]
    fn execute_arithmetic(&mut self, ins: Instruction, random: u8) -> (r: Result<(), Fault>)
        requires
            old(self).wf(),
            old(self)@.pc <= 0xFFE,
            ins.wf(),
            is_arithmetic(ins),
        ensures
            final(self).wf(),
            match old(self)@.step(ins, random) {
                Ok(m) => r is Ok && final(self)@ == m,
                Err(e) => r == Err::<(), Fault>(e) && final(self)@ == old(self)@,
            },
    {
        match ins {
            Instruction::SetImmediate { x, nn } => {
                self.set_reg(x, nn);
            },
            Instruction::AddImmediate { x, nn } => {
                let sum: u16 = self.v[x as usize] as u16 + nn as u16;
                self.set_reg(x, (sum % 256) as u8);
            },
            Instruction::Move { x, y } => {
                let vy = self.v[y as usize];
                self.set_reg(x, vy);
            },
            Instruction::Or { x, y } => {
                let val = self.v[x as usize] | self.v[y as usize];
                self.set_reg(x, val);
            },
            Instruction::And { x, y } => {
                let val = self.v[x as usize] & self.v[y as usize];
                self.set_reg(x, val);
            },
            Instruction::Xor { x, y } => {
                let val = self.v[x as usize] ^ self.v[y as usize];
                self.set_reg(x, val);
            },
            Instruction::AddRegisters { x, y } => {
                let sum: u16 = self.v[x as usize] as u16 + self.v[y as usize] as u16;
                self.set_reg_flag(x, (sum % 256) as u8, sum > 255);
            },
            Instruction::Subtract { x, y } => {
                let vx = self.v[x as usize];
                let vy = self.v[y as usize];
                let diff: u16 = (vx as u16 + 256 - vy as u16) % 256;
                self.set_reg_flag(x, diff as u8, vx >= vy);
            },
            Instruction::ShiftRight { x, y } => {
                let vx = self.v[x as usize];
                self.set_reg_flag(x, vx / 2, vx % 2 == 1);
            },
            Instruction::SubtractReversed { x, y } => {
                let vx = self.v[x as usize];
                let vy = self.v[y as usize];
                let diff: u16 = (vy as u16 + 256 - vx as u16) % 256;
                self.set_reg_flag(x, diff as u8, vy >= vx);
            },
            Instruction::ShiftLeft { x, y } => {
                let vx = self.v[x as usize];
                let shifted: u16 = (vx as u16 * 2) % 256;
                self.set_reg_flag(x, shifted as u8, vx >= 128);
            },
            Instruction::Random { x, nn } => {
                self.set_reg(x, random & nn);
            },
            _ => {},
        }
        Ok(())
    }

    /// Executes an index, timer, memory or sprite instruction.
    #[verifier::rlimit(40)]
    fn execute_other(&mut self, ins: Instruction, random: u8) -> (r: Result<(), Fault>)
        requires
            old(self).wf(),
            old(self)@.pc <= 0xFFE,
            ins.wf(),
            !is_control(ins),
            !is_arithmetic(ins),
        ensures
            final(self).wf(),
            match old(self)@.step(ins, random) {
                Ok(m) => r is Ok && final(self)@ == m,
                Err(e) => r == Err::<(), Fault>(e) && final(self)@ == old(self)@,
            },
    {
        match ins {
            Instruction::SetIndex { addr } => {
                self.index = addr;
                self.advance();
            },
            Instruction::Draw { x, y, n } => {
                if self.index as usize + n as usize > MEMORY_SIZE {
                    return Err(Fault::MemoryOutOfBounds);
                }
                let vx = self.v[x as usize];
                let vy = self.v[y as usize];
                let hit = blit(&mut self.frame, &self.memory, self.index as usize, n as usize, vx, vy);
                self.v.set(FLAG, if hit { 1 } else { 0 });
                self.draw_flag = true;
                self.advance();
            },
            Instruction::ReadDelayTimer { x } => {
                let t = self.delay_timer;
                self.set_reg(x, t);
            },
            Instruction::SetDelayTimer { x } => {
                self.delay_timer = self.v[x as usize];
                self.advance();
            },
            Instruction::SetSoundTimer { x } => {
                self.sound_timer = self.v[x as usize];
                self.advance();
            },
            Instruction::AddToIndex { x } => {
                self.index = (self.index + self.v[x as usize] as u16) % 0x1000;
                self.advance();
            },
            Instruction::FontGlyph { x } => {
                self.index = (self.v[x as usize] as u16 % 16) * 5;
                self.advance();
            },
            Instruction::StoreBcd { x } => {
                let i = self.index as usize;
                if i + 3 > MEMORY_SIZE {
                    return Err(Fault::MemoryOutOfBounds);
                }
                let val = self.v[x as usize];
                self.memory.set(i, val / 100);
                self.memory.set(i + 1, (val / 10) % 10);
                self.memory.set(i + 2, val % 10);
                self.advance();
            },
            Instruction::StoreRegisters { x } => {
                return self.store_registers(x);
            },
            Instruction::LoadRegisters { x } => {
                return self.load_registers(x);
            },
            _ => {},
        }
        Ok(())
    }

    /// Executes one decoded instruction, `random` standing for the byte that
    /// `CXNN` draws. On a fault the machine is left as it was.
    pub fn execute(&mut self, ins: Instruction, random: u8) -> (r: Result<(), Fault>)
        requires
            old(self).wf(),
        ensures
            final(self).wf(),
            match old(self)@.step(ins, random) {
                Ok(m) => r is Ok && final(self)@ == m,
                Err(e) => r == Err::<(), Fault>(e) && final(self)@ == old(self)@,
            },
    {
        if !ins.is_well_formed() {
            return Err(Fault::InvalidOperand);
        }
        if self.pc > 0xFFE {
            return Err(Fault::ProgramCounterOutOfBounds);
        }
        if is_control_op(&ins) {
            self.execute_control(ins, random)
        } else if is_arithmetic_op(&ins) {
            self.execute_arithmetic(ins, random)
        } else {
            self.execute_other(ins, random)
        }
    }

    /// The opcode stored big-endian at the program counter.
    fn fetch(&self) -> (r: u16)
        requires
            self.wf(),
            self@.pc <= 0xFFE,
        ensures
            r == self@.fetched(),
    {
        let pc = self.pc as usize;
        (self.memory[pc] as u16) * 0x100 + self.memory[pc + 1] as u16
    }

    /// Runs one cycle: fetches the opcode at the program counter, decodes
    /// and executes it, then ticks the timers. `random` is the byte that a
    /// `CXNN` instruction draws. Returns whether the sound timer ran out; on
    /// a fault, including an unknown opcode, the machine is left as it was.
    pub fn cycle(&mut self, random: u8) -> (r: Result<bool, Fault>)
        requires
            old(self).wf(),
        ensures
            final(self).wf(),
            match old(self)@.cycled(random) {
                Ok((m, tone_ends)) => r == Ok::<bool, Fault>(tone_ends) && final(self)@ == m,
                Err(e) => r == Err::<bool, Fault>(e) && final(self)@ == old(self)@,
            },
    {
        if self.pc > 0xFFE {
            return Err(Fault::ProgramCounterOutOfBounds);
        }
        let opcode = self.fetch();
        match decode(opcode) {
            None => Err(Fault::UnknownOpcode { opcode }),
            Some(ins) => match self.execute(ins, random) {
                Ok(()) => Ok(self.tick_timers()),
                Err(e) => Err(e),
            },
        }
    }

    /// One timer tick: each timer above zero counts down by one. Returns
    /// whether the sound timer ran out on this tick.
    pub fn tick_timers(&mut self) -> (tone_ends: bool)
        requires
            old(self).wf(),
        ensures
            final(self).wf(),
            final(self)@ == old(self)@.tick(),
            tone_ends == old(self)@.tone_ends(),
    {
        if self.delay_timer > 0 {
            self.delay_timer = self.delay_timer - 1;
        }
        let tone_ends = self.sound_timer == 1;
        if self.sound_timer > 0 {
            self.sound_timer = self.sound_timer - 1;
        }
        tone_ends
    }

    /// The program counter.
    pub fn program_counter(&self) -> (r: u16)
        ensures
            r == self@.pc,
    {
        self.pc
    }

    /// The index register `I`.
    pub fn index(&self) -> (r: u16)
        ensures
            r == self@.index,
    {
        self.index
    }

    /// Register `Vx`.
    pub fn register(&self, x: usize) -> (r: u8)
        requires
            self.wf(),
            x < 16,
        ensures
            r == self@.v[x as int],
    {
        self.v[x]
    }

    /// The number of return addresses on the stack.
    pub fn stack_pointer(&self) -> (r: usize)
        ensures
            r == self@.stack.len(),
    {
        self.stack.len()
    }

    /// The delay timer.
    pub fn delay_timer(&self) -> (r: u8)
        ensures
            r == self@.delay_timer,
    {
        self.delay_timer
    }

    /// The sound timer.
    pub fn sound_timer(&self) -> (r: u8)
        ensures
            r == self@.sound_timer,
    {
        self.sound_timer
    }

    /// The byte at `addr`.
    pub fn memory_at(&self, addr: usize) -> (r: u8)
        requires
            self.wf(),
            addr < 4096,
        ensures
            r == self@.memory[addr as int],
    {
        self.memory[addr]
    }

    /// The framebuffer cells, `x + y * 64`, each 0 or 1.
    pub fn framebuffer(&self) -> (r: &[u8])
        ensures
            r@ == self@.frame,
    {
        self.frame.as_slice()
    }

    /// Whether key `key` is held down.
    pub fn key_pressed(&self, key: usize) -> (r: bool)
        requires
            self.wf(),
            key < 16,
        ensures
            r == self@.keypad[key as int],
    {
        self.keypad[key]
    }
}

} // verus!
