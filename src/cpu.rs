use vstd::prelude::*;

use rand::Rng;

use crate::instruction::{decode, decode_spec, word_from_bytes, Instruction};
use crate::machine::{
    addr_after, font_spec, sprite_bit, sprite_col, sprite_row, Machine, FLAG, MAX_ROM_LEN,
    PROGRAM_START,
};

verus! {

/// Why a program image could not be loaded.
#[derive(Clone, Copy, Debug, PartialEq, Eq, Structural)]
pub enum LoadError {
    /// The image does not fit between 0x200 and the end of memory.
    RomTooLarge,
}

/// What a cycle did with the program counter.
#[derive(Clone, Copy, Debug, PartialEq, Eq, Structural)]
pub enum Progress {
    /// The instruction ran and execution moved on (or jumped).
    Executed,
    /// A key wait found no key press and left the program counter in place;
    /// the host retries by cycling again.
    WaitingForKey,
}

/// A CHIP-8 machine: memory, registers, timers, stack, keypad and framebuffer.
pub struct CPU {
    memory: [u8; 4096],
    register: [u8; 16],
    index_register: u16,
    pc: u16,
    gfx: [u8; 2048],
    delay_timer: u8,
    sound_timer: u8,
    stack: [u16; 16],
    sp: u16,
    keypad: [u8; 16],
    draw_flag: bool,
    input_flag: bool,
    last_key: u8,
}

/// Relies on rand::thread_rng and rand::Rng::gen: one byte from the
/// thread-local generator, which may be any value.
#[verifier::external_body]
fn random_byte() -> (r: u8) {
    rand::thread_rng().gen::<u8>()
}

fn font() -> (r: [u8; 80])
    ensures
        r@ == font_spec(),
{
    let r: [u8; 80] = [
        0xF0, 0x90, 0x90, 0x90, 0xF0,
        0x20, 0x60, 0x20, 0x20, 0x70,
        0xF0, 0x10, 0xF0, 0x80, 0xF0,
        0xF0, 0x10, 0xF0, 0x10, 0xF0,
        0x90, 0x90, 0xF0, 0x10, 0x10,
        0xF0, 0x80, 0xF0, 0x10, 0xF0,
        0xF0, 0x80, 0xF0, 0x90, 0xF0,
        0xF0, 0x10, 0x20, 0x40, 0x40,
        0xF0, 0x90, 0xF0, 0x90, 0xF0,
        0xF0, 0x90, 0xF0, 0x10, 0xF0,
        0xF0, 0x90, 0xF0, 0x90, 0x90,
        0xE0, 0x90, 0xE0, 0x90, 0xE0,
        0xF0, 0x80, 0x80, 0x80, 0xF0,
        0xE0, 0x90, 0x90, 0x90, 0xE0,
        0xF0, 0x80, 0xF0, 0x80, 0xF0,
        0xF0, 0x80, 0xF0, 0x80, 0x80,
    ];
    assert(r@ =~= font_spec());
    r
}

impl View for CPU {
    type V = Machine;

    closed spec fn view(&self) -> Machine {
        Machine {
            memory: self.memory@,
            register: self.register@,
            index: self.index_register,
            pc: self.pc,
            gfx: self.gfx@,
            delay_timer: self.delay_timer,
            sound_timer: self.sound_timer,
            stack: self.stack@,
            sp: self.sp,
            keypad: self.keypad@,
            draw_flag: self.draw_flag,
            input_flag: self.input_flag,
            last_key: self.last_key,
        }
    }
}

impl CPU {
    #[verifier::type_invariant]
    closed spec fn well_formed(self) -> bool {
        self@.wf()
    }

    /// Loads `rom` at 0x200 beside the built-in font; fails exactly when the
    /// image is longer than 4096 - 512 bytes.
    pub fn new(rom: &[u8]) -> (r: Result<CPU, LoadError>)
        ensures
            r is Ok <==> rom@.len() <= MAX_ROM_LEN,
            r matches Ok(c) ==> c@ == Machine::boot(rom@),
    {
        if rom.len() > MAX_ROM_LEN {
            return Err(LoadError::RomTooLarge);
        }
        let glyphs = font();
        let mut memory: [u8; 4096] = [0u8; 4096];
        let mut i: usize = 0;
        while i < 80
            invariant
                i <= 80,
                glyphs@ == font_spec(),
                forall|a: int| 0 <= a < i ==> memory@[a] == font_spec()[a],
                forall|a: int| i <= a < 4096 ==> memory@[a] == 0u8,
            decreases 80 - i,
        {
            memory[i] = glyphs[i];
            i += 1;
        }
        let mut j: usize = 0;
        while j < rom.len()
            invariant
                j <= rom@.len(),
                rom@.len() <= MAX_ROM_LEN,
                forall|a: int| 0 <= a < 80 ==> memory@[a] == font_spec()[a],
                forall|a: int| 512 <= a < 512 + j ==> memory@[a] == rom@[a - 512],
                forall|a: int| 80 <= a < 512 ==> memory@[a] == 0u8,
                forall|a: int| 512 + j <= a < 4096 ==> memory@[a] == 0u8,
            decreases rom@.len() - j,
        {
            memory[512 + j] = rom[j];
            j += 1;
        }
        let c = CPU {
            memory,
            register: [0u8; 16],
            index_register: 0,
            pc: PROGRAM_START,
            gfx: [0u8; 2048],
            delay_timer: 0,
            sound_timer: 0,
            stack: [0u16; 16],
            sp: 0,
            keypad: [0u8; 16],
            draw_flag: false,
            input_flag: false,
            last_key: 0,
        };
        assert(c@.memory =~= Machine::boot(rom@).memory);
        assert(c@.register =~= Machine::boot(rom@).register);
        assert(c@.gfx =~= Machine::boot(rom@).gfx);
        assert(c@.stack =~= Machine::boot(rom@).stack);
        assert(c@.keypad =~= Machine::boot(rom@).keypad);
        Ok(c)
    }

    /// The program counter.
    pub fn pc(&self) -> (r: u16)
        ensures
            r == self@.pc,
    {
        self.pc
    }

    /// Value of register `x` (VF is register 15).
    pub fn register(&self, x: usize) -> (r: u8)
        requires
            x < 16,
        ensures
            r == self@.register[x as int],
    {
        self.register[x]
    }

    /// The index register I.
    pub fn index_register(&self) -> (r: u16)
        ensures
            r == self@.index,
    {
        self.index_register
    }

    /// The byte at memory address `addr`.
    pub fn memory_at(&self, addr: usize) -> (r: u8)
        requires
            addr < 4096,
        ensures
            r == self@.memory[addr as int],
    {
        self.memory[addr]
    }

    /// The stack pointer: how many return addresses are on the stack.
    pub fn stack_pointer(&self) -> (r: u16)
        ensures
            r == self@.sp,
    {
        self.sp
    }

    /// The delay timer.
    pub fn delay_timer(&self) -> (r: u8)
        ensures
            r == self@.delay_timer,
    {
        self.delay_timer
    }

    /// The sound timer; the host sounds a tone while it is nonzero.
    pub fn sound_timer(&self) -> (r: u8)
        ensures
            r == self@.sound_timer,
    {
        self.sound_timer
    }

    /// The framebuffer, row-major: cell (x, y) is at `y * 64 + x`.
    pub fn gfx(&self) -> (r: &[u8; 2048])
        ensures
            r@ == self@.gfx,
    {
        &self.gfx
    }

    /// Whether the framebuffer was redrawn since the host last cleared the
    /// flag; the machine sets it and never clears it itself.
    pub fn draw_flag(&self) -> (r: bool)
        ensures
            r == self@.draw_flag,
    {
        self.draw_flag
    }

    /// Marks the current framebuffer as shown.
    pub fn clear_draw_flag(&mut self)
        ensures
            final(self)@ == (Machine { draw_flag: false, ..old(self)@ }),
    {
        proof {
            use_type_invariant(&*self);
        }
        self.draw_flag = false;
    }

    /// Whether key `key` is held down.
    pub fn is_key_down(&self, key: u8) -> (r: bool)
        ensures
            r == self@.key_down(key),
    {
        self.key_down(key)
    }

    /// Signals a fresh press of `key`: the key is down, and it becomes the
    /// key that a pending key wait receives.
    pub fn press_key(&mut self, key: u8)
        requires
            key < 16,
        ensures
            final(self)@ == (Machine {
                keypad: old(self)@.keypad.update(key as int, 1),
                input_flag: true,
                last_key: key,
                ..old(self)@
            }),
    {
        proof {
            use_type_invariant(&*self);
        }
        self.keypad[key as usize] = 1;
        self.input_flag = true;
        self.last_key = key;
    }

    /// Signals that `key` is no longer held down.
    pub fn release_key(&mut self, key: u8)
        requires
            key < 16,
        ensures
            final(self)@ == (Machine { keypad: old(self)@.keypad.update(key as int, 0), ..old(self)@ }),
    {
        proof {
            use_type_invariant(&*self);
        }
        self.keypad[key as usize] = 0;
    }

    /// Withdraws the pending key press, so that a key wait waits for the next one.
    pub fn clear_input(&mut self)
        ensures
            final(self)@ == (Machine { input_flag: false, ..old(self)@ }),
    {
        proof {
            use_type_invariant(&*self);
        }
        self.input_flag = false;
    }

    /// Runs one cycle with a byte drawn from the thread-local random
    /// generator as the random source.
    pub fn cycle(&mut self)
        ensures
            exists|rnd: u8| final(self)@ == old(self)@.cycle(rnd),
    {
        let rnd = random_byte();
        self.step(rnd);
    }

    /// Runs one cycle: fetches the word at the program counter, executes it
    /// (with `rnd` as the random byte, used only by CXNN), then counts both
    /// timers down by one, stopping at zero.
    pub fn step(&mut self, rnd: u8) -> (r: Progress)
        ensures
            final(self)@ == old(self)@.cycle(rnd),
            (r == Progress::WaitingForKey) == old(self)@.waiting_for_key(),
    {
        proof {
            use_type_invariant(&*self);
        }
        let hi = self.memory[self.pc as usize];
        let lo = self.memory[((self.pc + 1) % 4096) as usize];
        let word = word_from_bytes(hi, lo);
        let ins = decode(word);
        let waiting = match ins {
            Instruction::WaitForKey { .. } => !self.input_flag,
            _ => false,
        };
        self.execute(ins, rnd);
        self.tick();
        if waiting {
            Progress::WaitingForKey
        } else {
            Progress::Executed
        }
    }

    fn tick(&mut self)
        ensures
            final(self)@ == old(self)@.tick(),
    {
        proof {
            use_type_invariant(&*self);
        }
        if self.delay_timer > 0 {
            self.delay_timer = self.delay_timer - 1;
        }
        if self.sound_timer > 0 {
            self.sound_timer = self.sound_timer - 1;
        }
    }

    fn advance(&mut self)
        ensures
            final(self)@ == old(self)@.advance(),
    {
        proof {
            use_type_invariant(&*self);
        }
        self.pc = (self.pc + 2) % 4096;
    }

    fn skip_if(&mut self, c: bool)
        ensures
            final(self)@ == old(self)@.skip_if(c),
    {
        proof {
            use_type_invariant(&*self);
        }
        if c {
            self.pc = (self.pc + 4) % 4096;
        } else {
            self.pc = (self.pc + 2) % 4096;
        }
    }

    fn set_reg(&mut self, x: u8, v: u8)
        requires
            x < 16,
        ensures
            final(self)@ == old(self)@.set_reg(x, v),
    {
        proof {
            use_type_invariant(&*self);
        }
        self.register[x as usize] = v;
        self.advance();
    }

    fn set_reg_flag(&mut self, x: u8, v: u8, f: u8)
        requires
            x < 16,
        ensures
            final(self)@ == old(self)@.set_reg_flag(x, v, f),
    {
        proof {
            use_type_invariant(&*self);
        }
        self.register[x as usize] = v;
        self.register[FLAG] = f;
        self.advance();
    }

    /// Executes one decoded instruction.
    fn execute(&mut self, ins: Instruction, rnd: u8)
        requires
            ins.wf(),
        ensures
            final(self)@ == old(self)@.execute(ins, rnd),
    {
        proof {
            use_type_invariant(&*self);
        }
        match ins {
            Instruction::ClearScreen => self.clear_screen(),
            Instruction::Return => self.ret(),
            Instruction::Jump { nnn } => {
                self.pc = nnn;
            },
            Instruction::Call { nnn } => self.call(nnn),
            Instruction::SkipIfEqualImm { x, nn } => {
                let c = self.register[x as usize] == nn;
                self.skip_if(c);
            },
            Instruction::SkipIfNotEqualImm { x, nn } => {
                let c = self.register[x as usize] != nn;
                self.skip_if(c);
            },
            Instruction::SkipIfEqualReg { x, y } => {
                let c = self.register[x as usize] == self.register[y as usize];
                self.skip_if(c);
            },
            Instruction::SkipIfNotEqualReg { x, y } => {
                let c = self.register[x as usize] != self.register[y as usize];
                self.skip_if(c);
            },
            Instruction::SetImm { x, nn } => self.set_reg(x, nn),
            Instruction::AddImm { x, nn } => {
                let v = self.register[x as usize].wrapping_add(nn);
                self.set_reg(x, v);
            },
            Instruction::Assign { x, y } => {
                let v = self.register[y as usize];
                self.set_reg(x, v);
            },
            Instruction::Or { x, y } => {
                let v = self.register[x as usize] | self.register[y as usize];
                self.set_reg(x, v);
            },
            Instruction::And { x, y } => {
                let v = self.register[x as usize] & self.register[y as usize];
                self.set_reg(x, v);
            },
            Instruction::Xor { x, y } => {
                let v = self.register[x as usize] ^ self.register[y as usize];
                self.set_reg(x, v);
            },
            Instruction::AddCarry { x, y } => self.add_carry(x, y),
            Instruction::Subtract { x, y } => self.subtract(x, y),
            Instruction::SubtractReversed { x, y } => self.y_sub_x(x, y),
            Instruction::ShiftRight { x } => {
                let vx = self.register[x as usize];
                self.set_reg_flag(x, vx / 2, vx % 2);
            },
            Instruction::ShiftLeft { x } => {
                let vx = self.register[x as usize];
                self.set_reg_flag(x, vx.wrapping_mul(2), vx / 128);
            },
            Instruction::SetIndex { nnn } => {
                self.index_register = nnn;
                self.advance();
            },
            Instruction::JumpOffset { nnn } => {
                self.pc = (nnn + self.register[0] as u16) % 4096;
            },
            Instruction::Random { x, nn } => self.set_reg(x, rnd & nn),
            Instruction::Draw { x, y, n } => self.draw_sprite(x, y, n),
            Instruction::SkipIfKey { x } => {
                let c = self.key_down(self.register[x as usize]);
                self.skip_if(c);
            },
            Instruction::SkipIfNotKey { x } => {
                let c = !self.key_down(self.register[x as usize]);
                self.skip_if(c);
            },
            Instruction::GetDelay { x } => {
                let v = self.delay_timer;
                self.set_reg(x, v);
            },
            Instruction::WaitForKey { x } => self.wait_for_input(x),
            Instruction::SetDelay { x } => {
                self.delay_timer = self.register[x as usize];
                self.advance();
            },
            Instruction::SetSound { x } => {
                self.sound_timer = self.register[x as usize];
                self.advance();
            },
            Instruction::FontGlyph { x } => {
                self.index_register = self.register[x as usize] as u16 * 5;
                self.advance();
            },
            Instruction::Bcd { x } => self.get_bcd(x),
            Instruction::RegDump { x } => self.reg_dump(x),
            Instruction::RegLoad { x } => self.reg_load(x),
            Instruction::Unknown => self.advance(),
        }
    }

    fn clear_screen(&mut self)
        ensures
            final(self)@ == old(self)@.execute(Instruction::ClearScreen, 0),
    {
        proof {
            use_type_invariant(&*self);
        }
        self.gfx = [0u8; 2048];
        self.draw_flag = true;
        proof {
            assert(self.gfx@ =~= Seq::new(2048, |c: int| 0u8));
        }
        self.advance();
    }

    fn ret(&mut self)
        ensures
            final(self)@ == old(self)@.execute(Instruction::Return, 0),
    {
        proof {
            use_type_invariant(&*self);
        }
        if self.sp == 0 {
            self.advance();
        } else {
            self.sp = self.sp - 1;
            self.pc = ((self.stack[self.sp as usize] as u32 + 2) % 4096) as u16;
        }
    }

    fn call(&mut self, nnn: u16)
        requires
            nnn < 4096,
        ensures
            final(self)@ == old(self)@.execute(Instruction::Call { nnn }, 0),
    {
        proof {
            use_type_invariant(&*self);
        }
        if self.sp >= 16 {
            self.advance();
        } else {
            self.stack[self.sp as usize] = self.pc;
            self.sp = self.sp + 1;
            self.pc = nnn;
        }
    }

    fn add_carry(&mut self, x: u8, y: u8)
        requires
            x < 16,
            y < 16,
        ensures
            final(self)@ == old(self)@.execute(Instruction::AddCarry { x, y }, 0),
    {
        let vx = self.register[x as usize];
        let vy = self.register[y as usize];
        let carry: u8 = if vy > 255 - vx { 1 } else { 0 };
        self.set_reg_flag(x, vx.wrapping_add(vy), carry);
    }

    fn subtract(&mut self, x: u8, y: u8)
        requires
            x < 16,
            y < 16,
        ensures
            final(self)@ == old(self)@.execute(Instruction::Subtract { x, y }, 0),
    {
        let vx = self.register[x as usize];
        let vy = self.register[y as usize];
        let no_borrow: u8 = if vx >= vy { 1 } else { 0 };
        self.set_reg_flag(x, vx.wrapping_sub(vy), no_borrow);
    }

    fn y_sub_x(&mut self, x: u8, y: u8)
        requires
            x < 16,
            y < 16,
        ensures
            final(self)@ == old(self)@.execute(Instruction::SubtractReversed { x, y }, 0),
    {
        let vx = self.register[x as usize];
        let vy = self.register[y as usize];
        let no_borrow: u8 = if vy >= vx { 1 } else { 0 };
        self.set_reg_flag(x, vy.wrapping_sub(vx), no_borrow);
    }

    fn key_down(&self, k: u8) -> (r: bool)
        ensures
            r == self@.key_down(k),
    {
        k < 16 && self.keypad[k as usize] != 0
    }

    fn wait_for_input(&mut self, x: u8)
        requires
            x < 16,
        ensures
            final(self)@ == old(self)@.execute(Instruction::WaitForKey { x }, 0),
    {
        if self.input_flag {
            let k = self.last_key;
            self.set_reg(x, k);
        }
    }

    fn get_bcd(&mut self, x: u8)
        requires
            x < 16,
        ensures
            final(self)@ == old(self)@.execute(Instruction::Bcd { x }, 0),
    {
        proof {
            use_type_invariant(&*self);
        }
        let v = self.register[x as usize];
        let i = self.index_register;
        self.memory[i as usize] = v / 100;
        self.memory[((i + 1) % 4096) as usize] = (v / 10) % 10;
        self.memory[((i + 2) % 4096) as usize] = v % 10;
        self.advance();
    }

    fn draw_sprite(&mut self, x: u8, y: u8, n: u8)
        requires
            x < 16,
            y < 16,
            n < 16,
        ensures
            final(self)@ == old(self)@.execute(Instruction::Draw { x, y, n }, 0),
    {
        proof {
            use_type_invariant(&*self);
        }
        let ghost m = self@;
        let vx = self.register[x as usize];
        let vy = self.register[y as usize];
        let mut collision = false;
        let mut row: u8 = 0;
        while row < n
            invariant
                m.wf(),
                n < 16,
                row <= n,
                vx == m.reg(x),
                vy == m.reg(y),
                self@ == (Machine { gfx: self.gfx@, ..m }),
                forall|c: int|
                    0 <= c < 2048 ==> #[trigger] self.gfx@[c] == if painted(m, vx, vy, n, row, 0, c) {
                        m.gfx[c] ^ 1u8
                    } else {
                        m.gfx[c]
                    },
                collision == exists|c: int|
                    0 <= c < 2048 && #[trigger] painted(m, vx, vy, n, row, 0, c) && m.gfx[c] == 1,
            decreases n - row,
        {
            let byte = self.memory[((self.index_register + row as u16) % 4096) as usize];
            let mut col: u8 = 0;
            while col < 8
                invariant
                    m.wf(),
                    n < 16,
                    row < n,
                    col <= 8,
                    vx == m.reg(x),
                    vy == m.reg(y),
                    byte == m.memory[addr_after(m.index, row as int) as int],
                    self@ == (Machine { gfx: self.gfx@, ..m }),
                    forall|c: int|
                        0 <= c < 2048 ==> #[trigger] self.gfx@[c] == if painted(
                            m,
                            vx,
                            vy,
                            n,
                            row,
                            col,
                            c,
                        ) {
                            m.gfx[c] ^ 1u8
                        } else {
                            m.gfx[c]
                        },
                    collision == exists|c: int|
                        0 <= c < 2048 && #[trigger] painted(m, vx, vy, n, row, col, c) && m.gfx[c]
                            == 1,
                decreases 8 - col,
            {
                let pos = ((vx as usize + col as usize) % 64) + ((vy as usize + row as usize) % 32)
                    * 64;
                proof {
                    lemma_cell(vx, vy, row, col, pos as int);
                }
                let bit = (byte >> (7 - col)) & 1 == 1;
                let ghost before = self.gfx@;
                if bit {
                    if self.gfx[pos] == 1 {
                        collision = true;
                    }
                    self.gfx[pos] = self.gfx[pos] ^ 1;
                }
                proof {
                    assert(bit == sprite_bit(byte, col as int));
                    assert forall|c: int| 0 <= c < 2048 implies painted(m, vx, vy, n, row, (col + 1) as u8, c)
                        == (painted(m, vx, vy, n, row, col, c) || (c == pos && bit)) by {
                        lemma_cell(vx, vy, row, col, c);
                    }
                    if collision {
                        if !(exists|c: int|
                            0 <= c < 2048 && #[trigger] painted(m, vx, vy, n, row, col, c) && m.gfx[c] == 1) {
                            assert(painted(m, vx, vy, n, row, (col + 1) as u8, pos as int));
                        }
                    } else {
                        assert forall|c: int|
                            0 <= c < 2048 && #[trigger] painted(m, vx, vy, n, row, (col + 1) as u8, c) implies m.gfx[c] != 1 by {
                            assert(painted(m, vx, vy, n, row, col, c) || (c == pos && bit));
                        }
                    }
                }
                col += 1;
            }
            proof {
                assert forall|c: int| 0 <= c < 2048 implies painted(m, vx, vy, n, row, 8, c)
                    == #[trigger] painted(m, vx, vy, n, (row + 1) as u8, 0, c) by {}
                if collision {
                    let w = choose|c: int|
                        0 <= c < 2048 && #[trigger] painted(m, vx, vy, n, row, 8, c) && m.gfx[c] == 1;
                    assert(painted(m, vx, vy, n, (row + 1) as u8, 0, w));
                }
            }
            row += 1;
        }
        proof {
            assert forall|c: int| 0 <= c < 2048 implies #[trigger] painted(m, vx, vy, n, n, 0, c)
                == m.sprite_hit(vx, vy, n, c) by {}
            if collision {
                let w = choose|c: int|
                    0 <= c < 2048 && #[trigger] painted(m, vx, vy, n, n, 0, c) && m.gfx[c] == 1;
                assert(m.sprite_hit(vx, vy, n, w));
            } else {
                assert forall|c: int| 0 <= c < 2048 && #[trigger] m.sprite_hit(vx, vy, n, c)
                    implies m.gfx[c] != 1 by {
                    assert(painted(m, vx, vy, n, n, 0, c));
                }
            }
            assert(collision == m.collides(vx, vy, n));
            assert(self.gfx@ =~= m.drawn(vx, vy, n));
        }
        self.register[FLAG] = if collision { 1 } else { 0 };
        self.draw_flag = true;
        self.advance();
    }

    fn reg_dump(&mut self, x: u8)
        requires
            x < 16,
        ensures
            final(self)@ == old(self)@.execute(Instruction::RegDump { x }, 0),
    {
        proof {
            use_type_invariant(&*self);
        }
        let ghost m = self@;
        let mut k: u8 = 0;
        while k <= x
            invariant
                m.wf(),
                x < 16,
                k <= x + 1,
                self@ == (Machine { memory: self.memory@, ..m }),
                forall|a: int|
                    0 <= a < 4096 ==> #[trigger] self.memory@[a] == if (a - m.index) % 4096 < k {
                        m.register[(a - m.index) % 4096]
                    } else {
                        m.memory[a]
                    },
            decreases x + 1 - k,
        {
            let a = ((self.index_register as usize) + (k as usize)) % 4096;
            self.memory[a] = self.register[k as usize];
            proof {
                assert forall|b: int| 0 <= b < 4096 implies #[trigger] ((b - m.index) % 4096) == k <==> b == a by {
                    lemma_offset(m.index as int, k as int, b);
                }
            }
            k += 1;
        }
        proof {
            assert(self.memory@ =~= m.dumped(x));
        }
        self.index_register = (self.index_register + x as u16 + 1) % 4096;
        self.advance();
    }

    fn reg_load(&mut self, x: u8)
        requires
            x < 16,
        ensures
            final(self)@ == old(self)@.execute(Instruction::RegLoad { x }, 0),
    {
        proof {
            use_type_invariant(&*self);
        }
        let ghost m = self@;
        let mut k: u8 = 0;
        while k <= x
            invariant
                m.wf(),
                x < 16,
                k <= x + 1,
                self@ == (Machine { register: self.register@, ..m }),
                forall|j: int|
                    0 <= j < 16 ==> #[trigger] self.register@[j] == if j < k {
                        m.memory[addr_after(m.index, j) as int]
                    } else {
                        m.register[j]
                    },
            decreases x + 1 - k,
        {
            let a = ((self.index_register as usize) + (k as usize)) % 4096;
            self.register[k as usize] = self.memory[a];
            k += 1;
        }
        proof {
            assert(self.register@ =~= m.loaded(x));
        }
        self.index_register = (self.index_register + x as u16 + 1) % 4096;
        self.advance();
    }
}

/// Whether cell `c` has been visited with a set sprite bit once the draw loop
/// has reached row `row`, column `col`.
spec fn painted(m: Machine, vx: u8, vy: u8, n: u8, row: u8, col: u8, c: int) -> bool {
    &&& m.sprite_hit(vx, vy, n, c)
    &&& (sprite_row(vy, c) < row || (sprite_row(vy, c) == row && sprite_col(vx, c) < col))
}

/// The cell that the draw loop writes for row `row`, column `col` lies on
/// screen, is the only cell with that sprite row and column, and has them.
proof fn lemma_cell(vx: u8, vy: u8, row: u8, col: u8, c: int)
    requires
        row < 32,
        col < 8,
    ensures
        ({
            let pos = (vx + col) % 64 + ((vy + row) % 32) * 64;
            &&& 0 <= pos < 2048
            &&& sprite_row(vy, pos) == row
            &&& sprite_col(vx, pos) == col
            &&& (0 <= c < 2048 ==> ((sprite_row(vy, c) == row && sprite_col(vx, c) == col) <==> c
                == pos))
        }),
{
    let pos = (vx + col) % 64 + ((vy + row) % 32) * 64;
    assert(pos % 64 == (vx + col) % 64);
    assert(pos / 64 == (vy + row) % 32);
}

/// Within the 12-bit address space, `b` lies `k` bytes past `i` exactly when
/// it is `(i + k) % 4096`.
proof fn lemma_offset(i: int, k: int, b: int)
    requires
        0 <= i < 4096,
        0 <= k < 4096,
        0 <= b < 4096,
    ensures
        ((b - i) % 4096 == k) == (b == (i + k) % 4096),
{
}

} // verus!
