use vstd::prelude::*;

use crate::instruction::{decode_spec, Instruction};

verus! {

/// Address at which a program image is loaded and execution starts.
pub const PROGRAM_START: u16 = 0x200;

/// Largest program image that fits between `PROGRAM_START` and the end of memory.
pub const MAX_ROM_LEN: usize = 3584;

/// Framebuffer width in cells.
pub const SCREEN_WIDTH: usize = 64;

/// Framebuffer height in cells.
pub const SCREEN_HEIGHT: usize = 32;

/// Index of the flag register VF.
pub const FLAG: usize = 15;

/// The built-in hexadecimal font: sixteen glyphs of five bytes each.
pub open spec fn font_spec() -> Seq<u8> {
    seq![
        0xF0u8, 0x90, 0x90, 0x90, 0xF0,
        0x20, 0x60, 0x20, 0x20, 0x70,
        0xF0, 0x10, 0xF0, 0x80, 0xF0,
        0xF0, 0x10, 0xF0, 0x10, 0xF0,
        0x90, 0x90, 0xF0, 0x10, 0x10,
        0xF0, 0x80, 0xF0, 0x10, 0xF0,
        0xF0, 0x80, 0xF0, 0x90, 0xF0,
        0xF0, 0x10, 0x20, 0x40, 0x40,
        0xF0, 0x90, 0xF0, 0x90, 0xF0,
        0xF0, 0x90, 0xF0, 0x10, 0xF0,
        0xF0, 0x90, 0xF0, 0x90, 0x90,
        0xE0, 0x90, 0xE0, 0x90, 0xE0,
        0xF0, 0x80, 0x80, 0x80, 0xF0,
        0xE0, 0x90, 0x90, 0x90, 0xE0,
        0xF0, 0x80, 0xF0, 0x80, 0xF0,
        0xF0, 0x80, 0xF0, 0x80, 0x80,
    ]
}

/// An address `step` bytes past `a`, on the 12-bit address bus.
pub open spec fn addr_after(a: u16, step: int) -> u16 {
    ((a + step) % 4096) as u16
}

/// Whether column `col` (0 is leftmost) of a sprite row byte is set.
pub open spec fn sprite_bit(byte: u8, col: int) -> bool {
    (byte >> ((7 - col) as u8)) & 1u8 == 1u8
}

/// The sprite column that lands on cell `c` when the sprite's left edge is at `vx`
/// (the screen wraps horizontally).
pub open spec fn sprite_col(vx: u8, c: int) -> int {
    (c % 64 - vx) % 64
}

/// The sprite row that lands on cell `c` when the sprite's top edge is at `vy`
/// (the screen wraps vertically).
pub open spec fn sprite_row(vy: u8, c: int) -> int {
    (c / 64 - vy) % 32
}

/// The complete state of the machine, as plain mathematical values.
pub struct Machine {
    pub memory: Seq<u8>,
    pub register: Seq<u8>,
    pub index: u16,
    pub pc: u16,
    pub gfx: Seq<u8>,
    pub delay_timer: u8,
    pub sound_timer: u8,
    pub stack: Seq<u16>,
    pub sp: u16,
    pub keypad: Seq<u8>,
    pub draw_flag: bool,
    pub input_flag: bool,
    pub last_key: u8,
}

impl Machine {
    /// Sizes are fixed, and the program counter, the index register and the
    /// stack pointer are in range.
    pub open spec fn wf(self) -> bool {
        &&& self.memory.len() == 4096
        &&& self.register.len() == 16
        &&& self.gfx.len() == 2048
        &&& self.stack.len() == 16
        &&& self.keypad.len() == 16
        &&& self.pc < 4096
        &&& self.index < 4096
        &&& self.sp <= 16
    }

    /// The state right after loading `rom`: font at 0, program at 0x200,
    /// everything else zero.
    pub open spec fn boot(rom: Seq<u8>) -> Machine {
        Machine {
            memory: Seq::new(
                4096,
                |a: int|
                    if a < 80 {
                        font_spec()[a]
                    } else if 512 <= a < 512 + rom.len() {
                        rom[a - 512]
                    } else {
                        0u8
                    },
            ),
            register: Seq::new(16, |i: int| 0u8),
            index: 0,
            pc: PROGRAM_START,
            gfx: Seq::new(2048, |i: int| 0u8),
            delay_timer: 0,
            sound_timer: 0,
            stack: Seq::new(16, |i: int| 0u16),
            sp: 0,
            keypad: Seq::new(16, |i: int| 0u8),
            draw_flag: false,
            input_flag: false,
            last_key: 0,
        }
    }

    /// The instruction word at the program counter, big-endian.
    pub open spec fn fetch(self) -> u16 {
        (self.memory[self.pc as int] as int * 256 + self.memory[addr_after(
            self.pc,
            1,
        ) as int] as int) as u16
    }

    /// Value of register `x`.
    pub open spec fn reg(self, x: u8) -> u8 {
        self.register[x as int]
    }

    /// Whether key `k` is held down; values past 0xF name no key.
    pub open spec fn key_down(self, k: u8) -> bool {
        k < 16 && self.keypad[k as int] != 0
    }

    /// Moves past the current instruction.
    pub open spec fn advance(self) -> Machine {
        Machine { pc: addr_after(self.pc, 2), ..self }
    }

    /// Skips the next instruction when `c` holds, else moves past the current one.
    pub open spec fn skip_if(self, c: bool) -> Machine {
        Machine { pc: addr_after(self.pc, if c { 4 } else { 2 }), ..self }
    }

    /// Sets register `x` to `v` and moves on.
    pub open spec fn set_reg(self, x: u8, v: u8) -> Machine {
        Machine { register: self.register.update(x as int, v), ..self }.advance()
    }

    /// Sets register `x` to `v`, then the flag register to `f`, and moves on.
    pub open spec fn set_reg_flag(self, x: u8, v: u8, f: u8) -> Machine {
        Machine {
            register: self.register.update(x as int, v).update(FLAG as int, f),
            ..self
        }.advance()
    }

    /// Whether the sprite of `n` rows at (`vx`, `vy`) covers cell `c` with a set bit.
    pub open spec fn sprite_hit(self, vx: u8, vy: u8, n: u8, c: int) -> bool {
        let col = sprite_col(vx, c);
        let row = sprite_row(vy, c);
        col < 8 && row < n && sprite_bit(self.memory[addr_after(self.index, row) as int], col)
    }

    /// The framebuffer after XOR-ing the sprite into it.
    pub open spec fn drawn(self, vx: u8, vy: u8, n: u8) -> Seq<u8> {
        Seq::new(
            2048,
            |c: int|
                if self.sprite_hit(vx, vy, n, c) {
                    self.gfx[c] ^ 1u8
                } else {
                    self.gfx[c]
                },
        )
    }

    /// Whether the sprite turns off a cell that was on.
    pub open spec fn collides(self, vx: u8, vy: u8, n: u8) -> bool {
        exists|c: int| 0 <= c < 2048 && #[trigger] self.sprite_hit(vx, vy, n, c) && self.gfx[c] == 1
    }

    /// Memory after storing registers 0..=x from the index register onward.
    pub open spec fn dumped(self, x: u8) -> Seq<u8> {
        Seq::new(
            4096,
            |a: int|
                if (a - self.index) % 4096 <= x {
                    self.register[(a - self.index) % 4096]
                } else {
                    self.memory[a]
                },
        )
    }

    /// Registers after loading 0..=x from memory at the index register onward.
    pub open spec fn loaded(self, x: u8) -> Seq<u8> {
        Seq::new(
            16,
            |k: int|
                if k <= x {
                    self.memory[addr_after(self.index, k) as int]
                } else {
                    self.register[k]
                },
        )
    }

    /// The effect of one instruction; `rnd` is the byte the random source gave.
    ///
    /// Addresses wrap at 4096. A call with all sixteen stack slots in use,
    /// and a return with none, are ignored like an unknown word: the program
    /// counter moves past them and nothing else changes. Register dump and
    /// load leave the index register just past the last byte they touched.
    pub open spec fn execute(self, ins: Instruction, rnd: u8) -> Machine {
        match ins {
            Instruction::ClearScreen => Machine {
                gfx: Seq::new(2048, |c: int| 0u8),
                draw_flag: true,
                ..self
            }.advance(),
            Instruction::Return => if self.sp == 0 {
                self.advance()
            } else {
                Machine {
                    sp: (self.sp - 1) as u16,
                    pc: addr_after(self.stack[self.sp - 1], 2),
                    ..self
                }
            },
            Instruction::Jump { nnn } => Machine { pc: nnn, ..self },
            Instruction::Call { nnn } => if self.sp >= 16 {
                self.advance()
            } else {
                Machine {
                    stack: self.stack.update(self.sp as int, self.pc),
                    sp: (self.sp + 1) as u16,
                    pc: nnn,
                    ..self
                }
            },
            Instruction::SkipIfEqualImm { x, nn } => self.skip_if(self.reg(x) == nn),
            Instruction::SkipIfNotEqualImm { x, nn } => self.skip_if(self.reg(x) != nn),
            Instruction::SkipIfEqualReg { x, y } => self.skip_if(self.reg(x) == self.reg(y)),
            Instruction::SkipIfNotEqualReg { x, y } => self.skip_if(self.reg(x) != self.reg(y)),
            Instruction::SetImm { x, nn } => self.set_reg(x, nn),
            Instruction::AddImm { x, nn } => self.set_reg(x, ((self.reg(x) + nn) % 256) as u8),
            Instruction::Assign { x, y } => self.set_reg(x, self.reg(y)),
            Instruction::Or { x, y } => self.set_reg(x, self.reg(x) | self.reg(y)),
            Instruction::And { x, y } => self.set_reg(x, self.reg(x) & self.reg(y)),
            Instruction::Xor { x, y } => self.set_reg(x, self.reg(x) ^ self.reg(y)),
            Instruction::AddCarry { x, y } => self.set_reg_flag(
                x,
                ((self.reg(x) + self.reg(y)) % 256) as u8,
                if self.reg(x) + self.reg(y) > 255 { 1 } else { 0 },
            ),
            Instruction::Subtract { x, y } => self.set_reg_flag(
                x,
                ((self.reg(x) - self.reg(y)) % 256) as u8,
                if self.reg(x) >= self.reg(y) { 1 } else { 0 },
            ),
            Instruction::SubtractReversed { x, y } => self.set_reg_flag(
                x,
                ((self.reg(y) - self.reg(x)) % 256) as u8,
                if self.reg(y) >= self.reg(x) { 1 } else { 0 },
            ),
            Instruction::ShiftRight { x } => self.set_reg_flag(
                x,
                self.reg(x) / 2,
                self.reg(x) % 2,
            ),
            Instruction::ShiftLeft { x } => self.set_reg_flag(
                x,
                ((self.reg(x) * 2) % 256) as u8,
                self.reg(x) / 128,
            ),
            Instruction::SetIndex { nnn } => Machine { index: nnn, ..self }.advance(),
            Instruction::JumpOffset { nnn } => Machine {
                pc: ((nnn + self.reg(0)) % 4096) as u16,
                ..self
            },
            Instruction::Random { x, nn } => self.set_reg(x, rnd & nn),
            Instruction::Draw { x, y, n } => Machine {
                register: self.register.update(
                    FLAG as int,
                    if self.collides(self.reg(x), self.reg(y), n) { 1u8 } else { 0u8 },
                ),
                gfx: self.drawn(self.reg(x), self.reg(y), n),
                draw_flag: true,
                ..self
            }.advance(),
            Instruction::SkipIfKey { x } => self.skip_if(self.key_down(self.reg(x))),
            Instruction::SkipIfNotKey { x } => self.skip_if(!self.key_down(self.reg(x))),
            Instruction::GetDelay { x } => self.set_reg(x, self.delay_timer),
            Instruction::WaitForKey { x } => if self.input_flag {
                self.set_reg(x, self.last_key)
            } else {
                self
            },
            Instruction::SetDelay { x } => Machine { delay_timer: self.reg(x), ..self }.advance(),
            Instruction::SetSound { x } => Machine { sound_timer: self.reg(x), ..self }.advance(),
            Instruction::FontGlyph { x } => Machine {
                index: (self.reg(x) * 5) as u16,
                ..self
            }.advance(),
            Instruction::Bcd { x } => Machine {
                memory: self.memory.update(self.index as int, self.reg(x) / 100).update(
                    addr_after(self.index, 1) as int,
                    (self.reg(x) / 10) % 10,
                ).update(addr_after(self.index, 2) as int, self.reg(x) % 10),
                ..self
            }.advance(),
            Instruction::RegDump { x } => Machine {
                memory: self.dumped(x),
                index: addr_after(self.index, x + 1),
                ..self
            }.advance(),
            Instruction::RegLoad { x } => Machine {
                register: self.loaded(x),
                index: addr_after(self.index, x + 1),
                ..self
            }.advance(),
            Instruction::Unknown => self.advance(),
        }
    }

    /// Both timers count down by one, stopping at zero.
    pub open spec fn tick(self) -> Machine {
        Machine {
            delay_timer: if self.delay_timer > 0 { (self.delay_timer - 1) as u8 } else { 0 },
            sound_timer: if self.sound_timer > 0 { (self.sound_timer - 1) as u8 } else { 0 },
            ..self
        }
    }

    /// One full cycle: fetch, decode, execute, then count the timers down.
    pub open spec fn cycle(self, rnd: u8) -> Machine {
        self.execute(decode_spec(self.fetch()), rnd).tick()
    }

    /// Whether the instruction at the program counter is a key wait with no
    /// key press signalled, so that a cycle leaves the program counter where it is.
    pub open spec fn waiting_for_key(self) -> bool {
        decode_spec(self.fetch()) is WaitForKey && !self.input_flag
    }
}

} // verus!
