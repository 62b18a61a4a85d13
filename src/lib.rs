//! A CHIP-8 interpreter core: machine state, instruction decoding and the
//! semantics of every instruction, each proved against a mathematical model.

pub mod cpu;
pub mod instruction;
pub mod laws;
pub mod machine;

pub use cpu::{LoadError, Progress, CPU};
pub use instruction::{decode, Instruction};
pub use machine::{SCREEN_HEIGHT, SCREEN_WIDTH};
