//! A Chip-8 interpreter, modelled as if it were a real CPU architecture.
//!
//! The interpreter's state ([CPU]), its memory ([Mem]), the display ([Screen]),
//! the instruction decoder ([Insn]) and the disassemblers are verified against
//! the specifications stated in their contracts.

pub mod bus;
pub mod cpu;
pub mod dump;
pub mod error;
pub mod gui;
pub mod keypad;
pub mod mem;
pub mod screen;
pub mod text;
pub mod traits;
pub mod tree;

pub use cpu::{
    flags::Flags, instruction::disassembler::{Dis, Disassembler}, mode::Mode, quirks::Quirks, CPU,
};
pub use error::{Error, Result};
pub use screen::Screen;
pub use traits::{AutoCast, FallibleAutoCast, Grab};
