//! An interpreter core for the CHIP-8 virtual instruction set.
//!
//! The machine state, the fetch/decode/execute engine and the timer clock
//! live here; rendering, input polling and ROM loading from disk are left to
//! the caller.

mod error;
mod font;
mod instruction;
mod keypad;
mod laws;
mod machine;
mod semantics;

pub use error::Chip8Error;
pub use font::font_spec;
pub use instruction::{decode, Instruction};
pub use semantics::KeyWaitPolicy;
pub use keypad::{HostKey, KeyValue};
pub use machine::{KeyWait, MachineState, VirtualMachine, SCREEN_HEIGHT, SCREEN_WIDTH};
