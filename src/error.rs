use vstd::prelude::*;

verus! {

/// A fault reported by the interpreter instead of aborting the host.
///
/// Every operation that returns one of these leaves the machine as it was.
#[derive(Clone, Copy, Debug, PartialEq, Eq, Structural)]
pub enum Chip8Error {
    /// The instruction word matches no known encoding.
    UnknownOpcode { opcode: u16 },
    /// A return was executed with an empty call stack.
    StackUnderflow,
    /// A call was executed with all sixteen stack slots in use.
    StackOverflow,
    /// A memory transfer would reach past the last byte of memory.
    MemoryAccessOutOfRange,
    /// A key index outside `0..=15` was given or read from a register.
    InvalidKeyIndex,
}

} // verus!
