//! Fatal conditions of the machine.

use vstd::prelude::*;

verus! {

/// A condition that stops the machine. None of them is retried: the
/// interpreted program is deterministic, so the same cycle would fail again.
#[derive(Clone, Copy, Debug, PartialEq, Eq, Structural)]
pub enum Chip8Error {
    /// The program does not fit between the program start and the end of memory.
    RomTooLarge,
    /// The fetched opcode has no defined meaning; `pc` is where it was fetched.
    UnimplementedInstruction { opcode: u16, pc: u16 },
    /// A call was made with all sixteen stack slots in use.
    StackOverflow,
    /// A return was made with no call outstanding.
    StackUnderflow,
    /// An address outside the 12-bit address space was about to be accessed.
    AddressOutOfBounds,
}

} // verus!
