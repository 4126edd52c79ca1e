//! Conditions the machine reports to its caller instead of acting on them.

use vstd::prelude::*;

verus! {

#[derive(Clone, Copy, Debug, PartialEq, Eq, Structural)]
pub enum Chip8Error {
    /// A memory or stack address lies outside the storage it indexes.
    BoundsViolation,
    /// A call was attempted with all sixteen stack slots in use.
    StackOverflow,
    /// A return was attempted with an empty stack.
    StackUnderflow,
    /// The fetched word matches no instruction; the word is carried along.
    UnknownOpcode(u16),
    /// A program image does not fit between the program origin and the end of memory.
    ProgramTooLarge,
}

} // verus!
