//! Fatal conditions an emulated program can run into.

use vstd::prelude::*;

verus! {

/// A fatal condition raised while decoding or executing instructions, or
/// while loading a memory image.  Every error aborts the current run and is
/// surfaced to the caller; none is retried.
#[derive(Debug, Clone, Copy, PartialEq, Eq, Structural)]
pub enum EmuError {
    /// The decoder met an opcode byte with no architectural assignment.
    UnknownOpcode(u8),
    /// A push was attempted while the stack pointer was already 0.
    StackOverflow,
    /// A pull was attempted while the stack pointer was already 0xff.
    StackUnderflow,
    /// A supplied memory image exceeds the 64KB address space.
    ImageTooLarge,
    /// A byte stream ended in the middle of an instruction.
    UnexpectedEnd,
}

} // verus!
