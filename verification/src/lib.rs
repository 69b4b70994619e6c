//! A verified emulator for a classic 8-bit microprocessor.
//!
//! The crate models a 64KB byte-addressable bus, a register file with
//! status flags, the instruction catalog (opcode <-> mnemonic/addressing
//! mode table), a decoder from byte streams to structured instructions,
//! and the fetch/decode/execute engine itself.  Every executable function
//! carries a contract relating it to a mathematical model of the machine.

pub mod bus;
pub mod catalog;
pub mod decoder;
pub mod emulator;
pub mod errors;
pub mod instruction;
pub mod mem;
pub mod readwritable;
pub mod regs;
