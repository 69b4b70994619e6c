//! The decoder: from a raw byte stream to structured instructions.

use vstd::prelude::*;

use crate::catalog::{decode_op, lemma_decode_op_sound, lemma_opcode_of_sound};
use crate::errors::EmuError;
use crate::instruction::{AddressingMode, Instruction, InstructionRegistry, operand_len_spec};

verus! {

/// What decoding one instruction from `stream` at `pos` yields: the decoded
/// instruction and the position just past it, or the error that stops the
/// decode.  The opcode byte is read first; an unassigned byte is
/// `UnknownOpcode`; then the addressing mode dictates how many operand
/// bytes follow (little-endian for the two-byte modes); a stream that ends
/// inside an instruction is `UnexpectedEnd`.
pub open spec fn spec_decode_at(stream: Seq<u8>, pos: int) -> Result<(Instruction, int), EmuError> {
    if pos >= stream.len() {
        Err(EmuError::UnexpectedEnd)
    } else {
        let op = stream[pos];
        match decode_op(op) {
            None => Err(EmuError::UnknownOpcode(op)),
            Some((name, mode)) => if pos + 1 + operand_len_spec(mode) > stream.len() {
                Err(EmuError::UnexpectedEnd)
            } else {
                let operand: u16 = if operand_len_spec(mode) == 0 {
                    0u16
                } else if operand_len_spec(mode) == 1 {
                    stream[pos + 1] as u16
                } else {
                    (stream[pos + 1] + 256 * stream[pos + 2]) as u16
                };
                Ok(
                    (
                        Instruction { name, addressing_mode: mode, op_code: op, operand },
                        pos + 1 + operand_len_spec(mode),
                    ),
                )
            },
        }
    }
}

/// A successful decode always yields a well-formed instruction and advances
/// the position by the instruction's full width.
pub proof fn lemma_decode_wf(stream: Seq<u8>, pos: int)
    ensures
        spec_decode_at(stream, pos) matches Ok((ins, newpos)) ==> ins.wf() && pos < newpos
            <= stream.len(),
{
    if pos < stream.len() {
        lemma_decode_op_sound(stream[pos]);
    }
}

/// Decoding the encoding of any well-formed instruction reproduces that
/// instruction exactly, consuming exactly its encoding.
pub proof fn lemma_encode_decode_round_trip(ins: Instruction)
    requires
        ins.wf(),
    ensures
        spec_decode_at(ins.encode_spec(), 0) == Ok::<(Instruction, int), EmuError>(
            (ins, ins.encode_spec().len() as int),
        ),
{
    lemma_opcode_of_sound(ins.name, ins.addressing_mode);
    if operand_len_spec(ins.addressing_mode) == 2 {
        assert(ins.operand % 256 + 256 * (ins.operand / 256) == ins.operand);
    }
}

/// A stateless translator from a byte buffer to instructions: it holds the
/// buffer, a cursor, and the instruction registry it consults.  It is
/// usable for pure disassembly of a raw opcode stream; the execution engine
/// fetches its bytes from the bus instead.
pub struct Decoder {
    pub registry: InstructionRegistry,
    pub bytes: Vec<u8>,
    pub pos: usize,
}

impl Decoder {
    /// The registry is intact and the cursor is inside (or just past)
    /// the buffer.
    pub open spec fn wf(&self) -> bool {
        &&& self.registry.wf()
        &&& self.pos <= self.bytes@.len()
    }

    /// A decoder over `bytes`, starting at offset 0.
    pub fn new(bytes: Vec<u8>) -> (r: Decoder)
        ensures
            r.wf(),
            r.bytes == bytes,
            r.pos == 0,
    {
        Decoder { registry: InstructionRegistry::new(), bytes, pos: 0 }
    }

    /// Read a 16-bit little-endian word: the low byte first.
    pub fn next_word(&mut self) -> (r: u16)
        requires
            old(self).wf(),
            old(self).pos + 2 <= old(self).bytes@.len(),
        ensures
            final(self).wf(),
            final(self).bytes == old(self).bytes,
            final(self).registry == old(self).registry,
            final(self).pos == old(self).pos + 2,
            r == old(self).bytes@[old(self).pos as int] + 256 * old(self).bytes@[old(self).pos
                + 1],
    {
        let n: usize = self.bytes.len();
        proof {
            assert(self.pos + 2 <= n);
        }
        let lower = self.bytes[self.pos] as u16;
        let higher = self.bytes[self.pos + 1] as u16;
        self.pos = self.pos + 2;
        lower + 256 * higher
    }

    /// Decode the next instruction from the buffer.  On success the cursor
    /// moves past the instruction; on failure it stays put.
    pub fn decode_next(&mut self) -> (r: Result<Instruction, EmuError>)
        requires
            old(self).wf(),
        ensures
            final(self).wf(),
            final(self).bytes == old(self).bytes,
            final(self).registry == old(self).registry,
            (match spec_decode_at(old(self).bytes@, old(self).pos as int) {
                Ok((ins, newpos)) => r == Ok::<Instruction, EmuError>(ins) && ins.wf()
                    && final(self).pos == newpos,
                Err(e) => r == Err::<Instruction, EmuError>(e) && final(self).pos == old(self).pos,
            }),
    {
        proof {
            lemma_decode_wf(self.bytes@, self.pos as int);
        }
        if self.pos >= self.bytes.len() {
            return Err(EmuError::UnexpectedEnd);
        }
        let op = self.bytes[self.pos];
        let mut instruction = match self.registry.get_instruction_by_op_code(op, 0) {
            Some(i) => i,
            None => {
                return Err(EmuError::UnknownOpcode(op));
            },
        };
        let remaining = self.bytes.len() - self.pos;
        match instruction.addressing_mode {
            AddressingMode::Implicit | AddressingMode::Accumulator => {
                self.pos = self.pos + 1;
            },
            AddressingMode::Immediate
            | AddressingMode::ZeroPage
            | AddressingMode::ZeroPageX
            | AddressingMode::ZeroPageY
            | AddressingMode::Relative
            | AddressingMode::IndirectX
            | AddressingMode::IndirectY => {
                if remaining < 2 {
                    return Err(EmuError::UnexpectedEnd);
                }
                instruction.operand = self.bytes[self.pos + 1] as u16;
                self.pos = self.pos + 2;
            },
            AddressingMode::Absolute
            | AddressingMode::AbsoluteX
            | AddressingMode::AbsoluteY
            | AddressingMode::Indirect => {
                if remaining < 3 {
                    return Err(EmuError::UnexpectedEnd);
                }
                let lower = self.bytes[self.pos + 1] as u16;
                let higher = self.bytes[self.pos + 2] as u16;
                instruction.operand = lower + 256 * higher;
                self.pos = self.pos + 3;
            },
        }
        Ok(instruction)
    }
}

} // verus!
