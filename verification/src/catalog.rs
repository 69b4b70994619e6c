//! The instruction catalog: the architectural assignment of opcode bytes to
//! (mnemonic, addressing mode) pairs, as specification-level data, together
//! with the constant-time opcode lookup and the proofs that the encode and
//! decode directions of the table agree.

use vstd::prelude::*;

use crate::instruction::{AddressingMode, InstructionName};

verus! {

/// The complete encoding table, per mnemonic: the addressing modes it
/// supports, each paired with its unique opcode byte.  This sequence is the
/// declarative source of truth for the whole catalog.
pub open spec fn spec_modes_of(name: InstructionName) -> Seq<(AddressingMode, u8)> {
    match name {
        InstructionName::lda => seq![(AddressingMode::Immediate, 0xa9u8), (AddressingMode::ZeroPage, 0xa5u8), (AddressingMode::ZeroPageX, 0xb5u8), (AddressingMode::Absolute, 0xadu8), (AddressingMode::AbsoluteX, 0xbdu8), (AddressingMode::AbsoluteY, 0xb9u8), (AddressingMode::IndirectX, 0xa1u8), (AddressingMode::IndirectY, 0xb1u8)],
        InstructionName::ldx => seq![(AddressingMode::Immediate, 0xa2u8), (AddressingMode::ZeroPage, 0xa6u8), (AddressingMode::ZeroPageY, 0xb6u8), (AddressingMode::Absolute, 0xaeu8), (AddressingMode::AbsoluteY, 0xbeu8)],
        InstructionName::ldy => seq![(AddressingMode::Immediate, 0xa0u8), (AddressingMode::ZeroPage, 0xa4u8), (AddressingMode::ZeroPageX, 0xb4u8), (AddressingMode::Absolute, 0xacu8), (AddressingMode::AbsoluteX, 0xbcu8)],
        InstructionName::sta => seq![(AddressingMode::ZeroPage, 0x85u8), (AddressingMode::ZeroPageX, 0x95u8), (AddressingMode::Absolute, 0x8du8), (AddressingMode::AbsoluteX, 0x9du8), (AddressingMode::AbsoluteY, 0x99u8), (AddressingMode::IndirectX, 0x81u8), (AddressingMode::IndirectY, 0x91u8)],
        InstructionName::stx => seq![(AddressingMode::ZeroPage, 0x86u8), (AddressingMode::ZeroPageY, 0x96u8), (AddressingMode::Absolute, 0x8eu8)],
        InstructionName::sty => seq![(AddressingMode::ZeroPage, 0x84u8), (AddressingMode::ZeroPageX, 0x94u8), (AddressingMode::Absolute, 0x8cu8)],
        InstructionName::tax => seq![(AddressingMode::Implicit, 0xaau8)],
        InstructionName::tay => seq![(AddressingMode::Implicit, 0xa8u8)],
        InstructionName::txa => seq![(AddressingMode::Implicit, 0x8au8)],
        InstructionName::tya => seq![(AddressingMode::Implicit, 0x98u8)],
        InstructionName::tsx => seq![(AddressingMode::Implicit, 0xbau8)],
        InstructionName::txs => seq![(AddressingMode::Implicit, 0x9au8)],
        InstructionName::pha => seq![(AddressingMode::Implicit, 0x48u8)],
        InstructionName::php => seq![(AddressingMode::Implicit, 0x08u8)],
        InstructionName::pla => seq![(AddressingMode::Implicit, 0x68u8)],
        InstructionName::plp => seq![(AddressingMode::Implicit, 0x28u8)],
        InstructionName::and => seq![(AddressingMode::Immediate, 0x29u8), (AddressingMode::ZeroPage, 0x25u8), (AddressingMode::ZeroPageX, 0x35u8), (AddressingMode::Absolute, 0x2du8), (AddressingMode::AbsoluteX, 0x3du8), (AddressingMode::AbsoluteY, 0x39u8), (AddressingMode::IndirectX, 0x21u8), (AddressingMode::IndirectY, 0x31u8)],
        InstructionName::eor => seq![(AddressingMode::Immediate, 0x49u8), (AddressingMode::ZeroPage, 0x45u8), (AddressingMode::ZeroPageX, 0x55u8), (AddressingMode::Absolute, 0x4du8), (AddressingMode::AbsoluteX, 0x5du8), (AddressingMode::AbsoluteY, 0x59u8), (AddressingMode::IndirectX, 0x41u8), (AddressingMode::IndirectY, 0x51u8)],
        InstructionName::ora => seq![(AddressingMode::Immediate, 0x09u8), (AddressingMode::ZeroPage, 0x05u8), (AddressingMode::ZeroPageX, 0x15u8), (AddressingMode::Absolute, 0x0du8), (AddressingMode::AbsoluteX, 0x1du8), (AddressingMode::AbsoluteY, 0x19u8), (AddressingMode::IndirectX, 0x01u8), (AddressingMode::IndirectY, 0x11u8)],
        InstructionName::bit => seq![(AddressingMode::ZeroPage, 0x24u8), (AddressingMode::Absolute, 0x2cu8)],
        InstructionName::adc => seq![(AddressingMode::Immediate, 0x69u8), (AddressingMode::ZeroPage, 0x65u8), (AddressingMode::ZeroPageX, 0x75u8), (AddressingMode::Absolute, 0x6du8), (AddressingMode::AbsoluteX, 0x7du8), (AddressingMode::AbsoluteY, 0x79u8), (AddressingMode::IndirectX, 0x61u8), (AddressingMode::IndirectY, 0x71u8)],
        InstructionName::sbc => seq![(AddressingMode::Immediate, 0xe9u8), (AddressingMode::ZeroPage, 0xe5u8), (AddressingMode::ZeroPageX, 0xf5u8), (AddressingMode::Absolute, 0xedu8), (AddressingMode::AbsoluteX, 0xfdu8), (AddressingMode::AbsoluteY, 0xf9u8), (AddressingMode::IndirectX, 0xe1u8), (AddressingMode::IndirectY, 0xf1u8)],
        InstructionName::cmp => seq![(AddressingMode::Immediate, 0xc9u8), (AddressingMode::ZeroPage, 0xc5u8), (AddressingMode::ZeroPageX, 0xd5u8), (AddressingMode::Absolute, 0xcdu8), (AddressingMode::AbsoluteX, 0xddu8), (AddressingMode::AbsoluteY, 0xd9u8), (AddressingMode::IndirectX, 0xc1u8), (AddressingMode::IndirectY, 0xd1u8)],
        InstructionName::cpx => seq![(AddressingMode::Immediate, 0xe0u8), (AddressingMode::ZeroPage, 0xe4u8), (AddressingMode::Absolute, 0xecu8)],
        InstructionName::cpy => seq![(AddressingMode::Immediate, 0xc0u8), (AddressingMode::ZeroPage, 0xc4u8), (AddressingMode::Absolute, 0xccu8)],
        InstructionName::inc => seq![(AddressingMode::ZeroPage, 0xe6u8), (AddressingMode::ZeroPageX, 0xf6u8), (AddressingMode::Absolute, 0xeeu8), (AddressingMode::AbsoluteX, 0xfeu8)],
        InstructionName::inx => seq![(AddressingMode::Implicit, 0xe8u8)],
        InstructionName::iny => seq![(AddressingMode::Implicit, 0xc8u8)],
        InstructionName::dec => seq![(AddressingMode::ZeroPage, 0xc6u8), (AddressingMode::ZeroPageX, 0xd6u8), (AddressingMode::Absolute, 0xceu8), (AddressingMode::AbsoluteX, 0xdeu8)],
        InstructionName::dex => seq![(AddressingMode::Implicit, 0xcau8)],
        InstructionName::dey => seq![(AddressingMode::Implicit, 0x88u8)],
        InstructionName::asl => seq![(AddressingMode::Accumulator, 0x0au8), (AddressingMode::ZeroPage, 0x06u8), (AddressingMode::ZeroPageX, 0x16u8), (AddressingMode::Absolute, 0x0eu8), (AddressingMode::AbsoluteX, 0x1eu8)],
        InstructionName::lsr => seq![(AddressingMode::Accumulator, 0x4au8), (AddressingMode::ZeroPage, 0x46u8), (AddressingMode::ZeroPageX, 0x56u8), (AddressingMode::Absolute, 0x4eu8), (AddressingMode::AbsoluteX, 0x5eu8)],
        InstructionName::rol => seq![(AddressingMode::Accumulator, 0x2au8), (AddressingMode::ZeroPage, 0x26u8), (AddressingMode::ZeroPageX, 0x36u8), (AddressingMode::Absolute, 0x2eu8), (AddressingMode::AbsoluteX, 0x3eu8)],
        InstructionName::ror => seq![(AddressingMode::Accumulator, 0x6au8), (AddressingMode::ZeroPage, 0x66u8), (AddressingMode::ZeroPageX, 0x76u8), (AddressingMode::Absolute, 0x6eu8), (AddressingMode::AbsoluteX, 0x7eu8)],
        InstructionName::jmp => seq![(AddressingMode::Absolute, 0x4cu8), (AddressingMode::Indirect, 0x6cu8)],
        InstructionName::jsr => seq![(AddressingMode::Absolute, 0x20u8)],
        InstructionName::rts => seq![(AddressingMode::Implicit, 0x60u8)],
        InstructionName::bcc => seq![(AddressingMode::Relative, 0x90u8)],
        InstructionName::bcs => seq![(AddressingMode::Relative, 0xb0u8)],
        InstructionName::beq => seq![(AddressingMode::Relative, 0xf0u8)],
        InstructionName::bmi => seq![(AddressingMode::Relative, 0x30u8)],
        InstructionName::bne => seq![(AddressingMode::Relative, 0xd0u8)],
        InstructionName::bpl => seq![(AddressingMode::Relative, 0x10u8)],
        InstructionName::bvc => seq![(AddressingMode::Relative, 0x50u8)],
        InstructionName::bvs => seq![(AddressingMode::Relative, 0x70u8)],
        InstructionName::clc => seq![(AddressingMode::Implicit, 0x18u8)],
        InstructionName::cld => seq![(AddressingMode::Implicit, 0xd8u8)],
        InstructionName::cli => seq![(AddressingMode::Implicit, 0x58u8)],
        InstructionName::clv => seq![(AddressingMode::Implicit, 0xb8u8)],
        InstructionName::sec => seq![(AddressingMode::Implicit, 0x38u8)],
        InstructionName::sed => seq![(AddressingMode::Implicit, 0xf8u8)],
        InstructionName::sei => seq![(AddressingMode::Implicit, 0x78u8)],
        InstructionName::brk => seq![(AddressingMode::Implicit, 0x00u8)],
        InstructionName::nop => seq![(AddressingMode::Implicit, 0xeau8)],
        InstructionName::rti => seq![(AddressingMode::Implicit, 0x40u8)],
    }
}

pub open spec fn decode_op(op: u8) -> Option<(InstructionName, AddressingMode)> {
    match op {
        0x00 => Some((InstructionName::brk, AddressingMode::Implicit)),
        0x01 => Some((InstructionName::ora, AddressingMode::IndirectX)),
        0x05 => Some((InstructionName::ora, AddressingMode::ZeroPage)),
        0x06 => Some((InstructionName::asl, AddressingMode::ZeroPage)),
        0x08 => Some((InstructionName::php, AddressingMode::Implicit)),
        0x09 => Some((InstructionName::ora, AddressingMode::Immediate)),
        0x0a => Some((InstructionName::asl, AddressingMode::Accumulator)),
        0x0d => Some((InstructionName::ora, AddressingMode::Absolute)),
        0x0e => Some((InstructionName::asl, AddressingMode::Absolute)),
        0x10 => Some((InstructionName::bpl, AddressingMode::Relative)),
        0x11 => Some((InstructionName::ora, AddressingMode::IndirectY)),
        0x15 => Some((InstructionName::ora, AddressingMode::ZeroPageX)),
        0x16 => Some((InstructionName::asl, AddressingMode::ZeroPageX)),
        0x18 => Some((InstructionName::clc, AddressingMode::Implicit)),
        0x19 => Some((InstructionName::ora, AddressingMode::AbsoluteY)),
        0x1d => Some((InstructionName::ora, AddressingMode::AbsoluteX)),
        0x1e => Some((InstructionName::asl, AddressingMode::AbsoluteX)),
        0x20 => Some((InstructionName::jsr, AddressingMode::Absolute)),
        0x21 => Some((InstructionName::and, AddressingMode::IndirectX)),
        0x24 => Some((InstructionName::bit, AddressingMode::ZeroPage)),
        0x25 => Some((InstructionName::and, AddressingMode::ZeroPage)),
        0x26 => Some((InstructionName::rol, AddressingMode::ZeroPage)),
        0x28 => Some((InstructionName::plp, AddressingMode::Implicit)),
        0x29 => Some((InstructionName::and, AddressingMode::Immediate)),
        0x2a => Some((InstructionName::rol, AddressingMode::Accumulator)),
        0x2c => Some((InstructionName::bit, AddressingMode::Absolute)),
        0x2d => Some((InstructionName::and, AddressingMode::Absolute)),
        0x2e => Some((InstructionName::rol, AddressingMode::Absolute)),
        0x30 => Some((InstructionName::bmi, AddressingMode::Relative)),
        0x31 => Some((InstructionName::and, AddressingMode::IndirectY)),
        0x35 => Some((InstructionName::and, AddressingMode::ZeroPageX)),
        0x36 => Some((InstructionName::rol, AddressingMode::ZeroPageX)),
        0x38 => Some((InstructionName::sec, AddressingMode::Implicit)),
        0x39 => Some((InstructionName::and, AddressingMode::AbsoluteY)),
        0x3d => Some((InstructionName::and, AddressingMode::AbsoluteX)),
        0x3e => Some((InstructionName::rol, AddressingMode::AbsoluteX)),
        0x40 => Some((InstructionName::rti, AddressingMode::Implicit)),
        0x41 => Some((InstructionName::eor, AddressingMode::IndirectX)),
        0x45 => Some((InstructionName::eor, AddressingMode::ZeroPage)),
        0x46 => Some((InstructionName::lsr, AddressingMode::ZeroPage)),
        0x48 => Some((InstructionName::pha, AddressingMode::Implicit)),
        0x49 => Some((InstructionName::eor, AddressingMode::Immediate)),
        0x4a => Some((InstructionName::lsr, AddressingMode::Accumulator)),
        0x4c => Some((InstructionName::jmp, AddressingMode::Absolute)),
        0x4d => Some((InstructionName::eor, AddressingMode::Absolute)),
        0x4e => Some((InstructionName::lsr, AddressingMode::Absolute)),
        0x50 => Some((InstructionName::bvc, AddressingMode::Relative)),
        0x51 => Some((InstructionName::eor, AddressingMode::IndirectY)),
        0x55 => Some((InstructionName::eor, AddressingMode::ZeroPageX)),
        0x56 => Some((InstructionName::lsr, AddressingMode::ZeroPageX)),
        0x58 => Some((InstructionName::cli, AddressingMode::Implicit)),
        0x59 => Some((InstructionName::eor, AddressingMode::AbsoluteY)),
        0x5d => Some((InstructionName::eor, AddressingMode::AbsoluteX)),
        0x5e => Some((InstructionName::lsr, AddressingMode::AbsoluteX)),
        0x60 => Some((InstructionName::rts, AddressingMode::Implicit)),
        0x61 => Some((InstructionName::adc, AddressingMode::IndirectX)),
        0x65 => Some((InstructionName::adc, AddressingMode::ZeroPage)),
        0x66 => Some((InstructionName::ror, AddressingMode::ZeroPage)),
        0x68 => Some((InstructionName::pla, AddressingMode::Implicit)),
        0x69 => Some((InstructionName::adc, AddressingMode::Immediate)),
        0x6a => Some((InstructionName::ror, AddressingMode::Accumulator)),
        0x6c => Some((InstructionName::jmp, AddressingMode::Indirect)),
        0x6d => Some((InstructionName::adc, AddressingMode::Absolute)),
        0x6e => Some((InstructionName::ror, AddressingMode::Absolute)),
        0x70 => Some((InstructionName::bvs, AddressingMode::Relative)),
        0x71 => Some((InstructionName::adc, AddressingMode::IndirectY)),
        0x75 => Some((InstructionName::adc, AddressingMode::ZeroPageX)),
        0x76 => Some((InstructionName::ror, AddressingMode::ZeroPageX)),
        0x78 => Some((InstructionName::sei, AddressingMode::Implicit)),
        0x79 => Some((InstructionName::adc, AddressingMode::AbsoluteY)),
        0x7d => Some((InstructionName::adc, AddressingMode::AbsoluteX)),
        0x7e => Some((InstructionName::ror, AddressingMode::AbsoluteX)),
        0x81 => Some((InstructionName::sta, AddressingMode::IndirectX)),
        0x84 => Some((InstructionName::sty, AddressingMode::ZeroPage)),
        0x85 => Some((InstructionName::sta, AddressingMode::ZeroPage)),
        0x86 => Some((InstructionName::stx, AddressingMode::ZeroPage)),
        0x88 => Some((InstructionName::dey, AddressingMode::Implicit)),
        0x8a => Some((InstructionName::txa, AddressingMode::Implicit)),
        0x8c => Some((InstructionName::sty, AddressingMode::Absolute)),
        0x8d => Some((InstructionName::sta, AddressingMode::Absolute)),
        0x8e => Some((InstructionName::stx, AddressingMode::Absolute)),
        0x90 => Some((InstructionName::bcc, AddressingMode::Relative)),
        0x91 => Some((InstructionName::sta, AddressingMode::IndirectY)),
        0x94 => Some((InstructionName::sty, AddressingMode::ZeroPageX)),
        0x95 => Some((InstructionName::sta, AddressingMode::ZeroPageX)),
        0x96 => Some((InstructionName::stx, AddressingMode::ZeroPageY)),
        0x98 => Some((InstructionName::tya, AddressingMode::Implicit)),
        0x99 => Some((InstructionName::sta, AddressingMode::AbsoluteY)),
        0x9a => Some((InstructionName::txs, AddressingMode::Implicit)),
        0x9d => Some((InstructionName::sta, AddressingMode::AbsoluteX)),
        0xa0 => Some((InstructionName::ldy, AddressingMode::Immediate)),
        0xa1 => Some((InstructionName::lda, AddressingMode::IndirectX)),
        0xa2 => Some((InstructionName::ldx, AddressingMode::Immediate)),
        0xa4 => Some((InstructionName::ldy, AddressingMode::ZeroPage)),
        0xa5 => Some((InstructionName::lda, AddressingMode::ZeroPage)),
        0xa6 => Some((InstructionName::ldx, AddressingMode::ZeroPage)),
        0xa8 => Some((InstructionName::tay, AddressingMode::Implicit)),
        0xa9 => Some((InstructionName::lda, AddressingMode::Immediate)),
        0xaa => Some((InstructionName::tax, AddressingMode::Implicit)),
        0xac => Some((InstructionName::ldy, AddressingMode::Absolute)),
        0xad => Some((InstructionName::lda, AddressingMode::Absolute)),
        0xae => Some((InstructionName::ldx, AddressingMode::Absolute)),
        0xb0 => Some((InstructionName::bcs, AddressingMode::Relative)),
        0xb1 => Some((InstructionName::lda, AddressingMode::IndirectY)),
        0xb4 => Some((InstructionName::ldy, AddressingMode::ZeroPageX)),
        0xb5 => Some((InstructionName::lda, AddressingMode::ZeroPageX)),
        0xb6 => Some((InstructionName::ldx, AddressingMode::ZeroPageY)),
        0xb8 => Some((InstructionName::clv, AddressingMode::Implicit)),
        0xb9 => Some((InstructionName::lda, AddressingMode::AbsoluteY)),
        0xba => Some((InstructionName::tsx, AddressingMode::Implicit)),
        0xbc => Some((InstructionName::ldy, AddressingMode::AbsoluteX)),
        0xbd => Some((InstructionName::lda, AddressingMode::AbsoluteX)),
        0xbe => Some((InstructionName::ldx, AddressingMode::AbsoluteY)),
        0xc0 => Some((InstructionName::cpy, AddressingMode::Immediate)),
        0xc1 => Some((InstructionName::cmp, AddressingMode::IndirectX)),
        0xc4 => Some((InstructionName::cpy, AddressingMode::ZeroPage)),
        0xc5 => Some((InstructionName::cmp, AddressingMode::ZeroPage)),
        0xc6 => Some((InstructionName::dec, AddressingMode::ZeroPage)),
        0xc8 => Some((InstructionName::iny, AddressingMode::Implicit)),
        0xc9 => Some((InstructionName::cmp, AddressingMode::Immediate)),
        0xca => Some((InstructionName::dex, AddressingMode::Implicit)),
        0xcc => Some((InstructionName::cpy, AddressingMode::Absolute)),
        0xcd => Some((InstructionName::cmp, AddressingMode::Absolute)),
        0xce => Some((InstructionName::dec, AddressingMode::Absolute)),
        0xd0 => Some((InstructionName::bne, AddressingMode::Relative)),
        0xd1 => Some((InstructionName::cmp, AddressingMode::IndirectY)),
        0xd5 => Some((InstructionName::cmp, AddressingMode::ZeroPageX)),
        0xd6 => Some((InstructionName::dec, AddressingMode::ZeroPageX)),
        0xd8 => Some((InstructionName::cld, AddressingMode::Implicit)),
        0xd9 => Some((InstructionName::cmp, AddressingMode::AbsoluteY)),
        0xdd => Some((InstructionName::cmp, AddressingMode::AbsoluteX)),
        0xde => Some((InstructionName::dec, AddressingMode::AbsoluteX)),
        0xe0 => Some((InstructionName::cpx, AddressingMode::Immediate)),
        0xe1 => Some((InstructionName::sbc, AddressingMode::IndirectX)),
        0xe4 => Some((InstructionName::cpx, AddressingMode::ZeroPage)),
        0xe5 => Some((InstructionName::sbc, AddressingMode::ZeroPage)),
        0xe6 => Some((InstructionName::inc, AddressingMode::ZeroPage)),
        0xe8 => Some((InstructionName::inx, AddressingMode::Implicit)),
        0xe9 => Some((InstructionName::sbc, AddressingMode::Immediate)),
        0xea => Some((InstructionName::nop, AddressingMode::Implicit)),
        0xec => Some((InstructionName::cpx, AddressingMode::Absolute)),
        0xed => Some((InstructionName::sbc, AddressingMode::Absolute)),
        0xee => Some((InstructionName::inc, AddressingMode::Absolute)),
        0xf0 => Some((InstructionName::beq, AddressingMode::Relative)),
        0xf1 => Some((InstructionName::sbc, AddressingMode::IndirectY)),
        0xf5 => Some((InstructionName::sbc, AddressingMode::ZeroPageX)),
        0xf6 => Some((InstructionName::inc, AddressingMode::ZeroPageX)),
        0xf8 => Some((InstructionName::sed, AddressingMode::Implicit)),
        0xf9 => Some((InstructionName::sbc, AddressingMode::AbsoluteY)),
        0xfd => Some((InstructionName::sbc, AddressingMode::AbsoluteX)),
        0xfe => Some((InstructionName::inc, AddressingMode::AbsoluteX)),
        _ => None,
    }
}

pub fn lookup_opcode(op: u8) -> (r: Option<(InstructionName, AddressingMode)>)
    ensures
        r == decode_op(op),
{
    match op {
        0x00 => Some((InstructionName::brk, AddressingMode::Implicit)),
        0x01 => Some((InstructionName::ora, AddressingMode::IndirectX)),
        0x05 => Some((InstructionName::ora, AddressingMode::ZeroPage)),
        0x06 => Some((InstructionName::asl, AddressingMode::ZeroPage)),
        0x08 => Some((InstructionName::php, AddressingMode::Implicit)),
        0x09 => Some((InstructionName::ora, AddressingMode::Immediate)),
        0x0a => Some((InstructionName::asl, AddressingMode::Accumulator)),
        0x0d => Some((InstructionName::ora, AddressingMode::Absolute)),
        0x0e => Some((InstructionName::asl, AddressingMode::Absolute)),
        0x10 => Some((InstructionName::bpl, AddressingMode::Relative)),
        0x11 => Some((InstructionName::ora, AddressingMode::IndirectY)),
        0x15 => Some((InstructionName::ora, AddressingMode::ZeroPageX)),
        0x16 => Some((InstructionName::asl, AddressingMode::ZeroPageX)),
        0x18 => Some((InstructionName::clc, AddressingMode::Implicit)),
        0x19 => Some((InstructionName::ora, AddressingMode::AbsoluteY)),
        0x1d => Some((InstructionName::ora, AddressingMode::AbsoluteX)),
        0x1e => Some((InstructionName::asl, AddressingMode::AbsoluteX)),
        0x20 => Some((InstructionName::jsr, AddressingMode::Absolute)),
        0x21 => Some((InstructionName::and, AddressingMode::IndirectX)),
        0x24 => Some((InstructionName::bit, AddressingMode::ZeroPage)),
        0x25 => Some((InstructionName::and, AddressingMode::ZeroPage)),
        0x26 => Some((InstructionName::rol, AddressingMode::ZeroPage)),
        0x28 => Some((InstructionName::plp, AddressingMode::Implicit)),
        0x29 => Some((InstructionName::and, AddressingMode::Immediate)),
        0x2a => Some((InstructionName::rol, AddressingMode::Accumulator)),
        0x2c => Some((InstructionName::bit, AddressingMode::Absolute)),
        0x2d => Some((InstructionName::and, AddressingMode::Absolute)),
        0x2e => Some((InstructionName::rol, AddressingMode::Absolute)),
        0x30 => Some((InstructionName::bmi, AddressingMode::Relative)),
        0x31 => Some((InstructionName::and, AddressingMode::IndirectY)),
        0x35 => Some((InstructionName::and, AddressingMode::ZeroPageX)),
        0x36 => Some((InstructionName::rol, AddressingMode::ZeroPageX)),
        0x38 => Some((InstructionName::sec, AddressingMode::Implicit)),
        0x39 => Some((InstructionName::and, AddressingMode::AbsoluteY)),
        0x3d => Some((InstructionName::and, AddressingMode::AbsoluteX)),
        0x3e => Some((InstructionName::rol, AddressingMode::AbsoluteX)),
        0x40 => Some((InstructionName::rti, AddressingMode::Implicit)),
        0x41 => Some((InstructionName::eor, AddressingMode::IndirectX)),
        0x45 => Some((InstructionName::eor, AddressingMode::ZeroPage)),
        0x46 => Some((InstructionName::lsr, AddressingMode::ZeroPage)),
        0x48 => Some((InstructionName::pha, AddressingMode::Implicit)),
        0x49 => Some((InstructionName::eor, AddressingMode::Immediate)),
        0x4a => Some((InstructionName::lsr, AddressingMode::Accumulator)),
        0x4c => Some((InstructionName::jmp, AddressingMode::Absolute)),
        0x4d => Some((InstructionName::eor, AddressingMode::Absolute)),
        0x4e => Some((InstructionName::lsr, AddressingMode::Absolute)),
        0x50 => Some((InstructionName::bvc, AddressingMode::Relative)),
        0x51 => Some((InstructionName::eor, AddressingMode::IndirectY)),
        0x55 => Some((InstructionName::eor, AddressingMode::ZeroPageX)),
        0x56 => Some((InstructionName::lsr, AddressingMode::ZeroPageX)),
        0x58 => Some((InstructionName::cli, AddressingMode::Implicit)),
        0x59 => Some((InstructionName::eor, AddressingMode::AbsoluteY)),
        0x5d => Some((InstructionName::eor, AddressingMode::AbsoluteX)),
        0x5e => Some((InstructionName::lsr, AddressingMode::AbsoluteX)),
        0x60 => Some((InstructionName::rts, AddressingMode::Implicit)),
        0x61 => Some((InstructionName::adc, AddressingMode::IndirectX)),
        0x65 => Some((InstructionName::adc, AddressingMode::ZeroPage)),
        0x66 => Some((InstructionName::ror, AddressingMode::ZeroPage)),
        0x68 => Some((InstructionName::pla, AddressingMode::Implicit)),
        0x69 => Some((InstructionName::adc, AddressingMode::Immediate)),
        0x6a => Some((InstructionName::ror, AddressingMode::Accumulator)),
        0x6c => Some((InstructionName::jmp, AddressingMode::Indirect)),
        0x6d => Some((InstructionName::adc, AddressingMode::Absolute)),
        0x6e => Some((InstructionName::ror, AddressingMode::Absolute)),
        0x70 => Some((InstructionName::bvs, AddressingMode::Relative)),
        0x71 => Some((InstructionName::adc, AddressingMode::IndirectY)),
        0x75 => Some((InstructionName::adc, AddressingMode::ZeroPageX)),
        0x76 => Some((InstructionName::ror, AddressingMode::ZeroPageX)),
        0x78 => Some((InstructionName::sei, AddressingMode::Implicit)),
        0x79 => Some((InstructionName::adc, AddressingMode::AbsoluteY)),
        0x7d => Some((InstructionName::adc, AddressingMode::AbsoluteX)),
        0x7e => Some((InstructionName::ror, AddressingMode::AbsoluteX)),
        0x81 => Some((InstructionName::sta, AddressingMode::IndirectX)),
        0x84 => Some((InstructionName::sty, AddressingMode::ZeroPage)),
        0x85 => Some((InstructionName::sta, AddressingMode::ZeroPage)),
        0x86 => Some((InstructionName::stx, AddressingMode::ZeroPage)),
        0x88 => Some((InstructionName::dey, AddressingMode::Implicit)),
        0x8a => Some((InstructionName::txa, AddressingMode::Implicit)),
        0x8c => Some((InstructionName::sty, AddressingMode::Absolute)),
        0x8d => Some((InstructionName::sta, AddressingMode::Absolute)),
        0x8e => Some((InstructionName::stx, AddressingMode::Absolute)),
        0x90 => Some((InstructionName::bcc, AddressingMode::Relative)),
        0x91 => Some((InstructionName::sta, AddressingMode::IndirectY)),
        0x94 => Some((InstructionName::sty, AddressingMode::ZeroPageX)),
        0x95 => Some((InstructionName::sta, AddressingMode::ZeroPageX)),
        0x96 => Some((InstructionName::stx, AddressingMode::ZeroPageY)),
        0x98 => Some((InstructionName::tya, AddressingMode::Implicit)),
        0x99 => Some((InstructionName::sta, AddressingMode::AbsoluteY)),
        0x9a => Some((InstructionName::txs, AddressingMode::Implicit)),
        0x9d => Some((InstructionName::sta, AddressingMode::AbsoluteX)),
        0xa0 => Some((InstructionName::ldy, AddressingMode::Immediate)),
        0xa1 => Some((InstructionName::lda, AddressingMode::IndirectX)),
        0xa2 => Some((InstructionName::ldx, AddressingMode::Immediate)),
        0xa4 => Some((InstructionName::ldy, AddressingMode::ZeroPage)),
        0xa5 => Some((InstructionName::lda, AddressingMode::ZeroPage)),
        0xa6 => Some((InstructionName::ldx, AddressingMode::ZeroPage)),
        0xa8 => Some((InstructionName::tay, AddressingMode::Implicit)),
        0xa9 => Some((InstructionName::lda, AddressingMode::Immediate)),
        0xaa => Some((InstructionName::tax, AddressingMode::Implicit)),
        0xac => Some((InstructionName::ldy, AddressingMode::Absolute)),
        0xad => Some((InstructionName::lda, AddressingMode::Absolute)),
        0xae => Some((InstructionName::ldx, AddressingMode::Absolute)),
        0xb0 => Some((InstructionName::bcs, AddressingMode::Relative)),
        0xb1 => Some((InstructionName::lda, AddressingMode::IndirectY)),
        0xb4 => Some((InstructionName::ldy, AddressingMode::ZeroPageX)),
        0xb5 => Some((InstructionName::lda, AddressingMode::ZeroPageX)),
        0xb6 => Some((InstructionName::ldx, AddressingMode::ZeroPageY)),
        0xb8 => Some((InstructionName::clv, AddressingMode::Implicit)),
        0xb9 => Some((InstructionName::lda, AddressingMode::AbsoluteY)),
        0xba => Some((InstructionName::tsx, AddressingMode::Implicit)),
        0xbc => Some((InstructionName::ldy, AddressingMode::AbsoluteX)),
        0xbd => Some((InstructionName::lda, AddressingMode::AbsoluteX)),
        0xbe => Some((InstructionName::ldx, AddressingMode::AbsoluteY)),
        0xc0 => Some((InstructionName::cpy, AddressingMode::Immediate)),
        0xc1 => Some((InstructionName::cmp, AddressingMode::IndirectX)),
        0xc4 => Some((InstructionName::cpy, AddressingMode::ZeroPage)),
        0xc5 => Some((InstructionName::cmp, AddressingMode::ZeroPage)),
        0xc6 => Some((InstructionName::dec, AddressingMode::ZeroPage)),
        0xc8 => Some((InstructionName::iny, AddressingMode::Implicit)),
        0xc9 => Some((InstructionName::cmp, AddressingMode::Immediate)),
        0xca => Some((InstructionName::dex, AddressingMode::Implicit)),
        0xcc => Some((InstructionName::cpy, AddressingMode::Absolute)),
        0xcd => Some((InstructionName::cmp, AddressingMode::Absolute)),
        0xce => Some((InstructionName::dec, AddressingMode::Absolute)),
        0xd0 => Some((InstructionName::bne, AddressingMode::Relative)),
        0xd1 => Some((InstructionName::cmp, AddressingMode::IndirectY)),
        0xd5 => Some((InstructionName::cmp, AddressingMode::ZeroPageX)),
        0xd6 => Some((InstructionName::dec, AddressingMode::ZeroPageX)),
        0xd8 => Some((InstructionName::cld, AddressingMode::Implicit)),
        0xd9 => Some((InstructionName::cmp, AddressingMode::AbsoluteY)),
        0xdd => Some((InstructionName::cmp, AddressingMode::AbsoluteX)),
        0xde => Some((InstructionName::dec, AddressingMode::AbsoluteX)),
        0xe0 => Some((InstructionName::cpx, AddressingMode::Immediate)),
        0xe1 => Some((InstructionName::sbc, AddressingMode::IndirectX)),
        0xe4 => Some((InstructionName::cpx, AddressingMode::ZeroPage)),
        0xe5 => Some((InstructionName::sbc, AddressingMode::ZeroPage)),
        0xe6 => Some((InstructionName::inc, AddressingMode::ZeroPage)),
        0xe8 => Some((InstructionName::inx, AddressingMode::Implicit)),
        0xe9 => Some((InstructionName::sbc, AddressingMode::Immediate)),
        0xea => Some((InstructionName::nop, AddressingMode::Implicit)),
        0xec => Some((InstructionName::cpx, AddressingMode::Absolute)),
        0xed => Some((InstructionName::sbc, AddressingMode::Absolute)),
        0xee => Some((InstructionName::inc, AddressingMode::Absolute)),
        0xf0 => Some((InstructionName::beq, AddressingMode::Relative)),
        0xf1 => Some((InstructionName::sbc, AddressingMode::IndirectY)),
        0xf5 => Some((InstructionName::sbc, AddressingMode::ZeroPageX)),
        0xf6 => Some((InstructionName::inc, AddressingMode::ZeroPageX)),
        0xf8 => Some((InstructionName::sed, AddressingMode::Implicit)),
        0xf9 => Some((InstructionName::sbc, AddressingMode::AbsoluteY)),
        0xfd => Some((InstructionName::sbc, AddressingMode::AbsoluteX)),
        0xfe => Some((InstructionName::inc, AddressingMode::AbsoluteX)),
        _ => None,
    }
}
/// First opcode in `l` declared for `mode`, if any.
pub open spec fn opcode_in_list(l: Seq<(AddressingMode, u8)>, mode: AddressingMode) -> Option<u8>
    decreases l.len(),
{
    if l.len() == 0 {
        None
    } else if l[0].0 == mode {
        Some(l[0].1)
    } else {
        opcode_in_list(l.drop_first(), mode)
    }
}

/// The opcode byte the architecture assigns to a (mnemonic, mode) pair.
pub open spec fn opcode_of(name: InstructionName, mode: AddressingMode) -> Option<u8> {
    opcode_in_list(spec_modes_of(name), mode)
}

/// Every opcode the decode table accepts is encoded back to the same byte:
/// the decode direction of the catalog is sound with respect to the encode
/// direction.
pub proof fn lemma_decode_op_sound(op: u8)
    ensures
        decode_op(op) matches Some((name, mode)) ==> opcode_of(name, mode) == Some(op),
{
    reveal_with_fuel(opcode_in_list, 10);
}

/// Every (mnemonic, mode) pair the catalog declares is decoded back from its
/// opcode byte: the encode direction is sound with respect to decode.
// The encode-direction soundness proof is split into one small lemma per
// mnemonic so that each solver query only evaluates a single mode list
// against the decode table.
proof fn lemma_opcode_of_sound_lda(mode: AddressingMode)
    ensures
        opcode_of(InstructionName::lda, mode) matches Some(op) ==> decode_op(op) == Some(
            (InstructionName::lda, mode),
        ),
{
    reveal_with_fuel(opcode_in_list, 10);
}

proof fn lemma_opcode_of_sound_ldx(mode: AddressingMode)
    ensures
        opcode_of(InstructionName::ldx, mode) matches Some(op) ==> decode_op(op) == Some(
            (InstructionName::ldx, mode),
        ),
{
    reveal_with_fuel(opcode_in_list, 10);
}

proof fn lemma_opcode_of_sound_ldy(mode: AddressingMode)
    ensures
        opcode_of(InstructionName::ldy, mode) matches Some(op) ==> decode_op(op) == Some(
            (InstructionName::ldy, mode),
        ),
{
    reveal_with_fuel(opcode_in_list, 10);
}

proof fn lemma_opcode_of_sound_sta(mode: AddressingMode)
    ensures
        opcode_of(InstructionName::sta, mode) matches Some(op) ==> decode_op(op) == Some(
            (InstructionName::sta, mode),
        ),
{
    reveal_with_fuel(opcode_in_list, 10);
}

proof fn lemma_opcode_of_sound_stx(mode: AddressingMode)
    ensures
        opcode_of(InstructionName::stx, mode) matches Some(op) ==> decode_op(op) == Some(
            (InstructionName::stx, mode),
        ),
{
    reveal_with_fuel(opcode_in_list, 10);
}

proof fn lemma_opcode_of_sound_sty(mode: AddressingMode)
    ensures
        opcode_of(InstructionName::sty, mode) matches Some(op) ==> decode_op(op) == Some(
            (InstructionName::sty, mode),
        ),
{
    reveal_with_fuel(opcode_in_list, 10);
}

proof fn lemma_opcode_of_sound_tax(mode: AddressingMode)
    ensures
        opcode_of(InstructionName::tax, mode) matches Some(op) ==> decode_op(op) == Some(
            (InstructionName::tax, mode),
        ),
{
    reveal_with_fuel(opcode_in_list, 10);
}

proof fn lemma_opcode_of_sound_tay(mode: AddressingMode)
    ensures
        opcode_of(InstructionName::tay, mode) matches Some(op) ==> decode_op(op) == Some(
            (InstructionName::tay, mode),
        ),
{
    reveal_with_fuel(opcode_in_list, 10);
}

proof fn lemma_opcode_of_sound_txa(mode: AddressingMode)
    ensures
        opcode_of(InstructionName::txa, mode) matches Some(op) ==> decode_op(op) == Some(
            (InstructionName::txa, mode),
        ),
{
    reveal_with_fuel(opcode_in_list, 10);
}

proof fn lemma_opcode_of_sound_tya(mode: AddressingMode)
    ensures
        opcode_of(InstructionName::tya, mode) matches Some(op) ==> decode_op(op) == Some(
            (InstructionName::tya, mode),
        ),
{
    reveal_with_fuel(opcode_in_list, 10);
}

proof fn lemma_opcode_of_sound_tsx(mode: AddressingMode)
    ensures
        opcode_of(InstructionName::tsx, mode) matches Some(op) ==> decode_op(op) == Some(
            (InstructionName::tsx, mode),
        ),
{
    reveal_with_fuel(opcode_in_list, 10);
}

proof fn lemma_opcode_of_sound_txs(mode: AddressingMode)
    ensures
        opcode_of(InstructionName::txs, mode) matches Some(op) ==> decode_op(op) == Some(
            (InstructionName::txs, mode),
        ),
{
    reveal_with_fuel(opcode_in_list, 10);
}

proof fn lemma_opcode_of_sound_pha(mode: AddressingMode)
    ensures
        opcode_of(InstructionName::pha, mode) matches Some(op) ==> decode_op(op) == Some(
            (InstructionName::pha, mode),
        ),
{
    reveal_with_fuel(opcode_in_list, 10);
}

proof fn lemma_opcode_of_sound_php(mode: AddressingMode)
    ensures
        opcode_of(InstructionName::php, mode) matches Some(op) ==> decode_op(op) == Some(
            (InstructionName::php, mode),
        ),
{
    reveal_with_fuel(opcode_in_list, 10);
}

proof fn lemma_opcode_of_sound_pla(mode: AddressingMode)
    ensures
        opcode_of(InstructionName::pla, mode) matches Some(op) ==> decode_op(op) == Some(
            (InstructionName::pla, mode),
        ),
{
    reveal_with_fuel(opcode_in_list, 10);
}

proof fn lemma_opcode_of_sound_plp(mode: AddressingMode)
    ensures
        opcode_of(InstructionName::plp, mode) matches Some(op) ==> decode_op(op) == Some(
            (InstructionName::plp, mode),
        ),
{
    reveal_with_fuel(opcode_in_list, 10);
}

proof fn lemma_opcode_of_sound_and(mode: AddressingMode)
    ensures
        opcode_of(InstructionName::and, mode) matches Some(op) ==> decode_op(op) == Some(
            (InstructionName::and, mode),
        ),
{
    reveal_with_fuel(opcode_in_list, 10);
}

proof fn lemma_opcode_of_sound_eor(mode: AddressingMode)
    ensures
        opcode_of(InstructionName::eor, mode) matches Some(op) ==> decode_op(op) == Some(
            (InstructionName::eor, mode),
        ),
{
    reveal_with_fuel(opcode_in_list, 10);
}

proof fn lemma_opcode_of_sound_ora(mode: AddressingMode)
    ensures
        opcode_of(InstructionName::ora, mode) matches Some(op) ==> decode_op(op) == Some(
            (InstructionName::ora, mode),
        ),
{
    reveal_with_fuel(opcode_in_list, 10);
}

proof fn lemma_opcode_of_sound_bit(mode: AddressingMode)
    ensures
        opcode_of(InstructionName::bit, mode) matches Some(op) ==> decode_op(op) == Some(
            (InstructionName::bit, mode),
        ),
{
    reveal_with_fuel(opcode_in_list, 10);
}

proof fn lemma_opcode_of_sound_adc(mode: AddressingMode)
    ensures
        opcode_of(InstructionName::adc, mode) matches Some(op) ==> decode_op(op) == Some(
            (InstructionName::adc, mode),
        ),
{
    reveal_with_fuel(opcode_in_list, 10);
}

proof fn lemma_opcode_of_sound_sbc(mode: AddressingMode)
    ensures
        opcode_of(InstructionName::sbc, mode) matches Some(op) ==> decode_op(op) == Some(
            (InstructionName::sbc, mode),
        ),
{
    reveal_with_fuel(opcode_in_list, 10);
}

proof fn lemma_opcode_of_sound_cmp(mode: AddressingMode)
    ensures
        opcode_of(InstructionName::cmp, mode) matches Some(op) ==> decode_op(op) == Some(
            (InstructionName::cmp, mode),
        ),
{
    reveal_with_fuel(opcode_in_list, 10);
}

proof fn lemma_opcode_of_sound_cpx(mode: AddressingMode)
    ensures
        opcode_of(InstructionName::cpx, mode) matches Some(op) ==> decode_op(op) == Some(
            (InstructionName::cpx, mode),
        ),
{
    reveal_with_fuel(opcode_in_list, 10);
}

proof fn lemma_opcode_of_sound_cpy(mode: AddressingMode)
    ensures
        opcode_of(InstructionName::cpy, mode) matches Some(op) ==> decode_op(op) == Some(
            (InstructionName::cpy, mode),
        ),
{
    reveal_with_fuel(opcode_in_list, 10);
}

proof fn lemma_opcode_of_sound_inc(mode: AddressingMode)
    ensures
        opcode_of(InstructionName::inc, mode) matches Some(op) ==> decode_op(op) == Some(
            (InstructionName::inc, mode),
        ),
{
    reveal_with_fuel(opcode_in_list, 10);
}

proof fn lemma_opcode_of_sound_inx(mode: AddressingMode)
    ensures
        opcode_of(InstructionName::inx, mode) matches Some(op) ==> decode_op(op) == Some(
            (InstructionName::inx, mode),
        ),
{
    reveal_with_fuel(opcode_in_list, 10);
}

proof fn lemma_opcode_of_sound_iny(mode: AddressingMode)
    ensures
        opcode_of(InstructionName::iny, mode) matches Some(op) ==> decode_op(op) == Some(
            (InstructionName::iny, mode),
        ),
{
    reveal_with_fuel(opcode_in_list, 10);
}

proof fn lemma_opcode_of_sound_dec(mode: AddressingMode)
    ensures
        opcode_of(InstructionName::dec, mode) matches Some(op) ==> decode_op(op) == Some(
            (InstructionName::dec, mode),
        ),
{
    reveal_with_fuel(opcode_in_list, 10);
}

proof fn lemma_opcode_of_sound_dex(mode: AddressingMode)
    ensures
        opcode_of(InstructionName::dex, mode) matches Some(op) ==> decode_op(op) == Some(
            (InstructionName::dex, mode),
        ),
{
    reveal_with_fuel(opcode_in_list, 10);
}

proof fn lemma_opcode_of_sound_dey(mode: AddressingMode)
    ensures
        opcode_of(InstructionName::dey, mode) matches Some(op) ==> decode_op(op) == Some(
            (InstructionName::dey, mode),
        ),
{
    reveal_with_fuel(opcode_in_list, 10);
}

proof fn lemma_opcode_of_sound_asl(mode: AddressingMode)
    ensures
        opcode_of(InstructionName::asl, mode) matches Some(op) ==> decode_op(op) == Some(
            (InstructionName::asl, mode),
        ),
{
    reveal_with_fuel(opcode_in_list, 10);
}

proof fn lemma_opcode_of_sound_lsr(mode: AddressingMode)
    ensures
        opcode_of(InstructionName::lsr, mode) matches Some(op) ==> decode_op(op) == Some(
            (InstructionName::lsr, mode),
        ),
{
    reveal_with_fuel(opcode_in_list, 10);
}

proof fn lemma_opcode_of_sound_rol(mode: AddressingMode)
    ensures
        opcode_of(InstructionName::rol, mode) matches Some(op) ==> decode_op(op) == Some(
            (InstructionName::rol, mode),
        ),
{
    reveal_with_fuel(opcode_in_list, 10);
}

proof fn lemma_opcode_of_sound_ror(mode: AddressingMode)
    ensures
        opcode_of(InstructionName::ror, mode) matches Some(op) ==> decode_op(op) == Some(
            (InstructionName::ror, mode),
        ),
{
    reveal_with_fuel(opcode_in_list, 10);
}

proof fn lemma_opcode_of_sound_jmp(mode: AddressingMode)
    ensures
        opcode_of(InstructionName::jmp, mode) matches Some(op) ==> decode_op(op) == Some(
            (InstructionName::jmp, mode),
        ),
{
    reveal_with_fuel(opcode_in_list, 10);
}

proof fn lemma_opcode_of_sound_jsr(mode: AddressingMode)
    ensures
        opcode_of(InstructionName::jsr, mode) matches Some(op) ==> decode_op(op) == Some(
            (InstructionName::jsr, mode),
        ),
{
    reveal_with_fuel(opcode_in_list, 10);
}

proof fn lemma_opcode_of_sound_rts(mode: AddressingMode)
    ensures
        opcode_of(InstructionName::rts, mode) matches Some(op) ==> decode_op(op) == Some(
            (InstructionName::rts, mode),
        ),
{
    reveal_with_fuel(opcode_in_list, 10);
}

proof fn lemma_opcode_of_sound_bcc(mode: AddressingMode)
    ensures
        opcode_of(InstructionName::bcc, mode) matches Some(op) ==> decode_op(op) == Some(
            (InstructionName::bcc, mode),
        ),
{
    reveal_with_fuel(opcode_in_list, 10);
}

proof fn lemma_opcode_of_sound_bcs(mode: AddressingMode)
    ensures
        opcode_of(InstructionName::bcs, mode) matches Some(op) ==> decode_op(op) == Some(
            (InstructionName::bcs, mode),
        ),
{
    reveal_with_fuel(opcode_in_list, 10);
}

proof fn lemma_opcode_of_sound_beq(mode: AddressingMode)
    ensures
        opcode_of(InstructionName::beq, mode) matches Some(op) ==> decode_op(op) == Some(
            (InstructionName::beq, mode),
        ),
{
    reveal_with_fuel(opcode_in_list, 10);
}

proof fn lemma_opcode_of_sound_bmi(mode: AddressingMode)
    ensures
        opcode_of(InstructionName::bmi, mode) matches Some(op) ==> decode_op(op) == Some(
            (InstructionName::bmi, mode),
        ),
{
    reveal_with_fuel(opcode_in_list, 10);
}

proof fn lemma_opcode_of_sound_bne(mode: AddressingMode)
    ensures
        opcode_of(InstructionName::bne, mode) matches Some(op) ==> decode_op(op) == Some(
            (InstructionName::bne, mode),
        ),
{
    reveal_with_fuel(opcode_in_list, 10);
}

proof fn lemma_opcode_of_sound_bpl(mode: AddressingMode)
    ensures
        opcode_of(InstructionName::bpl, mode) matches Some(op) ==> decode_op(op) == Some(
            (InstructionName::bpl, mode),
        ),
{
    reveal_with_fuel(opcode_in_list, 10);
}

proof fn lemma_opcode_of_sound_bvc(mode: AddressingMode)
    ensures
        opcode_of(InstructionName::bvc, mode) matches Some(op) ==> decode_op(op) == Some(
            (InstructionName::bvc, mode),
        ),
{
    reveal_with_fuel(opcode_in_list, 10);
}

proof fn lemma_opcode_of_sound_bvs(mode: AddressingMode)
    ensures
        opcode_of(InstructionName::bvs, mode) matches Some(op) ==> decode_op(op) == Some(
            (InstructionName::bvs, mode),
        ),
{
    reveal_with_fuel(opcode_in_list, 10);
}

proof fn lemma_opcode_of_sound_clc(mode: AddressingMode)
    ensures
        opcode_of(InstructionName::clc, mode) matches Some(op) ==> decode_op(op) == Some(
            (InstructionName::clc, mode),
        ),
{
    reveal_with_fuel(opcode_in_list, 10);
}

proof fn lemma_opcode_of_sound_cld(mode: AddressingMode)
    ensures
        opcode_of(InstructionName::cld, mode) matches Some(op) ==> decode_op(op) == Some(
            (InstructionName::cld, mode),
        ),
{
    reveal_with_fuel(opcode_in_list, 10);
}

proof fn lemma_opcode_of_sound_cli(mode: AddressingMode)
    ensures
        opcode_of(InstructionName::cli, mode) matches Some(op) ==> decode_op(op) == Some(
            (InstructionName::cli, mode),
        ),
{
    reveal_with_fuel(opcode_in_list, 10);
}

proof fn lemma_opcode_of_sound_clv(mode: AddressingMode)
    ensures
        opcode_of(InstructionName::clv, mode) matches Some(op) ==> decode_op(op) == Some(
            (InstructionName::clv, mode),
        ),
{
    reveal_with_fuel(opcode_in_list, 10);
}

proof fn lemma_opcode_of_sound_sec(mode: AddressingMode)
    ensures
        opcode_of(InstructionName::sec, mode) matches Some(op) ==> decode_op(op) == Some(
            (InstructionName::sec, mode),
        ),
{
    reveal_with_fuel(opcode_in_list, 10);
}

proof fn lemma_opcode_of_sound_sed(mode: AddressingMode)
    ensures
        opcode_of(InstructionName::sed, mode) matches Some(op) ==> decode_op(op) == Some(
            (InstructionName::sed, mode),
        ),
{
    reveal_with_fuel(opcode_in_list, 10);
}

proof fn lemma_opcode_of_sound_sei(mode: AddressingMode)
    ensures
        opcode_of(InstructionName::sei, mode) matches Some(op) ==> decode_op(op) == Some(
            (InstructionName::sei, mode),
        ),
{
    reveal_with_fuel(opcode_in_list, 10);
}

proof fn lemma_opcode_of_sound_brk(mode: AddressingMode)
    ensures
        opcode_of(InstructionName::brk, mode) matches Some(op) ==> decode_op(op) == Some(
            (InstructionName::brk, mode),
        ),
{
    reveal_with_fuel(opcode_in_list, 10);
}

proof fn lemma_opcode_of_sound_nop(mode: AddressingMode)
    ensures
        opcode_of(InstructionName::nop, mode) matches Some(op) ==> decode_op(op) == Some(
            (InstructionName::nop, mode),
        ),
{
    reveal_with_fuel(opcode_in_list, 10);
}

proof fn lemma_opcode_of_sound_rti(mode: AddressingMode)
    ensures
        opcode_of(InstructionName::rti, mode) matches Some(op) ==> decode_op(op) == Some(
            (InstructionName::rti, mode),
        ),
{
    reveal_with_fuel(opcode_in_list, 10);
}

/// Every (mnemonic, mode) pair the catalog declares is decoded back from its
/// opcode byte: the encode direction is sound with respect to decode.
pub proof fn lemma_opcode_of_sound(name: InstructionName, mode: AddressingMode)
    ensures
        opcode_of(name, mode) matches Some(op) ==> decode_op(op) == Some((name, mode)),
{
    match name {
        InstructionName::lda => {
            lemma_opcode_of_sound_lda(mode);
        },
        InstructionName::ldx => {
            lemma_opcode_of_sound_ldx(mode);
        },
        InstructionName::ldy => {
            lemma_opcode_of_sound_ldy(mode);
        },
        InstructionName::sta => {
            lemma_opcode_of_sound_sta(mode);
        },
        InstructionName::stx => {
            lemma_opcode_of_sound_stx(mode);
        },
        InstructionName::sty => {
            lemma_opcode_of_sound_sty(mode);
        },
        InstructionName::tax => {
            lemma_opcode_of_sound_tax(mode);
        },
        InstructionName::tay => {
            lemma_opcode_of_sound_tay(mode);
        },
        InstructionName::txa => {
            lemma_opcode_of_sound_txa(mode);
        },
        InstructionName::tya => {
            lemma_opcode_of_sound_tya(mode);
        },
        InstructionName::tsx => {
            lemma_opcode_of_sound_tsx(mode);
        },
        InstructionName::txs => {
            lemma_opcode_of_sound_txs(mode);
        },
        InstructionName::pha => {
            lemma_opcode_of_sound_pha(mode);
        },
        InstructionName::php => {
            lemma_opcode_of_sound_php(mode);
        },
        InstructionName::pla => {
            lemma_opcode_of_sound_pla(mode);
        },
        InstructionName::plp => {
            lemma_opcode_of_sound_plp(mode);
        },
        InstructionName::and => {
            lemma_opcode_of_sound_and(mode);
        },
        InstructionName::eor => {
            lemma_opcode_of_sound_eor(mode);
        },
        InstructionName::ora => {
            lemma_opcode_of_sound_ora(mode);
        },
        InstructionName::bit => {
            lemma_opcode_of_sound_bit(mode);
        },
        InstructionName::adc => {
            lemma_opcode_of_sound_adc(mode);
        },
        InstructionName::sbc => {
            lemma_opcode_of_sound_sbc(mode);
        },
        InstructionName::cmp => {
            lemma_opcode_of_sound_cmp(mode);
        },
        InstructionName::cpx => {
            lemma_opcode_of_sound_cpx(mode);
        },
        InstructionName::cpy => {
            lemma_opcode_of_sound_cpy(mode);
        },
        InstructionName::inc => {
            lemma_opcode_of_sound_inc(mode);
        },
        InstructionName::inx => {
            lemma_opcode_of_sound_inx(mode);
        },
        InstructionName::iny => {
            lemma_opcode_of_sound_iny(mode);
        },
        InstructionName::dec => {
            lemma_opcode_of_sound_dec(mode);
        },
        InstructionName::dex => {
            lemma_opcode_of_sound_dex(mode);
        },
        InstructionName::dey => {
            lemma_opcode_of_sound_dey(mode);
        },
        InstructionName::asl => {
            lemma_opcode_of_sound_asl(mode);
        },
        InstructionName::lsr => {
            lemma_opcode_of_sound_lsr(mode);
        },
        InstructionName::rol => {
            lemma_opcode_of_sound_rol(mode);
        },
        InstructionName::ror => {
            lemma_opcode_of_sound_ror(mode);
        },
        InstructionName::jmp => {
            lemma_opcode_of_sound_jmp(mode);
        },
        InstructionName::jsr => {
            lemma_opcode_of_sound_jsr(mode);
        },
        InstructionName::rts => {
            lemma_opcode_of_sound_rts(mode);
        },
        InstructionName::bcc => {
            lemma_opcode_of_sound_bcc(mode);
        },
        InstructionName::bcs => {
            lemma_opcode_of_sound_bcs(mode);
        },
        InstructionName::beq => {
            lemma_opcode_of_sound_beq(mode);
        },
        InstructionName::bmi => {
            lemma_opcode_of_sound_bmi(mode);
        },
        InstructionName::bne => {
            lemma_opcode_of_sound_bne(mode);
        },
        InstructionName::bpl => {
            lemma_opcode_of_sound_bpl(mode);
        },
        InstructionName::bvc => {
            lemma_opcode_of_sound_bvc(mode);
        },
        InstructionName::bvs => {
            lemma_opcode_of_sound_bvs(mode);
        },
        InstructionName::clc => {
            lemma_opcode_of_sound_clc(mode);
        },
        InstructionName::cld => {
            lemma_opcode_of_sound_cld(mode);
        },
        InstructionName::cli => {
            lemma_opcode_of_sound_cli(mode);
        },
        InstructionName::clv => {
            lemma_opcode_of_sound_clv(mode);
        },
        InstructionName::sec => {
            lemma_opcode_of_sound_sec(mode);
        },
        InstructionName::sed => {
            lemma_opcode_of_sound_sed(mode);
        },
        InstructionName::sei => {
            lemma_opcode_of_sound_sei(mode);
        },
        InstructionName::brk => {
            lemma_opcode_of_sound_brk(mode);
        },
        InstructionName::nop => {
            lemma_opcode_of_sound_nop(mode);
        },
        InstructionName::rti => {
            lemma_opcode_of_sound_rti(mode);
        },
    }
}

/// Across the whole catalog, opcode bytes are pairwise distinct: when two
/// declared (mnemonic, mode) pairs carry the same opcode byte, they are the
/// same pair.
pub proof fn lemma_opcode_unique(
    n1: InstructionName,
    m1: AddressingMode,
    n2: InstructionName,
    m2: AddressingMode,
)
    requires
        opcode_of(n1, m1) is Some,
        opcode_of(n1, m1) == opcode_of(n2, m2),
    ensures
        n1 == n2,
        m1 == m2,
{
    lemma_opcode_of_sound(n1, m1);
    lemma_opcode_of_sound(n2, m2);
}

} // verus!
