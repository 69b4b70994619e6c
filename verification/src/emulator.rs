//! The execution engine: owns the register file and the bus, runs the
//! fetch/decode/execute cycle, and exposes a controllable run loop.
//!
//! Every architectural effect is stated first as a specification function
//! over the mathematical machine state (a `Regs` value plus the bus
//! contents as a sequence of 65536 bytes); the executable methods are
//! proved to implement those functions exactly.

use vstd::prelude::*;

use crate::catalog::{decode_op, lemma_decode_op_sound, opcode_in_list, opcode_of};
use crate::errors::EmuError;
use crate::instruction::{AddressingMode, Instruction, InstructionName, operand_len_spec};
use crate::readwritable::ReadWritable;
use crate::regs::{CpuFlags, Regs};

verus! {

/// Low byte of the reset vector.
pub const RESET_VEC_LOW_ADDR: u16 = 0xfffc;

/// High byte of the reset vector.
pub const RESET_VEC_HIGH_ADDR: u16 = 0xfffd;

/// Low byte of the interrupt vector.
pub const IRQ_VEC_LOW_ADDR: u16 = 0xfffe;

/// High byte of the interrupt vector.
pub const IRQ_VEC_HIGH_ADDR: u16 = 0xffff;

/// Reduce `x` into the 16-bit address space.  Every address computation in
/// the machine stays within one wrap of the space, so a single correction
/// suffices.
pub open spec fn wrap16(x: int) -> u16
    recommends
        -0x10000 <= x < 0x20000,
{
    if x < 0 {
        (x + 0x10000) as u16
    } else if x > 0xffff {
        (x - 0x10000) as u16
    } else {
        x as u16
    }
}

/// The 16-bit value stored little-endian as `lo` then `hi`.
pub open spec fn le16(lo: u8, hi: u8) -> u16 {
    (lo + 256 * hi) as u16
}

/// The numeric carry-in an ALU operation takes from the flags.
pub open spec fn carry_in(f: CpuFlags) -> int {
    if f.carry {
        1int
    } else {
        0int
    }
}

/// The uniform ZERO/NEG update: ZERO iff the just-produced result is zero,
/// NEG iff its bit 7 is set.  Always applied to the result just computed.
pub open spec fn spec_zero_neg(f: CpuFlags, v: u8) -> CpuFlags {
    CpuFlags { zero: v == 0, neg: v >= 0x80, ..f }
}

/// Carry-aware 8-bit addition.  On overflow past 255 the result wraps and
/// both CARRY and OVERFLOW are set; otherwise neither is touched.  ZERO and
/// NEG always reflect the wrapped result.
pub open spec fn spec_add(f: CpuFlags, a: u8, b: u8) -> (u8, CpuFlags) {
    let sum = a + b + carry_in(f);
    if sum > 255 {
        let r = (sum - 256) as u8;
        (r, spec_zero_neg(CpuFlags { carry: true, overflow: true, ..f }, r))
    } else {
        let r = sum as u8;
        (r, spec_zero_neg(f, r))
    }
}

/// Borrow-aware 8-bit subtraction: two's-complement wraparound.  On borrow
/// the CARRY flag is set; ZERO and NEG always reflect the result.
pub open spec fn spec_sub(f: CpuFlags, a: u8, b: u8) -> (u8, CpuFlags) {
    let d = a - b - carry_in(f);
    if d < 0 {
        let r = (d + 256) as u8;
        (r, spec_zero_neg(CpuFlags { carry: true, ..f }, r))
    } else {
        let r = d as u8;
        (r, spec_zero_neg(f, r))
    }
}

/// Shift left: CARRY becomes the old bit 7, the result is truncated to
/// 8 bits, ZERO/NEG reflect the result.
pub open spec fn spec_shl(f: CpuFlags, a: u8) -> (u8, CpuFlags) {
    let r = if 2 * a > 255 {
        (2 * a - 256) as u8
    } else {
        (2 * a) as u8
    };
    (r, spec_zero_neg(CpuFlags { carry: a >= 0x80, ..f }, r))
}

/// Shift right: CARRY becomes the old bit 0, ZERO/NEG reflect the result.
pub open spec fn spec_shr(f: CpuFlags, a: u8) -> (u8, CpuFlags) {
    let r = (a / 2) as u8;
    (r, spec_zero_neg(CpuFlags { carry: a % 2 == 1, ..f }, r))
}

/// Rotate left: a shift left with bit 0 set to the carry that was in
/// before the shift overwrote it.
pub open spec fn spec_rol(f: CpuFlags, a: u8) -> (u8, CpuFlags) {
    let c = carry_in(f);
    let (r1, f1) = spec_shl(f, a);
    let r = (r1 + c) as u8;
    (r, spec_zero_neg(f1, r))
}

/// Rotate right: a shift right with bit 7 set to the carry-in.
pub open spec fn spec_ror(f: CpuFlags, a: u8) -> (u8, CpuFlags) {
    let c = carry_in(f);
    let (r1, f1) = spec_shr(f, a);
    let r = (r1 + 128 * c) as u8;
    (r, spec_zero_neg(f1, r))
}

/// Modes that resolve to a memory address.  Implicit, Accumulator and
/// Immediate operands name no address; callers must not resolve them.
pub open spec fn addressable(mode: AddressingMode) -> bool {
    &&& mode != AddressingMode::Implicit
    &&& mode != AddressingMode::Accumulator
    &&& mode != AddressingMode::Immediate
}

/// The effective address an addressing mode resolves to.
///
/// Zero-page indexing wraps within the zero page (it never carries into
/// page 1), and so do the zero-page pointer reads of the indirect modes.
/// Relative displacement is a signed two's-complement byte added to the
/// program counter.  Absolute indexing uses the full 16-bit space.
pub open spec fn spec_effective_addr(
    regs: Regs,
    mem: Seq<u8>,
    mode: AddressingMode,
    operand: u16,
) -> u16
    recommends
        addressable(mode),
        operand_len_spec(mode) == 1 ==> operand < 0x100,
{
    match mode {
        AddressingMode::ZeroPage => operand,
        AddressingMode::ZeroPageX => if operand + regs.x > 255 {
            (operand + regs.x - 256) as u16
        } else {
            (operand + regs.x) as u16
        },
        AddressingMode::ZeroPageY => if operand + regs.y > 255 {
            (operand + regs.y - 256) as u16
        } else {
            (operand + regs.y) as u16
        },
        AddressingMode::Relative => if operand < 128 {
            wrap16(regs.pc + operand)
        } else {
            wrap16(regs.pc + operand - 256)
        },
        AddressingMode::Absolute => operand,
        AddressingMode::AbsoluteX => wrap16(operand + regs.x),
        AddressingMode::AbsoluteY => wrap16(operand + regs.y),
        AddressingMode::Indirect => le16(
            mem[operand as int],
            mem[wrap16(operand + 1) as int],
        ),
        AddressingMode::IndirectX => {
            let base = if operand + regs.x > 255 {
                operand + regs.x - 256
            } else {
                operand + regs.x
            };
            le16(
                mem[base],
                mem[if base == 255 {
                    0int
                } else {
                    base + 1
                }],
            )
        },
        AddressingMode::IndirectY => {
            let ptr = le16(
                mem[operand as int],
                mem[if operand == 255 {
                    0int
                } else {
                    operand + 1
                }],
            );
            wrap16(ptr + regs.y)
        },
        _ => 0u16,
    }
}

/// The operand byte an instruction reads: the accumulator for Accumulator
/// mode, the operand itself for Immediate, otherwise the byte at the
/// effective address.
pub open spec fn spec_read_byte(regs: Regs, mem: Seq<u8>, mode: AddressingMode, operand: u16) -> u8
    recommends
        mode != AddressingMode::Implicit,
        operand_len_spec(mode) == 1 ==> operand < 0x100,
{
    match mode {
        AddressingMode::Accumulator => regs.a,
        AddressingMode::Immediate => operand as u8,
        _ => mem[spec_effective_addr(regs, mem, mode, operand) as int],
    }
}

/// Where an instruction writes its result byte: the accumulator for
/// Accumulator mode, otherwise the byte at the effective address.
pub open spec fn spec_write_byte(
    regs: Regs,
    mem: Seq<u8>,
    mode: AddressingMode,
    operand: u16,
    byte: u8,
) -> (Regs, Seq<u8>)
    recommends
        mode != AddressingMode::Implicit,
        mode != AddressingMode::Immediate,
        operand_len_spec(mode) == 1 ==> operand < 0x100,
{
    match mode {
        AddressingMode::Accumulator => (Regs { a: byte, ..regs }, mem),
        _ => (regs, mem.update(spec_effective_addr(regs, mem, mode, operand) as int, byte)),
    }
}

/// Push one byte: fails with `StackOverflow` when the stack pointer is
/// already 0; otherwise the byte is written at 0x0100 + sp and the stack
/// pointer moves down.
pub open spec fn spec_push(regs: Regs, mem: Seq<u8>, byte: u8) -> Result<(Regs, Seq<u8>), EmuError> {
    if regs.sp == 0 {
        Err(EmuError::StackOverflow)
    } else {
        Ok(
            (
                Regs { sp: (regs.sp - 1) as u8, ..regs },
                mem.update(0x100 + regs.sp as int, byte),
            ),
        )
    }
}

/// Pull one byte: fails with `StackUnderflow` when the stack pointer is
/// already 0xff; otherwise the stack pointer moves up and the byte at
/// 0x0100 + sp is read.
pub open spec fn spec_pull(regs: Regs, mem: Seq<u8>) -> Result<(Regs, u8), EmuError> {
    if regs.sp == 0xff {
        Err(EmuError::StackUnderflow)
    } else {
        Ok((Regs { sp: (regs.sp + 1) as u8, ..regs }, mem[0x100 + regs.sp + 1]))
    }
}

/// Push the program counter plus `offset` as two bytes, high byte first,
/// so that the low byte ends on top of the stack.  The word push is
/// atomic: when the stack cannot take two bytes it fails without writing.
pub open spec fn spec_push_pc(regs: Regs, mem: Seq<u8>, offset: u16) -> Result<
    (Regs, Seq<u8>),
    EmuError,
> {
    if regs.sp < 2 {
        Err(EmuError::StackOverflow)
    } else {
        let pc2 = wrap16(regs.pc + offset);
        Ok(
            (
                Regs { sp: (regs.sp - 2) as u8, ..regs },
                mem.update(0x100 + regs.sp as int, (pc2 / 256) as u8).update(
                    0x100 + regs.sp - 1,
                    (pc2 % 256) as u8,
                ),
            ),
        )
    }
}

/// Pull a program counter pushed by `spec_push_pc` and add `offset` to it.
/// Atomic like the push: when two bytes cannot be pulled it fails without
/// moving the stack pointer.
pub open spec fn spec_pull_pc(regs: Regs, mem: Seq<u8>, offset: u16) -> Result<
    (Regs, u16),
    EmuError,
> {
    if regs.sp > 0xfd {
        Err(EmuError::StackUnderflow)
    } else {
        let lo = mem[0x100 + regs.sp + 1];
        let hi = mem[0x100 + regs.sp + 2];
        Ok((Regs { sp: (regs.sp + 2) as u8, ..regs }, wrap16(le16(lo, hi) + offset)))
    }
}

/// Push the flag byte with BREAK forced to 1 in the pushed snapshot (the
/// architectural convention); the flag register itself is unchanged.
pub open spec fn spec_push_flags(regs: Regs, mem: Seq<u8>) -> Result<(Regs, Seq<u8>), EmuError> {
    spec_push(regs, mem, (CpuFlags { brk: true, ..regs.flags }).bits_spec())
}

/// Pull a flag byte from the stack into the flag register, then restore
/// BREAK to the value it had immediately before the pull ("sticky BREAK").
pub open spec fn spec_pull_flags(regs: Regs, mem: Seq<u8>) -> Result<Regs, EmuError> {
    match spec_pull(regs, mem) {
        Err(e) => Err(e),
        Ok((r1, byte)) => Ok(
            Regs {
                flags: CpuFlags { brk: regs.flags.brk, ..CpuFlags::from_bits_spec(byte) },
                ..r1
            },
        ),
    }
}

/// The entry address stored little-endian at 0xfffc/0xfffd.
pub open spec fn spec_reset_vector(mem: Seq<u8>) -> u16 {
    le16(mem[0xfffc], mem[0xfffd])
}

/// The interrupt-handler address stored little-endian at 0xfffe/0xffff.
pub open spec fn spec_irq_vector(mem: Seq<u8>) -> u16 {
    le16(mem[0xfffe], mem[0xffff])
}

/// The machine state one instruction leaves behind: the registers, the
/// bus contents, whether the engine suspended (BRK was taken), and the
/// fault that stopped execution, if any.  On a fault, `regs` and `mem`
/// are the state at the fault point.
pub struct ExecOut {
    pub regs: Regs,
    pub mem: Seq<u8>,
    pub suspend: bool,
    pub fault: Option<EmuError>,
}

/// A successful, non-suspending outcome.
pub open spec fn out_ok(regs: Regs, mem: Seq<u8>) -> ExecOut {
    ExecOut { regs, mem, suspend: false, fault: None }
}

/// A faulting outcome, carrying the state at the fault point.
pub open spec fn out_fault(regs: Regs, mem: Seq<u8>, e: EmuError) -> ExecOut {
    ExecOut { regs, mem, suspend: false, fault: Some(e) }
}

/// What executing one already-decoded instruction does to the machine.
/// `regs.pc` is the address just past the instruction (decode has already
/// advanced it).
pub open spec fn spec_execute(regs: Regs, mem: Seq<u8>, ins: Instruction) -> ExecOut
    recommends
        ins.wf(),
{
    let mode = ins.addressing_mode;
    let operand = ins.operand;
    match ins.name {
        InstructionName::lda => {
            let v = spec_read_byte(regs, mem, mode, operand);
            out_ok(Regs { a: v, flags: spec_zero_neg(regs.flags, v), ..regs }, mem)
        },
        InstructionName::ldx => {
            let v = spec_read_byte(regs, mem, mode, operand);
            out_ok(Regs { x: v, flags: spec_zero_neg(regs.flags, v), ..regs }, mem)
        },
        InstructionName::ldy => {
            let v = spec_read_byte(regs, mem, mode, operand);
            out_ok(Regs { y: v, flags: spec_zero_neg(regs.flags, v), ..regs }, mem)
        },
        InstructionName::sta => {
            let (r2, m2) = spec_write_byte(regs, mem, mode, operand, regs.a);
            out_ok(r2, m2)
        },
        InstructionName::stx => {
            let (r2, m2) = spec_write_byte(regs, mem, mode, operand, regs.x);
            out_ok(r2, m2)
        },
        InstructionName::sty => {
            let (r2, m2) = spec_write_byte(regs, mem, mode, operand, regs.y);
            out_ok(r2, m2)
        },
        InstructionName::tax => out_ok(
            Regs { x: regs.a, flags: spec_zero_neg(regs.flags, regs.a), ..regs },
            mem,
        ),
        InstructionName::tay => out_ok(
            Regs { y: regs.a, flags: spec_zero_neg(regs.flags, regs.a), ..regs },
            mem,
        ),
        InstructionName::txa => out_ok(
            Regs { a: regs.x, flags: spec_zero_neg(regs.flags, regs.x), ..regs },
            mem,
        ),
        InstructionName::tya => out_ok(
            Regs { a: regs.y, flags: spec_zero_neg(regs.flags, regs.y), ..regs },
            mem,
        ),
        InstructionName::tsx => out_ok(
            Regs { x: regs.sp, flags: spec_zero_neg(regs.flags, regs.sp), ..regs },
            mem,
        ),
        InstructionName::txs => out_ok(
            Regs { sp: regs.x, flags: spec_zero_neg(regs.flags, regs.x), ..regs },
            mem,
        ),
        InstructionName::pha => match spec_push(regs, mem, regs.a) {
            Ok((r2, m2)) => out_ok(r2, m2),
            Err(e) => out_fault(regs, mem, e),
        },
        InstructionName::php => match spec_push_flags(regs, mem) {
            Ok((r2, m2)) => out_ok(r2, m2),
            Err(e) => out_fault(regs, mem, e),
        },
        InstructionName::pla => match spec_pull(regs, mem) {
            Ok((r2, v)) => out_ok(
                Regs { a: v, flags: spec_zero_neg(r2.flags, v), ..r2 },
                mem,
            ),
            Err(e) => out_fault(regs, mem, e),
        },
        InstructionName::plp => match spec_pull_flags(regs, mem) {
            Ok(r2) => out_ok(r2, mem),
            Err(e) => out_fault(regs, mem, e),
        },
        InstructionName::and => {
            let v = regs.a & spec_read_byte(regs, mem, mode, operand);
            out_ok(Regs { a: v, flags: spec_zero_neg(regs.flags, v), ..regs }, mem)
        },
        InstructionName::eor => {
            let v = regs.a ^ spec_read_byte(regs, mem, mode, operand);
            out_ok(Regs { a: v, flags: spec_zero_neg(regs.flags, v), ..regs }, mem)
        },
        InstructionName::ora => {
            let v = regs.a | spec_read_byte(regs, mem, mode, operand);
            out_ok(Regs { a: v, flags: spec_zero_neg(regs.flags, v), ..regs }, mem)
        },
        InstructionName::bit => {
            let v = spec_read_byte(regs, mem, mode, operand);
            let f = CpuFlags {
                neg: if v >= 0x80 {
                    true
                } else {
                    regs.flags.neg
                },
                overflow: if (v / 64) % 2 == 1 {
                    true
                } else {
                    regs.flags.overflow
                },
                zero: (regs.a & v) == 0,
                ..regs.flags
            };
            out_ok(Regs { flags: f, ..regs }, mem)
        },
        InstructionName::adc => {
            let v = spec_read_byte(regs, mem, mode, operand);
            let (r, f) = spec_add(regs.flags, regs.a, v);
            out_ok(Regs { a: r, flags: f, ..regs }, mem)
        },
        InstructionName::sbc => {
            let v = spec_read_byte(regs, mem, mode, operand);
            let (r, f) = spec_sub(regs.flags, regs.a, v);
            out_ok(Regs { a: r, flags: f, ..regs }, mem)
        },
        InstructionName::cmp => {
            let v = spec_read_byte(regs, mem, mode, operand);
            let (r, f) = spec_sub(regs.flags, regs.a, v);
            out_ok(Regs { flags: f, ..regs }, mem)
        },
        InstructionName::cpx => {
            let v = spec_read_byte(regs, mem, mode, operand);
            let (r, f) = spec_sub(regs.flags, regs.x, v);
            out_ok(Regs { flags: f, ..regs }, mem)
        },
        InstructionName::cpy => {
            let v = spec_read_byte(regs, mem, mode, operand);
            let (r, f) = spec_sub(regs.flags, regs.y, v);
            out_ok(Regs { flags: f, ..regs }, mem)
        },
        InstructionName::inc => {
            let v = spec_read_byte(regs, mem, mode, operand);
            let (r, f) = spec_add(regs.flags, v, 1);
            let (r2, m2) = spec_write_byte(Regs { flags: f, ..regs }, mem, mode, operand, r);
            out_ok(r2, m2)
        },
        InstructionName::inx => {
            let (r, f) = spec_add(regs.flags, regs.x, 1);
            out_ok(Regs { x: r, flags: f, ..regs }, mem)
        },
        InstructionName::iny => {
            let (r, f) = spec_add(regs.flags, regs.y, 1);
            out_ok(Regs { y: r, flags: f, ..regs }, mem)
        },
        InstructionName::dec => {
            let v = spec_read_byte(regs, mem, mode, operand);
            let (r, f) = spec_sub(regs.flags, v, 1);
            let f2 = CpuFlags { carry: regs.flags.carry, ..f };
            let (r2, m2) = spec_write_byte(Regs { flags: f2, ..regs }, mem, mode, operand, r);
            out_ok(r2, m2)
        },
        InstructionName::dex => {
            let (r, f) = spec_sub(regs.flags, regs.x, 1);
            let f2 = CpuFlags { carry: regs.flags.carry, ..f };
            out_ok(Regs { x: r, flags: f2, ..regs }, mem)
        },
        InstructionName::dey => {
            let (r, f) = spec_sub(regs.flags, regs.y, 1);
            let f2 = CpuFlags { carry: regs.flags.carry, ..f };
            out_ok(Regs { y: r, flags: f2, ..regs }, mem)
        },
        InstructionName::asl => {
            let v = spec_read_byte(regs, mem, mode, operand);
            let (r, f) = spec_shl(regs.flags, v);
            let (r2, m2) = spec_write_byte(Regs { flags: f, ..regs }, mem, mode, operand, r);
            out_ok(r2, m2)
        },
        InstructionName::lsr => {
            let v = spec_read_byte(regs, mem, mode, operand);
            let (r, f) = spec_shr(regs.flags, v);
            let (r2, m2) = spec_write_byte(Regs { flags: f, ..regs }, mem, mode, operand, r);
            out_ok(r2, m2)
        },
        InstructionName::rol => {
            let v = spec_read_byte(regs, mem, mode, operand);
            let (r, f) = spec_rol(regs.flags, v);
            let (r2, m2) = spec_write_byte(Regs { flags: f, ..regs }, mem, mode, operand, r);
            out_ok(r2, m2)
        },
        InstructionName::ror => {
            let v = spec_read_byte(regs, mem, mode, operand);
            let (r, f) = spec_ror(regs.flags, v);
            let (r2, m2) = spec_write_byte(Regs { flags: f, ..regs }, mem, mode, operand, r);
            out_ok(r2, m2)
        },
        InstructionName::jmp => out_ok(
            Regs { pc: spec_effective_addr(regs, mem, mode, operand), ..regs },
            mem,
        ),
        InstructionName::jsr => {
            let target = spec_effective_addr(regs, mem, mode, operand);
            match spec_push_pc(regs, mem, 0) {
                Ok((r2, m2)) => out_ok(Regs { pc: target, ..r2 }, m2),
                Err(e) => out_fault(regs, mem, e),
            }
        },
        InstructionName::rts => match spec_pull_pc(regs, mem, 0) {
            Ok((r2, pc2)) => out_ok(Regs { pc: pc2, ..r2 }, mem),
            Err(e) => out_fault(regs, mem, e),
        },
        InstructionName::bcc => if regs.flags.carry {
            out_ok(regs, mem)
        } else {
            out_ok(Regs { pc: spec_effective_addr(regs, mem, mode, operand), ..regs }, mem)
        },
        InstructionName::bcs => if !regs.flags.carry {
            out_ok(regs, mem)
        } else {
            out_ok(Regs { pc: spec_effective_addr(regs, mem, mode, operand), ..regs }, mem)
        },
        InstructionName::beq => if !regs.flags.zero {
            out_ok(regs, mem)
        } else {
            out_ok(Regs { pc: spec_effective_addr(regs, mem, mode, operand), ..regs }, mem)
        },
        InstructionName::bmi => if !regs.flags.neg {
            out_ok(regs, mem)
        } else {
            out_ok(Regs { pc: spec_effective_addr(regs, mem, mode, operand), ..regs }, mem)
        },
        InstructionName::bne => if regs.flags.zero {
            out_ok(regs, mem)
        } else {
            out_ok(Regs { pc: spec_effective_addr(regs, mem, mode, operand), ..regs }, mem)
        },
        InstructionName::bpl => if regs.flags.neg {
            out_ok(regs, mem)
        } else {
            out_ok(Regs { pc: spec_effective_addr(regs, mem, mode, operand), ..regs }, mem)
        },
        InstructionName::bvc => if regs.flags.overflow {
            out_ok(regs, mem)
        } else {
            out_ok(Regs { pc: spec_effective_addr(regs, mem, mode, operand), ..regs }, mem)
        },
        InstructionName::bvs => if !regs.flags.overflow {
            out_ok(regs, mem)
        } else {
            out_ok(Regs { pc: spec_effective_addr(regs, mem, mode, operand), ..regs }, mem)
        },
        InstructionName::clc => out_ok(
            Regs { flags: CpuFlags { carry: false, ..regs.flags }, ..regs },
            mem,
        ),
        InstructionName::cld => out_ok(
            Regs { flags: CpuFlags { dec_mode: false, ..regs.flags }, ..regs },
            mem,
        ),
        InstructionName::cli => out_ok(
            Regs { flags: CpuFlags { int_disable: false, ..regs.flags }, ..regs },
            mem,
        ),
        InstructionName::clv => out_ok(
            Regs { flags: CpuFlags { overflow: false, ..regs.flags }, ..regs },
            mem,
        ),
        InstructionName::sec => out_ok(
            Regs { flags: CpuFlags { carry: true, ..regs.flags }, ..regs },
            mem,
        ),
        InstructionName::sed => out_ok(
            Regs { flags: CpuFlags { dec_mode: true, ..regs.flags }, ..regs },
            mem,
        ),
        InstructionName::sei => out_ok(
            Regs { flags: CpuFlags { int_disable: true, ..regs.flags }, ..regs },
            mem,
        ),
        InstructionName::brk => if regs.flags.int_disable {
            out_ok(regs, mem)
        } else if regs.sp < 3 {
            out_fault(regs, mem, EmuError::StackOverflow)
        } else {
            match spec_push_pc(regs, mem, 2) {
                Ok((r1, m1)) => match spec_push_flags(r1, m1) {
                    Ok((r2, m2)) => ExecOut {
                        regs: Regs { pc: spec_irq_vector(m2), ..r2 },
                        mem: m2,
                        suspend: true,
                        fault: None,
                    },
                    Err(e) => out_fault(r1, m1, e),
                },
                Err(e) => out_fault(regs, mem, e),
            }
        },
        InstructionName::nop => out_ok(regs, mem),
        InstructionName::rti => if regs.sp > 0xfc {
            out_fault(regs, mem, EmuError::StackUnderflow)
        } else {
            match spec_pull_flags(regs, mem) {
                Ok(r1) => match spec_pull_pc(r1, mem, 0) {
                    Ok((r2, pc2)) => out_ok(Regs { pc: pc2, ..r2 }, mem),
                    Err(e) => out_fault(r1, mem, e),
                },
                Err(e) => out_fault(regs, mem, e),
            }
        },
    }
}

/// Fetch and decode one instruction at `regs.pc`: read the opcode byte,
/// resolve it against the catalog, read the operand bytes the mode calls
/// for (little-endian), and advance the program counter past the whole
/// instruction.  Fails exactly on an unassigned opcode byte.
pub open spec fn spec_fetch(regs: Regs, mem: Seq<u8>) -> Result<(Instruction, Regs), EmuError> {
    let op = mem[regs.pc as int];
    match decode_op(op) {
        None => Err(EmuError::UnknownOpcode(op)),
        Some((name, mode)) => {
            let w = operand_len_spec(mode);
            let operand: u16 = if w == 0 {
                0u16
            } else if w == 1 {
                mem[wrap16(regs.pc + 1) as int] as u16
            } else {
                le16(mem[wrap16(regs.pc + 1) as int], mem[wrap16(regs.pc + 2) as int])
            };
            Ok(
                (
                    Instruction { name, addressing_mode: mode, op_code: op, operand },
                    Regs { pc: wrap16(regs.pc + 1 + w), ..regs },
                ),
            )
        },
    }
}

/// One full machine step: fetch, decode and execute the instruction at the
/// program counter.  On an unknown opcode the counter rests just past the
/// opcode byte, where the fetch left it.
#[verifier::opaque]
pub open spec fn spec_step(regs: Regs, mem: Seq<u8>) -> ExecOut {
    match spec_fetch(regs, mem) {
        Err(e) => out_fault(Regs { pc: wrap16(regs.pc + 1), ..regs }, mem, e),
        Ok((ins, regs2)) => spec_execute(regs2, mem, ins),
    }
}

/// The machine state after `n` steps from (`regs`, `mem`); once a step
/// faults, the faulting state is final.
pub open spec fn spec_run_n(regs: Regs, mem: Seq<u8>, n: nat) -> ExecOut
    decreases n,
{
    if n == 0 {
        out_ok(regs, mem)
    } else {
        let prev = spec_run_n(regs, mem, (n - 1) as nat);
        if prev.fault is Some {
            prev
        } else {
            spec_step(prev.regs, prev.mem)
        }
    }
}

/// Unfolding rule for the step chain: one more step from a non-faulted
/// state is one application of `spec_step`.
pub proof fn lemma_run_n_unfold(r0: Regs, m0: Seq<u8>, n: nat)
    requires
        spec_run_n(r0, m0, n).fault is None,
    ensures
        spec_run_n(r0, m0, n + 1) == spec_step(spec_run_n(r0, m0, n).regs, spec_run_n(r0, m0, n).mem),
{
}

/// A halt predicate that can only ever accept: every outcome its contract
/// admits is `true`.  The convenience loop `run_until_break` passes such a
/// predicate, and `run`'s contract guarantees that under one the run stops
/// at the step chain's first suspension.
pub open spec fn always_true_predicate<B: ReadWritable, F: Fn(&Regs, &B) -> bool>(f: F) -> bool {
    forall|a: &Regs, b: &B, out: bool| #[trigger] call_ensures(f, (a, b), out) ==> out
}

/// Stack round trip: pushing a byte and pulling it straight back yields
/// that byte and restores the register file exactly — in particular the
/// stack pointer — for every stack pointer with room for the push and not
/// already at the stack top.
pub proof fn lemma_stack_round_trip(regs: Regs, mem: Seq<u8>, v: u8)
    requires
        mem.len() == 0x10000,
        1 <= regs.sp <= 0xfe,
    ensures
        spec_push(regs, mem, v) matches Ok((r1, m1)) && spec_pull(r1, m1) == Ok::<
            (Regs, u8),
            EmuError,
        >((regs, v)),
{
    let (r1, m1) = spec_push(regs, mem, v)->Ok_0;
    assert(r1.sp == regs.sp - 1);
    assert(m1[0x100 + regs.sp as int] == v);
    assert(spec_pull(r1, m1)->Ok_0.0 =~= regs);
}

/// A successful instruction fetch yields a well-formed instruction.
pub proof fn lemma_fetch_wf(regs: Regs, mem: Seq<u8>)
    ensures
        spec_fetch(regs, mem) matches Ok((ins, regs2)) ==> ins.wf(),
{
    lemma_decode_op_sound(mem[regs.pc as int]);
}


/// The execution engine.  It owns the register file and the bus for its
/// whole lifetime; callers observe or adjust state through its methods
/// between runs, never during an in-flight instruction.
pub struct Emulator<B: ReadWritable> {
    pub regs: Regs,
    pub bus: B,
    pub stop_signalled: bool,
}

impl<B: ReadWritable> Emulator<B> {
    /// The engine is usable while its bus is.
    pub open spec fn wf(&self) -> bool {
        self.bus.wf()
    }

    /// An engine over `bus` with freshly reset registers.
    pub fn new(bus: B) -> (r: Emulator<B>)
        requires
            bus.wf(),
        ensures
            r.wf(),
            r.bus == bus,
            r.regs == (Regs { pc: 0, sp: 0xff, a: 0, x: 0, y: 0, flags: CpuFlags::empty_spec() }),
            !r.stop_signalled,
    {
        Emulator { regs: Regs::new(), bus, stop_signalled: false }
    }

    /// The current register file.
    pub fn get_regs(&self) -> (r: &Regs)
        ensures
            *r == self.regs,
    {
        &self.regs
    }

    /// Mutable access to the register file, for callers configuring a run.
    pub fn get_regs_mut(&mut self) -> (r: &mut Regs)
        ensures
            *r == old(self).regs,
            *final(self) == (Emulator { regs: *final(r), ..*old(self) }),
    {
        &mut self.regs
    }

    /// The bus.
    pub fn get_bus(&self) -> (r: &B)
        ensures
            *r == self.bus,
    {
        &self.bus
    }

    /// Mutable access to the bus, for callers loading memory.
    pub fn get_bus_mut(&mut self) -> (r: &mut B)
        ensures
            *r == old(self).bus,
            *final(self) == (Emulator { bus: *final(r), ..*old(self) }),
    {
        &mut self.bus
    }

    /// Point the program counter at `pc` directly, bypassing the reset
    /// sequence; intended for isolated single-instruction testing.
    pub fn set_pc(&mut self, pc: u16)
        ensures
            *final(self) == (Emulator { regs: (Regs { pc, ..old(self).regs }), ..*old(self) }),
    {
        self.regs.pc = pc;
    }

    /// The byte on the stack page at the current stack pointer.
    pub fn read_from_stack(&self) -> (r: u8)
        requires
            self.wf(),
        ensures
            r == self.bus.contents()[0x100 + self.regs.sp as int],
    {
        proof {
            self.bus.lemma_wf_len();
        }
        self.bus.read(self.regs.sp as u16 + 0x100)
    }

    /// Write a byte to the stack page at the current stack pointer.
    pub fn write_to_stack(&mut self, byte: u8)
        requires
            old(self).wf(),
        ensures
            final(self).wf(),
            final(self).regs == old(self).regs,
            final(self).stop_signalled == old(self).stop_signalled,
            final(self).bus.contents() == old(self).bus.contents().update(
                0x100 + old(self).regs.sp as int,
                byte,
            ),
    {
        let addr = self.regs.sp as u16 + 0x100;
        self.bus.write(addr, byte);
    }

    /// The entry address stored in the reset vector.
    pub fn get_reset_addr(&self) -> (r: u16)
        requires
            self.wf(),
        ensures
            r == spec_reset_vector(self.bus.contents()),
    {
        proof {
            self.bus.lemma_wf_len();
        }
        let low = self.bus.read(RESET_VEC_LOW_ADDR) as u16;
        let high = self.bus.read(RESET_VEC_HIGH_ADDR) as u16;
        low + 256 * high
    }

    /// The handler address stored in the interrupt vector.
    pub fn get_irq_addr(&self) -> (r: u16)
        requires
            self.wf(),
        ensures
            r == spec_irq_vector(self.bus.contents()),
    {
        proof {
            self.bus.lemma_wf_len();
        }
        let low = self.bus.read(IRQ_VEC_LOW_ADDR) as u16;
        let high = self.bus.read(IRQ_VEC_HIGH_ADDR) as u16;
        low + 256 * high
    }

    /// Reset entry: point the program counter at the address in the reset
    /// vector.  The only legitimate entry point for a full run.
    pub fn start(&mut self)
        requires
            old(self).wf(),
        ensures
            final(self).wf(),
            *final(self) == (Emulator {
                regs: (Regs {
                    pc: spec_reset_vector(old(self).bus.contents()),
                    ..old(self).regs
                }),
                ..*old(self)
            }),
    {
        let reset_addr = self.get_reset_addr();
        self.set_pc(reset_addr);
    }

    /// Suspend the engine and point the program counter at the interrupt
    /// handler.
    pub fn interrupt(&mut self)
        requires
            old(self).wf(),
        ensures
            final(self).wf(),
            *final(self) == (Emulator {
                regs: (Regs { pc: spec_irq_vector(old(self).bus.contents()), ..old(self).regs }),
                stop_signalled: true,
                ..*old(self)
            }),
    {
        self.stop_signalled = true;
        let irq_addr = self.get_irq_addr();
        self.set_pc(irq_addr);
    }

    /// Resolve the effective address of an addressable mode.
    pub fn get_absolute_address(&self, mode: AddressingMode, address: u16) -> (r: u16)
        requires
            self.wf(),
            addressable(mode),
            operand_len_spec(mode) == 1 ==> address < 0x100,
        ensures
            r == spec_effective_addr(self.regs, self.bus.contents(), mode, address),
    {
        proof {
            self.bus.lemma_wf_len();
        }
        match mode {
            AddressingMode::ZeroPage => address,
            AddressingMode::ZeroPageX => {
                let s = address + self.regs.x as u16;
                if s > 255 {
                    s - 256
                } else {
                    s
                }
            },
            AddressingMode::ZeroPageY => {
                let s = address + self.regs.y as u16;
                if s > 255 {
                    s - 256
                } else {
                    s
                }
            },
            AddressingMode::Relative => {
                if address < 128 {
                    self.regs.pc.wrapping_add(address)
                } else {
                    self.regs.pc.wrapping_add(address).wrapping_sub(256)
                }
            },
            AddressingMode::Absolute => address,
            AddressingMode::AbsoluteX => address.wrapping_add(self.regs.x as u16),
            AddressingMode::AbsoluteY => address.wrapping_add(self.regs.y as u16),
            AddressingMode::Indirect => {
                let lo = self.bus.read(address) as u16;
                let hi = self.bus.read(address.wrapping_add(1)) as u16;
                lo + 256 * hi
            },
            AddressingMode::IndirectX => {
                let s = address + self.regs.x as u16;
                let base = if s > 255 {
                    s - 256
                } else {
                    s
                };
                let lo = self.bus.read(base) as u16;
                let hi = self.bus.read(if base == 255 {
                    0
                } else {
                    base + 1
                }) as u16;
                lo + 256 * hi
            },
            AddressingMode::IndirectY => {
                let lo = self.bus.read(address) as u16;
                let hi = self.bus.read(if address == 255 {
                    0
                } else {
                    address + 1
                }) as u16;
                (lo + 256 * hi).wrapping_add(self.regs.y as u16)
            },
            _ => vstd::pervasive::unreached(),
        }
    }

    /// The operand byte the mode designates: the accumulator, the
    /// immediate operand, or the byte at the effective address.
    pub fn read_byte(&self, mode: AddressingMode, address: u16) -> (r: u8)
        requires
            self.wf(),
            mode != AddressingMode::Implicit,
            operand_len_spec(mode) == 1 ==> address < 0x100,
        ensures
            r == spec_read_byte(self.regs, self.bus.contents(), mode, address),
    {
        proof {
            self.bus.lemma_wf_len();
        }
        if let AddressingMode::Accumulator = mode {
            return self.regs.a;
        }
        if let AddressingMode::Immediate = mode {
            return address as u8;
        }
        let absolute_address = self.get_absolute_address(mode, address);
        self.bus.read(absolute_address)
    }

    /// Write `byte` where the mode designates: the accumulator or the
    /// byte at the effective address.
    pub fn write_byte(&mut self, mode: AddressingMode, address: u16, byte: u8)
        requires
            old(self).wf(),
            mode != AddressingMode::Implicit,
            mode != AddressingMode::Immediate,
            operand_len_spec(mode) == 1 ==> address < 0x100,
        ensures
            final(self).wf(),
            final(self).stop_signalled == old(self).stop_signalled,
            ({
                let (regs2, mem2) = spec_write_byte(
                    old(self).regs,
                    old(self).bus.contents(),
                    mode,
                    address,
                    byte,
                );
                final(self).regs == regs2 && final(self).bus.contents() == mem2
            }),
    {
        proof {
            self.bus.lemma_wf_len();
        }
        if let AddressingMode::Accumulator = mode {
            self.regs.a = byte;
            return ;
        }
        let absolute_address = self.get_absolute_address(mode, address);
        self.bus.write(absolute_address, byte);
    }

    /// Push one byte onto the stack.
    pub fn push(&mut self, byte: u8) -> (r: Result<(), EmuError>)
        requires
            old(self).wf(),
        ensures
            final(self).wf(),
            final(self).stop_signalled == old(self).stop_signalled,
            (match spec_push(old(self).regs, old(self).bus.contents(), byte) {
                Ok((regs2, mem2)) => r is Ok && final(self).regs == regs2
                    && final(self).bus.contents() == mem2,
                Err(e) => r == Err::<(), EmuError>(e) && *final(self) == *old(self),
            }),
    {
        if self.regs.sp == 0 {
            return Err(EmuError::StackOverflow);
        }
        self.write_to_stack(byte);
        self.regs.sp = self.regs.sp - 1;
        Ok(())
    }

    /// Pull one byte from the stack.
    pub fn pull(&mut self) -> (r: Result<u8, EmuError>)
        requires
            old(self).wf(),
        ensures
            final(self).wf(),
            final(self).stop_signalled == old(self).stop_signalled,
            final(self).bus == old(self).bus,
            (match spec_pull(old(self).regs, old(self).bus.contents()) {
                Ok((regs2, v)) => r == Ok::<u8, EmuError>(v) && final(self).regs == regs2,
                Err(e) => r == Err::<u8, EmuError>(e) && *final(self) == *old(self),
            }),
    {
        if self.regs.sp == 0xff {
            return Err(EmuError::StackUnderflow);
        }
        self.regs.sp = self.regs.sp + 1;
        let byte = self.read_from_stack();
        Ok(byte)
    }

    /// Push the program counter plus `offset`, high byte first.
    pub fn push_pc(&mut self, offset: u16) -> (r: Result<(), EmuError>)
        requires
            old(self).wf(),
        ensures
            final(self).wf(),
            final(self).stop_signalled == old(self).stop_signalled,
            (match spec_push_pc(old(self).regs, old(self).bus.contents(), offset) {
                Ok((regs2, mem2)) => r is Ok && final(self).regs == regs2
                    && final(self).bus.contents() == mem2,
                Err(e) => r == Err::<(), EmuError>(e) && *final(self) == *old(self),
            }),
    {
        if self.regs.sp < 2 {
            return Err(EmuError::StackOverflow);
        }
        let pc = self.regs.pc.wrapping_add(offset);
        match self.push((pc / 256) as u8) {
            Ok(()) => {},
            Err(e) => {
                return Err(e);
            },
        }
        match self.push((pc % 256) as u8) {
            Ok(()) => {},
            Err(e) => {
                return Err(e);
            },
        }
        Ok(())
    }

    /// Pull a program counter and add `offset` to it.
    pub fn pull_pc(&mut self, offset: u16) -> (r: Result<u16, EmuError>)
        requires
            old(self).wf(),
        ensures
            final(self).wf(),
            final(self).stop_signalled == old(self).stop_signalled,
            final(self).bus == old(self).bus,
            (match spec_pull_pc(old(self).regs, old(self).bus.contents(), offset) {
                Ok((regs2, pc2)) => r == Ok::<u16, EmuError>(pc2) && final(self).regs == regs2,
                Err(e) => r == Err::<u16, EmuError>(e) && *final(self) == *old(self),
            }),
    {
        if self.regs.sp > 0xfd {
            return Err(EmuError::StackUnderflow);
        }
        let lo = match self.pull() {
            Ok(b) => b,
            Err(e) => {
                return Err(e);
            },
        };
        let hi = match self.pull() {
            Ok(b) => b,
            Err(e) => {
                return Err(e);
            },
        };
        Ok((lo as u16 + 256 * (hi as u16)).wrapping_add(offset))
    }

    /// Push the flag byte with BREAK forced to 1 in the pushed snapshot.
    pub fn push_flags(&mut self) -> (r: Result<(), EmuError>)
        requires
            old(self).wf(),
        ensures
            final(self).wf(),
            final(self).stop_signalled == old(self).stop_signalled,
            (match spec_push_flags(old(self).regs, old(self).bus.contents()) {
                Ok((regs2, mem2)) => r is Ok && final(self).regs == regs2
                    && final(self).bus.contents() == mem2,
                Err(e) => r == Err::<(), EmuError>(e) && *final(self) == *old(self),
            }),
    {
        let mut f = self.regs.flags;
        f.insert(CpuFlags::brk());
        let bits = f.bits();
        self.push(bits)
    }

    /// Pull the flag byte, keeping BREAK sticky across the pull.
    pub fn pull_flags(&mut self) -> (r: Result<(), EmuError>)
        requires
            old(self).wf(),
        ensures
            final(self).wf(),
            final(self).stop_signalled == old(self).stop_signalled,
            final(self).bus == old(self).bus,
            (match spec_pull_flags(old(self).regs, old(self).bus.contents()) {
                Ok(regs2) => r is Ok && final(self).regs == regs2,
                Err(e) => r == Err::<(), EmuError>(e) && *final(self) == *old(self),
            }),
    {
        let contains_break = self.regs.flags.contains(CpuFlags::brk());
        let byte = match self.pull() {
            Ok(b) => b,
            Err(e) => {
                return Err(e);
            },
        };
        self.regs.flags = CpuFlags::from_bits(byte);
        if contains_break {
            self.regs.flags.insert(CpuFlags::brk());
        } else {
            self.regs.flags.remove(CpuFlags::brk());
        }
        Ok(())
    }

    /// The numeric carry-in the flags supply.
    pub fn carry(&self) -> (r: u8)
        ensures
            r == carry_in(self.regs.flags),
    {
        if self.regs.flags.contains(CpuFlags::carry()) {
            1
        } else {
            0
        }
    }

    /// Apply the uniform ZERO/NEG rule for a just-produced result.
    pub fn set_zero_or_neg(&mut self, result: u8)
        ensures
            *final(self) == (Emulator {
                regs: (Regs {
                    flags: spec_zero_neg(old(self).regs.flags, result),
                    ..old(self).regs
                }),
                ..*old(self)
            }),
    {
        if result == 0 {
            self.regs.flags.insert(CpuFlags::zero());
        } else {
            self.regs.flags.remove(CpuFlags::zero());
        }
        if result >= 0x80 {
            self.regs.flags.insert(CpuFlags::neg());
        } else {
            self.regs.flags.remove(CpuFlags::neg());
        }
    }

    /// Carry-aware addition, updating CARRY/OVERFLOW/ZERO/NEG.
    pub fn add(&mut self, a: u8, b: u8) -> (r: u8)
        ensures
            ({
                let (v, f) = spec_add(old(self).regs.flags, a, b);
                &&& r == v
                &&& *final(self) == (Emulator {
                    regs: (Regs { flags: f, ..old(self).regs }),
                    ..*old(self)
                })
            }),
    {
        let c = self.carry();
        let sum: u16 = a as u16 + b as u16 + c as u16;
        let result: u8;
        if sum > 0xff {
            self.regs.flags.insert(CpuFlags::carry());
            self.regs.flags.insert(CpuFlags::overflow());
            result = (sum - 0x100) as u8;
        } else {
            result = sum as u8;
        }
        self.set_zero_or_neg(result);
        result
    }

    /// Borrow-aware subtraction, updating CARRY/ZERO/NEG.
    pub fn sub(&mut self, a: u8, b: u8) -> (r: u8)
        ensures
            ({
                let (v, f) = spec_sub(old(self).regs.flags, a, b);
                &&& r == v
                &&& *final(self) == (Emulator {
                    regs: (Regs { flags: f, ..old(self).regs }),
                    ..*old(self)
                })
            }),
    {
        let c = self.carry();
        let bc: u16 = b as u16 + c as u16;
        let result: u8;
        if (a as u16) < bc {
            self.regs.flags.insert(CpuFlags::carry());
            result = (a as u16 + 0x100 - bc) as u8;
        } else {
            result = (a as u16 - bc) as u8;
        }
        self.set_zero_or_neg(result);
        result
    }

    /// Shift left, CARRY taking the old bit 7.
    pub fn shl(&mut self, a: u8) -> (r: u8)
        ensures
            ({
                let (v, f) = spec_shl(old(self).regs.flags, a);
                &&& r == v
                &&& *final(self) == (Emulator {
                    regs: (Regs { flags: f, ..old(self).regs }),
                    ..*old(self)
                })
            }),
    {
        let doubled: u16 = 2 * (a as u16);
        let result: u8 = if doubled > 0xff {
            (doubled - 0x100) as u8
        } else {
            doubled as u8
        };
        if a >= 0x80 {
            self.regs.flags.insert(CpuFlags::carry());
        } else {
            self.regs.flags.remove(CpuFlags::carry());
        }
        self.set_zero_or_neg(result);
        result
    }

    /// Shift right, CARRY taking the old bit 0.
    pub fn shr(&mut self, a: u8) -> (r: u8)
        ensures
            ({
                let (v, f) = spec_shr(old(self).regs.flags, a);
                &&& r == v
                &&& *final(self) == (Emulator {
                    regs: (Regs { flags: f, ..old(self).regs }),
                    ..*old(self)
                })
            }),
    {
        let result = a / 2;
        if a % 2 == 1 {
            self.regs.flags.insert(CpuFlags::carry());
        } else {
            self.regs.flags.remove(CpuFlags::carry());
        }
        self.set_zero_or_neg(result);
        result
    }

    /// Rotate left through the incoming carry.
    pub fn rol(&mut self, a: u8) -> (r: u8)
        ensures
            ({
                let (v, f) = spec_rol(old(self).regs.flags, a);
                &&& r == v
                &&& *final(self) == (Emulator {
                    regs: (Regs { flags: f, ..old(self).regs }),
                    ..*old(self)
                })
            }),
    {
        let c = self.carry();
        let mut result = self.shl(a);
        if c == 1 {
            result = result + 1;
        }
        self.set_zero_or_neg(result);
        result
    }

    /// Rotate right through the incoming carry.
    pub fn ror(&mut self, a: u8) -> (r: u8)
        ensures
            ({
                let (v, f) = spec_ror(old(self).regs.flags, a);
                &&& r == v
                &&& *final(self) == (Emulator {
                    regs: (Regs { flags: f, ..old(self).regs }),
                    ..*old(self)
                })
            }),
    {
        let c = self.carry();
        let mut result = self.shr(a);
        if c == 1 {
            result = result + 128;
        }
        self.set_zero_or_neg(result);
        result
    }

    /// Fetch and decode the instruction at the program counter, advancing
    /// it past the opcode and operand bytes.  Fails exactly on an opcode
    /// byte with no architectural assignment.
    pub fn decode_next(&mut self) -> (r: Result<Instruction, EmuError>)
        requires
            old(self).wf(),
        ensures
            final(self).wf(),
            final(self).bus == old(self).bus,
            final(self).stop_signalled == old(self).stop_signalled,
            (match spec_fetch(old(self).regs, old(self).bus.contents()) {
                Ok((ins, regs2)) => r == Ok::<Instruction, EmuError>(ins) && ins.wf()
                    && final(self).regs == regs2,
                Err(e) => r == Err::<Instruction, EmuError>(e) && final(self).regs == (Regs {
                    pc: wrap16(old(self).regs.pc + 1),
                    ..old(self).regs
                }),
            }),
    {
        proof {
            self.bus.lemma_wf_len();
            lemma_fetch_wf(self.regs, self.bus.contents());
        }
        let op = self.bus.read(self.regs.pc);
        self.regs.pc = self.regs.pc.wrapping_add(1);
        let (name, mode) = match crate::catalog::lookup_opcode(op) {
            Some(p) => p,
            None => {
                return Err(EmuError::UnknownOpcode(op));
            },
        };
        let mut instruction = Instruction { name, addressing_mode: mode, op_code: op, operand: 0 };
        match mode {
            AddressingMode::Implicit | AddressingMode::Accumulator => {},
            AddressingMode::Immediate
            | AddressingMode::ZeroPage
            | AddressingMode::ZeroPageX
            | AddressingMode::ZeroPageY
            | AddressingMode::Relative
            | AddressingMode::IndirectX
            | AddressingMode::IndirectY => {
                instruction.operand = self.bus.read(self.regs.pc) as u16;
                self.regs.pc = self.regs.pc.wrapping_add(1);
            },
            AddressingMode::Absolute
            | AddressingMode::AbsoluteX
            | AddressingMode::AbsoluteY
            | AddressingMode::Indirect => {
                let lo = self.bus.read(self.regs.pc) as u16;
                self.regs.pc = self.regs.pc.wrapping_add(1);
                let hi = self.bus.read(self.regs.pc) as u16;
                self.regs.pc = self.regs.pc.wrapping_add(1);
                instruction.operand = lo + 256 * hi;
            },
        }
        Ok(instruction)
    }

    /// Loads and stores.
    #[verifier::rlimit(100)]
    fn execute_load_store(&mut self, ins: Instruction) -> (r: Result<(), EmuError>)
        requires
            old(self).wf(),
            ins.wf(),
            ins.name is lda || ins.name is ldx || ins.name is ldy || ins.name is sta || ins.name is stx || ins.name is sty,
        ensures
            final(self).wf(),
            ({
                let out = spec_execute(old(self).regs, old(self).bus.contents(), ins);
                &&& final(self).regs == out.regs
                &&& final(self).bus.contents() == out.mem
                &&& final(self).stop_signalled == (old(self).stop_signalled || out.suspend)
                &&& (match out.fault {
                    Some(e) => r == Err::<(), EmuError>(e),
                    None => r is Ok,
                })
            }),
    {
        proof {
            reveal_with_fuel(opcode_in_list, 10);
        }
        let mode = ins.addressing_mode;
        let operand = ins.operand;
        match ins.name {
            InstructionName::lda => {
                let v = self.read_byte(mode, operand);
                self.regs.a = v;
                self.set_zero_or_neg(v);
            },
            InstructionName::ldx => {
                let v = self.read_byte(mode, operand);
                self.regs.x = v;
                self.set_zero_or_neg(v);
            },
            InstructionName::ldy => {
                let v = self.read_byte(mode, operand);
                self.regs.y = v;
                self.set_zero_or_neg(v);
            },
            InstructionName::sta => {
                let a = self.regs.a;
                self.write_byte(mode, operand, a);
            },
            InstructionName::stx => {
                let x = self.regs.x;
                self.write_byte(mode, operand, x);
            },
            InstructionName::sty => {
                let y = self.regs.y;
                self.write_byte(mode, operand, y);
            },
            _ => {
                return vstd::pervasive::unreached();
            },
        }
        Ok(())
    }

    /// Register transfers and stack operations.
    #[verifier::rlimit(100)]
    fn execute_transfer_stack(&mut self, ins: Instruction) -> (r: Result<(), EmuError>)
        requires
            old(self).wf(),
            ins.wf(),
            ins.name is tax || ins.name is tay || ins.name is txa || ins.name is tya || ins.name is tsx || ins.name is txs || ins.name is pha || ins.name is php || ins.name is pla || ins.name is plp,
        ensures
            final(self).wf(),
            ({
                let out = spec_execute(old(self).regs, old(self).bus.contents(), ins);
                &&& final(self).regs == out.regs
                &&& final(self).bus.contents() == out.mem
                &&& final(self).stop_signalled == (old(self).stop_signalled || out.suspend)
                &&& (match out.fault {
                    Some(e) => r == Err::<(), EmuError>(e),
                    None => r is Ok,
                })
            }),
    {
        proof {
            reveal_with_fuel(opcode_in_list, 10);
        }
        match ins.name {
            InstructionName::tax => {
                let a = self.regs.a;
                self.regs.x = a;
                self.set_zero_or_neg(a);
            },
            InstructionName::tay => {
                let a = self.regs.a;
                self.regs.y = a;
                self.set_zero_or_neg(a);
            },
            InstructionName::txa => {
                let x = self.regs.x;
                self.regs.a = x;
                self.set_zero_or_neg(x);
            },
            InstructionName::tya => {
                let y = self.regs.y;
                self.regs.a = y;
                self.set_zero_or_neg(y);
            },
            InstructionName::tsx => {
                let sp = self.regs.sp;
                self.regs.x = sp;
                self.set_zero_or_neg(sp);
            },
            InstructionName::txs => {
                let x = self.regs.x;
                self.regs.sp = x;
                self.set_zero_or_neg(x);
            },
            InstructionName::pha => {
                let a = self.regs.a;
                match self.push(a) {
                    Ok(()) => {},
                    Err(e) => {
                        return Err(e);
                    },
                }
            },
            InstructionName::php => {
                match self.push_flags() {
                    Ok(()) => {},
                    Err(e) => {
                        return Err(e);
                    },
                }
            },
            InstructionName::pla => {
                let v = match self.pull() {
                    Ok(v) => v,
                    Err(e) => {
                        return Err(e);
                    },
                };
                self.regs.a = v;
                self.set_zero_or_neg(v);
            },
            InstructionName::plp => {
                match self.pull_flags() {
                    Ok(()) => {},
                    Err(e) => {
                        return Err(e);
                    },
                }
            },
            _ => {
                return vstd::pervasive::unreached();
            },
        }
        Ok(())
    }

    /// Logical operations.
    #[verifier::rlimit(100)]
    fn execute_logical(&mut self, ins: Instruction) -> (r: Result<(), EmuError>)
        requires
            old(self).wf(),
            ins.wf(),
            ins.name is and || ins.name is eor || ins.name is ora || ins.name is bit,
        ensures
            final(self).wf(),
            ({
                let out = spec_execute(old(self).regs, old(self).bus.contents(), ins);
                &&& final(self).regs == out.regs
                &&& final(self).bus.contents() == out.mem
                &&& final(self).stop_signalled == (old(self).stop_signalled || out.suspend)
                &&& (match out.fault {
                    Some(e) => r == Err::<(), EmuError>(e),
                    None => r is Ok,
                })
            }),
    {
        proof {
            reveal_with_fuel(opcode_in_list, 10);
        }
        let mode = ins.addressing_mode;
        let operand = ins.operand;
        match ins.name {
            InstructionName::and => {
                let v = self.regs.a & self.read_byte(mode, operand);
                self.regs.a = v;
                self.set_zero_or_neg(v);
            },
            InstructionName::eor => {
                let v = self.regs.a ^ self.read_byte(mode, operand);
                self.regs.a = v;
                self.set_zero_or_neg(v);
            },
            InstructionName::ora => {
                let v = self.regs.a | self.read_byte(mode, operand);
                self.regs.a = v;
                self.set_zero_or_neg(v);
            },
            InstructionName::bit => {
                let byte = self.read_byte(mode, operand);
                if byte >= 0x80 {
                    self.regs.flags.insert(CpuFlags::neg());
                }
                if (byte / 64) % 2 == 1 {
                    self.regs.flags.insert(CpuFlags::overflow());
                }
                let masked = self.regs.a & byte;
                if masked == 0 {
                    self.regs.flags.insert(CpuFlags::zero());
                } else {
                    self.regs.flags.remove(CpuFlags::zero());
                }
            },
            _ => {
                return vstd::pervasive::unreached();
            },
        }
        Ok(())
    }

    /// Arithmetic and comparisons.
    #[verifier::rlimit(100)]
    fn execute_arithmetic(&mut self, ins: Instruction) -> (r: Result<(), EmuError>)
        requires
            old(self).wf(),
            ins.wf(),
            ins.name is adc || ins.name is sbc || ins.name is cmp || ins.name is cpx || ins.name is cpy,
        ensures
            final(self).wf(),
            ({
                let out = spec_execute(old(self).regs, old(self).bus.contents(), ins);
                &&& final(self).regs == out.regs
                &&& final(self).bus.contents() == out.mem
                &&& final(self).stop_signalled == (old(self).stop_signalled || out.suspend)
                &&& (match out.fault {
                    Some(e) => r == Err::<(), EmuError>(e),
                    None => r is Ok,
                })
            }),
    {
        proof {
            reveal_with_fuel(opcode_in_list, 10);
        }
        let mode = ins.addressing_mode;
        let operand = ins.operand;
        match ins.name {
            InstructionName::adc => {
                let byte = self.read_byte(mode, operand);
                let a = self.regs.a;
                let v = self.add(a, byte);
                self.regs.a = v;
            },
            InstructionName::sbc => {
                let byte = self.read_byte(mode, operand);
                let a = self.regs.a;
                let v = self.sub(a, byte);
                self.regs.a = v;
            },
            InstructionName::cmp => {
                let byte = self.read_byte(mode, operand);
                let a = self.regs.a;
                self.sub(a, byte);
            },
            InstructionName::cpx => {
                let byte = self.read_byte(mode, operand);
                let x = self.regs.x;
                self.sub(x, byte);
            },
            InstructionName::cpy => {
                let byte = self.read_byte(mode, operand);
                let y = self.regs.y;
                self.sub(y, byte);
            },
            _ => {
                return vstd::pervasive::unreached();
            },
        }
        Ok(())
    }

    /// Increments and decrements.
    #[verifier::rlimit(100)]
    fn execute_inc_dec(&mut self, ins: Instruction) -> (r: Result<(), EmuError>)
        requires
            old(self).wf(),
            ins.wf(),
            ins.name is inc || ins.name is inx || ins.name is iny || ins.name is dec || ins.name is dex || ins.name is dey,
        ensures
            final(self).wf(),
            ({
                let out = spec_execute(old(self).regs, old(self).bus.contents(), ins);
                &&& final(self).regs == out.regs
                &&& final(self).bus.contents() == out.mem
                &&& final(self).stop_signalled == (old(self).stop_signalled || out.suspend)
                &&& (match out.fault {
                    Some(e) => r == Err::<(), EmuError>(e),
                    None => r is Ok,
                })
            }),
    {
        proof {
            reveal_with_fuel(opcode_in_list, 10);
        }
        let mode = ins.addressing_mode;
        let operand = ins.operand;
        match ins.name {
            InstructionName::inc => {
                let byte = self.read_byte(mode, operand);
                let byte2 = self.add(byte, 1);
                self.write_byte(mode, operand, byte2);
            },
            InstructionName::inx => {
                let x = self.regs.x;
                let v = self.add(x, 1);
                self.regs.x = v;
            },
            InstructionName::iny => {
                let y = self.regs.y;
                let v = self.add(y, 1);
                self.regs.y = v;
            },
            InstructionName::dec => {
                let byte = self.read_byte(mode, operand);
                let has_carry = self.regs.flags.contains(CpuFlags::carry());
                let byte2 = self.sub(byte, 1);
                self.write_byte(mode, operand, byte2);
                if has_carry {
                    self.regs.flags.insert(CpuFlags::carry());
                } else {
                    self.regs.flags.remove(CpuFlags::carry());
                }
            },
            InstructionName::dex => {
                let has_carry = self.regs.flags.contains(CpuFlags::carry());
                let x = self.regs.x;
                let v = self.sub(x, 1);
                self.regs.x = v;
                if has_carry {
                    self.regs.flags.insert(CpuFlags::carry());
                } else {
                    self.regs.flags.remove(CpuFlags::carry());
                }
            },
            InstructionName::dey => {
                let has_carry = self.regs.flags.contains(CpuFlags::carry());
                let y = self.regs.y;
                let v = self.sub(y, 1);
                self.regs.y = v;
                if has_carry {
                    self.regs.flags.insert(CpuFlags::carry());
                } else {
                    self.regs.flags.remove(CpuFlags::carry());
                }
            },
            _ => {
                return vstd::pervasive::unreached();
            },
        }
        Ok(())
    }

    /// Shifts and rotates.
    #[verifier::rlimit(100)]
    fn execute_shift(&mut self, ins: Instruction) -> (r: Result<(), EmuError>)
        requires
            old(self).wf(),
            ins.wf(),
            ins.name is asl || ins.name is lsr || ins.name is rol || ins.name is ror,
        ensures
            final(self).wf(),
            ({
                let out = spec_execute(old(self).regs, old(self).bus.contents(), ins);
                &&& final(self).regs == out.regs
                &&& final(self).bus.contents() == out.mem
                &&& final(self).stop_signalled == (old(self).stop_signalled || out.suspend)
                &&& (match out.fault {
                    Some(e) => r == Err::<(), EmuError>(e),
                    None => r is Ok,
                })
            }),
    {
        proof {
            reveal_with_fuel(opcode_in_list, 10);
        }
        let mode = ins.addressing_mode;
        let operand = ins.operand;
        match ins.name {
            InstructionName::asl => {
                let byte = self.read_byte(mode, operand);
                let byte2 = self.shl(byte);
                self.write_byte(mode, operand, byte2);
            },
            InstructionName::lsr => {
                let byte = self.read_byte(mode, operand);
                let byte2 = self.shr(byte);
                self.write_byte(mode, operand, byte2);
            },
            InstructionName::rol => {
                let byte = self.read_byte(mode, operand);
                let byte2 = self.rol(byte);
                self.write_byte(mode, operand, byte2);
            },
            InstructionName::ror => {
                let byte = self.read_byte(mode, operand);
                let byte2 = self.ror(byte);
                self.write_byte(mode, operand, byte2);
            },
            _ => {
                return vstd::pervasive::unreached();
            },
        }
        Ok(())
    }

    /// Jumps and calls.
    #[verifier::rlimit(100)]
    fn execute_jump(&mut self, ins: Instruction) -> (r: Result<(), EmuError>)
        requires
            old(self).wf(),
            ins.wf(),
            ins.name is jmp || ins.name is jsr || ins.name is rts,
        ensures
            final(self).wf(),
            ({
                let out = spec_execute(old(self).regs, old(self).bus.contents(), ins);
                &&& final(self).regs == out.regs
                &&& final(self).bus.contents() == out.mem
                &&& final(self).stop_signalled == (old(self).stop_signalled || out.suspend)
                &&& (match out.fault {
                    Some(e) => r == Err::<(), EmuError>(e),
                    None => r is Ok,
                })
            }),
    {
        proof {
            reveal_with_fuel(opcode_in_list, 10);
        }
        let mode = ins.addressing_mode;
        let operand = ins.operand;
        match ins.name {
            InstructionName::jmp => {
                let addr = self.get_absolute_address(mode, operand);
                self.set_pc(addr);
            },
            InstructionName::jsr => {
                let addr = self.get_absolute_address(mode, operand);
                match self.push_pc(0) {
                    Ok(()) => {},
                    Err(e) => {
                        return Err(e);
                    },
                }
                self.set_pc(addr);
            },
            InstructionName::rts => {
                let pc = match self.pull_pc(0) {
                    Ok(v) => v,
                    Err(e) => {
                        return Err(e);
                    },
                };
                self.set_pc(pc);
            },
            _ => {
                return vstd::pervasive::unreached();
            },
        }
        Ok(())
    }

    /// Conditional branches.
    #[verifier::rlimit(100)]
    fn execute_branch(&mut self, ins: Instruction) -> (r: Result<(), EmuError>)
        requires
            old(self).wf(),
            ins.wf(),
            ins.name is bcc || ins.name is bcs || ins.name is beq || ins.name is bmi || ins.name is bne || ins.name is bpl || ins.name is bvc || ins.name is bvs,
        ensures
            final(self).wf(),
            ({
                let out = spec_execute(old(self).regs, old(self).bus.contents(), ins);
                &&& final(self).regs == out.regs
                &&& final(self).bus.contents() == out.mem
                &&& final(self).stop_signalled == (old(self).stop_signalled || out.suspend)
                &&& (match out.fault {
                    Some(e) => r == Err::<(), EmuError>(e),
                    None => r is Ok,
                })
            }),
    {
        proof {
            reveal_with_fuel(opcode_in_list, 10);
        }
        let mode = ins.addressing_mode;
        let operand = ins.operand;
        match ins.name {
            InstructionName::bcc => {
                if !self.regs.flags.contains(CpuFlags::carry()) {
                    let addr = self.get_absolute_address(mode, operand);
                    self.set_pc(addr);
                }
            },
            InstructionName::bcs => {
                if self.regs.flags.contains(CpuFlags::carry()) {
                    let addr = self.get_absolute_address(mode, operand);
                    self.set_pc(addr);
                }
            },
            InstructionName::beq => {
                if self.regs.flags.contains(CpuFlags::zero()) {
                    let addr = self.get_absolute_address(mode, operand);
                    self.set_pc(addr);
                }
            },
            InstructionName::bmi => {
                if self.regs.flags.contains(CpuFlags::neg()) {
                    let addr = self.get_absolute_address(mode, operand);
                    self.set_pc(addr);
                }
            },
            InstructionName::bne => {
                if !self.regs.flags.contains(CpuFlags::zero()) {
                    let addr = self.get_absolute_address(mode, operand);
                    self.set_pc(addr);
                }
            },
            InstructionName::bpl => {
                if !self.regs.flags.contains(CpuFlags::neg()) {
                    let addr = self.get_absolute_address(mode, operand);
                    self.set_pc(addr);
                }
            },
            InstructionName::bvc => {
                if !self.regs.flags.contains(CpuFlags::overflow()) {
                    let addr = self.get_absolute_address(mode, operand);
                    self.set_pc(addr);
                }
            },
            InstructionName::bvs => {
                if self.regs.flags.contains(CpuFlags::overflow()) {
                    let addr = self.get_absolute_address(mode, operand);
                    self.set_pc(addr);
                }
            },
            _ => {
                return vstd::pervasive::unreached();
            },
        }
        Ok(())
    }

    /// Status flag changes.
    #[verifier::rlimit(100)]
    fn execute_flag_change(&mut self, ins: Instruction) -> (r: Result<(), EmuError>)
        requires
            old(self).wf(),
            ins.wf(),
            ins.name is clc || ins.name is cld || ins.name is cli || ins.name is clv || ins.name is sec || ins.name is sed || ins.name is sei,
        ensures
            final(self).wf(),
            ({
                let out = spec_execute(old(self).regs, old(self).bus.contents(), ins);
                &&& final(self).regs == out.regs
                &&& final(self).bus.contents() == out.mem
                &&& final(self).stop_signalled == (old(self).stop_signalled || out.suspend)
                &&& (match out.fault {
                    Some(e) => r == Err::<(), EmuError>(e),
                    None => r is Ok,
                })
            }),
    {
        proof {
            reveal_with_fuel(opcode_in_list, 10);
        }
        match ins.name {
            InstructionName::clc => {
                self.regs.flags.remove(CpuFlags::carry());
            },
            InstructionName::cld => {
                self.regs.flags.remove(CpuFlags::dec_mode());
            },
            InstructionName::cli => {
                self.regs.flags.remove(CpuFlags::int_disable());
            },
            InstructionName::clv => {
                self.regs.flags.remove(CpuFlags::overflow());
            },
            InstructionName::sec => {
                self.regs.flags.insert(CpuFlags::carry());
            },
            InstructionName::sed => {
                self.regs.flags.insert(CpuFlags::dec_mode());
            },
            InstructionName::sei => {
                self.regs.flags.insert(CpuFlags::int_disable());
            },
            _ => {
                return vstd::pervasive::unreached();
            },
        }
        Ok(())
    }

    /// System functions: software interrupt, no-op, return from interrupt.
    #[verifier::rlimit(100)]
    fn execute_system(&mut self, ins: Instruction) -> (r: Result<(), EmuError>)
        requires
            old(self).wf(),
            ins.wf(),
            ins.name is brk || ins.name is nop || ins.name is rti,
        ensures
            final(self).wf(),
            ({
                let out = spec_execute(old(self).regs, old(self).bus.contents(), ins);
                &&& final(self).regs == out.regs
                &&& final(self).bus.contents() == out.mem
                &&& final(self).stop_signalled == (old(self).stop_signalled || out.suspend)
                &&& (match out.fault {
                    Some(e) => r == Err::<(), EmuError>(e),
                    None => r is Ok,
                })
            }),
    {
        proof {
            reveal_with_fuel(opcode_in_list, 10);
        }
        match ins.name {
            InstructionName::brk => {
                if !self.regs.flags.contains(CpuFlags::int_disable()) {
                    if self.regs.sp < 3 {
                        return Err(EmuError::StackOverflow);
                    }
                    match self.push_pc(2) {
                        Ok(()) => {},
                        Err(e) => {
                            return Err(e);
                        },
                    }
                    match self.push_flags() {
                        Ok(()) => {},
                        Err(e) => {
                            return Err(e);
                        },
                    }
                    self.interrupt();
                }
            },
            InstructionName::nop => {},
            InstructionName::rti => {
                if self.regs.sp > 0xfc {
                    return Err(EmuError::StackUnderflow);
                }
                match self.pull_flags() {
                    Ok(()) => {},
                    Err(e) => {
                        return Err(e);
                    },
                }
                let pc = match self.pull_pc(0) {
                    Ok(v) => v,
                    Err(e) => {
                        return Err(e);
                    },
                };
                self.set_pc(pc);
            },
            _ => {
                return vstd::pervasive::unreached();
            },
        }
        Ok(())
    }

    /// Execute one already-decoded instruction.  The whole architectural
    /// effect on registers, memory, suspension and faulting is pinned down
    /// by `spec_execute` over the machine state before the call.
    pub fn execute(&mut self, ins: Instruction) -> (r: Result<(), EmuError>)
        requires
            old(self).wf(),
            ins.wf(),
        ensures
            final(self).wf(),
            ({
                let out = spec_execute(old(self).regs, old(self).bus.contents(), ins);
                &&& final(self).regs == out.regs
                &&& final(self).bus.contents() == out.mem
                &&& final(self).stop_signalled == (old(self).stop_signalled || out.suspend)
                &&& (match out.fault {
                    Some(e) => r == Err::<(), EmuError>(e),
                    None => r is Ok,
                })
            }),
    {
        match ins.name {
            InstructionName::lda | InstructionName::ldx | InstructionName::ldy | InstructionName::sta | InstructionName::stx | InstructionName::sty => self.execute_load_store(ins),
            InstructionName::tax | InstructionName::tay | InstructionName::txa | InstructionName::tya | InstructionName::tsx | InstructionName::txs | InstructionName::pha | InstructionName::php | InstructionName::pla | InstructionName::plp => self.execute_transfer_stack(ins),
            InstructionName::and | InstructionName::eor | InstructionName::ora | InstructionName::bit => self.execute_logical(ins),
            InstructionName::adc | InstructionName::sbc | InstructionName::cmp | InstructionName::cpx | InstructionName::cpy => self.execute_arithmetic(ins),
            InstructionName::inc | InstructionName::inx | InstructionName::iny | InstructionName::dec | InstructionName::dex | InstructionName::dey => self.execute_inc_dec(ins),
            InstructionName::asl | InstructionName::lsr | InstructionName::rol | InstructionName::ror => self.execute_shift(ins),
            InstructionName::jmp | InstructionName::jsr | InstructionName::rts => self.execute_jump(ins),
            InstructionName::bcc | InstructionName::bcs | InstructionName::beq | InstructionName::bmi | InstructionName::bne | InstructionName::bpl | InstructionName::bvc | InstructionName::bvs => self.execute_branch(ins),
            InstructionName::clc | InstructionName::cld | InstructionName::cli | InstructionName::clv | InstructionName::sec | InstructionName::sed | InstructionName::sei => self.execute_flag_change(ins),
            InstructionName::brk | InstructionName::nop | InstructionName::rti => self.execute_system(ins),
        }
    }

    /// One full machine cycle: fetch, decode and execute the instruction
    /// at the program counter.
    pub fn execute_next(&mut self) -> (r: Result<(), EmuError>)
        requires
            old(self).wf(),
        ensures
            final(self).wf(),
            ({
                let out = spec_step(old(self).regs, old(self).bus.contents());
                &&& final(self).regs == out.regs
                &&& final(self).bus.contents() == out.mem
                &&& final(self).stop_signalled == (old(self).stop_signalled || out.suspend)
                &&& (match out.fault {
                    Some(e) => r == Err::<(), EmuError>(e),
                    None => r is Ok,
                })
            }),
    {
        proof {
            reveal(spec_step);
        }
        let instruction = match self.decode_next() {
            Ok(i) => i,
            Err(e) => {
                return Err(e);
            },
        };
        self.execute(instruction)
    }

    /// Run from reset: point the program counter at the reset vector, then
    /// repeatedly fetch and execute until an interrupt suspends the engine;
    /// then consult `on_break` with the current state.  If it declines, the
    /// engine resumes; if it accepts, control returns with `Ok(true)`.
    ///
    /// `max_steps` bounds how many instructions may execute; a run that
    /// exhausts the budget returns `Ok(false)` with all state intact, and
    /// may simply be resumed by the caller.  A decode or stack fault ends
    /// the run with that error.
    ///
    /// The contract pins the run to the deterministic step chain
    /// `spec_run_n` rooted at the post-reset state: the final state is step
    /// `n` of the chain, with the chain's fault matching the result;
    /// `Ok(false)` means the budget was exhausted, exactly `max_steps`
    /// instructions having executed; `Ok(true)` means step `n` suspended
    /// the engine and `on_break` accepted exactly the final state; and
    /// under a predicate that can only accept, the run stops at the
    /// chain's first suspension.
    #[verifier::loop_isolation(false)]
    pub fn run<F: Fn(&Regs, &B) -> bool>(&mut self, on_break: F, max_steps: u64) -> (r: Result<
        bool,
        EmuError,
    >)
        requires
            old(self).wf(),
            forall|a: &Regs, b: &B| #[trigger] on_break.requires((a, b)),
        ensures
            final(self).wf(),
            ({
                let r0 = (Regs {
                    pc: spec_reset_vector(old(self).bus.contents()),
                    ..old(self).regs
                });
                let m0 = old(self).bus.contents();
                exists|n: nat|
                    {
                        &&& (#[trigger] spec_run_n(r0, m0, n)).regs == final(self).regs
                        &&& spec_run_n(r0, m0, n).mem == final(self).bus.contents()
                        &&& spec_run_n(r0, m0, n).fault == (match r {
                            Ok(_) => None::<EmuError>,
                            Err(e) => Some(e),
                        })
                        &&& (r == Ok::<bool, EmuError>(false) ==> n == max_steps)
                        &&& (r == Ok::<bool, EmuError>(true) ==> spec_run_n(r0, m0, n).suspend
                            && call_ensures(
                            on_break,
                            (&final(self).regs, &final(self).bus),
                            true,
                        ))
                        &&& (always_true_predicate(on_break) && r == Ok::<bool, EmuError>(true)
                            ==> forall|m: nat|
                            0 < m < n ==> !(#[trigger] spec_run_n(r0, m0, m)).suspend)
                    }
            }),
    {
        self.stop_signalled = false;
        self.start();
        let ghost r0 = self.regs;
        let ghost m0 = self.bus.contents();
        let ghost mut steps: nat = 0;
        proof {
            assert(spec_run_n(r0, m0, 0) == out_ok(r0, m0));
        }
        let mut steps_left: u64 = max_steps;
        loop
            invariant
                self.wf(),
                forall|a: &Regs, b: &B| #[trigger] on_break.requires((a, b)),
                steps_left <= max_steps,
                steps == max_steps - steps_left,
                spec_run_n(r0, m0, steps).fault is None,
                spec_run_n(r0, m0, steps).regs == self.regs,
                spec_run_n(r0, m0, steps).mem == self.bus.contents(),
                self.stop_signalled ==> spec_run_n(r0, m0, steps).suspend,
                always_true_predicate(on_break) ==> (spec_run_n(r0, m0, steps).suspend
                    ==> self.stop_signalled),
                always_true_predicate(on_break) ==> forall|m: nat|
                    0 < m < steps ==> !(#[trigger] spec_run_n(r0, m0, m)).suspend,
            decreases steps_left, (if self.stop_signalled { 1int } else { 0int }),
        {
            if self.stop_signalled {
                self.stop_signalled = false;
                let should_stop = on_break(&self.regs, &self.bus);
                if should_stop {
                    return Ok(true);
                }
                proof {
                    // An always-accepting predicate cannot have declined.
                    if always_true_predicate(on_break) {
                        assert(false);
                    }
                }
            } else {
                if steps_left == 0 {
                    return Ok(false);
                }
                steps_left = steps_left - 1;
                let ghost pre_regs = self.regs;
                let ghost pre_mem = self.bus.contents();
                let step_result = self.execute_next();
                proof {
                    lemma_run_n_unfold(r0, m0, steps);
                    assert(spec_run_n(r0, m0, steps + 1) == spec_step(pre_regs, pre_mem));
                    if always_true_predicate(on_break) {
                        // The engine was not suspended here, so this step
                        // was no undeclined suspension.
                        assert(!spec_run_n(r0, m0, steps).suspend);
                    }
                    steps = steps + 1;
                }
                match step_result {
                    Ok(()) => {},
                    Err(e) => {
                        return Err(e);
                    },
                }
            }
        }
    }

    /// Run from reset until the first suspension: the convenience case of
    /// `run` whose halt predicate always accepts.  `Ok(true)` therefore
    /// means the run stopped at the step chain's first suspension;
    /// `Ok(false)` means the step budget ran out first.
    pub fn run_until_break(&mut self, max_steps: u64) -> (r: Result<bool, EmuError>)
        requires
            old(self).wf(),
        ensures
            final(self).wf(),
            ({
                let r0 = (Regs {
                    pc: spec_reset_vector(old(self).bus.contents()),
                    ..old(self).regs
                });
                let m0 = old(self).bus.contents();
                exists|n: nat|
                    {
                        &&& (#[trigger] spec_run_n(r0, m0, n)).regs == final(self).regs
                        &&& spec_run_n(r0, m0, n).mem == final(self).bus.contents()
                        &&& spec_run_n(r0, m0, n).fault == (match r {
                            Ok(_) => None::<EmuError>,
                            Err(e) => Some(e),
                        })
                        &&& (r == Ok::<bool, EmuError>(false) ==> n == max_steps)
                        &&& (r == Ok::<bool, EmuError>(true) ==> spec_run_n(r0, m0, n).suspend
                            && forall|m: nat|
                            0 < m < n ==> !(#[trigger] spec_run_n(r0, m0, m)).suspend)
                    }
            }),
    {
        let accept_first = |_regs: &Regs, _bus: &B| -> (accept: bool)
            ensures
                accept,
            { true };
        let r = self.run(accept_first, max_steps);
        proof {
            assert forall|a: &Regs, b: &B, out: bool| #[trigger] call_ensures(
                accept_first,
                (a, b),
                out,
            ) implies out by {}
            assert(always_true_predicate(accept_first));
        }
        r
    }
}

} // verus!
