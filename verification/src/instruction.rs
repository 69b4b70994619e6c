//! Instruction names, addressing modes, decoded instructions, and the
//! executable instruction registry built from the catalog data.

use vstd::prelude::*;

use crate::catalog::{decode_op, lookup_opcode, opcode_in_list, opcode_of, spec_modes_of};

verus! {

/// The 56 architectural operation names.
#[allow(non_camel_case_types)]
#[derive(Debug, Clone, Copy, PartialEq, Eq, Structural)]
pub enum InstructionName {
    // Load/store operations
    lda,
    ldx,
    ldy,
    sta,
    stx,
    sty,
    // Register transfers
    tax,
    tay,
    txa,
    tya,
    // Stack operations
    tsx,
    txs,
    pha,
    php,
    pla,
    plp,
    // Logical
    and,
    eor,
    ora,
    bit,
    // Arithmetic
    adc,
    sbc,
    cmp,
    cpx,
    cpy,
    // Increments & decrements
    inc,
    inx,
    iny,
    dec,
    dex,
    dey,
    // Shifts
    asl,
    lsr,
    rol,
    ror,
    // Jumps & calls
    jmp,
    jsr,
    rts,
    // Branches
    bcc,
    bcs,
    beq,
    bmi,
    bne,
    bpl,
    bvc,
    bvs,
    // Status flag changes
    clc,
    cld,
    cli,
    clv,
    sec,
    sed,
    sei,
    // System functions
    brk,
    nop,
    rti,
}

/// The 13 addressing modes.  The mode determines the operand width
/// (0, 1 or 2 bytes) and the effective-address computation rule.
#[derive(Debug, Clone, Copy, PartialEq, Eq, Structural)]
pub enum AddressingMode {
    Implicit,
    Accumulator,
    Immediate,
    ZeroPage,
    ZeroPageX,
    ZeroPageY,
    Relative,
    Absolute,
    AbsoluteX,
    AbsoluteY,
    Indirect,
    IndirectX,
    IndirectY,
}

/// How many operand bytes follow the opcode byte for a given mode.
pub open spec fn operand_len_spec(mode: AddressingMode) -> nat {
    match mode {
        AddressingMode::Implicit | AddressingMode::Accumulator => 0,
        AddressingMode::Immediate
        | AddressingMode::ZeroPage
        | AddressingMode::ZeroPageX
        | AddressingMode::ZeroPageY
        | AddressingMode::Relative
        | AddressingMode::IndirectX
        | AddressingMode::IndirectY => 1,
        AddressingMode::Absolute
        | AddressingMode::AbsoluteX
        | AddressingMode::AbsoluteY
        | AddressingMode::Indirect => 2,
    }
}

/// A fully decoded instruction: mnemonic, addressing mode, the opcode byte
/// it was decoded from, and the operand value (width implied by the mode).
#[derive(Debug, Clone, Copy, PartialEq, Eq, Structural)]
pub struct Instruction {
    pub name: InstructionName,
    pub addressing_mode: AddressingMode,
    pub op_code: u8,
    pub operand: u16,
}

impl Instruction {
    /// A well-formed instruction is one the catalog can produce: its opcode
    /// byte is the architectural encoding of its (name, mode) pair and its
    /// operand fits the width the mode implies.
    pub open spec fn wf(self) -> bool {
        &&& opcode_of(self.name, self.addressing_mode) == Some(self.op_code)
        &&& (operand_len_spec(self.addressing_mode) == 0 ==> self.operand == 0)
        &&& (operand_len_spec(self.addressing_mode) == 1 ==> self.operand < 256)
    }

    /// The byte encoding of the instruction: the opcode byte followed by the
    /// operand bytes, little-endian for the two-byte modes.
    pub open spec fn encode_spec(self) -> Seq<u8> {
        if operand_len_spec(self.addressing_mode) == 0 {
            seq![self.op_code]
        } else if operand_len_spec(self.addressing_mode) == 1 {
            seq![self.op_code, self.operand as u8]
        } else {
            seq![self.op_code, (self.operand % 256) as u8, (self.operand / 256) as u8]
        }
    }

    fn new(
        name: InstructionName,
        addressing_mode: AddressingMode,
        op_code: u8,
        operand: u16,
    ) -> (r: Instruction)
        ensures
            r == (Instruction { name, addressing_mode, op_code, operand }),
    {
        Instruction { name, addressing_mode, op_code, operand }
    }

    /// Encode the instruction back into bytes.
    pub fn encode(&self) -> (r: Vec<u8>)
        ensures
            r@ == self.encode_spec(),
    {
        let mut v: Vec<u8> = Vec::new();
        v.push(self.op_code);
        match self.addressing_mode {
            AddressingMode::Implicit | AddressingMode::Accumulator => {},
            AddressingMode::Immediate
            | AddressingMode::ZeroPage
            | AddressingMode::ZeroPageX
            | AddressingMode::ZeroPageY
            | AddressingMode::Relative
            | AddressingMode::IndirectX
            | AddressingMode::IndirectY => {
                v.push(self.operand as u8);
            },
            AddressingMode::Absolute
            | AddressingMode::AbsoluteX
            | AddressingMode::AbsoluteY
            | AddressingMode::Indirect => {
                v.push((self.operand % 256) as u8);
                v.push((self.operand / 256) as u8);
            },
        }
        proof {
            assert(v@ =~= self.encode_spec());
        }
        v
    }
}

/// One mnemonic together with the addressing modes it supports and their
/// opcode bytes; instructions are built from it.
#[derive(Debug)]
pub struct InstructionBuilder {
    pub name: InstructionName,
    pub modes: Vec<(AddressingMode, u8)>,
}

impl InstructionBuilder {
    /// A builder is well formed when its mode list is exactly the catalog's
    /// list for its mnemonic.
    pub open spec fn wf(&self) -> bool {
        self.modes@ == spec_modes_of(self.name)
    }

    fn new(name: InstructionName) -> (r: Self)
        ensures
            r.name == name,
            r.modes@ == Seq::<(AddressingMode, u8)>::empty(),
    {
        InstructionBuilder { name, modes: Vec::new() }
    }

    /// The (mode, opcode) pairs this mnemonic supports, in catalog order.
    pub fn get_modes(&self) -> (r: &Vec<(AddressingMode, u8)>)
        requires
            self.wf(),
        ensures
            r@ == spec_modes_of(self.name),
    {
        &self.modes
    }

    fn add_mode(self, addressing_mode: AddressingMode, op_code: u8) -> (r: Self)
        ensures
            r.name == self.name,
            r.modes@ == self.modes@.push((addressing_mode, op_code)),
    {
        let mut s = self;
        s.modes.push((addressing_mode, op_code));
        s
    }

    /// Build an instruction of this mnemonic with the given mode and
    /// operand; `None` exactly when the mnemonic does not support the mode.
    pub fn build(&self, addressing_mode: AddressingMode, operand: u16) -> (r: Option<Instruction>)
        requires
            self.wf(),
        ensures
            (match opcode_of(self.name, addressing_mode) {
                Some(op) => r == Some(
                    Instruction { name: self.name, addressing_mode, op_code: op, operand },
                ),
                None => r is None,
            }),
    {
        proof {
            assert(self.modes@.skip(0) =~= self.modes@);
        }
        let mut i: usize = 0;
        while i < self.modes.len()
            invariant
                self.wf(),
                0 <= i <= self.modes@.len(),
                opcode_in_list(self.modes@.skip(i as int), addressing_mode) == opcode_of(
                    self.name,
                    addressing_mode,
                ),
            decreases self.modes@.len() - i,
        {
            let (m, op) = self.modes[i];
            if m == addressing_mode {
                proof {
                    assert(self.modes@.skip(i as int)[0] == (m, op));
                }
                return Some(Instruction::new(self.name, addressing_mode, op, operand));
            }
            proof {
                assert(self.modes@.skip(i as int).drop_first() =~= self.modes@.skip(i as int + 1));
            }
            i = i + 1;
        }
        None
    }

    fn imp(self, op_code: u8) -> (r: Self)
        ensures
            r.name == self.name,
            r.modes@ == self.modes@.push((AddressingMode::Implicit, op_code)),
    {
        self.add_mode(AddressingMode::Implicit, op_code)
    }

    fn acc(self, op_code: u8) -> (r: Self)
        ensures
            r.name == self.name,
            r.modes@ == self.modes@.push((AddressingMode::Accumulator, op_code)),
    {
        self.add_mode(AddressingMode::Accumulator, op_code)
    }

    fn imm(self, op_code: u8) -> (r: Self)
        ensures
            r.name == self.name,
            r.modes@ == self.modes@.push((AddressingMode::Immediate, op_code)),
    {
        self.add_mode(AddressingMode::Immediate, op_code)
    }

    fn zp(self, op_code: u8) -> (r: Self)
        ensures
            r.name == self.name,
            r.modes@ == self.modes@.push((AddressingMode::ZeroPage, op_code)),
    {
        self.add_mode(AddressingMode::ZeroPage, op_code)
    }

    fn zpx(self, op_code: u8) -> (r: Self)
        ensures
            r.name == self.name,
            r.modes@ == self.modes@.push((AddressingMode::ZeroPageX, op_code)),
    {
        self.add_mode(AddressingMode::ZeroPageX, op_code)
    }

    fn zpy(self, op_code: u8) -> (r: Self)
        ensures
            r.name == self.name,
            r.modes@ == self.modes@.push((AddressingMode::ZeroPageY, op_code)),
    {
        self.add_mode(AddressingMode::ZeroPageY, op_code)
    }

    fn rel(self, op_code: u8) -> (r: Self)
        ensures
            r.name == self.name,
            r.modes@ == self.modes@.push((AddressingMode::Relative, op_code)),
    {
        self.add_mode(AddressingMode::Relative, op_code)
    }

    fn abs(self, op_code: u8) -> (r: Self)
        ensures
            r.name == self.name,
            r.modes@ == self.modes@.push((AddressingMode::Absolute, op_code)),
    {
        self.add_mode(AddressingMode::Absolute, op_code)
    }

    fn absx(self, op_code: u8) -> (r: Self)
        ensures
            r.name == self.name,
            r.modes@ == self.modes@.push((AddressingMode::AbsoluteX, op_code)),
    {
        self.add_mode(AddressingMode::AbsoluteX, op_code)
    }

    fn absy(self, op_code: u8) -> (r: Self)
        ensures
            r.name == self.name,
            r.modes@ == self.modes@.push((AddressingMode::AbsoluteY, op_code)),
    {
        self.add_mode(AddressingMode::AbsoluteY, op_code)
    }

    fn ind(self, op_code: u8) -> (r: Self)
        ensures
            r.name == self.name,
            r.modes@ == self.modes@.push((AddressingMode::Indirect, op_code)),
    {
        self.add_mode(AddressingMode::Indirect, op_code)
    }

    fn indx(self, op_code: u8) -> (r: Self)
        ensures
            r.name == self.name,
            r.modes@ == self.modes@.push((AddressingMode::IndirectX, op_code)),
    {
        self.add_mode(AddressingMode::IndirectX, op_code)
    }

    fn indy(self, op_code: u8) -> (r: Self)
        ensures
            r.name == self.name,
            r.modes@ == self.modes@.push((AddressingMode::IndirectY, op_code)),
    {
        self.add_mode(AddressingMode::IndirectY, op_code)
    }
}

pub open spec fn names_seq() -> Seq<InstructionName> {
    seq![
        InstructionName::lda,
        InstructionName::ldx,
        InstructionName::ldy,
        InstructionName::sta,
        InstructionName::stx,
        InstructionName::sty,
        InstructionName::tax,
        InstructionName::tay,
        InstructionName::txa,
        InstructionName::tya,
        InstructionName::tsx,
        InstructionName::txs,
        InstructionName::pha,
        InstructionName::php,
        InstructionName::pla,
        InstructionName::plp,
        InstructionName::and,
        InstructionName::eor,
        InstructionName::ora,
        InstructionName::bit,
        InstructionName::adc,
        InstructionName::sbc,
        InstructionName::cmp,
        InstructionName::cpx,
        InstructionName::cpy,
        InstructionName::inc,
        InstructionName::inx,
        InstructionName::iny,
        InstructionName::dec,
        InstructionName::dex,
        InstructionName::dey,
        InstructionName::asl,
        InstructionName::lsr,
        InstructionName::rol,
        InstructionName::ror,
        InstructionName::jmp,
        InstructionName::jsr,
        InstructionName::rts,
        InstructionName::bcc,
        InstructionName::bcs,
        InstructionName::beq,
        InstructionName::bmi,
        InstructionName::bne,
        InstructionName::bpl,
        InstructionName::bvc,
        InstructionName::bvs,
        InstructionName::clc,
        InstructionName::cld,
        InstructionName::cli,
        InstructionName::clv,
        InstructionName::sec,
        InstructionName::sed,
        InstructionName::sei,
        InstructionName::brk,
        InstructionName::nop,
        InstructionName::rti,
    ]
}

proof fn lemma_name_present(name: InstructionName)
    ensures
        exists|i: int| 0 <= i < 56 && names_seq()[i] == name,
{
    match name {
        InstructionName::lda => {
            assert(names_seq()[0] == name);
        }
        InstructionName::ldx => {
            assert(names_seq()[1] == name);
        }
        InstructionName::ldy => {
            assert(names_seq()[2] == name);
        }
        InstructionName::sta => {
            assert(names_seq()[3] == name);
        }
        InstructionName::stx => {
            assert(names_seq()[4] == name);
        }
        InstructionName::sty => {
            assert(names_seq()[5] == name);
        }
        InstructionName::tax => {
            assert(names_seq()[6] == name);
        }
        InstructionName::tay => {
            assert(names_seq()[7] == name);
        }
        InstructionName::txa => {
            assert(names_seq()[8] == name);
        }
        InstructionName::tya => {
            assert(names_seq()[9] == name);
        }
        InstructionName::tsx => {
            assert(names_seq()[10] == name);
        }
        InstructionName::txs => {
            assert(names_seq()[11] == name);
        }
        InstructionName::pha => {
            assert(names_seq()[12] == name);
        }
        InstructionName::php => {
            assert(names_seq()[13] == name);
        }
        InstructionName::pla => {
            assert(names_seq()[14] == name);
        }
        InstructionName::plp => {
            assert(names_seq()[15] == name);
        }
        InstructionName::and => {
            assert(names_seq()[16] == name);
        }
        InstructionName::eor => {
            assert(names_seq()[17] == name);
        }
        InstructionName::ora => {
            assert(names_seq()[18] == name);
        }
        InstructionName::bit => {
            assert(names_seq()[19] == name);
        }
        InstructionName::adc => {
            assert(names_seq()[20] == name);
        }
        InstructionName::sbc => {
            assert(names_seq()[21] == name);
        }
        InstructionName::cmp => {
            assert(names_seq()[22] == name);
        }
        InstructionName::cpx => {
            assert(names_seq()[23] == name);
        }
        InstructionName::cpy => {
            assert(names_seq()[24] == name);
        }
        InstructionName::inc => {
            assert(names_seq()[25] == name);
        }
        InstructionName::inx => {
            assert(names_seq()[26] == name);
        }
        InstructionName::iny => {
            assert(names_seq()[27] == name);
        }
        InstructionName::dec => {
            assert(names_seq()[28] == name);
        }
        InstructionName::dex => {
            assert(names_seq()[29] == name);
        }
        InstructionName::dey => {
            assert(names_seq()[30] == name);
        }
        InstructionName::asl => {
            assert(names_seq()[31] == name);
        }
        InstructionName::lsr => {
            assert(names_seq()[32] == name);
        }
        InstructionName::rol => {
            assert(names_seq()[33] == name);
        }
        InstructionName::ror => {
            assert(names_seq()[34] == name);
        }
        InstructionName::jmp => {
            assert(names_seq()[35] == name);
        }
        InstructionName::jsr => {
            assert(names_seq()[36] == name);
        }
        InstructionName::rts => {
            assert(names_seq()[37] == name);
        }
        InstructionName::bcc => {
            assert(names_seq()[38] == name);
        }
        InstructionName::bcs => {
            assert(names_seq()[39] == name);
        }
        InstructionName::beq => {
            assert(names_seq()[40] == name);
        }
        InstructionName::bmi => {
            assert(names_seq()[41] == name);
        }
        InstructionName::bne => {
            assert(names_seq()[42] == name);
        }
        InstructionName::bpl => {
            assert(names_seq()[43] == name);
        }
        InstructionName::bvc => {
            assert(names_seq()[44] == name);
        }
        InstructionName::bvs => {
            assert(names_seq()[45] == name);
        }
        InstructionName::clc => {
            assert(names_seq()[46] == name);
        }
        InstructionName::cld => {
            assert(names_seq()[47] == name);
        }
        InstructionName::cli => {
            assert(names_seq()[48] == name);
        }
        InstructionName::clv => {
            assert(names_seq()[49] == name);
        }
        InstructionName::sec => {
            assert(names_seq()[50] == name);
        }
        InstructionName::sed => {
            assert(names_seq()[51] == name);
        }
        InstructionName::sei => {
            assert(names_seq()[52] == name);
        }
        InstructionName::brk => {
            assert(names_seq()[53] == name);
        }
        InstructionName::nop => {
            assert(names_seq()[54] == name);
        }
        InstructionName::rti => {
            assert(names_seq()[55] == name);
        }
    }
}
/// The registry of all 56 instruction builders, in catalog order.
pub struct InstructionRegistry {
    pub all_instructions: Vec<InstructionBuilder>,
}

impl InstructionRegistry {
    /// A registry is well formed when it holds one well-formed builder per
    /// mnemonic, in catalog order.
    pub open spec fn wf(&self) -> bool {
        &&& self.all_instructions@.len() == 56
        &&& forall|i: int|
            0 <= i < 56 ==> (#[trigger] self.all_instructions@[i]).name == names_seq()[i]
        &&& forall|i: int| 0 <= i < 56 ==> (#[trigger] self.all_instructions@[i]).wf()
    }

    /// Build the registry from the catalog data.
    pub fn new() -> (r: Self)
        ensures
            r.wf(),
    {
        InstructionRegistry { all_instructions: Self::get_all_instructions() }
    }

    /// The builder for a mnemonic; total, every mnemonic is registered.
    pub fn get_instruction_by_name(&self, name: InstructionName) -> (r: &InstructionBuilder)
        requires
            self.wf(),
        ensures
            r.name == name,
            r.wf(),
    {
        let mut i: usize = 0;
        while i < self.all_instructions.len()
            invariant
                self.wf(),
                0 <= i <= 56,
                forall|j: int| 0 <= j < i ==> names_seq()[j] != name,
            decreases 56 - i,
        {
            let b = &self.all_instructions[i];
            if b.name == name {
                return b;
            }
            i = i + 1;
        }
        proof {
            lemma_name_present(name);
            assert(false);
        }
        vstd::pervasive::unreached()
    }

    /// Reverse lookup: the instruction a byte decodes to, with the operand
    /// filled in by the caller; `None` exactly for bytes with no
    /// architectural assignment.
    pub fn get_instruction_by_op_code(&self, op_code: u8, operand: u16) -> (r: Option<Instruction>)
        ensures
            (match decode_op(op_code) {
                Some((name, mode)) => r == Some(
                    Instruction { name, addressing_mode: mode, op_code, operand },
                ),
                None => r is None,
            }),
    {
        match lookup_opcode(op_code) {
            Some((name, mode)) => Some(Instruction::new(name, mode, op_code, operand)),
            None => None,
        }
    }

    fn get_all_instructions() -> (r: Vec<InstructionBuilder>)
        ensures
            r@.len() == 56,
            forall|i: int| 0 <= i < 56 ==> (#[trigger] r@[i]).name == names_seq()[i],
            forall|i: int| 0 <= i < 56 ==> (#[trigger] r@[i]).wf(),
    {
        let mut v: Vec<InstructionBuilder> = Vec::new();
        let b = InstructionBuilder::new(InstructionName::lda).imm(0xa9).zp(0xa5).zpx(0xb5).abs(0xad).absx(0xbd).absy(0xb9).indx(0xa1).indy(0xb1);
        proof {
            assert(b.modes@ =~= spec_modes_of(InstructionName::lda));
        }
        v.push(b);
        let b = InstructionBuilder::new(InstructionName::ldx).imm(0xa2).zp(0xa6).zpy(0xb6).abs(0xae).absy(0xbe);
        proof {
            assert(b.modes@ =~= spec_modes_of(InstructionName::ldx));
        }
        v.push(b);
        let b = InstructionBuilder::new(InstructionName::ldy).imm(0xa0).zp(0xa4).zpx(0xb4).abs(0xac).absx(0xbc);
        proof {
            assert(b.modes@ =~= spec_modes_of(InstructionName::ldy));
        }
        v.push(b);
        let b = InstructionBuilder::new(InstructionName::sta).zp(0x85).zpx(0x95).abs(0x8d).absx(0x9d).absy(0x99).indx(0x81).indy(0x91);
        proof {
            assert(b.modes@ =~= spec_modes_of(InstructionName::sta));
        }
        v.push(b);
        let b = InstructionBuilder::new(InstructionName::stx).zp(0x86).zpy(0x96).abs(0x8e);
        proof {
            assert(b.modes@ =~= spec_modes_of(InstructionName::stx));
        }
        v.push(b);
        let b = InstructionBuilder::new(InstructionName::sty).zp(0x84).zpx(0x94).abs(0x8c);
        proof {
            assert(b.modes@ =~= spec_modes_of(InstructionName::sty));
        }
        v.push(b);
        let b = InstructionBuilder::new(InstructionName::tax).imp(0xaa);
        proof {
            assert(b.modes@ =~= spec_modes_of(InstructionName::tax));
        }
        v.push(b);
        let b = InstructionBuilder::new(InstructionName::tay).imp(0xa8);
        proof {
            assert(b.modes@ =~= spec_modes_of(InstructionName::tay));
        }
        v.push(b);
        let b = InstructionBuilder::new(InstructionName::txa).imp(0x8a);
        proof {
            assert(b.modes@ =~= spec_modes_of(InstructionName::txa));
        }
        v.push(b);
        let b = InstructionBuilder::new(InstructionName::tya).imp(0x98);
        proof {
            assert(b.modes@ =~= spec_modes_of(InstructionName::tya));
        }
        v.push(b);
        let b = InstructionBuilder::new(InstructionName::tsx).imp(0xba);
        proof {
            assert(b.modes@ =~= spec_modes_of(InstructionName::tsx));
        }
        v.push(b);
        let b = InstructionBuilder::new(InstructionName::txs).imp(0x9a);
        proof {
            assert(b.modes@ =~= spec_modes_of(InstructionName::txs));
        }
        v.push(b);
        let b = InstructionBuilder::new(InstructionName::pha).imp(0x48);
        proof {
            assert(b.modes@ =~= spec_modes_of(InstructionName::pha));
        }
        v.push(b);
        let b = InstructionBuilder::new(InstructionName::php).imp(0x08);
        proof {
            assert(b.modes@ =~= spec_modes_of(InstructionName::php));
        }
        v.push(b);
        let b = InstructionBuilder::new(InstructionName::pla).imp(0x68);
        proof {
            assert(b.modes@ =~= spec_modes_of(InstructionName::pla));
        }
        v.push(b);
        let b = InstructionBuilder::new(InstructionName::plp).imp(0x28);
        proof {
            assert(b.modes@ =~= spec_modes_of(InstructionName::plp));
        }
        v.push(b);
        let b = InstructionBuilder::new(InstructionName::and).imm(0x29).zp(0x25).zpx(0x35).abs(0x2d).absx(0x3d).absy(0x39).indx(0x21).indy(0x31);
        proof {
            assert(b.modes@ =~= spec_modes_of(InstructionName::and));
        }
        v.push(b);
        let b = InstructionBuilder::new(InstructionName::eor).imm(0x49).zp(0x45).zpx(0x55).abs(0x4d).absx(0x5d).absy(0x59).indx(0x41).indy(0x51);
        proof {
            assert(b.modes@ =~= spec_modes_of(InstructionName::eor));
        }
        v.push(b);
        let b = InstructionBuilder::new(InstructionName::ora).imm(0x09).zp(0x05).zpx(0x15).abs(0x0d).absx(0x1d).absy(0x19).indx(0x01).indy(0x11);
        proof {
            assert(b.modes@ =~= spec_modes_of(InstructionName::ora));
        }
        v.push(b);
        let b = InstructionBuilder::new(InstructionName::bit).zp(0x24).abs(0x2c);
        proof {
            assert(b.modes@ =~= spec_modes_of(InstructionName::bit));
        }
        v.push(b);
        let b = InstructionBuilder::new(InstructionName::adc).imm(0x69).zp(0x65).zpx(0x75).abs(0x6d).absx(0x7d).absy(0x79).indx(0x61).indy(0x71);
        proof {
            assert(b.modes@ =~= spec_modes_of(InstructionName::adc));
        }
        v.push(b);
        let b = InstructionBuilder::new(InstructionName::sbc).imm(0xe9).zp(0xe5).zpx(0xf5).abs(0xed).absx(0xfd).absy(0xf9).indx(0xe1).indy(0xf1);
        proof {
            assert(b.modes@ =~= spec_modes_of(InstructionName::sbc));
        }
        v.push(b);
        let b = InstructionBuilder::new(InstructionName::cmp).imm(0xc9).zp(0xc5).zpx(0xd5).abs(0xcd).absx(0xdd).absy(0xd9).indx(0xc1).indy(0xd1);
        proof {
            assert(b.modes@ =~= spec_modes_of(InstructionName::cmp));
        }
        v.push(b);
        let b = InstructionBuilder::new(InstructionName::cpx).imm(0xe0).zp(0xe4).abs(0xec);
        proof {
            assert(b.modes@ =~= spec_modes_of(InstructionName::cpx));
        }
        v.push(b);
        let b = InstructionBuilder::new(InstructionName::cpy).imm(0xc0).zp(0xc4).abs(0xcc);
        proof {
            assert(b.modes@ =~= spec_modes_of(InstructionName::cpy));
        }
        v.push(b);
        let b = InstructionBuilder::new(InstructionName::inc).zp(0xe6).zpx(0xf6).abs(0xee).absx(0xfe);
        proof {
            assert(b.modes@ =~= spec_modes_of(InstructionName::inc));
        }
        v.push(b);
        let b = InstructionBuilder::new(InstructionName::inx).imp(0xe8);
        proof {
            assert(b.modes@ =~= spec_modes_of(InstructionName::inx));
        }
        v.push(b);
        let b = InstructionBuilder::new(InstructionName::iny).imp(0xc8);
        proof {
            assert(b.modes@ =~= spec_modes_of(InstructionName::iny));
        }
        v.push(b);
        let b = InstructionBuilder::new(InstructionName::dec).zp(0xc6).zpx(0xd6).abs(0xce).absx(0xde);
        proof {
            assert(b.modes@ =~= spec_modes_of(InstructionName::dec));
        }
        v.push(b);
        let b = InstructionBuilder::new(InstructionName::dex).imp(0xca);
        proof {
            assert(b.modes@ =~= spec_modes_of(InstructionName::dex));
        }
        v.push(b);
        let b = InstructionBuilder::new(InstructionName::dey).imp(0x88);
        proof {
            assert(b.modes@ =~= spec_modes_of(InstructionName::dey));
        }
        v.push(b);
        let b = InstructionBuilder::new(InstructionName::asl).acc(0x0a).zp(0x06).zpx(0x16).abs(0x0e).absx(0x1e);
        proof {
            assert(b.modes@ =~= spec_modes_of(InstructionName::asl));
        }
        v.push(b);
        let b = InstructionBuilder::new(InstructionName::lsr).acc(0x4a).zp(0x46).zpx(0x56).abs(0x4e).absx(0x5e);
        proof {
            assert(b.modes@ =~= spec_modes_of(InstructionName::lsr));
        }
        v.push(b);
        let b = InstructionBuilder::new(InstructionName::rol).acc(0x2a).zp(0x26).zpx(0x36).abs(0x2e).absx(0x3e);
        proof {
            assert(b.modes@ =~= spec_modes_of(InstructionName::rol));
        }
        v.push(b);
        let b = InstructionBuilder::new(InstructionName::ror).acc(0x6a).zp(0x66).zpx(0x76).abs(0x6e).absx(0x7e);
        proof {
            assert(b.modes@ =~= spec_modes_of(InstructionName::ror));
        }
        v.push(b);
        let b = InstructionBuilder::new(InstructionName::jmp).abs(0x4c).ind(0x6c);
        proof {
            assert(b.modes@ =~= spec_modes_of(InstructionName::jmp));
        }
        v.push(b);
        let b = InstructionBuilder::new(InstructionName::jsr).abs(0x20);
        proof {
            assert(b.modes@ =~= spec_modes_of(InstructionName::jsr));
        }
        v.push(b);
        let b = InstructionBuilder::new(InstructionName::rts).imp(0x60);
        proof {
            assert(b.modes@ =~= spec_modes_of(InstructionName::rts));
        }
        v.push(b);
        let b = InstructionBuilder::new(InstructionName::bcc).rel(0x90);
        proof {
            assert(b.modes@ =~= spec_modes_of(InstructionName::bcc));
        }
        v.push(b);
        let b = InstructionBuilder::new(InstructionName::bcs).rel(0xb0);
        proof {
            assert(b.modes@ =~= spec_modes_of(InstructionName::bcs));
        }
        v.push(b);
        let b = InstructionBuilder::new(InstructionName::beq).rel(0xf0);
        proof {
            assert(b.modes@ =~= spec_modes_of(InstructionName::beq));
        }
        v.push(b);
        let b = InstructionBuilder::new(InstructionName::bmi).rel(0x30);
        proof {
            assert(b.modes@ =~= spec_modes_of(InstructionName::bmi));
        }
        v.push(b);
        let b = InstructionBuilder::new(InstructionName::bne).rel(0xd0);
        proof {
            assert(b.modes@ =~= spec_modes_of(InstructionName::bne));
        }
        v.push(b);
        let b = InstructionBuilder::new(InstructionName::bpl).rel(0x10);
        proof {
            assert(b.modes@ =~= spec_modes_of(InstructionName::bpl));
        }
        v.push(b);
        let b = InstructionBuilder::new(InstructionName::bvc).rel(0x50);
        proof {
            assert(b.modes@ =~= spec_modes_of(InstructionName::bvc));
        }
        v.push(b);
        let b = InstructionBuilder::new(InstructionName::bvs).rel(0x70);
        proof {
            assert(b.modes@ =~= spec_modes_of(InstructionName::bvs));
        }
        v.push(b);
        let b = InstructionBuilder::new(InstructionName::clc).imp(0x18);
        proof {
            assert(b.modes@ =~= spec_modes_of(InstructionName::clc));
        }
        v.push(b);
        let b = InstructionBuilder::new(InstructionName::cld).imp(0xd8);
        proof {
            assert(b.modes@ =~= spec_modes_of(InstructionName::cld));
        }
        v.push(b);
        let b = InstructionBuilder::new(InstructionName::cli).imp(0x58);
        proof {
            assert(b.modes@ =~= spec_modes_of(InstructionName::cli));
        }
        v.push(b);
        let b = InstructionBuilder::new(InstructionName::clv).imp(0xb8);
        proof {
            assert(b.modes@ =~= spec_modes_of(InstructionName::clv));
        }
        v.push(b);
        let b = InstructionBuilder::new(InstructionName::sec).imp(0x38);
        proof {
            assert(b.modes@ =~= spec_modes_of(InstructionName::sec));
        }
        v.push(b);
        let b = InstructionBuilder::new(InstructionName::sed).imp(0xf8);
        proof {
            assert(b.modes@ =~= spec_modes_of(InstructionName::sed));
        }
        v.push(b);
        let b = InstructionBuilder::new(InstructionName::sei).imp(0x78);
        proof {
            assert(b.modes@ =~= spec_modes_of(InstructionName::sei));
        }
        v.push(b);
        let b = InstructionBuilder::new(InstructionName::brk).imp(0x00);
        proof {
            assert(b.modes@ =~= spec_modes_of(InstructionName::brk));
        }
        v.push(b);
        let b = InstructionBuilder::new(InstructionName::nop).imp(0xea);
        proof {
            assert(b.modes@ =~= spec_modes_of(InstructionName::nop));
        }
        v.push(b);
        let b = InstructionBuilder::new(InstructionName::rti).imp(0x40);
        proof {
            assert(b.modes@ =~= spec_modes_of(InstructionName::rti));
        }
        v.push(b);
        v
    }
}

} // verus!
