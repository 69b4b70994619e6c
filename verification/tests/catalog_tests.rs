use micro_6502::decoder::Decoder;
use micro_6502::errors::EmuError;
use micro_6502::instruction::{AddressingMode, Instruction, InstructionName, InstructionRegistry};

fn operand_width(mode: AddressingMode) -> usize {
    match mode {
        AddressingMode::Implicit | AddressingMode::Accumulator => 0,
        AddressingMode::Absolute
        | AddressingMode::AbsoluteX
        | AddressingMode::AbsoluteY
        | AddressingMode::Indirect => 2,
        _ => 1,
    }
}

#[test]
fn encode_decode_round_trip_all_catalog_entries() {
    let registry = InstructionRegistry::new();
    let mut total = 0;
    for builder in &registry.all_instructions {
        for &(mode, op_code) in builder.get_modes().iter() {
            let operand: u16 = match operand_width(mode) {
                0 => 0,
                1 => 0x37,
                _ => 0x1234,
            };
            let instruction = Instruction {
                name: builder.name,
                addressing_mode: mode,
                op_code,
                operand,
            };
            let bytes = instruction.encode();
            assert_eq!(bytes.len(), 1 + operand_width(mode));
            assert_eq!(bytes[0], op_code);
            let mut decoder = Decoder::new(bytes);
            let decoded = decoder.decode_next().unwrap();
            assert_eq!(decoded, instruction);
            total += 1;
        }
    }
    assert_eq!(total, 151);
}

#[test]
fn opcode_bytes_are_pairwise_distinct() {
    let registry = InstructionRegistry::new();
    let mut seen = [false; 256];
    for builder in &registry.all_instructions {
        for &(_, op_code) in builder.get_modes().iter() {
            assert!(!seen[op_code as usize], "opcode assigned twice");
            seen[op_code as usize] = true;
        }
    }
}

#[test]
fn lookup_by_name_finds_every_mnemonic() {
    let registry = InstructionRegistry::new();
    let builder = registry.get_instruction_by_name(InstructionName::lda);
    assert_eq!(builder.name, InstructionName::lda);
    assert_eq!(builder.get_modes().len(), 8);
    let builder = registry.get_instruction_by_name(InstructionName::rti);
    assert_eq!(builder.name, InstructionName::rti);
}

#[test]
fn build_supported_mode_gives_instruction() {
    let registry = InstructionRegistry::new();
    let builder = registry.get_instruction_by_name(InstructionName::lda);
    let instruction = builder.build(AddressingMode::Immediate, 5).unwrap();
    assert_eq!(instruction.name, InstructionName::lda);
    assert_eq!(instruction.addressing_mode, AddressingMode::Immediate);
    assert_eq!(instruction.op_code, 0xa9);
    assert_eq!(instruction.operand, 5);
}

#[test]
fn build_unsupported_mode_gives_none() {
    let registry = InstructionRegistry::new();
    let builder = registry.get_instruction_by_name(InstructionName::lda);
    assert!(builder.build(AddressingMode::Implicit, 0).is_none());
    let builder = registry.get_instruction_by_name(InstructionName::jsr);
    assert!(builder.build(AddressingMode::Indirect, 0).is_none());
}

#[test]
fn lookup_by_op_code_decodes_assigned_bytes() {
    let registry = InstructionRegistry::new();
    let instruction = registry.get_instruction_by_op_code(0xa9, 7).unwrap();
    assert_eq!(instruction.name, InstructionName::lda);
    assert_eq!(instruction.addressing_mode, AddressingMode::Immediate);
    assert_eq!(instruction.op_code, 0xa9);
    assert_eq!(instruction.operand, 7);
    let instruction = registry.get_instruction_by_op_code(0x00, 0).unwrap();
    assert_eq!(instruction.name, InstructionName::brk);
    assert_eq!(instruction.addressing_mode, AddressingMode::Implicit);
}

#[test]
fn lookup_by_op_code_rejects_unassigned_bytes() {
    let registry = InstructionRegistry::new();
    assert!(registry.get_instruction_by_op_code(0x02, 0).is_none());
    assert!(registry.get_instruction_by_op_code(0xff, 0).is_none());
}

#[test]
fn encode_absolute_is_little_endian() {
    let instruction = Instruction {
        name: InstructionName::jmp,
        addressing_mode: AddressingMode::Absolute,
        op_code: 0x4c,
        operand: 0x1234,
    };
    assert_eq!(instruction.encode(), vec![0x4c, 0x34, 0x12]);
}

#[test]
fn decoder_reports_truncated_stream() {
    let mut decoder = Decoder::new(vec![0xa9]);
    assert_eq!(decoder.decode_next(), Err(EmuError::UnexpectedEnd));
    let mut decoder = Decoder::new(vec![0x4c, 0x34]);
    assert_eq!(decoder.decode_next(), Err(EmuError::UnexpectedEnd));
    let mut decoder = Decoder::new(Vec::new());
    assert_eq!(decoder.decode_next(), Err(EmuError::UnexpectedEnd));
}

#[test]
fn decoder_reports_unknown_opcode() {
    let mut decoder = Decoder::new(vec![0x02]);
    assert_eq!(decoder.decode_next(), Err(EmuError::UnknownOpcode(0x02)));
}

#[test]
fn decoder_walks_a_stream_of_instructions() {
    let mut decoder = Decoder::new(vec![0xa9, 0x05, 0xca, 0x4c, 0x00, 0x80]);
    let first = decoder.decode_next().unwrap();
    assert_eq!(first.name, InstructionName::lda);
    assert_eq!(first.operand, 5);
    let second = decoder.decode_next().unwrap();
    assert_eq!(second.name, InstructionName::dex);
    let third = decoder.decode_next().unwrap();
    assert_eq!(third.name, InstructionName::jmp);
    assert_eq!(third.operand, 0x8000);
    assert_eq!(decoder.decode_next(), Err(EmuError::UnexpectedEnd));
}

#[test]
fn next_word_reads_little_endian() {
    let mut decoder = Decoder::new(vec![0xcd, 0xab]);
    assert_eq!(decoder.next_word(), 0xabcd);
}
