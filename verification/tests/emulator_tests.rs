use micro_6502::bus::Bus;
use micro_6502::emulator::Emulator;
use micro_6502::errors::EmuError;
use micro_6502::instruction::AddressingMode;
use micro_6502::mem::Memory;
use micro_6502::readwritable::ReadWritable;
use micro_6502::regs::CpuFlags;

fn emulator_with(bytes: &[(u16, u8)]) -> Emulator<Memory> {
    let mut memory = Memory::new();
    for &(address, byte) in bytes {
        memory.write(address, byte);
    }
    Emulator::new(memory)
}

fn load_program(program: &[u8]) -> Emulator<Memory> {
    let mut memory = Memory::new();
    for (i, &byte) in program.iter().enumerate() {
        memory.write(i as u16, byte);
    }
    Emulator::new(memory)
}

#[test]
fn stack_round_trip_restores_sp() {
    let mut em = emulator_with(&[]);
    for sp in 1..=0xfeu8 {
        em.get_regs_mut().sp = sp;
        em.push(0x5a).unwrap();
        assert_eq!(em.get_regs().sp, sp - 1);
        assert_eq!(em.pull().unwrap(), 0x5a);
        assert_eq!(em.get_regs().sp, sp);
    }
}

#[test]
fn push_at_sp_zero_overflows() {
    let mut em = emulator_with(&[]);
    em.get_regs_mut().sp = 0;
    assert_eq!(em.push(1), Err(EmuError::StackOverflow));
    assert_eq!(em.get_regs().sp, 0);
}

#[test]
fn pull_at_sp_top_underflows() {
    let mut em = emulator_with(&[]);
    assert_eq!(em.get_regs().sp, 0xff);
    assert_eq!(em.pull(), Err(EmuError::StackUnderflow));
}

#[test]
fn push_pc_then_pull_pc_round_trips() {
    let mut em = emulator_with(&[]);
    em.get_regs_mut().pc = 0x1234;
    em.push_pc(0).unwrap();
    assert_eq!(em.get_regs().sp, 0xfd);
    assert_eq!(em.get_bus().read(0x1ff), 0x12);
    assert_eq!(em.get_bus().read(0x1fe), 0x34);
    assert_eq!(em.pull_pc(0).unwrap(), 0x1234);
    assert_eq!(em.get_regs().sp, 0xff);
}

#[test]
fn push_flags_forces_break_in_the_snapshot() {
    let mut em = emulator_with(&[]);
    em.push_flags().unwrap();
    assert_eq!(em.get_bus().read(0x1ff), 0x10);
    assert!(!em.get_regs().flags.brk);
}

#[test]
fn pull_flags_keeps_break_sticky() {
    let mut em = emulator_with(&[]);
    em.push(0xff).unwrap();
    em.pull_flags().unwrap();
    assert!(!em.get_regs().flags.brk);
    assert_eq!(em.get_regs().flags.bits(), 0xef);
}

#[test]
fn lda_immediate_decodes_and_executes() {
    let mut em = load_program(&[0xa9, 0x05]);
    em.set_pc(0);
    let ins = em.decode_next().unwrap();
    assert_eq!(ins.addressing_mode, AddressingMode::Immediate);
    assert_eq!(ins.op_code, 0xa9);
    assert_eq!(ins.operand, 5);
    em.execute(ins).unwrap();
    let regs = em.get_regs();
    assert_eq!(regs.a, 5);
    assert!(!regs.flags.zero);
    assert!(!regs.flags.neg);
    assert_eq!(regs.pc, 2);
}

#[test]
fn ldx_zero_then_dex_wraps_to_ff() {
    let mut em = load_program(&[0xa2, 0x00, 0xca]);
    em.set_pc(0);
    em.execute_next().unwrap();
    assert_eq!(em.get_regs().x, 0);
    assert!(em.get_regs().flags.zero);
    em.execute_next().unwrap();
    let regs = em.get_regs();
    assert_eq!(regs.x, 0xff);
    assert!(regs.flags.neg);
    assert!(!regs.flags.zero);
}

#[test]
fn jsr_then_rts_restores_pc_and_sp() {
    let mut em = load_program(&[0x20, 0x05, 0x00]);
    em.get_bus_mut().write(0x0005, 0x60);
    em.set_pc(0);
    let sp_before = em.get_regs().sp;
    em.execute_next().unwrap();
    assert_eq!(em.get_regs().pc, 0x0005);
    assert_eq!(em.get_regs().sp, sp_before - 2);
    em.execute_next().unwrap();
    assert_eq!(em.get_regs().pc, 3);
    assert_eq!(em.get_regs().sp, sp_before);
}

#[test]
fn start_reads_the_reset_vector() {
    let mut em = emulator_with(&[(0xfffc, 0x00), (0xfffd, 0x80)]);
    em.start();
    assert_eq!(em.get_regs().pc, 0x8000);
}

#[test]
fn zero_page_x_wraps_within_the_zero_page() {
    let mut em = emulator_with(&[]);
    em.get_regs_mut().x = 0x02;
    let addr = em.get_absolute_address(AddressingMode::ZeroPageX, 0xff);
    assert_eq!(addr, 0x01);
}

#[test]
fn lda_zero_page_x_reads_the_wrapped_address() {
    let mut em = emulator_with(&[(0x0200, 0xb5), (0x0201, 0xff), (0x0001, 0x42)]);
    em.get_regs_mut().x = 0x02;
    em.set_pc(0x0200);
    em.execute_next().unwrap();
    assert_eq!(em.get_regs().a, 0x42);
}

#[test]
fn absolute_indexing_uses_the_full_space() {
    let mut em = emulator_with(&[]);
    em.get_regs_mut().x = 0x10;
    let addr = em.get_absolute_address(AddressingMode::AbsoluteX, 0x12f8);
    assert_eq!(addr, 0x1308);
}

#[test]
fn relative_branches_take_signed_displacement() {
    // ldx #2, then a dex/bne loop branching back by -3.
    let mut em = load_program(&[0xa2, 0x02, 0xca, 0xd0, 0xfd]);
    em.set_pc(0);
    em.execute_next().unwrap();
    em.execute_next().unwrap();
    assert_eq!(em.get_regs().x, 1);
    em.execute_next().unwrap();
    assert_eq!(em.get_regs().pc, 2);
    em.execute_next().unwrap();
    assert_eq!(em.get_regs().x, 0);
    em.execute_next().unwrap();
    assert_eq!(em.get_regs().pc, 5);
}

#[test]
fn forward_relative_branch() {
    let mut em = load_program(&[0x18, 0x90, 0x03]);
    em.set_pc(0);
    em.execute_next().unwrap();
    em.execute_next().unwrap();
    assert_eq!(em.get_regs().pc, 6);
}

#[test]
fn indirect_jmp_follows_the_pointer() {
    let mut em = load_program(&[0x6c, 0x10, 0x02]);
    em.get_bus_mut().write(0x0210, 0x34);
    em.get_bus_mut().write(0x0211, 0x12);
    em.set_pc(0);
    em.execute_next().unwrap();
    assert_eq!(em.get_regs().pc, 0x1234);
}

#[test]
fn sta_writes_through_the_bus() {
    let mut em = load_program(&[0x8d, 0x00, 0x30]);
    em.get_regs_mut().a = 0x99;
    em.set_pc(0);
    em.execute_next().unwrap();
    assert_eq!(em.get_bus().read(0x3000), 0x99);
}

#[test]
fn bit_sets_neg_overflow_and_zero() {
    let mut em = load_program(&[0x24, 0x10]);
    em.get_bus_mut().write(0x0010, 0xc0);
    em.get_regs_mut().a = 0x0f;
    em.set_pc(0);
    em.execute_next().unwrap();
    let flags = em.get_regs().flags;
    assert!(flags.neg);
    assert!(flags.overflow);
    assert!(flags.zero);
}

#[test]
fn unknown_opcode_is_fatal() {
    let mut em = load_program(&[0x02]);
    em.set_pc(0);
    assert_eq!(em.execute_next(), Err(EmuError::UnknownOpcode(0x02)));
}

#[test]
fn rts_with_empty_stack_underflows() {
    let mut em = load_program(&[0x60]);
    em.set_pc(0);
    assert_eq!(em.execute_next(), Err(EmuError::StackUnderflow));
}

#[test]
fn pha_with_full_stack_overflows() {
    let mut em = load_program(&[0x48]);
    em.get_regs_mut().sp = 0;
    em.set_pc(0);
    assert_eq!(em.execute_next(), Err(EmuError::StackOverflow));
}

#[test]
fn brk_pushes_state_and_vectors_to_irq_handler() {
    let mut em = emulator_with(&[
        (0xfffc, 0x00),
        (0xfffd, 0x02),
        (0x0200, 0xa9),
        (0x0201, 0x07),
        (0x0202, 0x00),
        (0xfffe, 0x00),
        (0xffff, 0x03),
    ]);
    let halted = em.run_until_break(1000).unwrap();
    assert!(halted);
    let regs = *em.get_regs();
    assert_eq!(regs.a, 0x07);
    assert_eq!(regs.pc, 0x0300);
    assert_eq!(regs.sp, 0xfc);
    // Return address is the address after the BRK opcode plus two.
    assert_eq!(em.get_bus().read(0x1ff), 0x02);
    assert_eq!(em.get_bus().read(0x1fe), 0x05);
    // The pushed flag snapshot always reads BREAK as set.
    assert_eq!(em.get_bus().read(0x1fd) & 0x10, 0x10);
}

#[test]
fn brk_with_interrupts_disabled_is_a_no_op() {
    let mut em = load_program(&[0x78, 0x00, 0xea]);
    em.set_pc(0);
    em.execute_next().unwrap();
    em.execute_next().unwrap();
    assert_eq!(em.get_regs().pc, 2);
    assert_eq!(em.get_regs().sp, 0xff);
    assert!(!em.stop_signalled);
}

#[test]
fn rti_resumes_after_an_interrupt() {
    // BRK at 0x0200 traps to 0x0300 where RTI returns to 0x0205.
    let mut em = emulator_with(&[
        (0xfffc, 0x00),
        (0xfffd, 0x02),
        (0x0200, 0x00),
        (0xfffe, 0x00),
        (0xffff, 0x03),
        (0x0300, 0x40),
        (0x0203, 0xa9),
        (0x0204, 0x2a),
        (0x0205, 0x00),
    ]);
    // Decline the first suspension so the engine resumes, handle the
    // interrupt, and accept the second suspension.
    let suspensions = std::cell::Cell::new(0u32);
    let halted = em
        .run(
            |_regs, _bus| {
                suspensions.set(suspensions.get() + 1);
                suspensions.get() >= 2
            },
            1000,
        )
        .unwrap();
    assert!(halted);
    assert_eq!(suspensions.get(), 2);
    assert_eq!(em.get_regs().a, 0x2a);
}

#[test]
fn run_out_of_fuel_preserves_state() {
    // An endless jmp-to-self loop: the step budget runs out.
    let mut em = emulator_with(&[
        (0xfffc, 0x00),
        (0xfffd, 0x02),
        (0x0200, 0x4c),
        (0x0201, 0x00),
        (0x0202, 0x02),
    ]);
    let halted = em.run_until_break(10).unwrap();
    assert!(!halted);
    assert_eq!(em.get_regs().pc, 0x0200);
}

#[test]
fn adc_and_sbc_through_memory() {
    // lda #$40, sec, adc #$41: result 0x82 with carry consumed.
    let mut em = load_program(&[0xa9, 0x40, 0x38, 0x69, 0x41]);
    em.set_pc(0);
    em.execute_next().unwrap();
    em.execute_next().unwrap();
    em.execute_next().unwrap();
    assert_eq!(em.get_regs().a, 0x82);
    assert!(em.get_regs().flags.neg);
}

#[test]
fn inc_memory_updates_flags_from_result() {
    let mut em = load_program(&[0xe6, 0x10]);
    em.get_bus_mut().write(0x0010, 0x7f);
    em.set_pc(0);
    em.execute_next().unwrap();
    assert_eq!(em.get_bus().read(0x0010), 0x80);
    assert!(em.get_regs().flags.neg);
    assert!(!em.get_regs().flags.zero);
}

#[test]
fn dec_preserves_the_carry_flag() {
    let mut em = load_program(&[0x38, 0xca]);
    em.get_regs_mut().x = 5;
    em.set_pc(0);
    em.execute_next().unwrap();
    em.execute_next().unwrap();
    assert_eq!(em.get_regs().x, 3);
    assert!(em.get_regs().flags.carry);
}

#[test]
fn transfers_update_zero_and_neg() {
    let mut em = load_program(&[0xaa]);
    em.get_regs_mut().a = 0x80;
    em.set_pc(0);
    em.execute_next().unwrap();
    assert_eq!(em.get_regs().x, 0x80);
    assert!(em.get_regs().flags.neg);
}

#[test]
fn accumulator_shift_in_place() {
    let mut em = load_program(&[0x0a]);
    em.get_regs_mut().a = 0xc0;
    em.set_pc(0);
    em.execute_next().unwrap();
    assert_eq!(em.get_regs().a, 0x80);
    assert!(em.get_regs().flags.carry);
}

#[test]
fn memory_image_too_large_is_rejected() {
    let bytes = vec![0u8; 0x10001];
    assert!(matches!(
        Memory::new_from_bytes(&bytes),
        Err(EmuError::ImageTooLarge)
    ));
}

#[test]
fn memory_image_is_zero_padded() {
    let memory = Memory::new_from_bytes(&vec![1, 2, 3]).unwrap();
    assert_eq!(memory.read(0), 1);
    assert_eq!(memory.read(2), 3);
    assert_eq!(memory.read(3), 0);
    assert_eq!(memory.read(0xffff), 0);
}

#[test]
fn memory_reads_back_writes() {
    let mut memory = Memory::new();
    assert_eq!(memory.read(0x1234), 0);
    memory.write(0x1234, 0xab);
    assert_eq!(memory.read(0x1234), 0xab);
    memory.write(0xffff, 0x01);
    assert_eq!(memory.read(0xffff), 0x01);
}

#[test]
fn bus_delegates_to_memory() {
    let mut bus = Bus::new(Memory::new());
    bus.write(0x0042, 0x99);
    assert_eq!(bus.read(0x0042), 0x99);
}

#[test]
fn indirect_x_reads_through_the_zero_page_pointer() {
    // lda ($20,X) with X=4: pointer at zero page 0x24 -> 0x0400.
    let mut em = emulator_with(&[
        (0x0200, 0xa1),
        (0x0201, 0x20),
        (0x0024, 0x00),
        (0x0025, 0x04),
        (0x0400, 0x5d),
    ]);
    em.get_regs_mut().x = 0x04;
    em.set_pc(0x0200);
    em.execute_next().unwrap();
    assert_eq!(em.get_regs().a, 0x5d);
}

#[test]
fn indirect_y_adds_y_after_the_pointer_read() {
    // lda ($20),Y with Y=3: pointer at zero page 0x20 -> 0x0400, plus 3.
    let mut em = emulator_with(&[
        (0x0200, 0xb1),
        (0x0201, 0x20),
        (0x0020, 0x00),
        (0x0021, 0x04),
        (0x0403, 0x7e),
    ]);
    em.get_regs_mut().y = 0x03;
    em.set_pc(0x0200);
    em.execute_next().unwrap();
    assert_eq!(em.get_regs().a, 0x7e);
}

#[test]
fn logical_ops_update_accumulator_and_flags() {
    // lda #$f0, and #$0f: zero result.
    let mut em = load_program(&[0xa9, 0xf0, 0x29, 0x0f, 0x49, 0x80, 0x09, 0x01]);
    em.set_pc(0);
    em.execute_next().unwrap();
    em.execute_next().unwrap();
    assert_eq!(em.get_regs().a, 0x00);
    assert!(em.get_regs().flags.zero);
    // eor #$80 flips bit 7.
    em.execute_next().unwrap();
    assert_eq!(em.get_regs().a, 0x80);
    assert!(em.get_regs().flags.neg);
    // ora #$01 sets bit 0.
    em.execute_next().unwrap();
    assert_eq!(em.get_regs().a, 0x81);
}

#[test]
fn pha_pla_round_trips_the_accumulator() {
    let mut em = load_program(&[0x48, 0xa9, 0x00, 0x68]);
    em.get_regs_mut().a = 0x66;
    em.set_pc(0);
    em.execute_next().unwrap();
    em.execute_next().unwrap();
    assert_eq!(em.get_regs().a, 0x00);
    em.execute_next().unwrap();
    assert_eq!(em.get_regs().a, 0x66);
    assert_eq!(em.get_regs().sp, 0xff);
}

#[test]
fn cpx_compares_without_changing_x() {
    let mut em = load_program(&[0xe0, 0x05]);
    em.get_regs_mut().x = 0x05;
    em.set_pc(0);
    em.execute_next().unwrap();
    assert_eq!(em.get_regs().x, 0x05);
    assert!(em.get_regs().flags.zero);
    assert!(!em.get_regs().flags.carry);
}

#[test]
fn txs_and_tsx_move_the_stack_pointer() {
    let mut em = load_program(&[0x9a, 0xba]);
    em.get_regs_mut().x = 0x80;
    em.set_pc(0);
    em.execute_next().unwrap();
    assert_eq!(em.get_regs().sp, 0x80);
    assert!(em.get_regs().flags.neg);
    em.get_regs_mut().x = 0;
    em.execute_next().unwrap();
    assert_eq!(em.get_regs().x, 0x80);
}

#[test]
fn fetch_wraps_the_program_counter() {
    let mut em = emulator_with(&[(0xffff, 0xea), (0x0000, 0xe8)]);
    em.set_pc(0xffff);
    em.execute_next().unwrap();
    assert_eq!(em.get_regs().pc, 0x0000);
    em.execute_next().unwrap();
    assert_eq!(em.get_regs().x, 1);
}

#[test]
fn flag_instructions_set_and_clear_single_bits() {
    let mut em = load_program(&[0x38, 0xf8, 0x78, 0x18, 0xd8, 0x58, 0xb8]);
    em.set_pc(0);
    em.execute_next().unwrap();
    assert!(em.get_regs().flags.carry);
    em.execute_next().unwrap();
    assert!(em.get_regs().flags.dec_mode);
    em.execute_next().unwrap();
    assert!(em.get_regs().flags.int_disable);
    em.execute_next().unwrap();
    assert!(!em.get_regs().flags.carry);
    em.execute_next().unwrap();
    assert!(!em.get_regs().flags.dec_mode);
    em.execute_next().unwrap();
    assert!(!em.get_regs().flags.int_disable);
    em.get_regs_mut().flags.insert(CpuFlags::overflow());
    em.execute_next().unwrap();
    assert!(!em.get_regs().flags.overflow);
}
