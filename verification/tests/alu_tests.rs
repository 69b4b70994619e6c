use micro_6502::emulator::Emulator;
use micro_6502::mem::Memory;
use micro_6502::regs::CpuFlags;

fn fresh_emulator() -> Emulator<Memory> {
    Emulator::new(Memory::new())
}

#[test]
fn add_wraps_and_sets_carry_zero() {
    let mut em = fresh_emulator();
    let r = em.add(0xff, 0x01);
    assert_eq!(r, 0x00);
    let flags = em.get_regs().flags;
    assert!(flags.carry);
    assert!(flags.zero);
    assert!(!flags.neg);
}

#[test]
fn add_without_overflow_leaves_carry_alone() {
    let mut em = fresh_emulator();
    let r = em.add(0x10, 0x05);
    assert_eq!(r, 0x15);
    let flags = em.get_regs().flags;
    assert!(!flags.carry);
    assert!(!flags.overflow);
    assert!(!flags.zero);
    assert!(!flags.neg);
}

#[test]
fn add_consumes_carry_in() {
    let mut em = fresh_emulator();
    em.get_regs_mut().flags = CpuFlags::from_bits(0x01);
    let r = em.add(1, 1);
    assert_eq!(r, 3);
}

#[test]
fn sub_borrow_wraps_and_sets_carry_neg() {
    let mut em = fresh_emulator();
    let r = em.sub(0x00, 0x01);
    assert_eq!(r, 0xff);
    let flags = em.get_regs().flags;
    assert!(flags.carry);
    assert!(flags.neg);
    assert!(!flags.zero);
}

#[test]
fn sub_without_borrow() {
    let mut em = fresh_emulator();
    let r = em.sub(0x10, 0x01);
    assert_eq!(r, 0x0f);
    let flags = em.get_regs().flags;
    assert!(!flags.carry);
    assert!(!flags.neg);
    assert!(!flags.zero);
}

#[test]
fn shl_moves_bit_seven_into_carry() {
    let mut em = fresh_emulator();
    let r = em.shl(0x81);
    assert_eq!(r, 0x02);
    assert!(em.get_regs().flags.carry);
    let r = em.shl(0x01);
    assert_eq!(r, 0x02);
    assert!(!em.get_regs().flags.carry);
}

#[test]
fn shr_moves_bit_zero_into_carry() {
    let mut em = fresh_emulator();
    let r = em.shr(0x03);
    assert_eq!(r, 0x01);
    assert!(em.get_regs().flags.carry);
    let r = em.shr(0x04);
    assert_eq!(r, 0x02);
    assert!(!em.get_regs().flags.carry);
}

#[test]
fn rol_shifts_carry_into_bit_zero() {
    let mut em = fresh_emulator();
    em.get_regs_mut().flags = CpuFlags::from_bits(0x01);
    let r = em.rol(0x40);
    assert_eq!(r, 0x81);
    assert!(!em.get_regs().flags.carry);
    assert!(em.get_regs().flags.neg);
}

#[test]
fn ror_shifts_carry_into_bit_seven() {
    let mut em = fresh_emulator();
    em.get_regs_mut().flags = CpuFlags::from_bits(0x01);
    let r = em.ror(0x02);
    assert_eq!(r, 0x81);
    assert!(!em.get_regs().flags.carry);
    assert!(em.get_regs().flags.neg);
}

#[test]
fn zero_neg_rule_follows_the_result() {
    let mut em = fresh_emulator();
    em.set_zero_or_neg(0);
    assert!(em.get_regs().flags.zero);
    assert!(!em.get_regs().flags.neg);
    em.set_zero_or_neg(0x80);
    assert!(!em.get_regs().flags.zero);
    assert!(em.get_regs().flags.neg);
    em.set_zero_or_neg(0x7f);
    assert!(!em.get_regs().flags.zero);
    assert!(!em.get_regs().flags.neg);
}

#[test]
fn flag_bits_round_trip() {
    for bits in 0..=255u8 {
        assert_eq!(CpuFlags::from_bits(bits).bits(), bits);
    }
}

#[test]
fn flag_bit_positions() {
    assert_eq!(CpuFlags::carry().bits(), 0x01);
    assert_eq!(CpuFlags::zero().bits(), 0x02);
    assert_eq!(CpuFlags::int_disable().bits(), 0x04);
    assert_eq!(CpuFlags::dec_mode().bits(), 0x08);
    assert_eq!(CpuFlags::brk().bits(), 0x10);
    assert_eq!(CpuFlags::overflow().bits(), 0x40);
    assert_eq!(CpuFlags::neg().bits(), 0x80);
    assert_eq!(CpuFlags::none().bits(), 0x00);
}

#[test]
fn flag_insert_remove_contains() {
    let mut f = CpuFlags::none();
    f.insert(CpuFlags::carry());
    f.insert(CpuFlags::neg());
    assert!(f.contains(CpuFlags::carry()));
    assert!(f.contains(CpuFlags::neg()));
    assert!(!f.contains(CpuFlags::zero()));
    assert_eq!(f.bits(), 0x81);
    f.remove(CpuFlags::carry());
    assert!(!f.contains(CpuFlags::carry()));
    assert_eq!(f.bits(), 0x80);
}

#[test]
fn every_byte_is_a_valid_flag_pattern() {
    let f = CpuFlags::from_bits(0x20);
    assert!(f.unused);
    assert_eq!(f.bits(), 0x20);
    let f = CpuFlags::from_bits(0xff);
    assert_eq!(f.bits(), 0xff);
}
