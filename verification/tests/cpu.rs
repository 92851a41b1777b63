use gb::cpu;
use gb::cpu::{Flags, Registers};

fn flags(z: bool, n: bool, h: bool, c: bool) -> Flags {
    Flags { z, n, h, c }
}

fn clear() -> Flags {
    flags(false, false, false, false)
}

#[test]
fn add_sets_half_carry_and_carry() {
    let mut f = clear();
    assert_eq!(cpu::add(0x0F, 0x01, &mut f), 0x10);
    assert_eq!(f, flags(false, false, true, false));
    assert_eq!(cpu::add(0xFF, 0x01, &mut f), 0x00);
    assert_eq!(f, flags(true, false, true, true));
    assert_eq!(cpu::add(0x80, 0x80, &mut f), 0x00);
    assert_eq!(f, flags(true, false, false, true));
}

#[test]
fn adc_adds_the_carry() {
    let mut f = flags(false, false, false, true);
    assert_eq!(cpu::adc(0x0E, 0x01, &mut f), 0x10);
    assert_eq!(f, flags(false, false, true, false));
    let mut f = flags(false, false, false, true);
    assert_eq!(cpu::adc(0xFE, 0x01, &mut f), 0x00);
    assert_eq!(f, flags(true, false, true, true));
    let mut f = clear();
    assert_eq!(cpu::adc(0x01, 0x01, &mut f), 0x02);
}

#[test]
fn sub_and_sbc_borrow() {
    let mut f = clear();
    assert_eq!(cpu::sub(0x10, 0x01, &mut f), 0x0F);
    assert_eq!(f, flags(false, true, true, false));
    assert_eq!(cpu::sub(0x01, 0x02, &mut f), 0xFF);
    assert_eq!(f, flags(false, true, true, true));
    assert_eq!(cpu::sub(0x42, 0x42, &mut f), 0x00);
    assert_eq!(f, flags(true, true, false, false));
    let mut f = flags(false, false, false, true);
    assert_eq!(cpu::sbc(0x10, 0x0F, &mut f), 0x00);
    assert_eq!(f, flags(true, true, true, false));
    let mut f = flags(false, false, false, true);
    assert_eq!(cpu::sbc(0x00, 0x00, &mut f), 0xFF);
    assert_eq!(f, flags(false, true, true, true));
}

#[test]
fn logic_and_compare() {
    let mut f = clear();
    assert_eq!(cpu::and(0xF0, 0x0F, &mut f), 0);
    assert_eq!(f, flags(true, false, true, false));
    assert_eq!(cpu::or(0xF0, 0x0F, &mut f), 0xFF);
    assert_eq!(f, clear());
    assert_eq!(cpu::xor(0xFF, 0xFF, &mut f), 0);
    assert_eq!(f, flags(true, false, false, false));
    assert_eq!(cpu::cp(0x30, 0x40, &mut f), 0x30);
    assert_eq!(f, flags(false, true, false, true));
}

#[test]
fn inc_and_dec_keep_carry() {
    let mut f = flags(false, false, false, true);
    assert_eq!(cpu::inc(0xFF, &mut f), 0x00);
    assert_eq!(f, flags(true, false, true, true));
    assert_eq!(cpu::dec(0x01, &mut f), 0x00);
    assert_eq!(f, flags(true, true, false, true));
    assert_eq!(cpu::dec(0x00, &mut f), 0xFF);
    assert_eq!(f, flags(false, true, true, true));
}

#[test]
fn word_arithmetic() {
    let mut f = flags(true, true, false, false);
    assert_eq!(cpu::add_16(0x0FFF, 0x0001, &mut f), 0x1000);
    assert_eq!(f, flags(true, false, true, false));
    assert_eq!(cpu::add_16(0xFFFF, 0x0001, &mut f), 0x0000);
    assert_eq!(f, flags(true, false, true, true));
    assert_eq!(cpu::add_16_8(0xFFF8, 0x08, &mut f), 0x0000);
    assert_eq!(f, flags(false, false, true, true));
    assert_eq!(cpu::add_16_8(0x1000, 0xFF, &mut f), 0x0FFF);
    assert_eq!(cpu::inc_16(0xFFFF), 0);
    assert_eq!(cpu::dec_16(0), 0xFFFF);
}

#[test]
fn daa_adjusts_bcd() {
    // 0x15 + 0x27 = 0x3C, adjusted to 0x42.
    let mut f = clear();
    let sum = cpu::add(0x15, 0x27, &mut f);
    assert_eq!(cpu::daa(sum, &mut f), 0x42);
    assert!(!f.c && !f.z);
    // 0x99 + 0x01 = 0x9A, adjusted to 0x00 with carry.
    let mut f = clear();
    let sum = cpu::add(0x99, 0x01, &mut f);
    assert_eq!(cpu::daa(sum, &mut f), 0x00);
    assert!(f.c && f.z);
    // 0x42 - 0x15 = 0x2D, adjusted to 0x27.
    let mut f = clear();
    let diff = cpu::sub(0x42, 0x15, &mut f);
    assert_eq!(cpu::daa(diff, &mut f), 0x27);
}

#[test]
fn rotates_and_shifts() {
    let mut f = clear();
    assert_eq!(cpu::rlc(0x85, &mut f), 0x0B);
    assert!(f.c && !f.z);
    let mut f = clear();
    assert_eq!(cpu::rl(0x80, &mut f), 0x00);
    assert!(f.c && f.z);
    let mut f = flags(false, false, false, true);
    assert_eq!(cpu::rl_base(0x00, &mut f), 0x01);
    assert!(!f.c);
    let mut f = clear();
    assert_eq!(cpu::rrc(0x01, &mut f), 0x80);
    assert!(f.c && !f.z);
    let mut f = flags(false, false, false, true);
    assert_eq!(cpu::rr(0x00, &mut f), 0x80);
    assert!(!f.c);
    let mut f = clear();
    assert_eq!(cpu::swap(0xAB, &mut f), 0xBA);
    assert_eq!(cpu::sla(0x81, &mut f), 0x02);
    assert!(f.c);
    assert_eq!(cpu::sra(0x81, &mut f), 0xC0);
    assert!(f.c);
    assert_eq!(cpu::srl(0x81, &mut f), 0x40);
    assert!(f.c);
    let mut f = clear();
    assert_eq!(cpu::rlc_base(0x00, &mut f), 0x00);
    assert!(!f.z);
}

#[test]
fn bit_set_res() {
    let mut f = flags(false, true, false, true);
    cpu::bit(3, 0b0000_1000, &mut f);
    assert_eq!(f, flags(false, false, true, true));
    cpu::bit(2, 0b0000_1000, &mut f);
    assert!(f.z);
    assert_eq!(cpu::set(7, 0), 0x80);
    assert_eq!(cpu::res(0, 0xFF), 0xFE);
    let mut f = clear();
    assert_eq!(cpu::cpl(0x0F, &mut f), 0xF0);
    assert!(f.n && f.h);
    cpu::scf(&mut f);
    assert!(f.c && !f.n && !f.h);
    cpu::ccf(&mut f);
    assert!(!f.c);
}

#[test]
fn register_pairs_and_flags() {
    let mut r = Registers::new();
    assert_eq!(r.get_bc(), 0x0013);
    assert_eq!(r.get_de(), 0x00D8);
    assert_eq!(r.get_hl(), 0x014D);
    assert_eq!(r.sp, 0xFFFE);
    assert_eq!(r.pc, 0x0100);
    r.set_bc(0xBEEF);
    assert_eq!(r.b, 0xBE);
    assert_eq!(r.c, 0xEF);
    assert_eq!(r.get_bc(), 0xBEEF);
    r.set_de(0x1234);
    assert_eq!(r.get_de(), 0x1234);
    r.set_hl(0xFFFF);
    assert_eq!(r.get_hl(), 0xFFFF);
    r.set_f(0xFF);
    assert_eq!(r.get_f(), 0xF0);
    r.set_f(0xA5);
    assert_eq!(r.get_f(), 0xA0);
    assert!(r.flags.z && !r.flags.n && r.flags.h && !r.flags.c);
}
