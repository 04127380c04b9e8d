use minix86::alu::{
    alu_add, alu_dec, alu_inc, alu_neg, alu_sar, alu_shl, alu_sign_extend8, alu_sub,
};
use minix86::machine::{carry_lsh_u16, carry_lsh_u8, carry_rsh_u16};

#[test]
fn add_word_carry_and_zero() {
    let (res, f) = alu_add(0xffff, 0x0001, 1);
    assert_eq!(res, 0x0000);
    assert!(f.carry && f.zero && !f.sign && !f.overflow);
}

#[test]
fn add_word_signed_overflow() {
    // 0x7FFF + 1 overflows signed, not unsigned
    let (res, f) = alu_add(0x7fff, 0x0001, 1);
    assert_eq!(res, 0x8000);
    assert!(!f.carry && !f.zero && f.sign && f.overflow);
}

#[test]
fn add_byte_uses_low_bytes_only() {
    let (res, f) = alu_add(0x12ff, 0x3401, 0);
    assert_eq!(res, 0x00);
    assert!(f.carry && f.zero);
}

#[test]
fn sub_borrow_sets_carry() {
    let (res, f) = alu_sub(0x0001, 0xffff, 1);
    assert_eq!(res, 0x0002);
    assert!(f.carry && !f.zero && !f.sign && !f.overflow);
}

#[test]
fn sub_equal_sets_zero() {
    let (res, f) = alu_sub(0x1234, 0x1234, 1);
    assert_eq!(res, 0);
    assert!(!f.carry && f.zero && !f.sign && !f.overflow);
}

#[test]
fn sub_signed_overflow() {
    // -32768 - 1 overflows signed
    let (res, f) = alu_sub(0x8000, 0x0001, 1);
    assert_eq!(res, 0x7fff);
    assert!(!f.carry && !f.zero && !f.sign && f.overflow);
}

#[test]
fn inc_preserves_carry_and_detects_overflow() {
    let (res, f) = alu_inc(0x7fff, 1, true);
    assert_eq!(res, 0x8000);
    assert!(f.carry, "carry taken over unchanged");
    assert!(f.overflow && f.sign && !f.zero);
}

#[test]
fn dec_wraps_and_preserves_carry() {
    let (res, f) = alu_dec(0x0000, 1, false);
    assert_eq!(res, 0xffff);
    assert!(!f.carry && !f.zero && f.sign && !f.overflow);
}

#[test]
fn neg_nonzero_sets_carry() {
    let (res, f) = alu_neg(0x0001, 1);
    assert_eq!(res, 0xffff);
    assert!(f.carry && f.sign && !f.zero && !f.overflow);
}

#[test]
fn neg_minimum_sets_overflow() {
    let (res, f) = alu_neg(0x8000, 1);
    assert_eq!(res, 0x8000);
    assert!(f.carry && f.overflow && f.sign);
}

#[test]
fn neg_zero_clears_carry() {
    let (res, f) = alu_neg(0, 1);
    assert_eq!(res, 0);
    assert!(!f.carry && f.zero);
}

#[test]
fn shl_by_one_word() {
    let (res, f) = alu_shl(0x8001, 1, 1);
    assert_eq!(res, 0x0002);
    assert!(f.carry, "bit 15 was shifted out");
    assert!(!f.sign && !f.zero);
    assert!(f.overflow, "sign changed relative to carry");
}

#[test]
fn shl_wide_count_clears_everything() {
    let (res, f) = alu_shl(0xffff, 20, 1);
    assert_eq!(res, 0);
    assert!(!f.carry && f.zero);
}

#[test]
fn sar_by_one_keeps_sign() {
    let (res, f) = alu_sar(0x8002, 1, 1);
    assert_eq!(res, 0xc001);
    assert!(!f.carry && f.sign && !f.overflow && !f.zero);
}

#[test]
fn sar_shifts_out_low_bit() {
    let (res, f) = alu_sar(0x0003, 1, 1);
    assert_eq!(res, 0x0001);
    assert!(f.carry);
}

#[test]
fn sar_wide_count_floods_with_sign() {
    let (res, f) = alu_sar(0x8000, 20, 1);
    assert_eq!(res, 0xffff);
    assert!(f.carry && f.sign && !f.zero);
    let (res, f) = alu_sar(0x7fff, 20, 1);
    assert_eq!(res, 0);
    assert!(!f.carry && f.zero);
}

#[test]
fn sar_byte_width() {
    let (res, f) = alu_sar(0x00f0, 2, 0);
    assert_eq!(res, 0xfc);
    assert!(!f.carry && f.sign);
}

#[test]
fn sign_extension_of_bytes() {
    assert_eq!(alu_sign_extend8(0x7f), 0x007f);
    assert_eq!(alu_sign_extend8(0x80), 0xff80);
    assert_eq!(alu_sign_extend8(0xff), 0xffff);
}

#[test]
fn carry_helpers_pick_the_last_shifted_bit() {
    assert!(carry_lsh_u8(0x80, 1));
    assert!(!carry_lsh_u8(0x40, 1));
    assert!(carry_lsh_u8(0x01, 8));
    assert!(!carry_lsh_u8(0x01, 0));
    assert!(carry_lsh_u16(0x8000, 1));
    assert!(carry_lsh_u16(0x0001, 16));
    assert!(!carry_lsh_u16(0x0001, 15));
    assert!(carry_rsh_u16(0x0001, 1));
    assert!(!carry_rsh_u16(0x0002, 1));
    assert!(carry_rsh_u16(0x0002, 2));
}
