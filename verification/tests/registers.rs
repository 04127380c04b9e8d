use minix86::register::{
    calc_relative_disp, effective_address, Register, Register16Bit, Register8Bit, RegisterType,
};

fn ea_string(rm: u8, mod_rm: u8, disp: u16, w: u8) -> String {
    String::from_utf8(effective_address(rm, mod_rm, disp, w)).unwrap()
}

#[test]
fn effective_address_register_byte() {
    assert_eq!(ea_string(0b000, 0b11, 0, 0), "AL");
}

#[test]
fn effective_address_register_word() {
    assert_eq!(ea_string(0b001, 0b11, 0, 1), "CX");
}

#[test]
fn effective_address_no_disp() {
    assert_eq!(ea_string(0b100, 0b00, 0, 0), "[SI]");
    assert_eq!(ea_string(0b000, 0b00, 0, 0), "[BX+SI]");
}

#[test]
fn effective_address_sign_extended_disp() {
    // 0xee as a signed byte is -0x12
    assert_eq!(ea_string(0b110, 0b01, 0xee, 0), "[BP-12]");
}

#[test]
fn effective_address_word_disp() {
    assert_eq!(ea_string(0b110, 0b10, 0x0f, 0), "[BP+f]");
}

#[test]
fn effective_address_absolute() {
    assert_eq!(ea_string(0b110, 0b00, 0x0f, 0), "[000f]");
}

#[test]
fn effective_address_positive_byte_disp() {
    assert_eq!(ea_string(0b110, 0b01, 0x04, 0), "[BP+4]");
}

#[test]
fn relative_disp_short_forward() {
    // Short forms sign-extend one byte
    assert_eq!(calc_relative_disp(0x0102, 0x05, false), 0x0107);
}

#[test]
fn relative_disp_short_backward() {
    assert_eq!(calc_relative_disp(0x0102, 0xfe, false), 0x0100);
}

#[test]
fn relative_disp_wide_wraps() {
    assert_eq!(calc_relative_disp(0xffff, 0x0002, true), 0x0001);
}

#[test]
fn byte_writes_preserve_partner_bytes() {
    // AL/AH, CL/CH, DL/DH, BL/BH: writing one half never disturbs the other
    let pairs = [
        (Register8Bit::AL, Register8Bit::AH),
        (Register8Bit::CL, Register8Bit::CH),
        (Register8Bit::DL, Register8Bit::DH),
        (Register8Bit::BL, Register8Bit::BH),
    ];
    for (lo, hi) in pairs {
        for hi_val in [0x00u16, 0x5a, 0xff] {
            let mut r = Register::new();
            r.set(RegisterType::Byte(hi), hi_val);
            r.set(RegisterType::Byte(lo), 0x34);
            assert_eq!(r.get(RegisterType::Byte(hi)), hi_val);
            assert_eq!(r.get(RegisterType::Byte(lo)), 0x34);
        }
    }
}

#[test]
fn word_write_overwrites_both_bytes() {
    let mut r = Register::new();
    r.set(RegisterType::Byte(Register8Bit::AH), 0x99);
    r.set(RegisterType::Word(Register16Bit::AX), 0x1234);
    assert_eq!(r.get(RegisterType::Byte(Register8Bit::AL)), 0x34);
    assert_eq!(r.get(RegisterType::Byte(Register8Bit::AH)), 0x12);
    assert_eq!(r.get_ax(), 0x1234);
}

#[test]
fn segment_registers_hold_values() {
    let mut r = Register::new();
    r.set(RegisterType::Segment(minix86::register::SegmentRegister::DS), 0xabcd);
    assert_eq!(r.get(RegisterType::Segment(minix86::register::SegmentRegister::DS)), 0xabcd);
    assert_eq!(r.get(RegisterType::Segment(minix86::register::SegmentRegister::ES)), 0);
}
