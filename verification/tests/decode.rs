use minix86::disassembler::{DecodeError, Disassembler};
use minix86::operation::{OperandType, OperationType};

fn decoder(text: &[u8]) -> Disassembler {
    Disassembler::new(text.to_vec(), false)
}

#[test]
fn mov_immediate_to_register() {
    let mut d = decoder(&[0xb8, 0x01, 0x00]);
    let op = d.next_operation().unwrap();
    assert_eq!(op.operation_type, OperationType::Mov);
    assert_eq!(op.pos, 0);
    assert_eq!(op.raws, vec![0xb8, 0x01, 0x00]);
    assert_eq!(op.w, 1);
    assert_eq!(op.reg, 0);
    assert_eq!(op.data, 0x0001);
    assert_eq!(op.first, OperandType::Reg);
    assert_eq!(op.second, OperandType::Imm);
    assert_eq!(op.get_next_operation_pos(), 3);
}

#[test]
fn raws_cover_consumed_bytes_across_stream() {
    // MOV BX,0; MOV AX,1; INT 20h: positions chain, raws partition the text
    let text = [0xbb, 0x00, 0x00, 0xb8, 0x01, 0x00, 0xcd, 0x20];
    let mut d = decoder(&text);
    let mut pos = 0usize;
    while pos < text.len() {
        let op = d.next_operation().unwrap();
        assert_eq!(op.pos, pos);
        assert_eq!(&text[pos..pos + op.raws.len()], &op.raws[..]);
        pos = op.get_next_operation_pos();
    }
    assert_eq!(pos, text.len());
}

#[test]
fn add_register_to_register() {
    // 01 D8: ADD AX, BX (d = 0 so the r/m side is the destination)
    let mut d = decoder(&[0x01, 0xd8]);
    let op = d.next_operation().unwrap();
    assert_eq!(op.operation_type, OperationType::Add);
    assert_eq!(op.mod_rm, 0b11);
    assert_eq!(op.reg, 0b011);
    assert_eq!(op.rm, 0b000);
    assert_eq!(op.d, 0);
    assert_eq!(op.w, 1);
    assert_eq!(op.first, OperandType::EA);
    assert_eq!(op.second, OperandType::Reg);
}

#[test]
fn group1_sign_extended_immediate() {
    // 83 C3 FE: ADD BX, -2 (s = 1, w = 1 sign-extends the byte)
    let mut d = decoder(&[0x83, 0xc3, 0xfe]);
    let op = d.next_operation().unwrap();
    assert_eq!(op.operation_type, OperationType::Add);
    assert_eq!(op.s, 1);
    assert_eq!(op.w, 1);
    assert_eq!(op.data, 0xfffe);
    assert_eq!(op.raws.len(), 3);
}

#[test]
fn group1_word_immediate() {
    // 81 C3 34 12: ADD BX, 0x1234
    let mut d = decoder(&[0x81, 0xc3, 0x34, 0x12]);
    let op = d.next_operation().unwrap();
    assert_eq!(op.operation_type, OperationType::Add);
    assert_eq!(op.data, 0x1234);
    assert_eq!(op.raws.len(), 4);
}

#[test]
fn mov_with_word_displacement() {
    // 8B 87 10 00: MOV AX, [BX+0x10] with mod = 10
    let mut d = decoder(&[0x8b, 0x87, 0x10, 0x00]);
    let op = d.next_operation().unwrap();
    assert_eq!(op.operation_type, OperationType::Mov);
    assert_eq!(op.mod_rm, 0b10);
    assert_eq!(op.disp, 0x0010);
    assert_eq!(op.d, 1);
    assert_eq!(op.first, OperandType::Reg);
    assert_eq!(op.second, OperandType::EA);
    assert_eq!(op.raws.len(), 4);
}

#[test]
fn absolute_displacement_form() {
    // 8B 06 34 12: MOV AX, [0x1234] (mod = 00, r/m = 110)
    let mut d = decoder(&[0x8b, 0x06, 0x34, 0x12]);
    let op = d.next_operation().unwrap();
    assert_eq!(op.mod_rm, 0b00);
    assert_eq!(op.rm, 0b110);
    assert_eq!(op.disp, 0x1234);
}

#[test]
fn conditional_jumps_map_low_nibble() {
    let cases: [(u8, OperationType); 6] = [
        (0x74, OperationType::JeJz),
        (0x75, OperationType::JneJnz),
        (0x7c, OperationType::JlJnge),
        (0x7d, OperationType::JnlJge),
        (0x76, OperationType::JbeJna),
        (0x7f, OperationType::JnleJg),
    ];
    for (opcode, expected) in cases {
        let mut d = decoder(&[opcode, 0x05]);
        let op = d.next_operation().unwrap();
        assert_eq!(op.operation_type, expected);
        assert_eq!(op.raws.len(), 2);
        assert_eq!(op.disp, 0x05);
    }
}

#[test]
fn rep_prefix_records_string_operation() {
    // F3 A4: REP MOVSB
    let mut d = decoder(&[0xf3, 0xa4]);
    let op = d.next_operation().unwrap();
    assert_eq!(op.operation_type, OperationType::Rep);
    assert_eq!(op.rep_operation_type, OperationType::Movs);
    assert_eq!(op.z, 1);
    assert_eq!(op.w, 0);
}

#[test]
fn loop_family_by_low_bits() {
    let mut d = decoder(&[0xe2, 0xfc]);
    let op = d.next_operation().unwrap();
    assert_eq!(op.operation_type, OperationType::Loop);
    let mut d = decoder(&[0xe1, 0xfc]);
    assert_eq!(d.next_operation().unwrap().operation_type, OperationType::LoopzLoope);
    let mut d = decoder(&[0xe0, 0xfc]);
    assert_eq!(d.next_operation().unwrap().operation_type, OperationType::LoopnzLoopne);
}

#[test]
fn group3_test_reads_extra_immediate() {
    // F7 C3 01 00: TEST BX, 1
    let mut d = decoder(&[0xf7, 0xc3, 0x01, 0x00]);
    let op = d.next_operation().unwrap();
    assert_eq!(op.operation_type, OperationType::Test);
    assert_eq!(op.data, 1);
    assert_eq!(op.second, OperandType::Imm);
    assert_eq!(op.raws.len(), 4);
}

#[test]
fn group_shift_selects_by_reg() {
    // D1 E0: SHL AX, 1 ; D1 F8: SAR AX, 1 ; D3 E0: SHL AX, CL
    let mut d = decoder(&[0xd1, 0xe0]);
    let op = d.next_operation().unwrap();
    assert_eq!(op.operation_type, OperationType::ShlSal);
    assert_eq!(op.v, 0);
    let mut d = decoder(&[0xd1, 0xf8]);
    assert_eq!(d.next_operation().unwrap().operation_type, OperationType::Sar);
    let mut d = decoder(&[0xd3, 0xe0]);
    let op = d.next_operation().unwrap();
    assert_eq!(op.operation_type, OperationType::ShlSal);
    assert_eq!(op.v, 1);
}

#[test]
fn unknown_opcode_is_an_error() {
    let mut d = decoder(&[0x60]);
    match d.next_operation() {
        Err(DecodeError::UnknownOpcode { pos, opcode }) => {
            assert_eq!(pos, 0);
            assert_eq!(opcode, 0x60);
        },
        other => panic!("expected an unknown-opcode error, got {:?}", other),
    }
}

#[test]
fn invalid_group_reg_is_an_error() {
    // FF /7 selects nothing
    let mut d = decoder(&[0xff, 0xf8]);
    assert!(matches!(d.next_operation(), Err(DecodeError::InvalidRegField { .. })));
}

#[test]
fn aam_requires_0a_extension() {
    let mut d = decoder(&[0xd4, 0x0b]);
    assert!(matches!(d.next_operation(), Err(DecodeError::BadExtension { .. })));
    let mut d = decoder(&[0xd4, 0x0a]);
    assert_eq!(d.next_operation().unwrap().operation_type, OperationType::Aam);
}

#[test]
fn truncated_instruction_is_an_error() {
    // B8 needs two immediate bytes
    let mut d = decoder(&[0xb8, 0x01]);
    assert!(matches!(d.next_operation(), Err(DecodeError::UnexpectedEnd { .. })));
}

#[test]
fn zero_byte_at_end_is_synthetic_undefined() {
    let mut d = decoder(&[0x00]);
    let op = d.next_operation().unwrap();
    assert_eq!(op.operation_type, OperationType::Undefined);
    assert_eq!(op.raws.len(), 1);
}

#[test]
fn disassembly_renders_mov_line() {
    let mut d = Disassembler::new(vec![0xb8, 0x01, 0x00], true);
    d.disassemble().unwrap();
    let listing = String::from_utf8(d.dump.out).unwrap();
    assert_eq!(listing, "0000: b80100        MOV AX, 0001\n");
}

#[test]
fn disassembly_renders_short_jump_target() {
    let mut d = Disassembler::new(vec![0xeb, 0x05], true);
    d.disassemble().unwrap();
    let listing = String::from_utf8(d.dump.out).unwrap();
    assert_eq!(listing, "0000: eb05          JMP Short 0007\n");
}
