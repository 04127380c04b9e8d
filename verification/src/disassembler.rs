use vstd::prelude::*;
use crate::alu::alu_sign_extend8;
use crate::dump::Dump;
use crate::metadata::le16;
use crate::operation::{OperandType, Operation, OperationType};

verus! {

/// A fatal decoding fault: the byte stream holds no instruction of the
/// accepted subset at the current position.
#[derive(Clone, Copy, Debug, PartialEq, Eq, Structural)]
pub enum DecodeError {
    /// The instruction needs more bytes than the text segment holds.
    UnexpectedEnd { pos: usize },
    /// The opcode byte matches no encoding class.
    UnknownOpcode { pos: usize, opcode: u8 },
    /// A group opcode whose `reg` field selects no operation.
    InvalidRegField { opcode: u8, reg: u8 },
    /// A two-byte encoding whose second byte is not the required one.
    BadExtension { opcode: u8, byte: u8 },
}

/// The string-instruction mnemonic selected by bits 3..1 of an opcode or
/// REP-suffix byte.
pub open spec fn spec_string_op(b: u8) -> OperationType {
    let sel = (b / 2) % 8;
    if sel == 2 {
        OperationType::Movs
    } else if sel == 3 {
        OperationType::Cmps
    } else if sel == 7 {
        OperationType::Scas
    } else if sel == 6 {
        OperationType::Lods
    } else if sel == 5 {
        OperationType::Stos
    } else {
        OperationType::Undefined
    }
}

/// The mnemonic the opcode table assigns to a first byte `b0`. For the
/// group opcodes (0x80-0x83, 0xD0-0xD3, 0xF6/0xF7, 0xFF) the `reg` field of
/// the following byte `b1` selects the operation; for the REP prefix `b1`
/// is the string opcode. A selection the table leaves open maps to
/// `Undefined`, which the decoder rejects rather than returns.
pub open spec fn spec_mnemonic(b0: u8, b1: u8) -> OperationType {
    let reg = (b1 / 8) % 8;
    if (0x88 <= b0 && b0 <= 0x8b) || b0 == 0xc6 || b0 == 0xc7 || (0xb0 <= b0 && b0 <= 0xbf) || (
    0xa0 <= b0 && b0 <= 0xa3) || b0 == 0x8e || b0 == 0x8c {
        OperationType::Mov
    } else if (0x50 <= b0 && b0 <= 0x57) || b0 == 0x06 || b0 == 0x0e || b0 == 0x16 || b0 == 0x1e {
        OperationType::Push
    } else if b0 == 0x8f || (0x58 <= b0 && b0 <= 0x5f) || b0 == 0x07 || b0 == 0x0f || b0 == 0x17
        || b0 == 0x1f {
        OperationType::Pop
    } else if b0 == 0x86 || b0 == 0x87 || (0x90 <= b0 && b0 <= 0x97) {
        OperationType::Xchg
    } else if b0 == 0xe4 || b0 == 0xe5 || b0 == 0xec || b0 == 0xed {
        OperationType::In
    } else if b0 == 0xe6 || b0 == 0xe7 || b0 == 0xee || b0 == 0xef {
        OperationType::Out
    } else if b0 == 0xd7 {
        OperationType::Xlat
    } else if b0 == 0x8d {
        OperationType::Lea
    } else if b0 == 0xc5 {
        OperationType::Lds
    } else if b0 == 0xc4 {
        OperationType::Les
    } else if b0 == 0x9f {
        OperationType::Lahf
    } else if b0 == 0x9e {
        OperationType::Sahf
    } else if b0 == 0x9c {
        OperationType::Pushf
    } else if b0 == 0x9d {
        OperationType::Popf
    } else if b0 <= 0x05 {
        OperationType::Add
    } else if 0x10 <= b0 && b0 <= 0x15 {
        OperationType::Adc
    } else if b0 == 0xfe || (0x40 <= b0 && b0 <= 0x47) {
        OperationType::Inc
    } else if b0 == 0x37 {
        OperationType::Aaa
    } else if b0 == 0x27 {
        OperationType::Baa
    } else if 0x28 <= b0 && b0 <= 0x2d {
        OperationType::Sub
    } else if 0x18 <= b0 && b0 <= 0x1d {
        OperationType::Sbb
    } else if 0x48 <= b0 && b0 <= 0x4f {
        OperationType::Dec
    } else if 0x38 <= b0 && b0 <= 0x3d {
        OperationType::Cmp
    } else if b0 == 0x3f {
        OperationType::Aas
    } else if b0 == 0x2f {
        OperationType::Das
    } else if b0 == 0x98 {
        OperationType::Cbw
    } else if b0 == 0x99 {
        OperationType::Cwd
    } else if 0x20 <= b0 && b0 <= 0x25 {
        OperationType::And
    } else if b0 == 0x84 || b0 == 0x85 || b0 == 0xa8 || b0 == 0xa9 {
        OperationType::Test
    } else if 0x08 <= b0 && b0 <= 0x0d {
        OperationType::Or
    } else if 0x30 <= b0 && b0 <= 0x35 {
        OperationType::Xor
    } else if b0 == 0xf2 || b0 == 0xf3 {
        OperationType::Rep
    } else if 0xa4 <= b0 && b0 <= 0xaf {
        spec_string_op(b0)
    } else if b0 == 0xe8 || b0 == 0x9a {
        OperationType::Call
    } else if b0 == 0xe9 || b0 == 0xeb || b0 == 0xea {
        OperationType::Jmp
    } else if b0 == 0xc3 || b0 == 0xcb || b0 == 0xc2 || b0 == 0xca {
        OperationType::Ret
    } else if 0x70 <= b0 && b0 <= 0x7f {
        let sel = b0 % 16;
        if sel == 0 {
            OperationType::Jo
        } else if sel == 1 {
            OperationType::Jno
        } else if sel == 2 {
            OperationType::JbJnae
        } else if sel == 3 {
            OperationType::JnbJae
        } else if sel == 4 {
            OperationType::JeJz
        } else if sel == 5 {
            OperationType::JneJnz
        } else if sel == 6 {
            OperationType::JbeJna
        } else if sel == 7 {
            OperationType::JnbeJa
        } else if sel == 8 {
            OperationType::Js
        } else if sel == 9 {
            OperationType::Jns
        } else if sel == 10 {
            OperationType::JpJpe
        } else if sel == 11 {
            OperationType::JnpJpo
        } else if sel == 12 {
            OperationType::JlJnge
        } else if sel == 13 {
            OperationType::JnlJge
        } else if sel == 14 {
            OperationType::JleJng
        } else {
            OperationType::JnleJg
        }
    } else if 0xe0 <= b0 && b0 <= 0xe2 {
        if b0 % 4 == 2 {
            OperationType::Loop
        } else if b0 % 4 == 1 {
            OperationType::LoopzLoope
        } else {
            OperationType::LoopnzLoopne
        }
    } else if b0 == 0xe3 {
        OperationType::Jcxz
    } else if b0 == 0xcd || b0 == 0xcc {
        OperationType::Int
    } else if b0 == 0xce {
        OperationType::Into
    } else if b0 == 0xcf {
        OperationType::Iret
    } else if b0 == 0xf8 {
        OperationType::Clc
    } else if b0 == 0xf5 {
        OperationType::Cmc
    } else if b0 == 0xf9 {
        OperationType::Stc
    } else if b0 == 0xfc {
        OperationType::Cld
    } else if b0 == 0xfd {
        OperationType::Std
    } else if b0 == 0xfa {
        OperationType::Cli
    } else if b0 == 0xfb {
        OperationType::Sti
    } else if b0 == 0xf4 {
        OperationType::Hlt
    } else if b0 == 0x9b {
        OperationType::Wait
    } else if 0xd8 <= b0 && b0 <= 0xdf {
        OperationType::Esc
    } else if b0 == 0xf0 {
        OperationType::Lock
    } else if 0x80 <= b0 && b0 <= 0x83 {
        if reg == 0 {
            OperationType::Add
        } else if reg == 1 {
            OperationType::Or
        } else if reg == 2 {
            OperationType::Adc
        } else if reg == 3 {
            OperationType::Sbb
        } else if reg == 4 {
            OperationType::And
        } else if reg == 5 {
            OperationType::Sub
        } else if reg == 6 {
            OperationType::Xor
        } else {
            OperationType::Cmp
        }
    } else if b0 == 0xff {
        if reg == 6 {
            OperationType::Push
        } else if reg == 0 {
            OperationType::Inc
        } else if reg == 1 {
            OperationType::Dec
        } else if reg == 2 || reg == 3 {
            OperationType::Call
        } else if reg == 4 || reg == 5 {
            OperationType::Jmp
        } else {
            OperationType::Undefined
        }
    } else if b0 == 0xf6 || b0 == 0xf7 {
        if reg == 3 {
            OperationType::Neg
        } else if reg == 4 {
            OperationType::Mul
        } else if reg == 5 {
            OperationType::Imul
        } else if reg == 6 {
            OperationType::Div
        } else if reg == 7 {
            OperationType::Idiv
        } else if reg == 2 {
            OperationType::Not
        } else if reg == 0 {
            OperationType::Test
        } else {
            OperationType::Undefined
        }
    } else if b0 == 0xd4 {
        OperationType::Aam
    } else if b0 == 0xd5 {
        OperationType::Aad
    } else if 0xd0 <= b0 && b0 <= 0xd3 {
        if reg == 4 {
            OperationType::ShlSal
        } else if reg == 5 {
            OperationType::Shr
        } else if reg == 7 {
            OperationType::Sar
        } else if reg == 0 {
            OperationType::Rol
        } else if reg == 1 {
            OperationType::Ror
        } else if reg == 2 {
            OperationType::Rcl
        } else if reg == 3 {
            OperationType::Rcr
        } else {
            OperationType::Undefined
        }
    } else {
        OperationType::Undefined
    }
}

/// The number of displacement bytes a `mod`/`r/m` pair dictates.
pub open spec fn spec_disp_len(mod_rm: u8, rm: u8) -> int {
    if mod_rm == 0 {
        if rm == 6 {
            2
        } else {
            0
        }
    } else if mod_rm == 1 {
        1
    } else if mod_rm == 2 {
        2
    } else {
        0
    }
}

/// Whether the opcode byte is in the accepted table at all.
pub open spec fn known_opcode(b0: u8) -> bool {
    !(b0 == 0x26 || b0 == 0x2e || b0 == 0x36 || b0 == 0x3e || (0x60 <= b0 && b0 <= 0x6f) || b0
        == 0xc0 || b0 == 0xc1 || b0 == 0xc8 || b0 == 0xc9 || b0 == 0xd6 || b0 == 0xf1)
}

/// The encoding classes that read a `mod/reg/r/m` byte.
pub open spec fn uses_modrm(b0: u8) -> bool {
    ||| (0x88 <= b0 && b0 <= 0x8b)
    ||| b0 == 0xc6 || b0 == 0xc7
    ||| b0 == 0x8e || b0 == 0x8c
    ||| b0 == 0x8f
    ||| b0 == 0x86 || b0 == 0x87
    ||| b0 == 0x8d || b0 == 0xc5 || b0 == 0xc4
    ||| b0 <= 0x03
    ||| (0x10 <= b0 && b0 <= 0x13)
    ||| b0 == 0xfe
    ||| (0x28 <= b0 && b0 <= 0x2b)
    ||| (0x18 <= b0 && b0 <= 0x1b)
    ||| (0x38 <= b0 && b0 <= 0x3b)
    ||| (0x20 <= b0 && b0 <= 0x23)
    ||| b0 == 0x84 || b0 == 0x85
    ||| (0x08 <= b0 && b0 <= 0x0b)
    ||| (0x30 <= b0 && b0 <= 0x33)
    ||| (0x80 <= b0 && b0 <= 0x83)
    ||| b0 == 0xff
    ||| b0 == 0xf6 || b0 == 0xf7
    ||| (0xd0 <= b0 && b0 <= 0xd3)
}

/// Whether the `reg` field selects an operation in a group class; true for
/// every class whose table is full.
pub open spec fn group_reg_ok(b0: u8, reg: u8) -> bool {
    if b0 == 0x8c || b0 == 0x8e {
        reg < 4
    } else if b0 == 0x8f {
        reg == 6
    } else if b0 == 0xff {
        reg != 7
    } else if b0 == 0xf6 || b0 == 0xf7 {
        reg != 1
    } else if 0xd0 <= b0 && b0 <= 0xd3 {
        reg != 6
    } else {
        true
    }
}

/// The immediate bytes a `mod/reg/r/m` class reads after its displacement.
pub open spec fn modrm_imm_len(b0: u8, reg: u8) -> int {
    if b0 == 0xc6 {
        1
    } else if b0 == 0xc7 {
        2
    } else if 0x80 <= b0 && b0 <= 0x83 {
        if b0 == 0x81 {
            2
        } else {
            1
        }
    } else if (b0 == 0xf6 || b0 == 0xf7) && reg == 0 {
        if b0 == 0xf7 {
            2
        } else {
            1
        }
    } else {
        0
    }
}

/// The bytes the classes without a `mod/reg/r/m` byte read after the
/// opcode.
pub open spec fn simple_extra_len(b0: u8) -> int {
    if (0xb0 <= b0 && b0 <= 0xb7) {
        1
    } else if (0xb8 <= b0 && b0 <= 0xbf) {
        2
    } else if (0xa0 <= b0 && b0 <= 0xa3) {
        2
    } else if b0 == 0x04 || b0 == 0x14 || b0 == 0x2c || b0 == 0x1c || b0 == 0x3c || b0 == 0x24
        || b0 == 0xa8 || b0 == 0x0c || b0 == 0x34 {
        1
    } else if b0 == 0x05 || b0 == 0x15 || b0 == 0x2d || b0 == 0x1d || b0 == 0x3d || b0 == 0x25
        || b0 == 0xa9 || b0 == 0x0d || b0 == 0x35 {
        2
    } else if b0 == 0xe4 || b0 == 0xe5 || b0 == 0xe6 || b0 == 0xe7 {
        1
    } else if b0 == 0xf2 || b0 == 0xf3 {
        1
    } else if b0 == 0xe8 || b0 == 0xe9 || b0 == 0xea || b0 == 0x9a || b0 == 0xc2 || b0 == 0xca {
        2
    } else if b0 == 0xeb || (0x70 <= b0 && b0 <= 0x7f) || (0xe0 <= b0 && b0 <= 0xe3) || b0 == 0xcd
        || b0 == 0xd4 || b0 == 0xd5 {
        1
    } else {
        0
    }
}

/// Whether a required second byte carries what the class demands: the AAM
/// and AAD extension byte, or a string opcode after the REP prefix.
pub open spec fn extension_ok(b0: u8, b1: u8) -> bool {
    if b0 == 0xd4 || b0 == 0xd5 {
        b1 == 0x0a
    } else if b0 == 0xf2 || b0 == 0xf3 {
        spec_string_op(b1) != OperationType::Undefined
    } else {
        true
    }
}

/// Whether the byte stream holds a decodable instruction at `pos`: either
/// the synthetic end marker (a zero byte with nothing after it), or a known
/// opcode with a defined group selection, a valid extension byte, and all
/// the bytes its class dictates still inside the text.
pub open spec fn can_decode(text: Seq<u8>, pos: int) -> bool {
    let b0 = text[pos];
    let b1 = text[pos + 1];
    if b0 == 0 && pos + 1 == text.len() {
        true
    } else if !known_opcode(b0) {
        false
    } else if uses_modrm(b0) {
        let m = (b1 / 64) % 4;
        let reg = (b1 / 8) % 8;
        let rm = b1 % 8;
        &&& pos + 2 <= text.len()
        &&& group_reg_ok(b0, reg)
        &&& pos + 2 + spec_disp_len(m, rm) + modrm_imm_len(b0, reg) <= text.len()
    } else {
        &&& pos + 1 + simple_extra_len(b0) <= text.len()
        &&& (pos + 2 <= text.len() ==> extension_ok(b0, b1))
    }
}

/// What a successfully decoded operation satisfies beyond its raw-byte
/// accounting: the synthetic Undefined marker appears exactly for a zero
/// byte at the very end of the text, every other outcome carries the
/// mnemonic the opcode table assigns, and the control-transfer encodings
/// have their lengths and displacement fields pinned to the bytes.
pub open spec fn decoded_ok(text: Seq<u8>, pos: int, op: Operation) -> bool {
    let b0 = text[pos];
    let b1 = text[pos + 1];
    &&& (op.operation_type == OperationType::Undefined <==> (b0 == 0 && pos + 1 == text.len()))
    &&& (op.operation_type != OperationType::Undefined ==> op.operation_type == spec_mnemonic(
        b0,
        if op.raws@.len() >= 2 {
            b1
        } else {
            0
        },
    ))
    &&& ((0x70 <= b0 && b0 <= 0x7f) || (0xe0 <= b0 && b0 <= 0xe3) || b0 == 0xeb ==> {
        &&& op.raws@.len() == 2
        &&& op.disp == b1
        &&& op.mod_rm == 0
    })
    &&& (b0 == 0xe8 || b0 == 0xe9 ==> {
        &&& op.raws@.len() == 3
        &&& op.disp == le16(text, pos + 1)
        &&& op.mod_rm == 0
    })
    &&& (b0 == 0xcd ==> op.raws@.len() == 2 && op.int_type == b1)
    &&& (b0 == 0xc2 || b0 == 0xca ==> op.first == OperandType::Imm && op.disp == le16(
        text,
        pos + 1,
    ))
    &&& (b0 == 0xc3 || b0 == 0xcb ==> op.first == OperandType::Absent && op.raws@.len() == 1)
    &&& (b0 == 0xf2 || b0 == 0xf3 ==> {
        &&& op.raws@.len() == 2
        &&& op.rep_operation_type == spec_string_op(b1)
        &&& op.w == b1 % 2
        &&& op.z == b0 % 2
    })
}

/// The instruction decoder: a cursor into the text segment. Decoding is
/// pure in the sense that the outcome depends on the text and the cursor
/// alone; the attached trace sink collects the rendered listing.
pub struct Disassembler {
    pub text: Vec<u8>,
    pub text_pos: usize,
    pub dump: Dump,
}

impl Operation {
    /// All fields equal except the raw byte record.
    pub open spec fn same_but_raws(self, other: Operation) -> bool {
        &&& self.pos == other.pos
        &&& self.operation_type == other.operation_type
        &&& self.d == other.d
        &&& self.w == other.w
        &&& self.s == other.s
        &&& self.z == other.z
        &&& self.v == other.v
        &&& self.mod_rm == other.mod_rm
        &&& self.rm == other.rm
        &&& self.reg == other.reg
        &&& self.data == other.data
        &&& self.port == other.port
        &&& self.disp == other.disp
        &&& self.int_type == other.int_type
        &&& self.rep_operation_type == other.rep_operation_type
        &&& self.first == other.first
        &&& self.second == other.second
    }
}

impl Disassembler {
    pub open spec fn wf(self) -> bool {
        &&& self.text@.len() <= 0x10000
        &&& self.text_pos <= self.text@.len()
    }

    /// Mid-decode invariant: the operation's raw bytes are exactly the text
    /// between its start position and the cursor.
    pub open spec fn decoding(self, op: Operation) -> bool {
        &&& op.pos <= self.text_pos
        &&& op.raws@ == self.text@.subrange(op.pos as int, self.text_pos as int)
    }

    pub fn new(text: Vec<u8>, enabled: bool) -> (r: Disassembler)
        requires
            text.len() <= 0x10000,
        ensures
            r.wf(),
            r.text@ == text@,
            r.text_pos == 0,
            r.dump.enabled == enabled,
            r.dump.out@ == Seq::<u8>::empty(),
    {
        Disassembler { text, text_pos: 0, dump: Dump::new(enabled) }
    }

    pub fn enable_dump(&mut self)
        ensures
            *final(self) == (Disassembler {
                dump: Dump { enabled: true, ..old(self).dump },
                ..*old(self)
            }),
    {
        self.dump.enabled = true;
    }

    /// Consumes one byte: advances the cursor and appends the byte to the
    /// operation's raw record. Fails exactly when the cursor is at the end
    /// of the text.
    fn next_byte(&mut self, op: &mut Operation) -> (r: Result<u8, DecodeError>)
        requires
            old(self).wf(),
            old(self).decoding(*old(op)),
        ensures
            final(self).wf(),
            final(self).text@ == old(self).text@,
            final(self).dump == old(self).dump,
            r is Ok ==> {
                &&& old(self).text_pos < old(self).text@.len()
                &&& final(self).text_pos == old(self).text_pos + 1
                &&& r->Ok_0 == old(self).text@[old(self).text_pos as int]
                &&& final(self).decoding(*final(op))
                &&& final(op).same_but_raws(*old(op))
                &&& final(op).raws@ == old(op).raws@.push(r->Ok_0)
            },
            r is Err ==> {
                &&& *final(self) == *old(self)
                &&& *final(op) == *old(op)
                &&& old(self).text_pos == old(self).text@.len()
                &&& r == Err::<u8, DecodeError>(DecodeError::UnexpectedEnd {
                    pos: old(self).text_pos,
                })
            },
    {
        if self.text_pos >= self.text.len() {
            return Err(DecodeError::UnexpectedEnd { pos: self.text_pos });
        }
        let byte: u8 = self.text[self.text_pos];
        self.text_pos = self.text_pos + 1;
        op.raws.push(byte);
        proof {
            assert(op.raws@ =~= self.text@.subrange(op.pos as int, self.text_pos as int));
        }
        Ok(byte)
    }

    /// Reads the displacement bytes dictated by `mod` and `r/m`: none for
    /// `mod = 00` (except the 16-bit absolute form when `r/m = 110`) and
    /// `mod = 11`, one byte for `mod = 01`, two for `mod = 10`.
    fn disp(&mut self, op: &mut Operation) -> (r: Result<(), DecodeError>)
        requires
            old(self).wf(),
            old(self).decoding(*old(op)),
        ensures
            final(self).wf(),
            final(self).text@ == old(self).text@,
            final(self).dump == old(self).dump,
            r is Ok ==> {
                &&& final(self).decoding(*final(op))
                &&& final(op).pos == old(op).pos
                &&& final(op).operation_type == old(op).operation_type
                &&& final(op).d == old(op).d
                &&& final(op).w == old(op).w
                &&& final(op).s == old(op).s
                &&& final(op).z == old(op).z
                &&& final(op).v == old(op).v
                &&& final(op).mod_rm == old(op).mod_rm
                &&& final(op).rm == old(op).rm
                &&& final(op).reg == old(op).reg
                &&& final(op).data == old(op).data
                &&& final(op).port == old(op).port
                &&& final(op).int_type == old(op).int_type
                &&& final(op).rep_operation_type == old(op).rep_operation_type
                &&& final(op).first == old(op).first
                &&& final(op).second == old(op).second
                &&& old(self).text_pos <= final(self).text_pos <= old(self).text_pos + 2
                &&& final(self).text_pos == old(self).text_pos + spec_disp_len(
                    old(op).mod_rm,
                    old(op).rm,
                )
            },
            r is Err ==> old(self).text_pos + spec_disp_len(old(op).mod_rm, old(op).rm) > old(
                self,
            ).text@.len(),
    {
        if op.mod_rm == 0 {
            if op.rm == 6 {
                let lo: u8 = self.next_byte(op)?;
                let hi: u8 = self.next_byte(op)?;
                op.disp = (lo as u16) + 256 * (hi as u16);
            }
        } else if op.mod_rm == 1 {
            let b: u8 = self.next_byte(op)?;
            op.disp = b as u16;
        } else if op.mod_rm == 2 {
            let lo: u8 = self.next_byte(op)?;
            let hi: u8 = self.next_byte(op)?;
            op.disp = (lo as u16) + 256 * (hi as u16);
        } else {
            // mod = 11: no displacement
        }
        Ok(())
    }

    /// Reads a 16-bit little-endian immediate.
    fn imm16(&mut self, op: &mut Operation) -> (r: Result<u16, DecodeError>)
        requires
            old(self).wf(),
            old(self).decoding(*old(op)),
        ensures
            final(self).wf(),
            final(self).text@ == old(self).text@,
            final(self).dump == old(self).dump,
            r is Ok ==> {
                &&& final(self).decoding(*final(op))
                &&& final(op).same_but_raws(*old(op))
                &&& final(self).text_pos == old(self).text_pos + 2
                &&& r->Ok_0 == le16(old(self).text@, old(self).text_pos as int)
            },
            r is Err ==> old(self).text_pos + 2 > old(self).text@.len(),
    {
        let lo: u8 = self.next_byte(op)?;
        let hi: u8 = self.next_byte(op)?;
        Ok((lo as u16) + 256 * (hi as u16))
    }

    /// Decodes the instruction at the cursor.
    ///
    /// On success the returned operation records its start position and
    /// exactly the bytes consumed: `pos` is the cursor before the call,
    /// `raws` is the text between the old and the new cursor, and
    /// `pos + raws.len()` — the next instruction's position — is where the
    /// cursor now stands. Instructions are one to six bytes long.
    pub fn next_operation(&mut self) -> (r: Result<Operation, DecodeError>)
        requires
            old(self).wf(),
            old(self).text_pos < old(self).text@.len(),
        ensures
            final(self).wf(),
            final(self).text@ == old(self).text@,
            final(self).dump.enabled == old(self).dump.enabled,
            r is Ok ==> {
                &&& r->Ok_0.wf()
                &&& r->Ok_0.pos == old(self).text_pos
                &&& final(self).text_pos == r->Ok_0.pos + r->Ok_0.raws@.len()
                &&& r->Ok_0.raws@ == old(self).text@.subrange(
                    r->Ok_0.pos as int,
                    final(self).text_pos as int,
                )
                &&& 1 <= r->Ok_0.raws@.len() <= 6
                &&& r->Ok_0.raws@[0] == old(self).text@[old(self).text_pos as int]
                &&& decoded_ok(old(self).text@, old(self).text_pos as int, r->Ok_0)
            },
            r is Ok <==> can_decode(old(self).text@, old(self).text_pos as int),
    {
        let mut op = Operation::new();
        op.pos = self.text_pos;
        proof {
            assert(op.raws@ =~= self.text@.subrange(op.pos as int, self.text_pos as int));
        }
        let instruction: u8 = self.next_byte(&mut op)?;

        // End-of-text policy: a zero opcode byte with nothing after it is a
        // synthetic Undefined operation, so the machine loop can stop.
        if self.text_pos >= self.text.len() && instruction == 0 {
            op.operation_type = OperationType::Undefined;
            self.dump.none(&op);
            return Ok(op);
        }

        if instruction <= 0x3f {
            self.decode_00_3f(&mut op, instruction)?;
        } else if instruction <= 0x7f {
            self.decode_40_7f(&mut op, instruction)?;
        } else if instruction <= 0xbf {
            self.decode_80_bf(&mut op, instruction)?;
        } else if instruction <= 0xdf {
            self.decode_c0_df(&mut op, instruction)?;
        } else {
            self.decode_e0_ff(&mut op, instruction)?;
        }
        Ok(op)
    }


    /// Decodes the opcode range 0x00-0x3F: the arithmetic and logic rows and the segment-register pushes and pops.
    /// The opcode byte itself has already been consumed into `op`.
    #[verifier::rlimit(100)]
    fn decode_00_3f(&mut self, op: &mut Operation, instruction: u8) -> (r: Result<(), DecodeError>)
        requires
            old(self).wf(),
            old(self).decoding(*old(op)),
            old(op).pos + 1 == old(self).text_pos,
            old(op).raws@.len() == 1,
            old(op).raws@[0] == instruction,
            instruction <= 0x3f,
            !(instruction == 0 && old(self).text_pos == old(self).text@.len()),
            old(op).operation_type == OperationType::Undefined,
            old(op).d == 0 && old(op).w == 1 && old(op).s == 0 && old(op).z == 0 && old(op).v == 0,
            old(op).mod_rm == 0 && old(op).rm == 0 && old(op).reg == 0,
            old(op).data == 0 && old(op).port == 0 && old(op).disp == 0 && old(op).int_type == 0,
            old(op).rep_operation_type == OperationType::Undefined,
            old(op).first == OperandType::Absent && old(op).second == OperandType::Absent,
        ensures
            final(self).wf(),
            final(self).text@ == old(self).text@,
            final(self).dump.enabled == old(self).dump.enabled,
            r is Ok ==> {
                &&& final(self).decoding(*final(op))
                &&& final(op).wf()
                &&& final(op).pos == old(op).pos
                &&& 1 <= final(op).raws@.len() <= 6
                &&& final(op).raws@[0] == instruction
                &&& decoded_ok(old(self).text@, final(op).pos as int, *final(op))
            },
            r is Ok <==> can_decode(old(self).text@, old(op).pos as int),
    {
        match instruction {
            // PUSH: segment register
            0x06 | 0x0e | 0x16 | 0x1e => {
                op.operation_type = OperationType::Push;
                op.reg = (instruction / 8) % 8;
                op.first = OperandType::SegReg;
                self.dump.stack3(op);
            },
            // POP: segment register
            0x07 | 0x0f | 0x17 | 0x1f => {
                op.operation_type = OperationType::Pop;
                op.reg = (instruction / 8) % 8;
                op.first = OperandType::SegReg;
                self.dump.stack3(op);
            },
            // --- Arithmetic ---
            // ADD: register/memory with register to either
            0x00..=0x03 => {
                op.operation_type = OperationType::Add;
                let mod_reg_rm: u8 = self.next_byte(op)?;
                op.set_mod_reg_rm(mod_reg_rm);
                self.disp(op)?;
                op.d = (instruction / 2) % 2;
                op.w = instruction % 2;
                if op.d == 1 {
                    op.first = OperandType::Reg;
                    op.second = OperandType::EA;
                } else {
                    op.first = OperandType::EA;
                    op.second = OperandType::Reg;
                }
                self.dump.simple_calc1(op);
            },
            // ADD: immediate to accumulator
            0x04 | 0x05 => {
                op.operation_type = OperationType::Add;
                op.w = instruction % 2;
                op.data = self.imm_by_w(op)?;
                op.first = OperandType::Reg;
                op.second = OperandType::Imm;
                self.dump.simple_calc3(op);
            },
            // ADC: register/memory with register to either
            0x10..=0x13 => {
                op.operation_type = OperationType::Adc;
                let mod_reg_rm: u8 = self.next_byte(op)?;
                op.set_mod_reg_rm(mod_reg_rm);
                self.disp(op)?;
                op.d = (instruction / 2) % 2;
                op.w = instruction % 2;
                if op.d == 1 {
                    op.first = OperandType::Reg;
                    op.second = OperandType::EA;
                } else {
                    op.first = OperandType::EA;
                    op.second = OperandType::Reg;
                }
                self.dump.simple_calc1(op);
            },
            // ADC: immediate to accumulator
            0x14 | 0x15 => {
                op.operation_type = OperationType::Adc;
                op.w = instruction % 2;
                op.data = self.imm_by_w(op)?;
                op.first = OperandType::Reg;
                op.second = OperandType::Imm;
                self.dump.simple_calc3(op);
            },
            0x37 => {
                op.operation_type = OperationType::Aaa;
            },
            0x27 => {
                op.operation_type = OperationType::Baa;
            },
            // SUB: register/memory with register to either
            0x28..=0x2b => {
                op.operation_type = OperationType::Sub;
                let mod_reg_rm: u8 = self.next_byte(op)?;
                op.set_mod_reg_rm(mod_reg_rm);
                self.disp(op)?;
                op.d = (instruction / 2) % 2;
                op.w = instruction % 2;
                if op.d == 1 {
                    op.first = OperandType::Reg;
                    op.second = OperandType::EA;
                } else {
                    op.first = OperandType::EA;
                    op.second = OperandType::Reg;
                }
                self.dump.simple_calc1(op);
            },
            // SUB: immediate from accumulator
            0x2c | 0x2d => {
                op.operation_type = OperationType::Sub;
                op.w = instruction % 2;
                op.data = self.imm_by_w(op)?;
                op.first = OperandType::Reg;
                op.second = OperandType::Imm;
                self.dump.simple_calc3(op);
            },
            // SBB: register/memory with register to either
            0x18..=0x1b => {
                op.operation_type = OperationType::Sbb;
                let mod_reg_rm: u8 = self.next_byte(op)?;
                op.set_mod_reg_rm(mod_reg_rm);
                self.disp(op)?;
                op.d = (instruction / 2) % 2;
                op.w = instruction % 2;
                if op.d == 1 {
                    op.first = OperandType::Reg;
                    op.second = OperandType::EA;
                } else {
                    op.first = OperandType::EA;
                    op.second = OperandType::Reg;
                }
                self.dump.simple_calc1(op);
            },
            // SBB: immediate from accumulator
            0x1c | 0x1d => {
                op.operation_type = OperationType::Sbb;
                op.w = instruction % 2;
                op.data = self.imm_by_w(op)?;
                op.first = OperandType::Reg;
                op.second = OperandType::Imm;
            },
            // CMP: register/memory and register
            0x38..=0x3b => {
                op.operation_type = OperationType::Cmp;
                let mod_reg_rm: u8 = self.next_byte(op)?;
                op.set_mod_reg_rm(mod_reg_rm);
                self.disp(op)?;
                op.d = (instruction / 2) % 2;
                op.w = instruction % 2;
                if op.d == 1 {
                    op.first = OperandType::Reg;
                    op.second = OperandType::EA;
                } else {
                    op.first = OperandType::EA;
                    op.second = OperandType::Reg;
                }
                self.dump.simple_calc1(op);
            },
            // CMP: immediate with accumulator
            0x3c | 0x3d => {
                op.operation_type = OperationType::Cmp;
                op.w = instruction % 2;
                op.data = self.imm_by_w(op)?;
                op.first = OperandType::Reg;
                op.second = OperandType::Imm;
                self.dump.simple_calc3(op);
            },
            0x3f => {
                op.operation_type = OperationType::Aas;
                self.dump.name(op);
            },
            0x2f => {
                op.operation_type = OperationType::Das;
                self.dump.name(op);
            },
            // --- Logic ---
            // AND: register/memory and register to either
            0x20..=0x23 => {
                op.operation_type = OperationType::And;
                let mod_reg_rm: u8 = self.next_byte(op)?;
                op.set_mod_reg_rm(mod_reg_rm);
                self.disp(op)?;
                op.d = (instruction / 2) % 2;
                op.w = instruction % 2;
                if op.d == 1 {
                    op.first = OperandType::Reg;
                    op.second = OperandType::EA;
                } else {
                    op.first = OperandType::EA;
                    op.second = OperandType::Reg;
                }
                self.dump.bit_op1(op);
            },
            // AND: immediate with accumulator
            0x24 | 0x25 => {
                op.operation_type = OperationType::And;
                op.w = instruction % 2;
                op.data = self.imm_by_w(op)?;
                op.first = OperandType::Reg;
                op.second = OperandType::Imm;
                self.dump.bit_op3(op);
            },
            // OR: register/memory and register to either
            0x08..=0x0b => {
                op.operation_type = OperationType::Or;
                let mod_reg_rm: u8 = self.next_byte(op)?;
                op.set_mod_reg_rm(mod_reg_rm);
                self.disp(op)?;
                op.d = (instruction / 2) % 2;
                op.w = instruction % 2;
                if op.d == 1 {
                    op.first = OperandType::Reg;
                    op.second = OperandType::EA;
                } else {
                    op.first = OperandType::EA;
                    op.second = OperandType::Reg;
                }
                self.dump.bit_op1(op);
            },
            // OR: immediate with accumulator
            0x0c | 0x0d => {
                op.operation_type = OperationType::Or;
                op.w = instruction % 2;
                op.data = self.imm_by_w(op)?;
                op.first = OperandType::Reg;
                op.second = OperandType::Imm;
                self.dump.bit_op3(op);
            },
            // XOR: register/memory and register to either
            0x30..=0x33 => {
                op.operation_type = OperationType::Xor;
                let mod_reg_rm: u8 = self.next_byte(op)?;
                op.set_mod_reg_rm(mod_reg_rm);
                self.disp(op)?;
                op.d = (instruction / 2) % 2;
                op.w = instruction % 2;
                if op.d == 1 {
                    op.first = OperandType::Reg;
                    op.second = OperandType::EA;
                } else {
                    op.first = OperandType::EA;
                    op.second = OperandType::Reg;
                }
                self.dump.bit_op1(op);
            },
            // XOR: immediate with accumulator
            0x34 | 0x35 => {
                op.operation_type = OperationType::Xor;
                op.w = instruction % 2;
                op.data = self.imm_by_w(op)?;
                op.first = OperandType::Reg;
                op.second = OperandType::Imm;
                self.dump.bit_op3(op);
            },
            _ => {
                return Err(DecodeError::UnknownOpcode { pos: op.pos, opcode: instruction });
            },
        }
        Ok(())
    }

    /// Decodes the opcode range 0x40-0x7F: the one-byte INC/DEC/PUSH/POP register forms and the conditional jumps.
    /// The opcode byte itself has already been consumed into `op`.
    #[verifier::rlimit(100)]
    fn decode_40_7f(&mut self, op: &mut Operation, instruction: u8) -> (r: Result<(), DecodeError>)
        requires
            old(self).wf(),
            old(self).decoding(*old(op)),
            old(op).pos + 1 == old(self).text_pos,
            old(op).raws@.len() == 1,
            old(op).raws@[0] == instruction,
            0x40 <= instruction <= 0x7f,
            !(instruction == 0 && old(self).text_pos == old(self).text@.len()),
            old(op).operation_type == OperationType::Undefined,
            old(op).d == 0 && old(op).w == 1 && old(op).s == 0 && old(op).z == 0 && old(op).v == 0,
            old(op).mod_rm == 0 && old(op).rm == 0 && old(op).reg == 0,
            old(op).data == 0 && old(op).port == 0 && old(op).disp == 0 && old(op).int_type == 0,
            old(op).rep_operation_type == OperationType::Undefined,
            old(op).first == OperandType::Absent && old(op).second == OperandType::Absent,
        ensures
            final(self).wf(),
            final(self).text@ == old(self).text@,
            final(self).dump.enabled == old(self).dump.enabled,
            r is Ok ==> {
                &&& final(self).decoding(*final(op))
                &&& final(op).wf()
                &&& final(op).pos == old(op).pos
                &&& 1 <= final(op).raws@.len() <= 6
                &&& final(op).raws@[0] == instruction
                &&& decoded_ok(old(self).text@, final(op).pos as int, *final(op))
            },
            r is Ok <==> can_decode(old(self).text@, old(op).pos as int),
    {
        match instruction {
            // PUSH: register
            0x50..=0x57 => {
                op.operation_type = OperationType::Push;
                op.reg = instruction % 8;
                op.first = OperandType::Reg;
                self.dump.stack2(op);
            },
            // POP: register
            0x58..=0x5f => {
                op.operation_type = OperationType::Pop;
                op.reg = instruction % 8;
                op.first = OperandType::Reg;
                self.dump.stack2(op);
            },
            // INC: register
            0x40..=0x47 => {
                op.operation_type = OperationType::Inc;
                op.reg = instruction % 8;
                op.first = OperandType::Reg;
                self.dump.inc_dec2(op);
            },
            // DEC: register
            0x48..=0x4f => {
                op.operation_type = OperationType::Dec;
                op.reg = instruction % 8;
                op.first = OperandType::Reg;
                self.dump.inc_dec2(op);
            },
            // Conditional short jumps
            0x70..=0x7f => {
                op.operation_type = match instruction % 16 {
                    0 => OperationType::Jo,
                    1 => OperationType::Jno,
                    2 => OperationType::JbJnae,
                    3 => OperationType::JnbJae,
                    4 => OperationType::JeJz,
                    5 => OperationType::JneJnz,
                    6 => OperationType::JbeJna,
                    7 => OperationType::JnbeJa,
                    8 => OperationType::Js,
                    9 => OperationType::Jns,
                    10 => OperationType::JpJpe,
                    11 => OperationType::JnpJpo,
                    12 => OperationType::JlJnge,
                    13 => OperationType::JnlJge,
                    14 => OperationType::JleJng,
                    _ => OperationType::JnleJg,
                };
                let b: u8 = self.next_byte(op)?;
                op.disp = b as u16;
                self.dump.jump(op);
            },
            _ => {
                return Err(DecodeError::UnknownOpcode { pos: op.pos, opcode: instruction });
            },
        }
        Ok(())
    }

    /// Decodes the opcode range 0x80-0xBF: group 1, the MOV/XCHG/TEST r/m rows, the string instructions and the immediate loads.
    /// The opcode byte itself has already been consumed into `op`.
    #[verifier::rlimit(100)]
    fn decode_80_bf(&mut self, op: &mut Operation, instruction: u8) -> (r: Result<(), DecodeError>)
        requires
            old(self).wf(),
            old(self).decoding(*old(op)),
            old(op).pos + 1 == old(self).text_pos,
            old(op).raws@.len() == 1,
            old(op).raws@[0] == instruction,
            0x80 <= instruction <= 0xbf,
            !(instruction == 0 && old(self).text_pos == old(self).text@.len()),
            old(op).operation_type == OperationType::Undefined,
            old(op).d == 0 && old(op).w == 1 && old(op).s == 0 && old(op).z == 0 && old(op).v == 0,
            old(op).mod_rm == 0 && old(op).rm == 0 && old(op).reg == 0,
            old(op).data == 0 && old(op).port == 0 && old(op).disp == 0 && old(op).int_type == 0,
            old(op).rep_operation_type == OperationType::Undefined,
            old(op).first == OperandType::Absent && old(op).second == OperandType::Absent,
        ensures
            final(self).wf(),
            final(self).text@ == old(self).text@,
            final(self).dump.enabled == old(self).dump.enabled,
            r is Ok ==> {
                &&& final(self).decoding(*final(op))
                &&& final(op).wf()
                &&& final(op).pos == old(op).pos
                &&& 1 <= final(op).raws@.len() <= 6
                &&& final(op).raws@[0] == instruction
                &&& decoded_ok(old(self).text@, final(op).pos as int, *final(op))
            },
            r is Ok <==> can_decode(old(self).text@, old(op).pos as int),
    {
        match instruction {
            // --- Data transfer ---
            // MOV: register/memory to/from register
            0x88..=0x8b => {
                op.operation_type = OperationType::Mov;
                let mod_reg_rm: u8 = self.next_byte(op)?;
                op.set_mod_reg_rm(mod_reg_rm);
                self.disp(op)?;
                op.d = (instruction / 2) % 2;
                op.w = instruction % 2;
                if op.d == 1 {
                    op.first = OperandType::Reg;
                    op.second = OperandType::EA;
                } else {
                    op.first = OperandType::EA;
                    op.second = OperandType::Reg;
                }
                self.dump.simple_calc1(op);
            },
            // MOV: immediate to register
            0xb0..=0xbf => {
                op.operation_type = OperationType::Mov;
                op.w = (instruction / 8) % 2;
                op.reg = instruction % 8;
                op.data = self.imm_by_w(op)?;
                op.first = OperandType::Reg;
                op.second = OperandType::Imm;
                self.dump.simple_calc3(op);
            },
            // MOV: memory to accumulator / accumulator to memory
            0xa0..=0xa3 => {
                op.operation_type = OperationType::Mov;
                op.w = instruction % 2;
                op.rm = 6;
                op.disp = self.imm16(op)?;
                if (instruction / 2) % 2 == 0 {
                    op.first = OperandType::Reg;
                    op.second = OperandType::EA;
                    self.dump.mov4(op);
                } else {
                    op.first = OperandType::EA;
                    op.second = OperandType::Reg;
                    self.dump.mov5(op);
                }
            },
            // MOV: segment register to/from register/memory
            0x8e | 0x8c => {
                op.operation_type = OperationType::Mov;
                let mod_reg_rm: u8 = self.next_byte(op)?;
                op.set_mod_reg_rm(mod_reg_rm);
                self.disp(op)?;
                if op.reg >= 4 {
                    return Err(DecodeError::InvalidRegField { opcode: instruction, reg: op.reg });
                }
                if instruction == 0x8e {
                    op.first = OperandType::SegReg;
                    op.second = OperandType::EA;
                } else {
                    op.first = OperandType::EA;
                    op.second = OperandType::SegReg;
                }
            },
            // POP: register/memory
            0x8f => {
                op.operation_type = OperationType::Pop;
                let mod_reg_rm: u8 = self.next_byte(op)?;
                op.set_mod_reg_rm(mod_reg_rm);
                self.disp(op)?;
                if op.reg != 6 {
                    return Err(DecodeError::InvalidRegField { opcode: instruction, reg: op.reg });
                }
                op.first = OperandType::EA;
                self.dump.stack1(op);
            },
            // XCHG: register/memory with register
            0x86 | 0x87 => {
                op.operation_type = OperationType::Xchg;
                let mod_reg_rm: u8 = self.next_byte(op)?;
                op.set_mod_reg_rm(mod_reg_rm);
                self.disp(op)?;
                op.w = instruction % 2;
                op.first = OperandType::EA;
                op.second = OperandType::Reg;
                self.dump.xchg1(op);
            },
            // XCHG: register with accumulator
            0x90..=0x97 => {
                op.operation_type = OperationType::Xchg;
                op.reg = instruction % 8;
                op.first = OperandType::Reg;
                self.dump.xchg2(op);
            },
            0x8d => {
                op.operation_type = OperationType::Lea;
                let mod_reg_rm: u8 = self.next_byte(op)?;
                op.set_mod_reg_rm(mod_reg_rm);
                self.disp(op)?;
                self.dump.lea(op);
            },
            0x9f => {
                op.operation_type = OperationType::Lahf;
            },
            0x9e => {
                op.operation_type = OperationType::Sahf;
            },
            0x9c => {
                op.operation_type = OperationType::Pushf;
            },
            0x9d => {
                op.operation_type = OperationType::Popf;
            },
            0x98 => {
                op.operation_type = OperationType::Cbw;
                self.dump.name(op);
            },
            0x99 => {
                op.operation_type = OperationType::Cwd;
                self.dump.name(op);
            },
            // TEST: register/memory and register
            0x84 | 0x85 => {
                op.operation_type = OperationType::Test;
                let mod_reg_rm: u8 = self.next_byte(op)?;
                op.set_mod_reg_rm(mod_reg_rm);
                self.disp(op)?;
                op.w = instruction % 2;
                op.first = OperandType::EA;
                op.second = OperandType::Reg;
                self.dump.bit_op1(op);
            },
            // TEST: immediate data and accumulator
            0xa8 | 0xa9 => {
                op.operation_type = OperationType::Test;
                op.w = instruction % 2;
                op.data = self.imm_by_w(op)?;
                op.first = OperandType::Reg;
                op.second = OperandType::Imm;
                self.dump.bit_op3(op);
            },
            // MOVS/CMPS/SCAS/LODS/STOS
            0xa4..=0xaf => {
                op.w = instruction % 2;
                op.operation_type = match (instruction / 2) % 8 {
                    2 => OperationType::Movs,
                    3 => OperationType::Cmps,
                    7 => OperationType::Scas,
                    6 => OperationType::Lods,
                    _ => OperationType::Stos,
                };
                self.dump.name(op);
            },
            // CALL: direct intersegment
            0x9a => {
                op.operation_type = OperationType::Call;
                op.disp = self.imm16(op)?;
            },
            0x9b => {
                op.operation_type = OperationType::Wait;
                self.dump.name(op);
            },
            // --- Group opcodes ---
            // Group 1: immediate to register/memory
            0x80..=0x83 => {
                let mod_reg_rm: u8 = self.next_byte(op)?;
                op.set_mod_reg_rm(mod_reg_rm);
                self.disp(op)?;
                op.s = (instruction / 2) % 2;
                op.w = instruction % 2;
                if op.s == 0 && op.w == 1 {
                    op.data = self.imm16(op)?;
                } else {
                    let b: u8 = self.next_byte(op)?;
                    op.data = if op.s == 1 && op.w == 1 {
                        alu_sign_extend8(b)
                    } else {
                        b as u16
                    };
                }
                op.operation_type = match op.reg {
                    0 => OperationType::Add,
                    2 => OperationType::Adc,
                    5 => OperationType::Sub,
                    3 => OperationType::Sbb,
                    7 => OperationType::Cmp,
                    4 => OperationType::And,
                    1 => OperationType::Or,
                    _ => OperationType::Xor,
                };
                op.first = OperandType::EA;
                op.second = OperandType::Imm;
                self.dump.simple_calc2(op);
            },
            _ => {
                return Err(DecodeError::UnknownOpcode { pos: op.pos, opcode: instruction });
            },
        }
        Ok(())
    }

    /// Decodes the opcode range 0xC0-0xDF: the RET/INT rows, the load instructions and the shift/rotate group.
    /// The opcode byte itself has already been consumed into `op`.
    #[verifier::rlimit(100)]
    fn decode_c0_df(&mut self, op: &mut Operation, instruction: u8) -> (r: Result<(), DecodeError>)
        requires
            old(self).wf(),
            old(self).decoding(*old(op)),
            old(op).pos + 1 == old(self).text_pos,
            old(op).raws@.len() == 1,
            old(op).raws@[0] == instruction,
            0xc0 <= instruction <= 0xdf,
            !(instruction == 0 && old(self).text_pos == old(self).text@.len()),
            old(op).operation_type == OperationType::Undefined,
            old(op).d == 0 && old(op).w == 1 && old(op).s == 0 && old(op).z == 0 && old(op).v == 0,
            old(op).mod_rm == 0 && old(op).rm == 0 && old(op).reg == 0,
            old(op).data == 0 && old(op).port == 0 && old(op).disp == 0 && old(op).int_type == 0,
            old(op).rep_operation_type == OperationType::Undefined,
            old(op).first == OperandType::Absent && old(op).second == OperandType::Absent,
        ensures
            final(self).wf(),
            final(self).text@ == old(self).text@,
            final(self).dump.enabled == old(self).dump.enabled,
            r is Ok ==> {
                &&& final(self).decoding(*final(op))
                &&& final(op).wf()
                &&& final(op).pos == old(op).pos
                &&& 1 <= final(op).raws@.len() <= 6
                &&& final(op).raws@[0] == instruction
                &&& decoded_ok(old(self).text@, final(op).pos as int, *final(op))
            },
            r is Ok <==> can_decode(old(self).text@, old(op).pos as int),
    {
        match instruction {
            // MOV: immediate to register/memory
            0xc6 | 0xc7 => {
                op.operation_type = OperationType::Mov;
                let mod_reg_rm: u8 = self.next_byte(op)?;
                op.set_mod_reg_rm(mod_reg_rm);
                self.disp(op)?;
                op.w = instruction % 2;
                op.data = self.imm_by_w(op)?;
                op.first = OperandType::EA;
                op.second = OperandType::Imm;
                self.dump.simple_calc2(op);
            },
            0xd7 => {
                op.operation_type = OperationType::Xlat;
            },
            0xc5 => {
                op.operation_type = OperationType::Lds;
                let mod_reg_rm: u8 = self.next_byte(op)?;
                op.set_mod_reg_rm(mod_reg_rm);
                self.disp(op)?;
            },
            0xc4 => {
                op.operation_type = OperationType::Les;
                let mod_reg_rm: u8 = self.next_byte(op)?;
                op.set_mod_reg_rm(mod_reg_rm);
                self.disp(op)?;
            },
            // RET: within segment / intersegment
            0xc3 | 0xcb => {
                op.operation_type = OperationType::Ret;
                self.dump.name(op);
            },
            // RET: adding immediate to SP
            0xc2 | 0xca => {
                op.operation_type = OperationType::Ret;
                op.disp = self.imm16(op)?;
                op.first = OperandType::Imm;
                self.dump.ret2(op);
            },
            // INT: type specified
            0xcd => {
                op.operation_type = OperationType::Int;
                op.int_type = self.next_byte(op)?;
                self.dump.int1(op);
            },
            // INT: type 3
            0xcc => {
                op.operation_type = OperationType::Int;
                self.dump.int2(op);
            },
            0xce => {
                op.operation_type = OperationType::Into;
            },
            0xcf => {
                op.operation_type = OperationType::Iret;
            },
            0xd8..=0xdf => {
                op.operation_type = OperationType::Esc;
                op.reg = instruction % 8;
            },
            // AAM
            0xd4 => {
                let next: u8 = self.next_byte(op)?;
                if next != 0x0a {
                    return Err(DecodeError::BadExtension { opcode: instruction, byte: next });
                }
                op.operation_type = OperationType::Aam;
            },
            // AAD
            0xd5 => {
                let next: u8 = self.next_byte(op)?;
                if next != 0x0a {
                    return Err(DecodeError::BadExtension { opcode: instruction, byte: next });
                }
                op.operation_type = OperationType::Aad;
            },
            // Group 4: shifts and rotates
            0xd0..=0xd3 => {
                let mod_reg_rm: u8 = self.next_byte(op)?;
                op.set_mod_reg_rm(mod_reg_rm);
                self.disp(op)?;
                op.v = (instruction / 2) % 2;
                op.w = instruction % 2;
                op.operation_type = match op.reg {
                    4 => OperationType::ShlSal,
                    5 => OperationType::Shr,
                    7 => OperationType::Sar,
                    0 => OperationType::Rol,
                    1 => OperationType::Ror,
                    2 => OperationType::Rcl,
                    3 => OperationType::Rcr,
                    _ => {
                        return Err(DecodeError::InvalidRegField {
                            opcode: instruction,
                            reg: op.reg,
                        });
                    },
                };
                op.first = OperandType::EA;
                self.dump.shift_rotate(op);
            },
            _ => {
                return Err(DecodeError::UnknownOpcode { pos: op.pos, opcode: instruction });
            },
        }
        Ok(())
    }

    /// Decodes the opcode range 0xE0-0xFF: the LOOP and IN/OUT rows, CALL/JMP, the REP prefix and groups 2 and 3.
    /// The opcode byte itself has already been consumed into `op`.
    #[verifier::rlimit(100)]
    fn decode_e0_ff(&mut self, op: &mut Operation, instruction: u8) -> (r: Result<(), DecodeError>)
        requires
            old(self).wf(),
            old(self).decoding(*old(op)),
            old(op).pos + 1 == old(self).text_pos,
            old(op).raws@.len() == 1,
            old(op).raws@[0] == instruction,
            0xe0 <= instruction <= 0xff,
            !(instruction == 0 && old(self).text_pos == old(self).text@.len()),
            old(op).operation_type == OperationType::Undefined,
            old(op).d == 0 && old(op).w == 1 && old(op).s == 0 && old(op).z == 0 && old(op).v == 0,
            old(op).mod_rm == 0 && old(op).rm == 0 && old(op).reg == 0,
            old(op).data == 0 && old(op).port == 0 && old(op).disp == 0 && old(op).int_type == 0,
            old(op).rep_operation_type == OperationType::Undefined,
            old(op).first == OperandType::Absent && old(op).second == OperandType::Absent,
        ensures
            final(self).wf(),
            final(self).text@ == old(self).text@,
            final(self).dump.enabled == old(self).dump.enabled,
            r is Ok ==> {
                &&& final(self).decoding(*final(op))
                &&& final(op).wf()
                &&& final(op).pos == old(op).pos
                &&& 1 <= final(op).raws@.len() <= 6
                &&& final(op).raws@[0] == instruction
                &&& decoded_ok(old(self).text@, final(op).pos as int, *final(op))
            },
            r is Ok <==> can_decode(old(self).text@, old(op).pos as int),
    {
        match instruction {
            // IN: fixed port
            0xe4 | 0xe5 => {
                op.operation_type = OperationType::In;
                op.w = instruction % 2;
                op.port = self.next_byte(op)?;
                self.dump.in1(op);
            },
            // IN: variable port
            0xec | 0xed => {
                op.operation_type = OperationType::In;
                op.w = instruction % 2;
                self.dump.in2(op);
            },
            // OUT: fixed port
            0xe6 | 0xe7 => {
                op.operation_type = OperationType::Out;
                op.w = instruction % 2;
                op.port = self.next_byte(op)?;
            },
            // OUT: variable port
            0xee | 0xef => {
                op.operation_type = OperationType::Out;
                op.w = instruction % 2;
            },
            // INC: register/memory
            0xfe => {
                op.operation_type = OperationType::Inc;
                let mod_reg_rm: u8 = self.next_byte(op)?;
                op.set_mod_reg_rm(mod_reg_rm);
                self.disp(op)?;
                op.w = instruction % 2;
                op.first = OperandType::EA;
                self.dump.inc_dec1(op);
            },
            // --- String manipulation ---
            // REP prefix and the following string operation
            0xf2 | 0xf3 => {
                op.operation_type = OperationType::Rep;
                op.z = instruction % 2;
                let next_op: u8 = self.next_byte(op)?;
                op.rep_operation_type = match (next_op / 2) % 8 {
                    2 => OperationType::Movs,
                    3 => OperationType::Cmps,
                    7 => OperationType::Scas,
                    6 => OperationType::Lods,
                    5 => OperationType::Stos,
                    _ => {
                        return Err(DecodeError::BadExtension {
                            opcode: instruction,
                            byte: next_op,
                        });
                    },
                };
                op.w = next_op % 2;
                self.dump.rep(op);
            },
            // --- Control transfer ---
            // CALL: direct within segment
            0xe8 => {
                op.operation_type = OperationType::Call;
                op.disp = self.imm16(op)?;
                self.dump.call1(op);
            },
            // JMP: direct within segment
            0xe9 => {
                op.operation_type = OperationType::Jmp;
                op.disp = self.imm16(op)?;
                self.dump.jmp1(op);
            },
            // JMP: direct within segment, short
            0xeb => {
                op.operation_type = OperationType::Jmp;
                let b: u8 = self.next_byte(op)?;
                op.disp = b as u16;
                self.dump.jmp2(op);
            },
            // JMP: direct intersegment
            0xea => {
                op.operation_type = OperationType::Jmp;
                op.disp = self.imm16(op)?;
            },
            // LOOP family
            0xe0..=0xe2 => {
                let b: u8 = self.next_byte(op)?;
                op.disp = b as u16;
                if instruction % 4 == 2 {
                    op.operation_type = OperationType::Loop;
                    self.dump.loop1(op);
                } else if instruction % 4 == 1 {
                    op.operation_type = OperationType::LoopzLoope;
                } else {
                    op.operation_type = OperationType::LoopnzLoopne;
                }
            },
            // JCXZ
            0xe3 => {
                op.operation_type = OperationType::Jcxz;
                let b: u8 = self.next_byte(op)?;
                op.disp = b as u16;
            },
            // --- Processor control ---
            0xf8 => {
                op.operation_type = OperationType::Clc;
                self.dump.name(op);
            },
            0xf5 => {
                op.operation_type = OperationType::Cmc;
                self.dump.name(op);
            },
            0xf9 => {
                op.operation_type = OperationType::Stc;
                self.dump.name(op);
            },
            0xfc => {
                op.operation_type = OperationType::Cld;
                self.dump.name(op);
            },
            0xfd => {
                op.operation_type = OperationType::Std;
                self.dump.name(op);
            },
            0xfa => {
                op.operation_type = OperationType::Cli;
                self.dump.name(op);
            },
            0xfb => {
                op.operation_type = OperationType::Sti;
                self.dump.name(op);
            },
            0xf4 => {
                op.operation_type = OperationType::Hlt;
                self.dump.name(op);
            },
            0xf0 => {
                op.operation_type = OperationType::Lock;
                self.dump.name(op);
            },
            // Group 2: PUSH/INC/DEC/CALL/JMP on register/memory
            0xff => {
                let mod_reg_rm: u8 = self.next_byte(op)?;
                op.set_mod_reg_rm(mod_reg_rm);
                self.disp(op)?;
                op.operation_type = match op.reg {
                    6 => OperationType::Push,
                    0 => OperationType::Inc,
                    1 => OperationType::Dec,
                    2 | 3 => OperationType::Call,
                    4 | 5 => OperationType::Jmp,
                    _ => {
                        return Err(DecodeError::InvalidRegField {
                            opcode: instruction,
                            reg: op.reg,
                        });
                    },
                };
                op.first = OperandType::EA;
                self.dump.stack1(op);
            },
            // Group 3: NEG/MUL/IMUL/DIV/IDIV/NOT/TEST on register/memory
            0xf6 | 0xf7 => {
                let mod_reg_rm: u8 = self.next_byte(op)?;
                op.set_mod_reg_rm(mod_reg_rm);
                self.disp(op)?;
                op.w = instruction % 2;
                op.first = OperandType::EA;
                op.second = OperandType::EA;
                op.operation_type = match op.reg {
                    3 => OperationType::Neg,
                    4 => OperationType::Mul,
                    5 => OperationType::Imul,
                    6 => OperationType::Div,
                    7 => OperationType::Idiv,
                    2 => OperationType::Not,
                    0 => {
                        op.data = self.imm_by_w(op)?;
                        op.second = OperandType::Imm;
                        OperationType::Test
                    },
                    _ => {
                        return Err(DecodeError::InvalidRegField {
                            opcode: instruction,
                            reg: op.reg,
                        });
                    },
                };
                if op.operation_type == OperationType::Test {
                    self.dump.test2(op);
                } else {
                    self.dump.complicate_calc(op);
                }
            },
            _ => {
                return Err(DecodeError::UnknownOpcode { pos: op.pos, opcode: instruction });
            },
        }
        Ok(())
    }

    /// Seeks the cursor to `ip` and decodes the instruction there.
    pub fn next(&mut self, ip: u16) -> (r: Result<Operation, DecodeError>)
        requires
            old(self).wf(),
            (ip as int) < old(self).text@.len(),
        ensures
            final(self).wf(),
            final(self).text@ == old(self).text@,
            final(self).dump.enabled == old(self).dump.enabled,
            r is Ok ==> {
                &&& r->Ok_0.wf()
                &&& r->Ok_0.pos == ip
                &&& final(self).text_pos == r->Ok_0.pos + r->Ok_0.raws@.len()
                &&& r->Ok_0.raws@ == old(self).text@.subrange(
                    r->Ok_0.pos as int,
                    final(self).text_pos as int,
                )
                &&& 1 <= r->Ok_0.raws@.len() <= 6
                &&& decoded_ok(old(self).text@, ip as int, r->Ok_0)
            },
            r is Ok <==> can_decode(old(self).text@, ip as int),
    {
        self.text_pos = ip as usize;
        self.next_operation()
    }

    /// Renders the whole text segment into the trace sink, one instruction
    /// per line.
    pub fn disassemble(&mut self) -> (r: Result<(), DecodeError>)
        requires
            old(self).wf(),
        ensures
            final(self).wf(),
            final(self).text@ == old(self).text@,
            r is Ok ==> final(self).text_pos == final(self).text@.len(),
            r is Err ==> exists|p: int|
                0 <= p < old(self).text@.len() && !#[trigger] can_decode(old(self).text@, p),
    {
        while self.text_pos < self.text.len()
            invariant
                self.wf(),
                self.text@ == old(self).text@,
            decreases self.text@.len() - self.text_pos,
        {
            let ghost p = self.text_pos as int;
            match self.next_operation() {
                Ok(_) => {},
                Err(e) => {
                    proof {
                        assert(!can_decode(old(self).text@, p));
                    }
                    return Err(e);
                },
            }
            self.dump.eol();
        }
        Ok(())
    }

    /// Reads the immediate of an "immediate to accumulator" form: two bytes
    /// when `w = 1`, one when `w = 0`.
    fn imm_by_w(&mut self, op: &mut Operation) -> (r: Result<u16, DecodeError>)
        requires
            old(self).wf(),
            old(self).decoding(*old(op)),
        ensures
            final(self).wf(),
            final(self).text@ == old(self).text@,
            final(self).dump == old(self).dump,
            r is Ok ==> {
                &&& final(self).decoding(*final(op))
                &&& final(op).same_but_raws(*old(op))
                &&& old(self).text_pos + 1 <= final(self).text_pos <= old(self).text_pos + 2
                &&& final(self).text_pos == old(self).text_pos + (if old(op).w == 1 {
                    2int
                } else {
                    1int
                })
            },
            r is Err ==> old(self).text_pos + (if old(op).w == 1 {
                2int
            } else {
                1int
            }) > old(self).text@.len(),
    {
        if op.w == 1 {
            self.imm16(op)
        } else {
            let b: u8 = self.next_byte(op)?;
            Ok(b as u16)
        }
    }
}

} // verus!
