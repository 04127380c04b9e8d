use vstd::prelude::*;
use crate::register::RegisterType;

verus! {

/// The 8086 mnemonic set. Variants that the executor does not implement are
/// still decoded (and rendered by the disassembler); executing one is a
/// fatal machine error.
#[derive(Clone, Copy, Debug, PartialEq, Eq, Structural)]
pub enum OperationType {
    Undefined,
    // Data Transfer
    Mov,
    Push,
    Pop,
    Xchg,
    In,
    Out,
    Xlat,
    Lea,
    Lds,
    Les,
    Lahf,
    Sahf,
    Pushf,
    Popf,
    Add,
    Adc,
    Inc,
    Aaa,
    Baa,
    Sub,
    Sbb,
    Dec,
    Neg,
    Cmp,
    Aas,
    Das,
    Mul,
    Imul,
    Aam,
    Div,
    Idiv,
    // Arithmetic
    Aad,
    Cbw,
    Cwd,
    // Logic
    Not,
    ShlSal,
    Shr,
    Sar,
    Rol,
    Ror,
    Rcl,
    Rcr,
    And,
    Test,
    Or,
    Xor,
    // String Manipulation
    Rep,
    Movs,
    Cmps,
    Scas,
    Lods,
    Stos,
    // Control Transfer
    Call,
    Jmp,
    Ret,
    JeJz,
    JlJnge,
    JleJng,
    JbJnae,
    JbeJna,
    JpJpe,
    Jo,
    Js,
    JneJnz,
    JnlJge,
    JnleJg,
    JnbJae,
    JnbeJa,
    JnpJpo,
    Jno,
    Jns,
    Loop,
    LoopzLoope,
    LoopnzLoopne,
    Jcxz,
    Int,
    Into,
    Iret,
    // Processor Control
    Clc,
    Cmc,
    Stc,
    Cld,
    Std,
    Cli,
    Sti,
    Hlt,
    Wait,
    Esc,
    Lock,
}

impl OperationType {
    /// Whether the mnemonic belongs to the control-transfer family: the
    /// instructions whose execution may move IP away from the byte that
    /// follows them.
    pub open spec fn is_control_transfer(self) -> bool {
        match self {
            OperationType::Call => true,
            OperationType::Jmp => true,
            OperationType::Ret => true,
            OperationType::JeJz => true,
            OperationType::JlJnge => true,
            OperationType::JleJng => true,
            OperationType::JbJnae => true,
            OperationType::JbeJna => true,
            OperationType::JpJpe => true,
            OperationType::Jo => true,
            OperationType::Js => true,
            OperationType::JneJnz => true,
            OperationType::JnlJge => true,
            OperationType::JnleJg => true,
            OperationType::JnbJae => true,
            OperationType::JnbeJa => true,
            OperationType::JnpJpo => true,
            OperationType::Jno => true,
            OperationType::Jns => true,
            OperationType::Loop => true,
            OperationType::LoopzLoope => true,
            OperationType::LoopnzLoopne => true,
            OperationType::Jcxz => true,
            OperationType::Int => true,
            OperationType::Into => true,
            OperationType::Iret => true,
            _ => false,
        }
    }

    /// The mnemonic as printed in disassembly and trace lines.
    pub fn name(&self) -> &'static str {
        match self {
            OperationType::Undefined => "(undefined)",
            OperationType::Mov => "MOV",
            OperationType::Push => "PUSH",
            OperationType::Pop => "POP",
            OperationType::Xchg => "XCHG",
            OperationType::In => "IN",
            OperationType::Out => "OUT",
            OperationType::Xlat => "XLAT",
            OperationType::Lea => "LEA",
            OperationType::Lds => "LDS",
            OperationType::Les => "LES",
            OperationType::Lahf => "LAHF",
            OperationType::Sahf => "SAHF",
            OperationType::Pushf => "PUSHF",
            OperationType::Popf => "POPF",
            OperationType::Add => "ADD",
            OperationType::Adc => "ADC",
            OperationType::Inc => "INC",
            OperationType::Aaa => "AAA",
            OperationType::Baa => "BAA",
            OperationType::Sub => "SUB",
            OperationType::Sbb => "SBB",
            OperationType::Dec => "DEC",
            OperationType::Neg => "NEG",
            OperationType::Cmp => "CMP",
            OperationType::Aas => "AAS",
            OperationType::Das => "DAS",
            OperationType::Mul => "MUL",
            OperationType::Imul => "IMUL",
            OperationType::Aam => "AAM",
            OperationType::Div => "DIV",
            OperationType::Idiv => "IDIV",
            OperationType::Aad => "AAD",
            OperationType::Cbw => "CBW",
            OperationType::Cwd => "CWD",
            OperationType::Not => "NOT",
            OperationType::ShlSal => "SHL",
            OperationType::Shr => "SHR",
            OperationType::Sar => "SAR",
            OperationType::Rol => "ROL",
            OperationType::Ror => "ROR",
            OperationType::Rcl => "RCL",
            OperationType::Rcr => "RCR",
            OperationType::And => "AND",
            OperationType::Test => "TEST",
            OperationType::Or => "OR",
            OperationType::Xor => "XOR",
            OperationType::Rep => "REP",
            OperationType::Movs => "MOVS",
            OperationType::Cmps => "CMPS",
            OperationType::Scas => "SCAS",
            OperationType::Lods => "LODS",
            OperationType::Stos => "STOS",
            OperationType::Call => "CALL",
            OperationType::Jmp => "JMP",
            OperationType::Ret => "RET",
            OperationType::JeJz => "JE",
            OperationType::JlJnge => "JL",
            OperationType::JleJng => "JLE",
            OperationType::JbJnae => "JB",
            OperationType::JbeJna => "JBE",
            OperationType::JpJpe => "JP",
            OperationType::Jo => "JO",
            OperationType::Js => "JS",
            OperationType::JneJnz => "JNE",
            OperationType::JnlJge => "JNL",
            OperationType::JnleJg => "JNLE",
            OperationType::JnbJae => "JNB",
            OperationType::JnbeJa => "JNBE",
            OperationType::JnpJpo => "JNP",
            OperationType::Jno => "JNO",
            OperationType::Jns => "JNS",
            OperationType::Loop => "LOOP",
            OperationType::LoopzLoope => "LOOPZ",
            OperationType::LoopnzLoopne => "LOOPNZ",
            OperationType::Jcxz => "JCXZ",
            OperationType::Int => "INT",
            OperationType::Into => "INTO",
            OperationType::Iret => "IRET",
            OperationType::Clc => "CLC",
            OperationType::Cmc => "CMC",
            OperationType::Stc => "STC",
            OperationType::Cld => "CLD",
            OperationType::Std => "STD",
            OperationType::Cli => "CLI",
            OperationType::Sti => "STI",
            OperationType::Hlt => "HLT",
            OperationType::Wait => "WAIT",
            OperationType::Esc => "ESC",
            OperationType::Lock => "LOCK",
        }
    }
}

/// The shape of an operand slot: absent, a register named by the `reg`
/// field, an immediate, an effective address (or, for `mod = 11`, the
/// register named by `r/m`), or a segment register named by `reg`.
#[derive(Clone, Copy, Debug, PartialEq, Eq, Structural)]
pub enum OperandType {
    Absent,
    Reg,
    Imm,
    EA,
    SegReg,
}

/// One decoded instruction: the mnemonic, the raw bytes consumed, the
/// decoded bit fields, and the two operand tags the executor reads.
///
/// Unused fields stay at their neutral defaults, and the operand tags say
/// which fields are live.
#[derive(Clone, Debug)]
pub struct Operation {
    /// Byte position of the opcode within the text segment.
    pub pos: usize,
    pub operation_type: OperationType,
    /// Exactly the bytes the decoder consumed for this instruction.
    pub raws: Vec<u8>,
    pub d: u8,
    pub w: u8,
    pub s: u8,
    pub z: u8,
    pub v: u8,
    pub mod_rm: u8,
    pub rm: u8,
    pub reg: u8,
    /// Immediate operand, already sign-extended to 16 bits when `s = 1`.
    pub data: u16,
    pub port: u8,
    /// Displacement bytes, or the immediate of `RET imm16`.
    pub disp: u16,
    pub int_type: u8,
    pub rep_operation_type: OperationType,
    pub first: OperandType,
    pub second: OperandType,
}

impl Operation {
    /// Structural bounds that every decoded instruction satisfies.
    pub open spec fn wf(self) -> bool {
        &&& self.raws@.len() >= 1
        &&& self.pos + self.raws@.len() <= 0x10000
        &&& self.d < 2
        &&& self.w < 2
        &&& self.s < 2
        &&& self.z < 2
        &&& self.v < 2
        &&& self.mod_rm < 4
        &&& self.rm < 8
        &&& self.reg < 8
        &&& (self.first == OperandType::SegReg ==> self.reg < 4)
        &&& (self.second == OperandType::SegReg ==> self.reg < 4)
    }

    /// The byte position of the next instruction.
    pub open spec fn spec_next_pos(self) -> int {
        self.pos + self.raws@.len()
    }

    pub fn new() -> (r: Operation)
        ensures
            r.pos == 0,
            r.operation_type == OperationType::Undefined,
            r.raws@ == Seq::<u8>::empty(),
            r.d == 0 && r.w == 1 && r.s == 0 && r.z == 0 && r.v == 0,
            r.mod_rm == 0 && r.rm == 0 && r.reg == 0,
            r.data == 0 && r.port == 0 && r.disp == 0 && r.int_type == 0,
            r.rep_operation_type == OperationType::Undefined,
            r.first == OperandType::Absent,
            r.second == OperandType::Absent,
    {
        Operation {
            pos: 0,
            operation_type: OperationType::Undefined,
            raws: Vec::new(),
            d: 0,
            w: 1,
            s: 0,
            z: 0,
            v: 0,
            mod_rm: 0,
            rm: 0,
            reg: 0,
            data: 0,
            port: 0,
            disp: 0,
            int_type: 0,
            rep_operation_type: OperationType::Undefined,
            first: OperandType::Absent,
            second: OperandType::Absent,
        }
    }

    /// Splits a `mod/reg/r/m` byte into its three fields.
    pub fn set_mod_reg_rm(&mut self, mod_reg_rm: u8)
        ensures
            *final(self) == (Operation {
                mod_rm: (mod_reg_rm / 64) % 4,
                reg: (mod_reg_rm / 8) % 8,
                rm: mod_reg_rm % 8,
                ..*old(self)
            }),
            final(self).mod_rm < 4,
            final(self).reg < 8,
            final(self).rm < 8,
    {
        self.mod_rm = (mod_reg_rm / 64) % 4;
        self.reg = (mod_reg_rm / 8) % 8;
        self.rm = mod_reg_rm % 8;
    }

    /// The byte position just past this instruction: where decoding of the
    /// next instruction starts, and what IP is set to before execution.
    pub fn get_next_operation_pos(&self) -> (r: usize)
        requires
            self.pos + self.raws@.len() <= usize::MAX,
        ensures
            r == self.spec_next_pos(),
    {
        self.pos + self.raws.len()
    }

    /// The operand register named by the `reg` field at width `w`.
    pub fn get_register(&self) -> (r: RegisterType)
        requires
            self.reg < 8,
            self.w < 2,
        ensures
            r == RegisterType::from_bits(self.reg, self.w),
    {
        RegisterType::new(self.reg, self.w)
    }
}

} // verus!
