use vstd::prelude::*;
use vstd::arithmetic::div_mod::lemma_fundamental_div_mod_converse;

verus! {

/// The 8086 register file: eight general registers with byte/word aliasing
/// for AX/CX/DX/BX, four segment registers, and the instruction pointer.
///
/// The four aliased words are stored as low/high byte pairs so that the
/// invariant "a byte write never disturbs the paired byte" is structural.
#[derive(Clone, Copy, Debug, PartialEq, Eq, Structural)]
pub struct Register {
    // General purpose registers, byte-aliased pairs
    pub al: u8,
    pub ah: u8,
    pub cl: u8,
    pub ch: u8,
    pub dl: u8,
    pub dh: u8,
    pub bl: u8,
    pub bh: u8,

    // 16-bit registers
    pub sp: u16,
    pub bp: u16,
    pub si: u16,
    pub di: u16,

    // Segment registers
    pub es: u16,
    pub cs: u16,
    pub ss: u16,
    pub ds: u16,

    // Instruction pointer
    pub ip: u16,
}

#[derive(Clone, Copy, Debug, PartialEq, Eq, Structural)]
pub enum Register16Bit {
    AX,
    CX,
    DX,
    BX,
    SP,
    BP,
    SI,
    DI,
}

#[derive(Clone, Copy, Debug, PartialEq, Eq, Structural)]
pub enum Register8Bit {
    AL,
    CL,
    DL,
    BL,
    AH,
    CH,
    DH,
    BH,
}

#[derive(Clone, Copy, Debug, PartialEq, Eq, Structural)]
pub enum SegmentRegister {
    ES,
    CS,
    SS,
    DS,
}

/// An operand register: a 16-bit word register, an 8-bit half register, or a
/// segment register.
#[derive(Clone, Copy, Debug, PartialEq, Eq, Structural)]
pub enum RegisterType {
    Word(Register16Bit),
    Byte(Register8Bit),
    Segment(SegmentRegister),
}

impl Register16Bit {
    /// The register named by a 3-bit `reg`/`r/m` field when `w = 1`.
    pub open spec fn spec_from_u8(value: u8) -> Register16Bit {
        if value == 0 {
            Register16Bit::AX
        } else if value == 1 {
            Register16Bit::CX
        } else if value == 2 {
            Register16Bit::DX
        } else if value == 3 {
            Register16Bit::BX
        } else if value == 4 {
            Register16Bit::SP
        } else if value == 5 {
            Register16Bit::BP
        } else if value == 6 {
            Register16Bit::SI
        } else {
            Register16Bit::DI
        }
    }

    pub fn from_u8(value: u8) -> (r: Register16Bit)
        requires
            value < 8,
        ensures
            r == Register16Bit::spec_from_u8(value),
    {
        match value {
            0 => Register16Bit::AX,
            1 => Register16Bit::CX,
            2 => Register16Bit::DX,
            3 => Register16Bit::BX,
            4 => Register16Bit::SP,
            5 => Register16Bit::BP,
            6 => Register16Bit::SI,
            _ => Register16Bit::DI,
        }
    }
}

impl Register8Bit {
    /// The register named by a 3-bit `reg`/`r/m` field when `w = 0`.
    pub open spec fn spec_from_u8(value: u8) -> Register8Bit {
        if value == 0 {
            Register8Bit::AL
        } else if value == 1 {
            Register8Bit::CL
        } else if value == 2 {
            Register8Bit::DL
        } else if value == 3 {
            Register8Bit::BL
        } else if value == 4 {
            Register8Bit::AH
        } else if value == 5 {
            Register8Bit::CH
        } else if value == 6 {
            Register8Bit::DH
        } else {
            Register8Bit::BH
        }
    }

    pub fn from_u8(value: u8) -> (r: Register8Bit)
        requires
            value < 8,
        ensures
            r == Register8Bit::spec_from_u8(value),
    {
        match value {
            0 => Register8Bit::AL,
            1 => Register8Bit::CL,
            2 => Register8Bit::DL,
            3 => Register8Bit::BL,
            4 => Register8Bit::AH,
            5 => Register8Bit::CH,
            6 => Register8Bit::DH,
            _ => Register8Bit::BH,
        }
    }
}

impl SegmentRegister {
    pub open spec fn spec_from_u8(value: u8) -> SegmentRegister {
        if value == 0 {
            SegmentRegister::ES
        } else if value == 1 {
            SegmentRegister::CS
        } else if value == 2 {
            SegmentRegister::SS
        } else {
            SegmentRegister::DS
        }
    }

    pub fn from_u8(value: u8) -> (r: SegmentRegister)
        requires
            value < 4,
        ensures
            r == SegmentRegister::spec_from_u8(value),
    {
        match value {
            0 => SegmentRegister::ES,
            1 => SegmentRegister::CS,
            2 => SegmentRegister::SS,
            _ => SegmentRegister::DS,
        }
    }
}

impl RegisterType {
    /// The operand register selected by a 3-bit field and the `w` bit.
    pub open spec fn from_bits(reg: u8, w: u8) -> RegisterType {
        if w == 0 {
            RegisterType::Byte(Register8Bit::spec_from_u8(reg))
        } else {
            RegisterType::Word(Register16Bit::spec_from_u8(reg))
        }
    }

    pub fn new(reg: u8, w: u8) -> (r: RegisterType)
        requires
            reg < 8,
            w < 2,
        ensures
            r == RegisterType::from_bits(reg, w),
    {
        if w == 0 {
            RegisterType::Byte(Register8Bit::from_u8(reg))
        } else {
            RegisterType::Word(Register16Bit::from_u8(reg))
        }
    }
}

impl Register {
    /// The aliased words, seen as 16-bit values.
    pub open spec fn ax(self) -> u16 {
        (self.al + 256 * self.ah) as u16
    }

    pub open spec fn cx(self) -> u16 {
        (self.cl + 256 * self.ch) as u16
    }

    pub open spec fn dx(self) -> u16 {
        (self.dl + 256 * self.dh) as u16
    }

    pub open spec fn bx(self) -> u16 {
        (self.bl + 256 * self.bh) as u16
    }

    /// The value of a word register.
    pub open spec fn word_value(self, r: Register16Bit) -> u16 {
        match r {
            Register16Bit::AX => self.ax(),
            Register16Bit::CX => self.cx(),
            Register16Bit::DX => self.dx(),
            Register16Bit::BX => self.bx(),
            Register16Bit::SP => self.sp,
            Register16Bit::BP => self.bp,
            Register16Bit::SI => self.si,
            Register16Bit::DI => self.di,
        }
    }

    /// The value of a byte register.
    pub open spec fn byte_value(self, r: Register8Bit) -> u8 {
        match r {
            Register8Bit::AL => self.al,
            Register8Bit::CL => self.cl,
            Register8Bit::DL => self.dl,
            Register8Bit::BL => self.bl,
            Register8Bit::AH => self.ah,
            Register8Bit::CH => self.ch,
            Register8Bit::DH => self.dh,
            Register8Bit::BH => self.bh,
        }
    }

    pub open spec fn segment_value(self, r: SegmentRegister) -> u16 {
        match r {
            SegmentRegister::ES => self.es,
            SegmentRegister::CS => self.cs,
            SegmentRegister::SS => self.ss,
            SegmentRegister::DS => self.ds,
        }
    }

    /// The value read from any operand register; byte reads widen to 16 bits.
    pub open spec fn value_of(self, reg: RegisterType) -> u16 {
        match reg {
            RegisterType::Word(r) => self.word_value(r),
            RegisterType::Byte(r) => self.byte_value(r) as u16,
            RegisterType::Segment(r) => self.segment_value(r),
        }
    }

    /// The register file after writing `value` to `reg`: a byte write takes
    /// the low byte of `value` and leaves the paired byte alone; a word write
    /// overwrites both bytes of the pair. The instruction pointer is never an
    /// operand register, so it is always preserved.
    pub open spec fn spec_set(self, reg: RegisterType, value: u16) -> Register {
        match reg {
            RegisterType::Word(r) => match r {
                Register16Bit::AX => Register {
                    al: (value % 256) as u8,
                    ah: (value / 256) as u8,
                    ..self
                },
                Register16Bit::CX => Register {
                    cl: (value % 256) as u8,
                    ch: (value / 256) as u8,
                    ..self
                },
                Register16Bit::DX => Register {
                    dl: (value % 256) as u8,
                    dh: (value / 256) as u8,
                    ..self
                },
                Register16Bit::BX => Register {
                    bl: (value % 256) as u8,
                    bh: (value / 256) as u8,
                    ..self
                },
                Register16Bit::SP => Register { sp: value, ..self },
                Register16Bit::BP => Register { bp: value, ..self },
                Register16Bit::SI => Register { si: value, ..self },
                Register16Bit::DI => Register { di: value, ..self },
            },
            RegisterType::Byte(r) => match r {
                Register8Bit::AL => Register { al: (value % 256) as u8, ..self },
                Register8Bit::CL => Register { cl: (value % 256) as u8, ..self },
                Register8Bit::DL => Register { dl: (value % 256) as u8, ..self },
                Register8Bit::BL => Register { bl: (value % 256) as u8, ..self },
                Register8Bit::AH => Register { ah: (value % 256) as u8, ..self },
                Register8Bit::CH => Register { ch: (value % 256) as u8, ..self },
                Register8Bit::DH => Register { dh: (value % 256) as u8, ..self },
                Register8Bit::BH => Register { bh: (value % 256) as u8, ..self },
            },
            RegisterType::Segment(r) => match r {
                SegmentRegister::ES => Register { es: value, ..self },
                SegmentRegister::CS => Register { cs: value, ..self },
                SegmentRegister::SS => Register { ss: value, ..self },
                SegmentRegister::DS => Register { ds: value, ..self },
            },
        }
    }

    pub fn new() -> (r: Register)
        ensures
            r.al == 0 && r.ah == 0 && r.cl == 0 && r.ch == 0,
            r.dl == 0 && r.dh == 0 && r.bl == 0 && r.bh == 0,
            r.sp == 0 && r.bp == 0 && r.si == 0 && r.di == 0,
            r.es == 0 && r.cs == 0 && r.ss == 0 && r.ds == 0,
            r.ip == 0,
    {
        Register {
            al: 0,
            ah: 0,
            cl: 0,
            ch: 0,
            dl: 0,
            dh: 0,
            bl: 0,
            bh: 0,
            sp: 0,
            bp: 0,
            si: 0,
            di: 0,
            es: 0,
            cs: 0,
            ss: 0,
            ds: 0,
            ip: 0,
        }
    }

    pub fn get(&self, reg: RegisterType) -> (r: u16)
        ensures
            r == self.value_of(reg),
    {
        match reg {
            RegisterType::Word(r) => match r {
                Register16Bit::AX => self.get_ax(),
                Register16Bit::CX => self.get_cx(),
                Register16Bit::DX => self.get_dx(),
                Register16Bit::BX => self.get_bx(),
                Register16Bit::SP => self.sp,
                Register16Bit::BP => self.bp,
                Register16Bit::SI => self.si,
                Register16Bit::DI => self.di,
            },
            RegisterType::Byte(r) => (match r {
                Register8Bit::AL => self.al,
                Register8Bit::CL => self.cl,
                Register8Bit::DL => self.dl,
                Register8Bit::BL => self.bl,
                Register8Bit::AH => self.ah,
                Register8Bit::CH => self.ch,
                Register8Bit::DH => self.dh,
                Register8Bit::BH => self.bh,
            }) as u16,
            RegisterType::Segment(seg) => match seg {
                SegmentRegister::ES => self.es,
                SegmentRegister::CS => self.cs,
                SegmentRegister::SS => self.ss,
                SegmentRegister::DS => self.ds,
            },
        }
    }

    /// Writes an operand register. A byte write leaves the paired byte of
    /// the aliased word untouched (for each of the AL/AH, CL/CH, DL/DH,
    /// BL/BH pairs), and no write through an operand register reaches `ip`.
    pub fn set(&mut self, reg: RegisterType, value: u16)
        ensures
            *final(self) == old(self).spec_set(reg, value),
            final(self).ip == old(self).ip,
            reg == RegisterType::Byte(Register8Bit::AL) ==> final(self).ah == old(self).ah,
            reg == RegisterType::Byte(Register8Bit::AH) ==> final(self).al == old(self).al,
            reg == RegisterType::Byte(Register8Bit::CL) ==> final(self).ch == old(self).ch,
            reg == RegisterType::Byte(Register8Bit::CH) ==> final(self).cl == old(self).cl,
            reg == RegisterType::Byte(Register8Bit::DL) ==> final(self).dh == old(self).dh,
            reg == RegisterType::Byte(Register8Bit::DH) ==> final(self).dl == old(self).dl,
            reg == RegisterType::Byte(Register8Bit::BL) ==> final(self).bh == old(self).bh,
            reg == RegisterType::Byte(Register8Bit::BH) ==> final(self).bl == old(self).bl,
    {
        match reg {
            RegisterType::Word(r) => match r {
                Register16Bit::AX => self.set_ax(value),
                Register16Bit::CX => self.set_cx(value),
                Register16Bit::DX => self.set_dx(value),
                Register16Bit::BX => self.set_bx(value),
                Register16Bit::SP => self.sp = value,
                Register16Bit::BP => self.bp = value,
                Register16Bit::SI => self.si = value,
                Register16Bit::DI => self.di = value,
            },
            RegisterType::Byte(r) => {
                let byte: u8 = (value % 256) as u8;
                match r {
                    Register8Bit::AL => self.al = byte,
                    Register8Bit::CL => self.cl = byte,
                    Register8Bit::DL => self.dl = byte,
                    Register8Bit::BL => self.bl = byte,
                    Register8Bit::AH => self.ah = byte,
                    Register8Bit::CH => self.ch = byte,
                    Register8Bit::DH => self.dh = byte,
                    Register8Bit::BH => self.bh = byte,
                }
            },
            RegisterType::Segment(seg) => match seg {
                SegmentRegister::ES => self.es = value,
                SegmentRegister::CS => self.cs = value,
                SegmentRegister::SS => self.ss = value,
                SegmentRegister::DS => self.ds = value,
            },
        }
    }

    pub fn get_ax(&self) -> (r: u16)
        ensures
            r == self.ax(),
    {
        (self.al as u16) + 256 * (self.ah as u16)
    }

    pub fn set_ax(&mut self, value: u16)
        ensures
            *final(self) == (Register {
                al: (value % 256) as u8,
                ah: (value / 256) as u8,
                ..*old(self)
            }),
            final(self).ax() == value,
    {
        self.al = (value % 256) as u8;
        self.ah = (value / 256) as u8;
    }

    pub fn get_cx(&self) -> (r: u16)
        ensures
            r == self.cx(),
    {
        (self.cl as u16) + 256 * (self.ch as u16)
    }

    pub fn set_cx(&mut self, value: u16)
        ensures
            *final(self) == (Register {
                cl: (value % 256) as u8,
                ch: (value / 256) as u8,
                ..*old(self)
            }),
            final(self).cx() == value,
    {
        self.cl = (value % 256) as u8;
        self.ch = (value / 256) as u8;
    }

    pub fn get_dx(&self) -> (r: u16)
        ensures
            r == self.dx(),
    {
        (self.dl as u16) + 256 * (self.dh as u16)
    }

    pub fn set_dx(&mut self, value: u16)
        ensures
            *final(self) == (Register {
                dl: (value % 256) as u8,
                dh: (value / 256) as u8,
                ..*old(self)
            }),
            final(self).dx() == value,
    {
        self.dl = (value % 256) as u8;
        self.dh = (value / 256) as u8;
    }

    pub fn get_bx(&self) -> (r: u16)
        ensures
            r == self.bx(),
    {
        (self.bl as u16) + 256 * (self.bh as u16)
    }

    pub fn set_bx(&mut self, value: u16)
        ensures
            *final(self) == (Register {
                bl: (value % 256) as u8,
                bh: (value / 256) as u8,
                ..*old(self)
            }),
            final(self).bx() == value,
    {
        self.bl = (value % 256) as u8;
        self.bh = (value / 256) as u8;
    }
}

impl Register16Bit {
    pub fn name(&self) -> &'static str {
        match self {
            Register16Bit::AX => "AX",
            Register16Bit::CX => "CX",
            Register16Bit::DX => "DX",
            Register16Bit::BX => "BX",
            Register16Bit::SP => "SP",
            Register16Bit::BP => "BP",
            Register16Bit::SI => "SI",
            Register16Bit::DI => "DI",
        }
    }
}

impl Register8Bit {
    pub fn name(&self) -> &'static str {
        match self {
            Register8Bit::AL => "AL",
            Register8Bit::CL => "CL",
            Register8Bit::DL => "DL",
            Register8Bit::BL => "BL",
            Register8Bit::AH => "AH",
            Register8Bit::CH => "CH",
            Register8Bit::DH => "DH",
            Register8Bit::BH => "BH",
        }
    }
}

impl SegmentRegister {
    pub fn name(&self) -> &'static str {
        match self {
            SegmentRegister::ES => "ES",
            SegmentRegister::CS => "CS",
            SegmentRegister::SS => "SS",
            SegmentRegister::DS => "DS",
        }
    }
}

impl RegisterType {
    pub fn name(&self) -> &'static str {
        match self {
            RegisterType::Word(r) => r.name(),
            RegisterType::Byte(r) => r.name(),
            RegisterType::Segment(r) => r.name(),
        }
    }
}

/// The printed name of each register, as bytes.
pub open spec fn reg16_name_seq(r: Register16Bit) -> Seq<u8> {
    match r {
            Register16Bit::AX => seq![0x41u8, 0x58u8],
            Register16Bit::CX => seq![0x43u8, 0x58u8],
            Register16Bit::DX => seq![0x44u8, 0x58u8],
            Register16Bit::BX => seq![0x42u8, 0x58u8],
            Register16Bit::SP => seq![0x53u8, 0x50u8],
            Register16Bit::BP => seq![0x42u8, 0x50u8],
            Register16Bit::SI => seq![0x53u8, 0x49u8],
            Register16Bit::DI => seq![0x44u8, 0x49u8],
    }
}

/// The printed name of each byte register, as bytes.
pub open spec fn reg8_name_seq(r: Register8Bit) -> Seq<u8> {
    match r {
            Register8Bit::AL => seq![0x41u8, 0x4cu8],
            Register8Bit::CL => seq![0x43u8, 0x4cu8],
            Register8Bit::DL => seq![0x44u8, 0x4cu8],
            Register8Bit::BL => seq![0x42u8, 0x4cu8],
            Register8Bit::AH => seq![0x41u8, 0x48u8],
            Register8Bit::CH => seq![0x43u8, 0x48u8],
            Register8Bit::DH => seq![0x44u8, 0x48u8],
            Register8Bit::BH => seq![0x42u8, 0x48u8],
    }
}

/// The printed name of each segment register, as bytes.
pub open spec fn seg_name_seq(r: SegmentRegister) -> Seq<u8> {
    match r {
            SegmentRegister::ES => seq![0x45u8, 0x53u8],
            SegmentRegister::CS => seq![0x43u8, 0x53u8],
            SegmentRegister::SS => seq![0x53u8, 0x53u8],
            SegmentRegister::DS => seq![0x44u8, 0x53u8],
    }
}

/// The printed name of an operand register, as bytes.
pub open spec fn reg_name_seq(t: RegisterType) -> Seq<u8> {
    match t {
        RegisterType::Word(r) => reg16_name_seq(r),
        RegisterType::Byte(r) => reg8_name_seq(r),
        RegisterType::Segment(r) => seg_name_seq(r),
    }
}

/// The base-register text of a memory effective address, as bytes.
pub open spec fn ea_base_seq(rm: u8) -> Seq<u8> {
    if rm == 0 {
        seq![0x42u8, 0x58u8, 0x2bu8, 0x53u8, 0x49u8]
    } else if rm == 1 {
        seq![0x42u8, 0x58u8, 0x2bu8, 0x44u8, 0x49u8]
    } else if rm == 2 {
        seq![0x42u8, 0x50u8, 0x2bu8, 0x53u8, 0x49u8]
    } else if rm == 3 {
        seq![0x42u8, 0x50u8, 0x2bu8, 0x44u8, 0x49u8]
    } else if rm == 4 {
        seq![0x53u8, 0x49u8]
    } else if rm == 5 {
        seq![0x44u8, 0x49u8]
    } else if rm == 6 {
        seq![0x42u8, 0x50u8]
    } else {
        seq![0x42u8, 0x58u8]
    }
}

/// The rendered effective-address text: a bare register name for
/// `mod = 11`; otherwise brackets around an absolute displacement, a bare
/// base, or a base plus or minus an unsigned hex displacement.
pub open spec fn ea_text_seq(rm: u8, mod_rm: u8, disp: u16, w: u8) -> Seq<u8> {
    if mod_rm == 3 {
        reg_name_seq(RegisterType::from_bits(rm, w))
    } else if mod_rm == 0 && rm == 6 {
        seq![0x5bu8] + crate::dump::hex4_seq(disp) + seq![0x5du8]
    } else if mod_rm == 0 {
        seq![0x5bu8] + ea_base_seq(rm) + seq![0x5du8]
    } else if mod_rm == 1 {
        if disp % 256 < 0x80 {
            seq![0x5bu8] + ea_base_seq(rm) + seq![0x2bu8] + crate::dump::hex_var_seq(disp % 256)
                + seq![0x5du8]
        } else {
            seq![0x5bu8] + ea_base_seq(rm) + seq![0x2du8] + crate::dump::hex_var_seq(
                (0x100 - disp % 256) as u16,
            ) + seq![0x5du8]
        }
    } else {
        if disp < 0x8000 {
            seq![0x5bu8] + ea_base_seq(rm) + seq![0x2bu8] + crate::dump::hex_var_seq(disp)
                + seq![0x5du8]
        } else {
            seq![0x5bu8] + ea_base_seq(rm) + seq![0x2du8] + crate::dump::hex_var_seq(
                ((0xffff - disp) + 1) as u16,
            ) + seq![0x5du8]
        }
    }
}

/// Appends an operand register's printed name.
pub fn push_reg_name(out: &mut Vec<u8>, t: RegisterType)
    ensures
        final(out)@ == old(out)@ + reg_name_seq(t),
{
    match t {
        RegisterType::Word(Register16Bit::AX) => {
            out.push(0x41);
            out.push(0x58);
        },
        RegisterType::Word(Register16Bit::CX) => {
            out.push(0x43);
            out.push(0x58);
        },
        RegisterType::Word(Register16Bit::DX) => {
            out.push(0x44);
            out.push(0x58);
        },
        RegisterType::Word(Register16Bit::BX) => {
            out.push(0x42);
            out.push(0x58);
        },
        RegisterType::Word(Register16Bit::SP) => {
            out.push(0x53);
            out.push(0x50);
        },
        RegisterType::Word(Register16Bit::BP) => {
            out.push(0x42);
            out.push(0x50);
        },
        RegisterType::Word(Register16Bit::SI) => {
            out.push(0x53);
            out.push(0x49);
        },
        RegisterType::Word(Register16Bit::DI) => {
            out.push(0x44);
            out.push(0x49);
        },
        RegisterType::Byte(Register8Bit::AL) => {
            out.push(0x41);
            out.push(0x4c);
        },
        RegisterType::Byte(Register8Bit::CL) => {
            out.push(0x43);
            out.push(0x4c);
        },
        RegisterType::Byte(Register8Bit::DL) => {
            out.push(0x44);
            out.push(0x4c);
        },
        RegisterType::Byte(Register8Bit::BL) => {
            out.push(0x42);
            out.push(0x4c);
        },
        RegisterType::Byte(Register8Bit::AH) => {
            out.push(0x41);
            out.push(0x48);
        },
        RegisterType::Byte(Register8Bit::CH) => {
            out.push(0x43);
            out.push(0x48);
        },
        RegisterType::Byte(Register8Bit::DH) => {
            out.push(0x44);
            out.push(0x48);
        },
        RegisterType::Byte(Register8Bit::BH) => {
            out.push(0x42);
            out.push(0x48);
        },
        RegisterType::Segment(SegmentRegister::ES) => {
            out.push(0x45);
            out.push(0x53);
        },
        RegisterType::Segment(SegmentRegister::CS) => {
            out.push(0x43);
            out.push(0x53);
        },
        RegisterType::Segment(SegmentRegister::SS) => {
            out.push(0x53);
            out.push(0x53);
        },
        RegisterType::Segment(SegmentRegister::DS) => {
            out.push(0x44);
            out.push(0x53);
        },
    }
    proof {
        assert(final(out)@ =~= old(out)@ + reg_name_seq(t));
    }
}

/// Appends the base-register text of a memory effective address.
pub fn push_ea_base(out: &mut Vec<u8>, rm: u8)
    requires
        rm < 8,
    ensures
        final(out)@ == old(out)@ + ea_base_seq(rm),
{
    if rm == 0 {
        out.push(0x42);
        out.push(0x58);
        out.push(0x2b);
        out.push(0x53);
        out.push(0x49);
    } else if rm == 1 {
        out.push(0x42);
        out.push(0x58);
        out.push(0x2b);
        out.push(0x44);
        out.push(0x49);
    } else if rm == 2 {
        out.push(0x42);
        out.push(0x50);
        out.push(0x2b);
        out.push(0x53);
        out.push(0x49);
    } else if rm == 3 {
        out.push(0x42);
        out.push(0x50);
        out.push(0x2b);
        out.push(0x44);
        out.push(0x49);
    } else if rm == 4 {
        out.push(0x53);
        out.push(0x49);
    } else if rm == 5 {
        out.push(0x44);
        out.push(0x49);
    } else if rm == 6 {
        out.push(0x42);
        out.push(0x50);
    } else {
        out.push(0x42);
        out.push(0x58);
    }
    proof {
        assert(final(out)@ =~= old(out)@ + ea_base_seq(rm));
    }
}

/// The assembly rendering of an effective-address operand: `[BX+SI]`,
/// `[BP+n]`, `[BP-n]`, `[absolute]`, or a bare register name for `mod = 11`.
pub fn effective_address(rm: u8, mod_rm: u8, disp: u16, w: u8) -> (r: Vec<u8>)
    requires
        rm < 8,
        mod_rm < 4,
        w < 2,
    ensures
        r@ == ea_text_seq(rm, mod_rm, disp, w),
{
    let mut out: Vec<u8> = Vec::new();
    if mod_rm == 3 {
        push_reg_name(&mut out, RegisterType::new(rm, w));
        proof {
            assert(out@ =~= ea_text_seq(rm, mod_rm, disp, w));
        }
        return out;
    }
    out.push(0x5b);  // '['
    if mod_rm == 0 {
        if rm == 6 {
            crate::dump::push_hex4(&mut out, disp);
        } else {
            push_ea_base(&mut out, rm);
        }
    } else if mod_rm == 1 {
        // One displacement byte, sign-extended
        let b: u16 = disp % 256;
        push_ea_base(&mut out, rm);
        if b < 0x80 {
            out.push(0x2b);  // '+'
            crate::dump::push_hex_var(&mut out, b);
        } else {
            out.push(0x2d);  // '-'
            crate::dump::push_hex_var(&mut out, 0x100 - b);
        }
    } else {
        // Two displacement bytes, signed
        push_ea_base(&mut out, rm);
        if disp < 0x8000 {
            out.push(0x2b);  // '+'
            crate::dump::push_hex_var(&mut out, disp);
        } else {
            out.push(0x2d);  // '-'
            crate::dump::push_hex_var(&mut out, (0xffffu16 - disp) + 1);
        }
    }
    out.push(0x5d);  // ']'
    proof {
        assert(out@ =~= ea_text_seq(rm, mod_rm, disp, w));
    }
    out
}

/// The signed displacement of a relative branch, read from the stored
/// 16-bit field: the low byte sign-extended for short forms, the whole word
/// for near forms.
pub open spec fn branch_displacement(disp: u16, is_2byte_disp: bool) -> int {
    if is_2byte_disp {
        crate::alu::as_signed(disp as int, 1)
    } else {
        crate::alu::as_signed((disp % 256) as int, 0)
    }
}

/// The target of a relative control transfer: the position just past the
/// instruction plus the signed displacement, modulo 2^16.
pub open spec fn spec_relative_disp(offset: int, disp: u16, is_2byte_disp: bool) -> u16 {
    ((offset + branch_displacement(disp, is_2byte_disp)) % 0x10000) as u16
}

/// Resolves a relative branch target from the position of the following
/// instruction and the raw displacement field.
pub fn calc_relative_disp(offset: usize, disp: u16, is_2byte_disp: bool) -> (r: u16)
    requires
        offset <= 0x10000,
    ensures
        r == spec_relative_disp(offset as int, disp, is_2byte_disp),
{
    let s: i32 = if is_2byte_disp {
        if disp >= 0x8000 {
            (disp as i32) - 0x10000
        } else {
            disp as i32
        }
    } else {
        let b: u16 = disp % 256;
        if b >= 0x80 {
            (b as i32) - 0x100
        } else {
            b as i32
        }
    };
    let sum: i32 = (offset as i32) + s;
    let wrapped: i32 = if sum < 0 {
        sum + 0x10000
    } else if sum >= 0x10000 {
        sum - 0x10000
    } else {
        sum
    };
    proof {
        let q: int = if sum < 0 {
            -1
        } else if sum >= 0x10000 {
            1
        } else {
            0
        };
        lemma_fundamental_div_mod_converse(sum as int, 0x10000, q, wrapped as int);
    }
    wrapped as u16
}

/// Writing a word register and reading it back yields the written value,
/// and leaves SP alone unless SP itself was the target.
pub proof fn lemma_word_set_get(r: Register, t: Register16Bit, v: u16)
    ensures
        r.spec_set(RegisterType::Word(t), v).value_of(RegisterType::Word(t)) == v,
        t != Register16Bit::SP ==> r.spec_set(RegisterType::Word(t), v).sp == r.sp,
{
}

/// A byte-write to a half register never disturbs the paired half, for every
/// starting register file and every written value; word writes to the same
/// pair overwrite both halves.
pub proof fn lemma_byte_write_preserves_partner(r: Register, v: u16)
    ensures
        r.spec_set(RegisterType::Byte(Register8Bit::AL), v).ah == r.ah,
        r.spec_set(RegisterType::Byte(Register8Bit::AH), v).al == r.al,
        r.spec_set(RegisterType::Byte(Register8Bit::CL), v).ch == r.ch,
        r.spec_set(RegisterType::Byte(Register8Bit::CH), v).cl == r.cl,
        r.spec_set(RegisterType::Byte(Register8Bit::DL), v).dh == r.dh,
        r.spec_set(RegisterType::Byte(Register8Bit::DH), v).dl == r.dl,
        r.spec_set(RegisterType::Byte(Register8Bit::BL), v).bh == r.bh,
        r.spec_set(RegisterType::Byte(Register8Bit::BH), v).bl == r.bl,
{
}

} // verus!
