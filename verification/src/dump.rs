use vstd::prelude::*;
use crate::flag::Flag;
use crate::operation::{Operation, OperationType};
use crate::register::{
    calc_relative_disp, effective_address, Register, Register8Bit, RegisterType, SegmentRegister,
};

verus! {

/// The ASCII byte of one lower-case hex digit.
pub open spec fn hex_digit_seq(d: int) -> u8 {
    if d < 10 {
        (0x30 + d) as u8
    } else {
        (0x57 + d) as u8
    }
}

/// The two zero-padded hex digits of a byte.
pub open spec fn hex2_seq(v: u8) -> Seq<u8> {
    seq![hex_digit_seq(v as int / 16), hex_digit_seq(v as int % 16)]
}

/// The four zero-padded hex digits of a word.
pub open spec fn hex4_seq(v: u16) -> Seq<u8> {
    seq![
        hex_digit_seq((v as int / 0x1000) % 16),
        hex_digit_seq((v as int / 0x100) % 16),
        hex_digit_seq((v as int / 0x10) % 16),
        hex_digit_seq(v as int % 16),
    ]
}

/// The hex digits of a word without leading zeros (a bare `0` for zero).
pub open spec fn hex_var_seq(v: u16) -> Seq<u8> {
    let d3: Seq<u8> = if v >= 0x1000 {
        seq![hex_digit_seq((v as int / 0x1000) % 16)]
    } else {
        Seq::empty()
    };
    let d2: Seq<u8> = if v >= 0x100 {
        seq![hex_digit_seq((v as int / 0x100) % 16)]
    } else {
        Seq::empty()
    };
    let d1: Seq<u8> = if v >= 0x10 {
        seq![hex_digit_seq((v as int / 0x10) % 16)]
    } else {
        Seq::empty()
    };
    d3 + d2 + d1 + seq![hex_digit_seq(v as int % 16)]
}

/// `post` is `pre` with zero or more bytes appended.
pub open spec fn appends_to(pre: Seq<u8>, post: Seq<u8>) -> bool {
    &&& post.len() >= pre.len()
    &&& forall|i: int| 0 <= i < pre.len() ==> post[i] == pre[i]
}

/// Appends the UTF-8 bytes of a literal to the buffer.
pub fn push_str_bytes(out: &mut Vec<u8>, s: &str)
    ensures
        appends_to(old(out)@, final(out)@),
{
    let bytes: &[u8] = s.as_bytes();
    let mut i: usize = 0;
    while i < bytes.len()
        invariant
            appends_to(old(out)@, out@),
        decreases bytes@.len() - i,
    {
        let b: u8 = bytes[i];
        out.push(b);
        i = i + 1;
    }
}

/// One lower-case hex digit.
pub fn hex_digit(d: u8) -> (r: u8)
    requires
        d < 16,
    ensures
        d < 10 ==> r == 0x30 + d,
        d >= 10 ==> r == 0x57 + d,
{
    if d < 10 {
        0x30 + d  // '0'..'9'
    } else {
        0x57 + d  // 'a'..'f'
    }
}

/// Two hex digits, zero-padded.
pub fn push_hex2(out: &mut Vec<u8>, v: u8)
    ensures
        appends_to(old(out)@, final(out)@),
        final(out)@ == old(out)@ + hex2_seq(v),
{
    out.push(hex_digit(v / 16));
    out.push(hex_digit(v % 16));
    proof {
        assert(final(out)@ =~= old(out)@ + hex2_seq(v));
    }
}

/// Four hex digits, zero-padded.
pub fn push_hex4(out: &mut Vec<u8>, v: u16)
    ensures
        appends_to(old(out)@, final(out)@),
        final(out)@ == old(out)@ + hex4_seq(v),
{
    out.push(hex_digit(((v / 0x1000) % 16) as u8));
    out.push(hex_digit(((v / 0x100) % 16) as u8));
    out.push(hex_digit(((v / 0x10) % 16) as u8));
    out.push(hex_digit((v % 16) as u8));
    proof {
        assert(final(out)@ =~= old(out)@ + hex4_seq(v));
    }
}

/// Hex digits without leading zeros (a bare `0` for zero).
pub fn push_hex_var(out: &mut Vec<u8>, v: u16)
    ensures
        appends_to(old(out)@, final(out)@),
        final(out)@ == old(out)@ + hex_var_seq(v),
{
    if v >= 0x1000 {
        out.push(hex_digit(((v / 0x1000) % 16) as u8));
    }
    if v >= 0x100 {
        out.push(hex_digit(((v / 0x100) % 16) as u8));
    }
    if v >= 0x10 {
        out.push(hex_digit(((v / 0x10) % 16) as u8));
    }
    out.push(hex_digit((v % 16) as u8));
    proof {
        assert(final(out)@ =~= old(out)@ + hex_var_seq(v));
    }
}

/// Decimal digits without leading zeros.
pub fn push_dec(out: &mut Vec<u8>, v: u16)
    ensures
        appends_to(old(out)@, final(out)@),
{
    if v >= 10000 {
        out.push(0x30 + ((v / 10000) % 10) as u8);
    }
    if v >= 1000 {
        out.push(0x30 + ((v / 1000) % 10) as u8);
    }
    if v >= 100 {
        out.push(0x30 + ((v / 100) % 10) as u8);
    }
    if v >= 10 {
        out.push(0x30 + ((v / 10) % 10) as u8);
    }
    out.push(0x30 + (v % 10) as u8);
}

/// The printed mnemonic of each operation, as bytes.
pub open spec fn mnemonic_seq(t: OperationType) -> Seq<u8> {
    match t {
        OperationType::Undefined => seq![0x28u8, 0x75u8, 0x6eu8, 0x64u8, 0x65u8, 0x66u8, 0x69u8, 0x6eu8, 0x65u8, 0x64u8, 0x29u8],
        OperationType::Mov => seq![0x4du8, 0x4fu8, 0x56u8],
        OperationType::Push => seq![0x50u8, 0x55u8, 0x53u8, 0x48u8],
        OperationType::Pop => seq![0x50u8, 0x4fu8, 0x50u8],
        OperationType::Xchg => seq![0x58u8, 0x43u8, 0x48u8, 0x47u8],
        OperationType::In => seq![0x49u8, 0x4eu8],
        OperationType::Out => seq![0x4fu8, 0x55u8, 0x54u8],
        OperationType::Xlat => seq![0x58u8, 0x4cu8, 0x41u8, 0x54u8],
        OperationType::Lea => seq![0x4cu8, 0x45u8, 0x41u8],
        OperationType::Lds => seq![0x4cu8, 0x44u8, 0x53u8],
        OperationType::Les => seq![0x4cu8, 0x45u8, 0x53u8],
        OperationType::Lahf => seq![0x4cu8, 0x41u8, 0x48u8, 0x46u8],
        OperationType::Sahf => seq![0x53u8, 0x41u8, 0x48u8, 0x46u8],
        OperationType::Pushf => seq![0x50u8, 0x55u8, 0x53u8, 0x48u8, 0x46u8],
        OperationType::Popf => seq![0x50u8, 0x4fu8, 0x50u8, 0x46u8],
        OperationType::Add => seq![0x41u8, 0x44u8, 0x44u8],
        OperationType::Adc => seq![0x41u8, 0x44u8, 0x43u8],
        OperationType::Inc => seq![0x49u8, 0x4eu8, 0x43u8],
        OperationType::Aaa => seq![0x41u8, 0x41u8, 0x41u8],
        OperationType::Baa => seq![0x42u8, 0x41u8, 0x41u8],
        OperationType::Sub => seq![0x53u8, 0x55u8, 0x42u8],
        OperationType::Sbb => seq![0x53u8, 0x42u8, 0x42u8],
        OperationType::Dec => seq![0x44u8, 0x45u8, 0x43u8],
        OperationType::Neg => seq![0x4eu8, 0x45u8, 0x47u8],
        OperationType::Cmp => seq![0x43u8, 0x4du8, 0x50u8],
        OperationType::Aas => seq![0x41u8, 0x41u8, 0x53u8],
        OperationType::Das => seq![0x44u8, 0x41u8, 0x53u8],
        OperationType::Mul => seq![0x4du8, 0x55u8, 0x4cu8],
        OperationType::Imul => seq![0x49u8, 0x4du8, 0x55u8, 0x4cu8],
        OperationType::Aam => seq![0x41u8, 0x41u8, 0x4du8],
        OperationType::Div => seq![0x44u8, 0x49u8, 0x56u8],
        OperationType::Idiv => seq![0x49u8, 0x44u8, 0x49u8, 0x56u8],
        OperationType::Aad => seq![0x41u8, 0x41u8, 0x44u8],
        OperationType::Cbw => seq![0x43u8, 0x42u8, 0x57u8],
        OperationType::Cwd => seq![0x43u8, 0x57u8, 0x44u8],
        OperationType::Not => seq![0x4eu8, 0x4fu8, 0x54u8],
        OperationType::ShlSal => seq![0x53u8, 0x48u8, 0x4cu8],
        OperationType::Shr => seq![0x53u8, 0x48u8, 0x52u8],
        OperationType::Sar => seq![0x53u8, 0x41u8, 0x52u8],
        OperationType::Rol => seq![0x52u8, 0x4fu8, 0x4cu8],
        OperationType::Ror => seq![0x52u8, 0x4fu8, 0x52u8],
        OperationType::Rcl => seq![0x52u8, 0x43u8, 0x4cu8],
        OperationType::Rcr => seq![0x52u8, 0x43u8, 0x52u8],
        OperationType::And => seq![0x41u8, 0x4eu8, 0x44u8],
        OperationType::Test => seq![0x54u8, 0x45u8, 0x53u8, 0x54u8],
        OperationType::Or => seq![0x4fu8, 0x52u8],
        OperationType::Xor => seq![0x58u8, 0x4fu8, 0x52u8],
        OperationType::Rep => seq![0x52u8, 0x45u8, 0x50u8],
        OperationType::Movs => seq![0x4du8, 0x4fu8, 0x56u8, 0x53u8],
        OperationType::Cmps => seq![0x43u8, 0x4du8, 0x50u8, 0x53u8],
        OperationType::Scas => seq![0x53u8, 0x43u8, 0x41u8, 0x53u8],
        OperationType::Lods => seq![0x4cu8, 0x4fu8, 0x44u8, 0x53u8],
        OperationType::Stos => seq![0x53u8, 0x54u8, 0x4fu8, 0x53u8],
        OperationType::Call => seq![0x43u8, 0x41u8, 0x4cu8, 0x4cu8],
        OperationType::Jmp => seq![0x4au8, 0x4du8, 0x50u8],
        OperationType::Ret => seq![0x52u8, 0x45u8, 0x54u8],
        OperationType::JeJz => seq![0x4au8, 0x45u8],
        OperationType::JlJnge => seq![0x4au8, 0x4cu8],
        OperationType::JleJng => seq![0x4au8, 0x4cu8, 0x45u8],
        OperationType::JbJnae => seq![0x4au8, 0x42u8],
        OperationType::JbeJna => seq![0x4au8, 0x42u8, 0x45u8],
        OperationType::JpJpe => seq![0x4au8, 0x50u8],
        OperationType::Jo => seq![0x4au8, 0x4fu8],
        OperationType::Js => seq![0x4au8, 0x53u8],
        OperationType::JneJnz => seq![0x4au8, 0x4eu8, 0x45u8],
        OperationType::JnlJge => seq![0x4au8, 0x4eu8, 0x4cu8],
        OperationType::JnleJg => seq![0x4au8, 0x4eu8, 0x4cu8, 0x45u8],
        OperationType::JnbJae => seq![0x4au8, 0x4eu8, 0x42u8],
        OperationType::JnbeJa => seq![0x4au8, 0x4eu8, 0x42u8, 0x45u8],
        OperationType::JnpJpo => seq![0x4au8, 0x4eu8, 0x50u8],
        OperationType::Jno => seq![0x4au8, 0x4eu8, 0x4fu8],
        OperationType::Jns => seq![0x4au8, 0x4eu8, 0x53u8],
        OperationType::Loop => seq![0x4cu8, 0x4fu8, 0x4fu8, 0x50u8],
        OperationType::LoopzLoope => seq![0x4cu8, 0x4fu8, 0x4fu8, 0x50u8, 0x5au8],
        OperationType::LoopnzLoopne => seq![0x4cu8, 0x4fu8, 0x4fu8, 0x50u8, 0x4eu8, 0x5au8],
        OperationType::Jcxz => seq![0x4au8, 0x43u8, 0x58u8, 0x5au8],
        OperationType::Int => seq![0x49u8, 0x4eu8, 0x54u8],
        OperationType::Into => seq![0x49u8, 0x4eu8, 0x54u8, 0x4fu8],
        OperationType::Iret => seq![0x49u8, 0x52u8, 0x45u8, 0x54u8],
        OperationType::Clc => seq![0x43u8, 0x4cu8, 0x43u8],
        OperationType::Cmc => seq![0x43u8, 0x4du8, 0x43u8],
        OperationType::Stc => seq![0x53u8, 0x54u8, 0x43u8],
        OperationType::Cld => seq![0x43u8, 0x4cu8, 0x44u8],
        OperationType::Std => seq![0x53u8, 0x54u8, 0x44u8],
        OperationType::Cli => seq![0x43u8, 0x4cu8, 0x49u8],
        OperationType::Sti => seq![0x53u8, 0x54u8, 0x49u8],
        OperationType::Hlt => seq![0x48u8, 0x4cu8, 0x54u8],
        OperationType::Wait => seq![0x57u8, 0x41u8, 0x49u8, 0x54u8],
        OperationType::Esc => seq![0x45u8, 0x53u8, 0x43u8],
        OperationType::Lock => seq![0x4cu8, 0x4fu8, 0x43u8, 0x4bu8],
    }
}

/// The `B`/`W` width suffix of the string instructions, empty elsewhere.
pub open spec fn width_suffix_seq(t: OperationType, w: u8) -> Seq<u8> {
    match t {
        OperationType::Movs
        | OperationType::Cmps
        | OperationType::Scas
        | OperationType::Lods
        | OperationType::Stos => if w == 0 {
            seq![0x42u8]
        } else {
            seq![0x57u8]
        },
        _ => Seq::empty(),
    }
}

/// The mnemonic with its width suffix.
pub open spec fn type_seq(t: OperationType, w: u8) -> Seq<u8> {
    mnemonic_seq(t) + width_suffix_seq(t, w)
}

/// The concatenated two-digit hex renderings of a byte sequence.
pub open spec fn raw_hex_seq(raws: Seq<u8>) -> Seq<u8>
    decreases raws.len(),
{
    if raws.len() == 0 {
        Seq::empty()
    } else {
        raw_hex_seq(raws.drop_last()) + hex2_seq(raws.last())
    }
}

/// `n` spaces (none when `n` is not positive).
pub open spec fn pad_seq(n: int) -> Seq<u8>
    decreases n,
{
    if n <= 0 {
        Seq::empty()
    } else {
        pad_seq(n - 1) + seq![0x20u8]
    }
}

/// The line prefix of a rendered instruction: four hex digits of the
/// position, a colon and space, the raw bytes in hex padded to a fixed
/// column, then the mnemonic.
pub open spec fn op_info_seq(op: Operation) -> Seq<u8> {
    hex4_seq((op.pos % 0x10000) as u16) + seq![0x3au8, 0x20u8] + raw_hex_seq(op.raws@) + pad_seq(
        14 - 2 * op.raws@.len(),
    ) + type_seq(op.operation_type, op.w)
}

/// Appends the printed mnemonic of an operation.
#[verifier::rlimit(100)]
pub fn push_mnemonic(out: &mut Vec<u8>, t: OperationType)
    ensures
        final(out)@ == old(out)@ + mnemonic_seq(t),
{
    match t {
        OperationType::Undefined => {
            out.push(0x28);
            out.push(0x75);
            out.push(0x6e);
            out.push(0x64);
            out.push(0x65);
            out.push(0x66);
            out.push(0x69);
            out.push(0x6e);
            out.push(0x65);
            out.push(0x64);
            out.push(0x29);
        },
        OperationType::Mov => {
            out.push(0x4d);
            out.push(0x4f);
            out.push(0x56);
        },
        OperationType::Push => {
            out.push(0x50);
            out.push(0x55);
            out.push(0x53);
            out.push(0x48);
        },
        OperationType::Pop => {
            out.push(0x50);
            out.push(0x4f);
            out.push(0x50);
        },
        OperationType::Xchg => {
            out.push(0x58);
            out.push(0x43);
            out.push(0x48);
            out.push(0x47);
        },
        OperationType::In => {
            out.push(0x49);
            out.push(0x4e);
        },
        OperationType::Out => {
            out.push(0x4f);
            out.push(0x55);
            out.push(0x54);
        },
        OperationType::Xlat => {
            out.push(0x58);
            out.push(0x4c);
            out.push(0x41);
            out.push(0x54);
        },
        OperationType::Lea => {
            out.push(0x4c);
            out.push(0x45);
            out.push(0x41);
        },
        OperationType::Lds => {
            out.push(0x4c);
            out.push(0x44);
            out.push(0x53);
        },
        OperationType::Les => {
            out.push(0x4c);
            out.push(0x45);
            out.push(0x53);
        },
        OperationType::Lahf => {
            out.push(0x4c);
            out.push(0x41);
            out.push(0x48);
            out.push(0x46);
        },
        OperationType::Sahf => {
            out.push(0x53);
            out.push(0x41);
            out.push(0x48);
            out.push(0x46);
        },
        OperationType::Pushf => {
            out.push(0x50);
            out.push(0x55);
            out.push(0x53);
            out.push(0x48);
            out.push(0x46);
        },
        OperationType::Popf => {
            out.push(0x50);
            out.push(0x4f);
            out.push(0x50);
            out.push(0x46);
        },
        OperationType::Add => {
            out.push(0x41);
            out.push(0x44);
            out.push(0x44);
        },
        OperationType::Adc => {
            out.push(0x41);
            out.push(0x44);
            out.push(0x43);
        },
        OperationType::Inc => {
            out.push(0x49);
            out.push(0x4e);
            out.push(0x43);
        },
        OperationType::Aaa => {
            out.push(0x41);
            out.push(0x41);
            out.push(0x41);
        },
        OperationType::Baa => {
            out.push(0x42);
            out.push(0x41);
            out.push(0x41);
        },
        OperationType::Sub => {
            out.push(0x53);
            out.push(0x55);
            out.push(0x42);
        },
        OperationType::Sbb => {
            out.push(0x53);
            out.push(0x42);
            out.push(0x42);
        },
        OperationType::Dec => {
            out.push(0x44);
            out.push(0x45);
            out.push(0x43);
        },
        OperationType::Neg => {
            out.push(0x4e);
            out.push(0x45);
            out.push(0x47);
        },
        OperationType::Cmp => {
            out.push(0x43);
            out.push(0x4d);
            out.push(0x50);
        },
        OperationType::Aas => {
            out.push(0x41);
            out.push(0x41);
            out.push(0x53);
        },
        OperationType::Das => {
            out.push(0x44);
            out.push(0x41);
            out.push(0x53);
        },
        OperationType::Mul => {
            out.push(0x4d);
            out.push(0x55);
            out.push(0x4c);
        },
        OperationType::Imul => {
            out.push(0x49);
            out.push(0x4d);
            out.push(0x55);
            out.push(0x4c);
        },
        OperationType::Aam => {
            out.push(0x41);
            out.push(0x41);
            out.push(0x4d);
        },
        OperationType::Div => {
            out.push(0x44);
            out.push(0x49);
            out.push(0x56);
        },
        OperationType::Idiv => {
            out.push(0x49);
            out.push(0x44);
            out.push(0x49);
            out.push(0x56);
        },
        OperationType::Aad => {
            out.push(0x41);
            out.push(0x41);
            out.push(0x44);
        },
        OperationType::Cbw => {
            out.push(0x43);
            out.push(0x42);
            out.push(0x57);
        },
        OperationType::Cwd => {
            out.push(0x43);
            out.push(0x57);
            out.push(0x44);
        },
        OperationType::Not => {
            out.push(0x4e);
            out.push(0x4f);
            out.push(0x54);
        },
        OperationType::ShlSal => {
            out.push(0x53);
            out.push(0x48);
            out.push(0x4c);
        },
        OperationType::Shr => {
            out.push(0x53);
            out.push(0x48);
            out.push(0x52);
        },
        OperationType::Sar => {
            out.push(0x53);
            out.push(0x41);
            out.push(0x52);
        },
        OperationType::Rol => {
            out.push(0x52);
            out.push(0x4f);
            out.push(0x4c);
        },
        OperationType::Ror => {
            out.push(0x52);
            out.push(0x4f);
            out.push(0x52);
        },
        OperationType::Rcl => {
            out.push(0x52);
            out.push(0x43);
            out.push(0x4c);
        },
        OperationType::Rcr => {
            out.push(0x52);
            out.push(0x43);
            out.push(0x52);
        },
        OperationType::And => {
            out.push(0x41);
            out.push(0x4e);
            out.push(0x44);
        },
        OperationType::Test => {
            out.push(0x54);
            out.push(0x45);
            out.push(0x53);
            out.push(0x54);
        },
        OperationType::Or => {
            out.push(0x4f);
            out.push(0x52);
        },
        OperationType::Xor => {
            out.push(0x58);
            out.push(0x4f);
            out.push(0x52);
        },
        OperationType::Rep => {
            out.push(0x52);
            out.push(0x45);
            out.push(0x50);
        },
        OperationType::Movs => {
            out.push(0x4d);
            out.push(0x4f);
            out.push(0x56);
            out.push(0x53);
        },
        OperationType::Cmps => {
            out.push(0x43);
            out.push(0x4d);
            out.push(0x50);
            out.push(0x53);
        },
        OperationType::Scas => {
            out.push(0x53);
            out.push(0x43);
            out.push(0x41);
            out.push(0x53);
        },
        OperationType::Lods => {
            out.push(0x4c);
            out.push(0x4f);
            out.push(0x44);
            out.push(0x53);
        },
        OperationType::Stos => {
            out.push(0x53);
            out.push(0x54);
            out.push(0x4f);
            out.push(0x53);
        },
        OperationType::Call => {
            out.push(0x43);
            out.push(0x41);
            out.push(0x4c);
            out.push(0x4c);
        },
        OperationType::Jmp => {
            out.push(0x4a);
            out.push(0x4d);
            out.push(0x50);
        },
        OperationType::Ret => {
            out.push(0x52);
            out.push(0x45);
            out.push(0x54);
        },
        OperationType::JeJz => {
            out.push(0x4a);
            out.push(0x45);
        },
        OperationType::JlJnge => {
            out.push(0x4a);
            out.push(0x4c);
        },
        OperationType::JleJng => {
            out.push(0x4a);
            out.push(0x4c);
            out.push(0x45);
        },
        OperationType::JbJnae => {
            out.push(0x4a);
            out.push(0x42);
        },
        OperationType::JbeJna => {
            out.push(0x4a);
            out.push(0x42);
            out.push(0x45);
        },
        OperationType::JpJpe => {
            out.push(0x4a);
            out.push(0x50);
        },
        OperationType::Jo => {
            out.push(0x4a);
            out.push(0x4f);
        },
        OperationType::Js => {
            out.push(0x4a);
            out.push(0x53);
        },
        OperationType::JneJnz => {
            out.push(0x4a);
            out.push(0x4e);
            out.push(0x45);
        },
        OperationType::JnlJge => {
            out.push(0x4a);
            out.push(0x4e);
            out.push(0x4c);
        },
        OperationType::JnleJg => {
            out.push(0x4a);
            out.push(0x4e);
            out.push(0x4c);
            out.push(0x45);
        },
        OperationType::JnbJae => {
            out.push(0x4a);
            out.push(0x4e);
            out.push(0x42);
        },
        OperationType::JnbeJa => {
            out.push(0x4a);
            out.push(0x4e);
            out.push(0x42);
            out.push(0x45);
        },
        OperationType::JnpJpo => {
            out.push(0x4a);
            out.push(0x4e);
            out.push(0x50);
        },
        OperationType::Jno => {
            out.push(0x4a);
            out.push(0x4e);
            out.push(0x4f);
        },
        OperationType::Jns => {
            out.push(0x4a);
            out.push(0x4e);
            out.push(0x53);
        },
        OperationType::Loop => {
            out.push(0x4c);
            out.push(0x4f);
            out.push(0x4f);
            out.push(0x50);
        },
        OperationType::LoopzLoope => {
            out.push(0x4c);
            out.push(0x4f);
            out.push(0x4f);
            out.push(0x50);
            out.push(0x5a);
        },
        OperationType::LoopnzLoopne => {
            out.push(0x4c);
            out.push(0x4f);
            out.push(0x4f);
            out.push(0x50);
            out.push(0x4e);
            out.push(0x5a);
        },
        OperationType::Jcxz => {
            out.push(0x4a);
            out.push(0x43);
            out.push(0x58);
            out.push(0x5a);
        },
        OperationType::Int => {
            out.push(0x49);
            out.push(0x4e);
            out.push(0x54);
        },
        OperationType::Into => {
            out.push(0x49);
            out.push(0x4e);
            out.push(0x54);
            out.push(0x4f);
        },
        OperationType::Iret => {
            out.push(0x49);
            out.push(0x52);
            out.push(0x45);
            out.push(0x54);
        },
        OperationType::Clc => {
            out.push(0x43);
            out.push(0x4c);
            out.push(0x43);
        },
        OperationType::Cmc => {
            out.push(0x43);
            out.push(0x4d);
            out.push(0x43);
        },
        OperationType::Stc => {
            out.push(0x53);
            out.push(0x54);
            out.push(0x43);
        },
        OperationType::Cld => {
            out.push(0x43);
            out.push(0x4c);
            out.push(0x44);
        },
        OperationType::Std => {
            out.push(0x53);
            out.push(0x54);
            out.push(0x44);
        },
        OperationType::Cli => {
            out.push(0x43);
            out.push(0x4c);
            out.push(0x49);
        },
        OperationType::Sti => {
            out.push(0x53);
            out.push(0x54);
            out.push(0x49);
        },
        OperationType::Hlt => {
            out.push(0x48);
            out.push(0x4c);
            out.push(0x54);
        },
        OperationType::Wait => {
            out.push(0x57);
            out.push(0x41);
            out.push(0x49);
            out.push(0x54);
        },
        OperationType::Esc => {
            out.push(0x45);
            out.push(0x53);
            out.push(0x43);
        },
        OperationType::Lock => {
            out.push(0x4c);
            out.push(0x4f);
            out.push(0x43);
            out.push(0x4b);
        },
    }
    proof {
        assert(final(out)@ =~= old(out)@ + mnemonic_seq(t));
    }
}

/// The mnemonic, with a `B`/`W` width suffix for the string instructions.
pub fn dump_type(out: &mut Vec<u8>, op_type: OperationType, w: u8)
    ensures
        appends_to(old(out)@, final(out)@),
        final(out)@ == old(out)@ + type_seq(op_type, w),
{
    push_mnemonic(out, op_type);
    match op_type {
        OperationType::Movs
        | OperationType::Cmps
        | OperationType::Scas
        | OperationType::Lods
        | OperationType::Stos => {
            if w == 0 {
                out.push(0x42);  // 'B'
            } else {
                out.push(0x57);  // 'W'
            }
        },
        _ => {},
    }
    proof {
        assert(final(out)@ =~= old(out)@ + type_seq(op_type, w));
    }
}

/// The line prefix common to every rendered instruction: position, raw
/// bytes padded to a fixed column, then the mnemonic.
pub fn dump_op_info(out: &mut Vec<u8>, op: &Operation)
    requires
        op.wf(),
    ensures
        appends_to(old(out)@, final(out)@),
        final(out)@ == old(out)@ + op_info_seq(*op),
{
    push_hex4(out, (op.pos % 0x10000) as u16);
    out.push(0x3a);  // ':'
    out.push(0x20);  // ' '
    let ghost head = old(out)@ + hex4_seq((op.pos % 0x10000) as u16) + seq![0x3au8, 0x20u8];
    proof {
        assert(out@ =~= head + raw_hex_seq(op.raws@.take(0)));
    }
    let mut i: usize = 0;
    while i < op.raws.len()
        invariant
            i <= op.raws@.len(),
            out@ == head + raw_hex_seq(op.raws@.take(i as int)),
        decreases op.raws@.len() - i,
    {
        push_hex2(out, op.raws[i]);
        proof {
            assert(op.raws@.take(i + 1).drop_last() =~= op.raws@.take(i as int));
            assert(op.raws@.take(i + 1).last() == op.raws@[i as int]);
            assert(out@ =~= head + raw_hex_seq(op.raws@.take(i + 1)));
        }
        i = i + 1;
    }
    proof {
        assert(op.raws@.take(op.raws@.len() as int) =~= op.raws@);
    }
    let ghost mid = head + raw_hex_seq(op.raws@);
    let ghost col0 = 2 * op.raws@.len() as int;
    let mut col: usize = 2 * op.raws.len();
    while col < 14
        invariant
            col0 <= col,
            col <= 14 || col == col0,
            out@ == mid + pad_seq(col - col0),
        decreases 14 - col,
    {
        out.push(0x20);  // ' '
        proof {
            assert(out@ =~= mid + pad_seq(col + 1 - col0));
        }
        col = col + 1;
    }
    proof {
        assert(pad_seq(14 - 2 * op.raws@.len()) =~= pad_seq(col - col0));
    }
    dump_type(out, op.operation_type, op.w);
    proof {
        assert(final(out)@ =~= old(out)@ + op_info_seq(*op));
    }
}

pub fn dump_comma(out: &mut Vec<u8>)
    ensures
        appends_to(old(out)@, final(out)@),
{
    out.push(0x2c);  // ','
    out.push(0x20);  // ' '
}

pub fn dump_space(out: &mut Vec<u8>)
    ensures
        appends_to(old(out)@, final(out)@),
        final(out)@ == old(out)@ + seq![0x20u8],
{
    out.push(0x20);  // ' '
    proof {
        assert(final(out)@ =~= old(out)@ + seq![0x20u8]);
    }
}

pub fn dump_reg(out: &mut Vec<u8>, reg: u8, w: u8)
    requires
        reg < 8,
        w < 2,
    ensures
        appends_to(old(out)@, final(out)@),
        final(out)@ == old(out)@ + crate::register::reg_name_seq(RegisterType::from_bits(reg, w)),
{
    crate::register::push_reg_name(out, RegisterType::new(reg, w));
}

pub fn dump_ea(out: &mut Vec<u8>, op: &Operation)
    requires
        op.wf(),
    ensures
        appends_to(old(out)@, final(out)@),
{
    let mut text: Vec<u8> = effective_address(op.rm, op.mod_rm, op.disp, op.w);
    out.append(&mut text);
}

/// An immediate operand: bare hex for bytes, four zero-padded digits for
/// words, and a signed byte rendering for sign-extended immediates.
pub fn dump_immediate(out: &mut Vec<u8>, op: &Operation)
    requires
        op.wf(),
    ensures
        appends_to(old(out)@, final(out)@),
{
    if op.w == 0 {
        push_hex_var(out, op.data);
    } else if op.s == 0 {
        push_hex4(out, op.data);
    } else {
        let b: u16 = op.data % 256;
        if b < 0x80 {
            push_hex_var(out, b);
        } else {
            out.push(0x2d);  // '-'
            push_hex_var(out, 0x100 - b);
        }
    }
}

pub fn dump_segment_register(out: &mut Vec<u8>, seg_reg: u8)
    requires
        seg_reg < 4,
    ensures
        appends_to(old(out)@, final(out)@),
        final(out)@ == old(out)@ + crate::register::seg_name_seq(
            SegmentRegister::spec_from_u8(seg_reg),
        ),
{
    crate::register::push_reg_name(
        out,
        RegisterType::Segment(SegmentRegister::from_u8(seg_reg)),
    );
}

pub fn dump_absolute_disp(out: &mut Vec<u8>, disp: u16)
    ensures
        appends_to(old(out)@, final(out)@),
{
    push_hex4(out, disp);
}

pub fn dump_relative_disp(out: &mut Vec<u8>, op: &Operation, is_2byte_disp: bool)
    requires
        op.wf(),
    ensures
        appends_to(old(out)@, final(out)@),
        final(out)@ == old(out)@ + hex4_seq(
            crate::register::spec_relative_disp(
                op.pos + op.raws@.len(),
                op.disp,
                is_2byte_disp,
            ),
        ),
{
    let offset: usize = op.get_next_operation_pos();
    push_hex4(out, calc_relative_disp(offset, op.disp, is_2byte_disp));
}

pub fn dump_port(out: &mut Vec<u8>, port: u8)
    ensures
        appends_to(old(out)@, final(out)@),
{
    push_hex2(out, port);
}

pub fn dump_byte(out: &mut Vec<u8>)
    ensures
        appends_to(old(out)@, final(out)@),
{
    push_str_bytes(out, "Byte");
}

pub fn dump_short(out: &mut Vec<u8>)
    ensures
        appends_to(old(out)@, final(out)@),
{
    push_str_bytes(out, "Short");
}

pub fn dump_count(out: &mut Vec<u8>, v: u8)
    requires
        v < 2,
    ensures
        appends_to(old(out)@, final(out)@),
        final(out)@ == old(out)@ + (if v == 0 {
            seq![0x31u8]
        } else {
            crate::register::reg8_name_seq(Register8Bit::CL)
        }),
{
    if v == 0 {
        out.push(0x31);  // '1'
        proof {
            assert(final(out)@ =~= old(out)@ + seq![0x31u8]);
        }
    } else {
        crate::register::push_reg_name(out, RegisterType::Byte(Register8Bit::CL));
    }
}

/// The trace sink: a write-only event log. When disabled every event method
/// is a no-op; the collected bytes are what the host would print.
pub struct Dump {
    pub enabled: bool,
    pub out: Vec<u8>,
}

impl Dump {
    pub fn new(enabled: bool) -> (r: Dump)
        ensures
            r.enabled == enabled,
            r.out@ == Seq::<u8>::empty(),
    {
        Dump { enabled, out: Vec::new() }
    }

    pub fn is_enabled(&self) -> (r: bool)
        ensures
            r == self.enabled,
    {
        self.enabled
    }

    /// Appends raw bytes regardless of the enable flag: the guest's own
    /// output shares the stream with the trace.
    pub fn push_raw(&mut self, bytes: &Vec<u8>, start: usize, end: usize)
        requires
            start <= end <= bytes.len(),
        ensures
            final(self).enabled == old(self).enabled,
            final(self).out@ == old(self).out@ + bytes@.subrange(start as int, end as int),
    {
        let mut i: usize = start;
        while i < end
            invariant
                start <= i <= end <= bytes@.len(),
                self.enabled == old(self).enabled,
                self.out@ == old(self).out@ + bytes@.subrange(start as int, i as int),
            decreases end - i,
        {
            let b: u8 = bytes[i];
            self.out.push(b);
            proof {
                assert(self.out@ =~= old(self).out@ + bytes@.subrange(start as int, i + 1));
            }
            i = i + 1;
        }
        proof {
            assert(self.out@ =~= old(self).out@ + bytes@.subrange(start as int, end as int));
        }
    }

    // --- Rendered operations ---

    pub fn name(&mut self, op: &Operation)
        requires
            op.wf(),
        ensures
            final(self).enabled == old(self).enabled,
            appends_to(old(self).out@, final(self).out@),
            !old(self).enabled ==> *final(self) == *old(self),
    {
        if !self.is_enabled() {
            return ;
        }
        dump_op_info(&mut self.out, op);
    }

    pub fn mov4(&mut self, op: &Operation)
        requires
            op.wf(),
        ensures
            final(self).enabled == old(self).enabled,
            appends_to(old(self).out@, final(self).out@),
            !old(self).enabled ==> *final(self) == *old(self),
    {
        if !self.is_enabled() {
            return ;
        }
        // Memory to accumulator
        dump_op_info(&mut self.out, op);
        dump_space(&mut self.out);
        dump_reg(&mut self.out, 0, op.w);
        dump_comma(&mut self.out);
        dump_ea(&mut self.out, op);
    }

    pub fn mov5(&mut self, op: &Operation)
        requires
            op.wf(),
        ensures
            final(self).enabled == old(self).enabled,
            appends_to(old(self).out@, final(self).out@),
            !old(self).enabled ==> *final(self) == *old(self),
    {
        if !self.is_enabled() {
            return ;
        }
        // Accumulator to memory
        dump_op_info(&mut self.out, op);
        dump_space(&mut self.out);
        dump_ea(&mut self.out, op);
        dump_comma(&mut self.out);
        dump_reg(&mut self.out, 0, op.w);
    }

    pub fn simple_calc1(&mut self, op: &Operation)
        requires
            op.wf(),
        ensures
            final(self).enabled == old(self).enabled,
            appends_to(old(self).out@, final(self).out@),
            !old(self).enabled ==> *final(self) == *old(self),
    {
        if !self.is_enabled() {
            return ;
        }
        // Register/memory with register to either
        dump_op_info(&mut self.out, op);
        dump_space(&mut self.out);
        if op.d == 0 {
            dump_ea(&mut self.out, op);
            dump_comma(&mut self.out);
            dump_reg(&mut self.out, op.reg, op.w);
        } else {
            dump_reg(&mut self.out, op.reg, op.w);
            dump_comma(&mut self.out);
            dump_ea(&mut self.out, op);
        }
    }

    pub fn simple_calc2(&mut self, op: &Operation)
        requires
            op.wf(),
        ensures
            final(self).enabled == old(self).enabled,
            appends_to(old(self).out@, final(self).out@),
            !old(self).enabled ==> *final(self) == *old(self),
    {
        if !self.is_enabled() {
            return ;
        }
        // Immediate to register/memory
        dump_op_info(&mut self.out, op);
        dump_space(&mut self.out);
        if op.mod_rm != 3 && op.w == 0 {
            dump_byte(&mut self.out);
            dump_space(&mut self.out);
        }
        dump_ea(&mut self.out, op);
        dump_comma(&mut self.out);
        dump_immediate(&mut self.out, op);
    }

    pub fn simple_calc3(&mut self, op: &Operation)
        requires
            op.wf(),
        ensures
            final(self).enabled == old(self).enabled,
            appends_to(old(self).out@, final(self).out@),
            !old(self).enabled ==> *final(self) == *old(self),
    {
        if !self.is_enabled() {
            return ;
        }
        // Immediate to accumulator/register
        dump_op_info(&mut self.out, op);
        dump_space(&mut self.out);
        dump_reg(&mut self.out, op.reg, op.w);
        dump_comma(&mut self.out);
        dump_immediate(&mut self.out, op);
    }

    pub fn stack1(&mut self, op: &Operation)
        requires
            op.wf(),
        ensures
            final(self).enabled == old(self).enabled,
            appends_to(old(self).out@, final(self).out@),
            !old(self).enabled ==> *final(self) == *old(self),
    {
        if !self.is_enabled() {
            return ;
        }
        // Register/memory
        dump_op_info(&mut self.out, op);
        dump_space(&mut self.out);
        dump_ea(&mut self.out, op);
    }

    pub fn stack2(&mut self, op: &Operation)
        requires
            op.wf(),
        ensures
            final(self).enabled == old(self).enabled,
            appends_to(old(self).out@, final(self).out@),
            !old(self).enabled ==> *final(self) == *old(self),
            old(self).enabled ==> final(self).out@ == old(self).out@ + op_info_seq(*op)
                + seq![0x20u8] + crate::register::reg_name_seq(RegisterType::from_bits(op.reg, 1)),
    {
        if !self.is_enabled() {
            return ;
        }
        // Register
        dump_op_info(&mut self.out, op);
        dump_space(&mut self.out);
        dump_reg(&mut self.out, op.reg, 1);
        proof {
            assert(self.out@ =~= old(self).out@ + op_info_seq(*op) + seq![0x20u8]
                + crate::register::reg_name_seq(RegisterType::from_bits(op.reg, 1)));
        }
    }

    pub fn stack3(&mut self, op: &Operation)
        requires
            op.wf(),
            op.reg < 4,
        ensures
            final(self).enabled == old(self).enabled,
            appends_to(old(self).out@, final(self).out@),
            !old(self).enabled ==> *final(self) == *old(self),
    {
        if !self.is_enabled() {
            return ;
        }
        // Segment register
        dump_op_info(&mut self.out, op);
        dump_space(&mut self.out);
        dump_segment_register(&mut self.out, op.reg);
    }

    pub fn xchg1(&mut self, op: &Operation)
        requires
            op.wf(),
        ensures
            final(self).enabled == old(self).enabled,
            appends_to(old(self).out@, final(self).out@),
            !old(self).enabled ==> *final(self) == *old(self),
    {
        if !self.is_enabled() {
            return ;
        }
        // Register/memory with register
        dump_op_info(&mut self.out, op);
        dump_space(&mut self.out);
        dump_ea(&mut self.out, op);
        dump_comma(&mut self.out);
        dump_reg(&mut self.out, op.reg, op.w);
    }

    pub fn xchg2(&mut self, op: &Operation)
        requires
            op.wf(),
        ensures
            final(self).enabled == old(self).enabled,
            appends_to(old(self).out@, final(self).out@),
            !old(self).enabled ==> *final(self) == *old(self),
    {
        if !self.is_enabled() {
            return ;
        }
        // Register with accumulator
        dump_op_info(&mut self.out, op);
        dump_space(&mut self.out);
        dump_reg(&mut self.out, op.reg, 1);
        dump_comma(&mut self.out);
        dump_reg(&mut self.out, 0, 1);
    }

    pub fn in1(&mut self, op: &Operation)
        requires
            op.wf(),
        ensures
            final(self).enabled == old(self).enabled,
            appends_to(old(self).out@, final(self).out@),
            !old(self).enabled ==> *final(self) == *old(self),
    {
        if !self.is_enabled() {
            return ;
        }
        // Fixed port
        dump_op_info(&mut self.out, op);
        dump_space(&mut self.out);
        dump_reg(&mut self.out, 0, op.w);
        dump_comma(&mut self.out);
        dump_port(&mut self.out, op.port);
    }

    pub fn in2(&mut self, op: &Operation)
        requires
            op.wf(),
        ensures
            final(self).enabled == old(self).enabled,
            appends_to(old(self).out@, final(self).out@),
            !old(self).enabled ==> *final(self) == *old(self),
    {
        if !self.is_enabled() {
            return ;
        }
        // Variable port, in DX
        dump_op_info(&mut self.out, op);
        dump_space(&mut self.out);
        dump_reg(&mut self.out, 0, op.w);
        dump_comma(&mut self.out);
        dump_reg(&mut self.out, 2, 1);
    }

    pub fn lea(&mut self, op: &Operation)
        requires
            op.wf(),
        ensures
            final(self).enabled == old(self).enabled,
            appends_to(old(self).out@, final(self).out@),
            !old(self).enabled ==> *final(self) == *old(self),
    {
        if !self.is_enabled() {
            return ;
        }
        dump_op_info(&mut self.out, op);
        dump_space(&mut self.out);
        dump_reg(&mut self.out, op.reg, 1);
        dump_comma(&mut self.out);
        dump_ea(&mut self.out, op);
    }

    pub fn inc_dec1(&mut self, op: &Operation)
        requires
            op.wf(),
        ensures
            final(self).enabled == old(self).enabled,
            appends_to(old(self).out@, final(self).out@),
            !old(self).enabled ==> *final(self) == *old(self),
    {
        if !self.is_enabled() {
            return ;
        }
        dump_op_info(&mut self.out, op);
        dump_space(&mut self.out);
        dump_ea(&mut self.out, op);
    }

    pub fn inc_dec2(&mut self, op: &Operation)
        requires
            op.wf(),
        ensures
            final(self).enabled == old(self).enabled,
            appends_to(old(self).out@, final(self).out@),
            !old(self).enabled ==> *final(self) == *old(self),
    {
        if !self.is_enabled() {
            return ;
        }
        dump_op_info(&mut self.out, op);
        dump_space(&mut self.out);
        dump_reg(&mut self.out, op.reg, op.w);
    }

    pub fn complicate_calc(&mut self, op: &Operation)
        requires
            op.wf(),
        ensures
            final(self).enabled == old(self).enabled,
            appends_to(old(self).out@, final(self).out@),
            !old(self).enabled ==> *final(self) == *old(self),
    {
        if !self.is_enabled() {
            return ;
        }
        dump_op_info(&mut self.out, op);
        dump_space(&mut self.out);
        dump_ea(&mut self.out, op);
    }

    pub fn bit_op1(&mut self, op: &Operation)
        requires
            op.wf(),
        ensures
            final(self).enabled == old(self).enabled,
            appends_to(old(self).out@, final(self).out@),
            !old(self).enabled ==> *final(self) == *old(self),
    {
        if !self.is_enabled() {
            return ;
        }
        dump_op_info(&mut self.out, op);
        dump_space(&mut self.out);
        if op.d == 0 {
            dump_ea(&mut self.out, op);
            dump_comma(&mut self.out);
            dump_reg(&mut self.out, op.reg, op.w);
        } else {
            dump_reg(&mut self.out, op.reg, op.w);
            dump_comma(&mut self.out);
            dump_ea(&mut self.out, op);
        }
    }

    pub fn bit_op3(&mut self, op: &Operation)
        requires
            op.wf(),
        ensures
            final(self).enabled == old(self).enabled,
            appends_to(old(self).out@, final(self).out@),
            !old(self).enabled ==> *final(self) == *old(self),
    {
        if !self.is_enabled() {
            return ;
        }
        dump_op_info(&mut self.out, op);
        dump_space(&mut self.out);
        dump_reg(&mut self.out, op.reg, op.w);
        dump_comma(&mut self.out);
        dump_immediate(&mut self.out, op);
    }

    pub fn rep(&mut self, op: &Operation)
        requires
            op.wf(),
        ensures
            final(self).enabled == old(self).enabled,
            appends_to(old(self).out@, final(self).out@),
            !old(self).enabled ==> *final(self) == *old(self),
            old(self).enabled ==> final(self).out@ == old(self).out@ + op_info_seq(*op)
                + seq![0x20u8] + type_seq(op.rep_operation_type, op.w),
    {
        if !self.is_enabled() {
            return ;
        }
        dump_op_info(&mut self.out, op);
        dump_space(&mut self.out);
        dump_type(&mut self.out, op.rep_operation_type, op.w);
        proof {
            assert(self.out@ =~= old(self).out@ + op_info_seq(*op) + seq![0x20u8] + type_seq(
                op.rep_operation_type,
                op.w,
            ));
        }
    }

    pub fn shift_rotate(&mut self, op: &Operation)
        requires
            op.wf(),
        ensures
            final(self).enabled == old(self).enabled,
            appends_to(old(self).out@, final(self).out@),
            !old(self).enabled ==> *final(self) == *old(self),
    {
        if !self.is_enabled() {
            return ;
        }
        dump_op_info(&mut self.out, op);
        dump_space(&mut self.out);
        dump_ea(&mut self.out, op);
        dump_comma(&mut self.out);
        dump_count(&mut self.out, op.v);
    }

    pub fn test2(&mut self, op: &Operation)
        requires
            op.wf(),
        ensures
            final(self).enabled == old(self).enabled,
            appends_to(old(self).out@, final(self).out@),
            !old(self).enabled ==> *final(self) == *old(self),
    {
        if !self.is_enabled() {
            return ;
        }
        dump_op_info(&mut self.out, op);
        dump_space(&mut self.out);
        if op.w == 0 && op.mod_rm != 3 {
            dump_byte(&mut self.out);
            dump_space(&mut self.out);
        }
        dump_ea(&mut self.out, op);
        dump_comma(&mut self.out);
        dump_immediate(&mut self.out, op);
    }

    pub fn call1(&mut self, op: &Operation)
        requires
            op.wf(),
        ensures
            final(self).enabled == old(self).enabled,
            appends_to(old(self).out@, final(self).out@),
            !old(self).enabled ==> *final(self) == *old(self),
    {
        if !self.is_enabled() {
            return ;
        }
        dump_op_info(&mut self.out, op);
        dump_space(&mut self.out);
        dump_relative_disp(&mut self.out, op, true);
    }

    pub fn jmp1(&mut self, op: &Operation)
        requires
            op.wf(),
        ensures
            final(self).enabled == old(self).enabled,
            appends_to(old(self).out@, final(self).out@),
            !old(self).enabled ==> *final(self) == *old(self),
    {
        if !self.is_enabled() {
            return ;
        }
        dump_op_info(&mut self.out, op);
        dump_space(&mut self.out);
        dump_relative_disp(&mut self.out, op, true);
    }

    pub fn jmp2(&mut self, op: &Operation)
        requires
            op.wf(),
        ensures
            final(self).enabled == old(self).enabled,
            appends_to(old(self).out@, final(self).out@),
            !old(self).enabled ==> *final(self) == *old(self),
    {
        if !self.is_enabled() {
            return ;
        }
        dump_op_info(&mut self.out, op);
        dump_space(&mut self.out);
        dump_short(&mut self.out);
        dump_space(&mut self.out);
        dump_relative_disp(&mut self.out, op, false);
    }

    pub fn ret2(&mut self, op: &Operation)
        requires
            op.wf(),
        ensures
            final(self).enabled == old(self).enabled,
            appends_to(old(self).out@, final(self).out@),
            !old(self).enabled ==> *final(self) == *old(self),
    {
        if !self.is_enabled() {
            return ;
        }
        dump_op_info(&mut self.out, op);
        dump_space(&mut self.out);
        dump_absolute_disp(&mut self.out, op.disp);
    }

    pub fn jump(&mut self, op: &Operation)
        requires
            op.wf(),
        ensures
            final(self).enabled == old(self).enabled,
            appends_to(old(self).out@, final(self).out@),
            !old(self).enabled ==> *final(self) == *old(self),
            old(self).enabled ==> final(self).out@ == old(self).out@ + op_info_seq(*op)
                + seq![0x20u8] + hex4_seq(
                crate::register::spec_relative_disp(op.pos + op.raws@.len(), op.disp, false),
            ),
    {
        if !self.is_enabled() {
            return ;
        }
        dump_op_info(&mut self.out, op);
        dump_space(&mut self.out);
        dump_relative_disp(&mut self.out, op, false);
        proof {
            assert(self.out@ =~= old(self).out@ + op_info_seq(*op) + seq![0x20u8] + hex4_seq(
                crate::register::spec_relative_disp(op.pos + op.raws@.len(), op.disp, false),
            ));
        }
    }

    pub fn loop1(&mut self, op: &Operation)
        requires
            op.wf(),
        ensures
            final(self).enabled == old(self).enabled,
            appends_to(old(self).out@, final(self).out@),
            !old(self).enabled ==> *final(self) == *old(self),
    {
        if !self.is_enabled() {
            return ;
        }
        dump_op_info(&mut self.out, op);
        dump_space(&mut self.out);
        dump_relative_disp(&mut self.out, op, false);
    }

    pub fn int1(&mut self, op: &Operation)
        requires
            op.wf(),
        ensures
            final(self).enabled == old(self).enabled,
            appends_to(old(self).out@, final(self).out@),
            !old(self).enabled ==> *final(self) == *old(self),
    {
        if !self.is_enabled() {
            return ;
        }
        dump_op_info(&mut self.out, op);
        dump_space(&mut self.out);
        push_hex2(&mut self.out, op.int_type);
    }

    pub fn int2(&mut self, op: &Operation)
        requires
            op.wf(),
        ensures
            final(self).enabled == old(self).enabled,
            appends_to(old(self).out@, final(self).out@),
            !old(self).enabled ==> *final(self) == *old(self),
    {
        if !self.is_enabled() {
            return ;
        }
        dump_op_info(&mut self.out, op);
        dump_space(&mut self.out);
        out_push(&mut self.out, 0x33);  // '3'
    }

    pub fn none(&mut self, op: &Operation)
        requires
            op.wf(),
        ensures
            final(self).enabled == old(self).enabled,
            appends_to(old(self).out@, final(self).out@),
            !old(self).enabled ==> *final(self) == *old(self),
            old(self).enabled ==> final(self).out@ == old(self).out@ + op_info_seq(*op),
    {
        if !self.is_enabled() {
            return ;
        }
        dump_op_info(&mut self.out, op);
    }

    // --- Per-step framing and event annotations ---

    pub fn eol(&mut self)
        ensures
            final(self).enabled == old(self).enabled,
            appends_to(old(self).out@, final(self).out@),
            !old(self).enabled ==> *final(self) == *old(self),
    {
        if !self.is_enabled() {
            return ;
        }
        out_push(&mut self.out, 0x0a);  // '\n'
    }

    pub fn labels(&mut self)
        ensures
            final(self).enabled == old(self).enabled,
            appends_to(old(self).out@, final(self).out@),
            !old(self).enabled ==> *final(self) == *old(self),
    {
        if !self.is_enabled() {
            return ;
        }
        push_str_bytes(&mut self.out, " AX   BX   CX   DX   SP   BP   SI   DI  FLAGS IP\n");
    }

    /// The per-step snapshot of registers and flags that precedes the
    /// rendered instruction.
    pub fn state(&mut self, reg: &Register, flags: &Flag)
        ensures
            final(self).enabled == old(self).enabled,
            appends_to(old(self).out@, final(self).out@),
            !old(self).enabled ==> *final(self) == *old(self),
    {
        if !self.is_enabled() {
            return ;
        }
        push_hex4(&mut self.out, reg.get_ax());
        dump_space(&mut self.out);
        push_hex4(&mut self.out, reg.get_bx());
        dump_space(&mut self.out);
        push_hex4(&mut self.out, reg.get_cx());
        dump_space(&mut self.out);
        push_hex4(&mut self.out, reg.get_dx());
        dump_space(&mut self.out);
        push_hex4(&mut self.out, reg.sp);
        dump_space(&mut self.out);
        push_hex4(&mut self.out, reg.bp);
        dump_space(&mut self.out);
        push_hex4(&mut self.out, reg.si);
        dump_space(&mut self.out);
        push_hex4(&mut self.out, reg.di);
        dump_space(&mut self.out);
        let mut rendered: Vec<u8> = flags.render();
        self.out.append(&mut rendered);
        dump_space(&mut self.out);
    }

    /// A memory read: ` ;[addr]value`.
    pub fn address_value(&mut self, addr: usize, value: u16)
        requires
            addr < 0x10000,
        ensures
            final(self).enabled == old(self).enabled,
            appends_to(old(self).out@, final(self).out@),
            !old(self).enabled ==> *final(self) == *old(self),
    {
        if !self.is_enabled() {
            return ;
        }
        push_str_bytes(&mut self.out, " ;[");
        push_hex4(&mut self.out, addr as u16);
        out_push(&mut self.out, 0x5d);  // ']'
        push_hex4(&mut self.out, value);
    }

    /// A memory write: ` ;[addr]old->new`.
    pub fn address_value_change(&mut self, addr: usize, prev_value: u16, new_value: u16)
        requires
            addr < 0x10000,
        ensures
            final(self).enabled == old(self).enabled,
            appends_to(old(self).out@, final(self).out@),
            !old(self).enabled ==> *final(self) == *old(self),
    {
        if !self.is_enabled() {
            return ;
        }
        push_str_bytes(&mut self.out, " ;[");
        push_hex4(&mut self.out, addr as u16);
        out_push(&mut self.out, 0x5d);  // ']'
        push_hex4(&mut self.out, prev_value);
        push_str_bytes(&mut self.out, "->");
        push_hex4(&mut self.out, new_value);
    }

    pub fn write(&mut self, fd: u16, addr: usize, len: u16)
        requires
            addr < 0x10000,
        ensures
            final(self).enabled == old(self).enabled,
            appends_to(old(self).out@, final(self).out@),
            !old(self).enabled ==> *final(self) == *old(self),
    {
        if !self.is_enabled() {
            return ;
        }
        push_str_bytes(&mut self.out, "\n<write(fd=");
        push_dec(&mut self.out, fd);
        push_str_bytes(&mut self.out, ", addr=0x");
        push_hex4(&mut self.out, addr as u16);
        push_str_bytes(&mut self.out, ", len=");
        push_dec(&mut self.out, len);
        push_str_bytes(&mut self.out, ")>");
    }

    pub fn exit(&mut self, status: u16)
        ensures
            final(self).enabled == old(self).enabled,
            appends_to(old(self).out@, final(self).out@),
            !old(self).enabled ==> *final(self) == *old(self),
    {
        if !self.is_enabled() {
            return ;
        }
        push_str_bytes(&mut self.out, "\n<exit(");
        push_dec(&mut self.out, status);
        push_str_bytes(&mut self.out, ")>\n");
    }

    pub fn ioctl(&mut self, fd: u16, req: u16, addr: u16)
        ensures
            final(self).enabled == old(self).enabled,
            appends_to(old(self).out@, final(self).out@),
            !old(self).enabled ==> *final(self) == *old(self),
    {
        if !self.is_enabled() {
            return ;
        }
        push_str_bytes(&mut self.out, "\n<ioctl(fd=");
        push_dec(&mut self.out, fd);
        push_str_bytes(&mut self.out, ", req=0x");
        push_hex4(&mut self.out, req);
        push_str_bytes(&mut self.out, ", addr=0x");
        push_hex4(&mut self.out, addr);
        push_str_bytes(&mut self.out, ")>");
    }

    pub fn brk(&mut self, addr: u16, ok: bool)
        ensures
            final(self).enabled == old(self).enabled,
            appends_to(old(self).out@, final(self).out@),
            !old(self).enabled ==> *final(self) == *old(self),
    {
        if !self.is_enabled() {
            return ;
        }
        push_str_bytes(&mut self.out, "\n<brk(0x");
        push_hex4(&mut self.out, addr);
        push_str_bytes(&mut self.out, ") => ");
        if ok {
            push_str_bytes(&mut self.out, "0>");
        } else {
            push_str_bytes(&mut self.out, "ENOMEM>");
        }
    }
}

/// A single appended byte, with the append stated the same way as for the
/// other helpers.
fn out_push(out: &mut Vec<u8>, b: u8)
    ensures
        appends_to(old(out)@, final(out)@),
{
    out.push(b);
}

} // verus!
