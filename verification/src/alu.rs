use vstd::prelude::*;
use vstd::arithmetic::power2::{pow2, lemma2_to64, lemma_pow2_adds};
use vstd::arithmetic::div_mod::{lemma_fundamental_div_mod, lemma_fundamental_div_mod_converse};
use crate::flag::Flag;

verus! {

// ---------------------------------------------------------------------------
// Width handling
//
// Every arithmetic handler works either on bytes (`w = 0`) or words
// (`w = 1`). The spec functions below take the raw 16-bit operand and the
// width bit, reduce the operand to its width, and state results and flags in
// plain integer arithmetic: the flag word of an operation is a function of
// its operands alone.
// ---------------------------------------------------------------------------

/// The modulus of the operand width: 0x100 for bytes, 0x10000 for words.
pub open spec fn width_mask(w: u8) -> int {
    if w == 0 {
        0x100
    } else {
        0x10000
    }
}

/// The number of value bits of the operand width.
pub open spec fn width_bits(w: u8) -> nat {
    if w == 0 {
        8
    } else {
        16
    }
}

/// The operand reduced to its width.
pub open spec fn sized(v: u16, w: u8) -> int {
    if w == 0 {
        (v % 256) as int
    } else {
        v as int
    }
}

/// Whether the most significant bit at the given width is set; `v` must
/// already be reduced to the width.
pub open spec fn msb(v: int, w: u8) -> bool {
    v >= width_mask(w) / 2
}

/// The two's-complement reading of a width-reduced value.
pub open spec fn as_signed(v: int, w: u8) -> int {
    if msb(v, w) {
        v - width_mask(w)
    } else {
        v
    }
}

/// The width-reduced pattern of a signed value.
pub open spec fn from_signed(v: int, w: u8) -> u16 {
    (v % width_mask(w)) as u16
}

/// The sign extension of a byte to a word.
pub open spec fn sign_extend8(v: u8) -> u16 {
    if v >= 0x80 {
        (v + 0xff00) as u16
    } else {
        v as u16
    }
}

// ---------------------------------------------------------------------------
// Addition and subtraction
// ---------------------------------------------------------------------------

/// The width-reduced sum.
pub open spec fn add_result(l: u16, r: u16, w: u8) -> u16 {
    ((sized(l, w) + sized(r, w)) % width_mask(w)) as u16
}

/// Flags after an addition: carry is unsigned overflow of the raw width,
/// overflow is disagreement of the signed result with the exact signed sum,
/// sign is the result's top bit, zero is a zero result.
pub open spec fn add_flags(l: u16, r: u16, w: u8) -> Flag {
    let res = (sized(l, w) + sized(r, w)) % width_mask(w);
    Flag {
        carry: sized(l, w) + sized(r, w) >= width_mask(w),
        overflow: as_signed(sized(l, w), w) + as_signed(sized(r, w), w) != as_signed(res, w),
        sign: msb(res, w),
        zero: res == 0,
    }
}

/// The width-reduced difference (wrapping).
pub open spec fn sub_result(l: u16, r: u16, w: u8) -> u16 {
    ((sized(l, w) - sized(r, w)) % width_mask(w)) as u16
}

/// Flags after a subtraction or compare: carry means unsigned borrow
/// (`left < right`), overflow is disagreement of the signed result with the
/// exact signed difference.
pub open spec fn sub_flags(l: u16, r: u16, w: u8) -> Flag {
    let res = (sized(l, w) - sized(r, w)) % width_mask(w);
    Flag {
        carry: sized(l, w) < sized(r, w),
        overflow: as_signed(sized(l, w), w) - as_signed(sized(r, w), w) != as_signed(res, w),
        sign: msb(res, w),
        zero: res == 0,
    }
}

/// Flags after INC: as an addition of 1 but with the carry preserved.
pub open spec fn inc_flags(v: u16, w: u8, carry: bool) -> Flag {
    let res = (sized(v, w) + 1) % width_mask(w);
    Flag {
        carry,
        overflow: sized(v, w) == width_mask(w) / 2 - 1,
        sign: msb(res, w),
        zero: res == 0,
    }
}

/// Flags after DEC: as a subtraction of 1 but with the carry preserved.
pub open spec fn dec_flags(v: u16, w: u8, carry: bool) -> Flag {
    let res = (sized(v, w) - 1) % width_mask(w);
    Flag {
        carry,
        overflow: sized(v, w) == width_mask(w) / 2,
        sign: msb(res, w),
        zero: res == 0,
    }
}

/// The width-reduced two's-complement negation.
pub open spec fn neg_result(v: u16, w: u8) -> u16 {
    ((0 - sized(v, w)) % width_mask(w)) as u16
}

/// Flags after NEG: carry iff the operand was nonzero, overflow iff the
/// operand was the signed minimum.
pub open spec fn neg_flags(v: u16, w: u8) -> Flag {
    let res = (0 - sized(v, w)) % width_mask(w);
    Flag {
        carry: sized(v, w) != 0,
        overflow: sized(v, w) == width_mask(w) / 2,
        sign: msb(res, w),
        zero: res == 0,
    }
}

// ---------------------------------------------------------------------------
// Bitwise logic
// ---------------------------------------------------------------------------

/// Flags after AND/OR/XOR/TEST: carry and overflow cleared, sign and zero
/// from the width-reduced result.
pub open spec fn logic_flags(res: u16, w: u8) -> Flag {
    Flag { carry: false, overflow: false, sign: msb(res as int, w), zero: res == 0 }
}

pub open spec fn and_result(l: u16, r: u16, w: u8) -> u16 {
    if w == 0 {
        (l % 256) & (r % 256)
    } else {
        l & r
    }
}

pub open spec fn or_result(l: u16, r: u16, w: u8) -> u16 {
    if w == 0 {
        (l % 256) | (r % 256)
    } else {
        l | r
    }
}

pub open spec fn xor_result(l: u16, r: u16, w: u8) -> u16 {
    if w == 0 {
        (l % 256) ^ (r % 256)
    } else {
        l ^ r
    }
}

// ---------------------------------------------------------------------------
// Shifts
//
// A shift count of zero leaves both the operand and the flags unchanged;
// the machine handles that case before calling into these.
// ---------------------------------------------------------------------------

/// The width-reduced result of a left shift by `count`.
pub open spec fn shl_result(v: u16, count: nat, w: u8) -> u16 {
    ((sized(v, w) * pow2(count)) % width_mask(w)) as u16
}

/// The last bit shifted out by a left shift: bit `width - count` of the
/// operand while the count stays within the width, and zero afterwards.
pub open spec fn shl_carry(v: u16, count: nat, w: u8) -> bool {
    if 1 <= count <= width_bits(w) {
        (sized(v, w) / pow2((width_bits(w) - count) as nat) as int) % 2 == 1
    } else {
        false
    }
}

/// Flags after SHL/SAL with a nonzero count: carry is the last bit shifted
/// out; overflow is the top bit of the result disagreeing with the carry.
pub open spec fn shl_flags(v: u16, count: nat, w: u8) -> Flag {
    let res = shl_result(v, count, w);
    Flag {
        carry: shl_carry(v, count, w),
        overflow: msb(res as int, w) != shl_carry(v, count, w),
        sign: msb(res as int, w),
        zero: res == 0,
    }
}

/// The arithmetic right shift: the floor of the signed operand divided by
/// two to the `count`, re-encoded at the width.
pub open spec fn sar_result(v: u16, count: nat, w: u8) -> u16 {
    from_signed(as_signed(sized(v, w), w) / pow2(count) as int, w)
}

/// The last bit shifted out by an arithmetic right shift: bit `count - 1` of
/// the operand while the count stays within the width, and the sign bit
/// afterwards.
pub open spec fn sar_carry(v: u16, count: nat, w: u8) -> bool {
    if 1 <= count <= width_bits(w) {
        (sized(v, w) / pow2((count - 1) as nat) as int) % 2 == 1
    } else {
        msb(sized(v, w), w)
    }
}

/// Flags after SAR with a nonzero count: overflow is cleared (the sign never
/// changes), carry is the last bit shifted out.
pub open spec fn sar_flags(v: u16, count: nat, w: u8) -> Flag {
    let res = sar_result(v, count, w);
    Flag {
        carry: sar_carry(v, count, w),
        overflow: false,
        sign: msb(res as int, w),
        zero: res == 0,
    }
}

// ---------------------------------------------------------------------------
// Executable helpers
// ---------------------------------------------------------------------------

/// Two to the `k`, as a machine word.
pub fn pow2_u32(k: u8) -> (r: u32)
    requires
        k < 32,
    ensures
        r == pow2(k as nat),
{
    proof {
        lemma2_to64();
    }
    let mut r: u32 = 1;
    let mut i: u8 = 0;
    while i < k
        invariant
            i <= k < 32,
            r == pow2(i as nat),
        decreases k - i,
    {
        proof {
            lemma_pow2_adds(i as nat, 1);
            lemma2_to64();
            vstd::arithmetic::power2::lemma_pow2_strictly_increases(i as nat, 32);
        }
        r = r * 2;
        i = i + 1;
    }
    r
}

/// The signed reading of a width-reduced value, as machine arithmetic.
fn signed_of(v: u32, w: u8) -> (r: i32)
    requires
        w < 2,
        v < width_mask(w),
    ensures
        r == as_signed(v as int, w),
{
    let half: u32 = if w == 0 { 0x80 } else { 0x8000 };
    let mask: u32 = if w == 0 { 0x100 } else { 0x10000 };
    if v >= half {
        (v as i32) - (mask as i32)
    } else {
        v as i32
    }
}

/// The operand reduced to its width, as machine arithmetic.
fn sized_of(v: u16, w: u8) -> (r: u32)
    requires
        w < 2,
    ensures
        r == sized(v, w),
        r < width_mask(w),
{
    if w == 0 {
        (v % 256) as u32
    } else {
        v as u32
    }
}

/// ADD at either width: returns the width-reduced result (widened to 16
/// bits) and the four flags.
pub fn alu_add(l: u16, r: u16, w: u8) -> (res: (u16, Flag))
    requires
        w < 2,
    ensures
        res.0 == add_result(l, r, w),
        res.1 == add_flags(l, r, w),
{
    let mask: u32 = if w == 0 { 0x100 } else { 0x10000 };
    let lv: u32 = sized_of(l, w);
    let rv: u32 = sized_of(r, w);
    let sum: u32 = lv + rv;
    let result: u32 = sum % mask;
    let carry: bool = sum >= mask;
    let sign: bool = result >= mask / 2;
    let zero: bool = result == 0;
    let overflow: bool = signed_of(lv, w) + signed_of(rv, w) != signed_of(result, w);
    (result as u16, Flag { carry, overflow, sign, zero })
}

/// SUB/CMP at either width: returns the width-reduced difference and the
/// four flags.
pub fn alu_sub(l: u16, r: u16, w: u8) -> (res: (u16, Flag))
    requires
        w < 2,
    ensures
        res.0 == sub_result(l, r, w),
        res.1 == sub_flags(l, r, w),
{
    let mask: u32 = if w == 0 { 0x100 } else { 0x10000 };
    let lv: u32 = sized_of(l, w);
    let rv: u32 = sized_of(r, w);
    let result: u32 = if lv >= rv {
        lv - rv
    } else {
        mask - (rv - lv)
    };
    proof {
        lemma_fundamental_div_mod_converse(
            lv as int - rv as int,
            mask as int,
            if lv >= rv { 0int } else { -1int },
            result as int,
        );
    }
    let carry: bool = lv < rv;
    let sign: bool = result >= mask / 2;
    let zero: bool = result == 0;
    let overflow: bool = signed_of(lv, w) - signed_of(rv, w) != signed_of(result, w);
    (result as u16, Flag { carry, overflow, sign, zero })
}

/// INC at either width: result plus flags, the carry taken over unchanged.
pub fn alu_inc(v: u16, w: u8, carry: bool) -> (res: (u16, Flag))
    requires
        w < 2,
    ensures
        res.0 == add_result(v, 1, w),
        res.1 == inc_flags(v, w, carry),
{
    let mask: u32 = if w == 0 { 0x100 } else { 0x10000 };
    let vv: u32 = sized_of(v, w);
    let result: u32 = (vv + 1) % mask;
    let overflow: bool = vv == mask / 2 - 1;
    let sign: bool = result >= mask / 2;
    let zero: bool = result == 0;
    (result as u16, Flag { carry, overflow, sign, zero })
}

/// DEC at either width: result plus flags, the carry taken over unchanged.
pub fn alu_dec(v: u16, w: u8, carry: bool) -> (res: (u16, Flag))
    requires
        w < 2,
    ensures
        res.0 == sub_result(v, 1, w),
        res.1 == dec_flags(v, w, carry),
{
    let mask: u32 = if w == 0 { 0x100 } else { 0x10000 };
    let vv: u32 = sized_of(v, w);
    let result: u32 = if vv >= 1 {
        vv - 1
    } else {
        mask - 1
    };
    proof {
        lemma_fundamental_div_mod_converse(
            vv as int - 1,
            mask as int,
            if vv >= 1 { 0int } else { -1int },
            result as int,
        );
    }
    let overflow: bool = vv == mask / 2;
    let sign: bool = result >= mask / 2;
    let zero: bool = result == 0;
    (result as u16, Flag { carry, overflow, sign, zero })
}

/// NEG at either width.
pub fn alu_neg(v: u16, w: u8) -> (res: (u16, Flag))
    requires
        w < 2,
    ensures
        res.0 == neg_result(v, w),
        res.1 == neg_flags(v, w),
{
    let mask: u32 = if w == 0 { 0x100 } else { 0x10000 };
    let vv: u32 = sized_of(v, w);
    let result: u32 = if vv == 0 {
        0
    } else {
        mask - vv
    };
    proof {
        lemma_fundamental_div_mod_converse(
            0int - vv as int,
            mask as int,
            if vv == 0 { 0int } else { -1int },
            result as int,
        );
    }
    let carry: bool = vv != 0;
    let overflow: bool = vv == mask / 2;
    let sign: bool = result >= mask / 2;
    let zero: bool = result == 0;
    (result as u16, Flag { carry, overflow, sign, zero })
}

/// AND at either width, with the logic-op flags.
pub fn alu_and(l: u16, r: u16, w: u8) -> (res: (u16, Flag))
    requires
        w < 2,
    ensures
        res.0 == and_result(l, r, w),
        res.1 == logic_flags(res.0, w),
{
    let result: u16 = if w == 0 {
        let a: u16 = l % 256;
        let b: u16 = r % 256;
        assert((a & b) < 256 && (a & b) <= a) by (bit_vector)
            requires
                a < 256 && b < 256,
        ;
        a & b
    } else {
        l & r
    };
    let sign: bool = if w == 0 {
        result >= 0x80
    } else {
        result >= 0x8000
    };
    (result, Flag { carry: false, overflow: false, sign, zero: result == 0 })
}

/// OR at either width, with the logic-op flags.
pub fn alu_or(l: u16, r: u16, w: u8) -> (res: (u16, Flag))
    requires
        w < 2,
    ensures
        res.0 == or_result(l, r, w),
        res.1 == logic_flags(res.0, w),
{
    let result: u16 = if w == 0 {
        let a: u16 = l % 256;
        let b: u16 = r % 256;
        assert((a | b) < 256) by (bit_vector)
            requires
                a < 256 && b < 256,
        ;
        a | b
    } else {
        l | r
    };
    let sign: bool = if w == 0 {
        result >= 0x80
    } else {
        result >= 0x8000
    };
    (result, Flag { carry: false, overflow: false, sign, zero: result == 0 })
}

/// XOR at either width, with the logic-op flags.
pub fn alu_xor(l: u16, r: u16, w: u8) -> (res: (u16, Flag))
    requires
        w < 2,
    ensures
        res.0 == xor_result(l, r, w),
        res.1 == logic_flags(res.0, w),
{
    let result: u16 = if w == 0 {
        let a: u16 = l % 256;
        let b: u16 = r % 256;
        assert((a ^ b) < 256) by (bit_vector)
            requires
                a < 256 && b < 256,
        ;
        a ^ b
    } else {
        l ^ r
    };
    let sign: bool = if w == 0 {
        result >= 0x80
    } else {
        result >= 0x8000
    };
    (result, Flag { carry: false, overflow: false, sign, zero: result == 0 })
}

/// Quotient rule for a negative dividend: dividing `-n - 1` by `d` floors
/// one below the negated quotient of `n`.
proof fn lemma_floor_neg_div(n: int, d: int)
    requires
        n >= 0,
        d >= 1,
    ensures
        (-n - 1) / d == -1 - n / d,
        (-n - 1) % d == d - 1 - n % d,
{
    lemma_fundamental_div_mod(n, d);
    let q = n / d;
    let r = n % d;
    assert((-1 - q) * d == -d + (-q) * d && d * q == q * d && (-q) * d == -(q * d))
        by (nonlinear_arith);
    lemma_fundamental_div_mod_converse(-n - 1, d, -1 - q, d - 1 - r);
}

/// SHL/SAL at either width for a nonzero count.
pub fn alu_shl(v: u16, count: u8, w: u8) -> (res: (u16, Flag))
    requires
        w < 2,
        1 <= count < 32,
    ensures
        res.0 == shl_result(v, count as nat, w),
        res.1 == shl_flags(v, count as nat, w),
{
    proof {
        lemma2_to64();
    }
    let bits: u8 = if w == 0 { 8 } else { 16 };
    let mask: u32 = if w == 0 { 0x100 } else { 0x10000 };
    let vv: u32 = sized_of(v, w);
    let result: u32;
    let carry: bool;
    if count <= bits {
        let p: u32 = pow2_u32(count);
        proof {
            if (count as nat) < 16 {
                vstd::arithmetic::power2::lemma_pow2_strictly_increases(count as nat, 16);
            }
            assert(vv * p <= 0xffff_ffff) by (nonlinear_arith)
                requires
                    vv < 0x10000 && p <= 0x10000,
            ;
        }
        let shifted: u32 = vv * p;
        result = shifted % mask;
        carry = (vv / pow2_u32(bits - count)) % 2 == 1;
    } else {
        result = 0;
        carry = false;
        proof {
            let rest = (count as nat - width_bits(w)) as nat;
            lemma_pow2_adds(width_bits(w), rest);
            assert(vv * (pow2(width_bits(w)) * pow2(rest)) == (vv * pow2(rest)) * pow2(
                width_bits(w),
            )) by (nonlinear_arith);
            vstd::arithmetic::div_mod::lemma_mod_multiples_basic(
                vv * pow2(rest),
                pow2(width_bits(w)) as int,
            );
        }
    }
    let sign: bool = result >= mask / 2;
    let zero: bool = result == 0;
    let overflow: bool = sign != carry;
    (result as u16, Flag { carry, overflow, sign, zero })
}

/// SAR at either width for a nonzero count.
pub fn alu_sar(v: u16, count: u8, w: u8) -> (res: (u16, Flag))
    requires
        w < 2,
        1 <= count < 32,
    ensures
        res.0 == sar_result(v, count as nat, w),
        res.1 == sar_flags(v, count as nat, w),
{
    proof {
        lemma2_to64();
    }
    let bits: u8 = if w == 0 { 8 } else { 16 };
    let mask: u32 = if w == 0 { 0x100 } else { 0x10000 };
    let vv: u32 = sized_of(v, w);
    let neg: bool = vv >= mask / 2;
    let result: u32;
    if count > bits {
        // Every value bit has been replaced by the sign.
        result = if neg { mask - 1 } else { 0 };
        proof {
            let s = as_signed(vv as int, w);
            let d = pow2(count as nat) as int;
            vstd::arithmetic::power2::lemma_pow2_strictly_increases(width_bits(w), count as nat);
            if neg {
                lemma_floor_neg_div(-s - 1, d);
                lemma_fundamental_div_mod_converse(-s - 1, d, 0int, -s - 1);
                lemma_fundamental_div_mod_converse(-1int, width_mask(w), -1int, width_mask(w) - 1);
            } else {
                lemma_fundamental_div_mod_converse(s, d, 0int, s);
                vstd::arithmetic::div_mod::lemma_small_mod(0nat, width_mask(w) as nat);
            }
        }
    } else if neg {
        let p: u32 = pow2_u32(count);
        let t: u32 = (mask - 1) - vv;
        let q: u32 = t / p;
        result = (mask - 1) - q;
        proof {
            let s = as_signed(vv as int, w);
            let d = pow2(count as nat) as int;
            lemma_floor_neg_div(t as int, d);
            vstd::arithmetic::div_mod::lemma_div_nonincreasing(t as int, d);
            assert(s / d == -1 - q);
            lemma_fundamental_div_mod_converse(-1 - q, width_mask(w), -1int, width_mask(w) - 1 - q);
        }
    } else {
        let p: u32 = pow2_u32(count);
        result = vv / p;
        proof {
            let d = pow2(count as nat) as int;
            vstd::arithmetic::div_mod::lemma_div_nonincreasing(vv as int, d);
            vstd::arithmetic::div_mod::lemma_small_mod(
                (vv as int / d) as nat,
                width_mask(w) as nat,
            );
        }
    }
    let carry: bool = if count <= bits {
        let pm1: u32 = pow2_u32(count - 1);
        (vv / pm1) % 2 == 1
    } else {
        neg
    };
    let sign: bool = result >= mask / 2;
    let zero: bool = result == 0;
    (result as u16, Flag { carry, overflow: false, sign, zero })
}

/// CBW: the word that sign-extends a byte.
pub fn alu_sign_extend8(v: u8) -> (r: u16)
    ensures
        r == sign_extend8(v),
{
    if v >= 0x80 {
        (v as u16) + 0xff00
    } else {
        v as u16
    }
}

} // verus!
