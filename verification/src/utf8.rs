use vstd::prelude::*;

verus! {

/// A UTF-8 continuation byte.
pub open spec fn is_cont(b: u8) -> bool {
    0x80 <= b && b <= 0xbf
}

/// Whether a byte sequence is well-formed UTF-8: each scalar value is
/// encoded in the shortest form, surrogates and values above U+10FFFF are
/// excluded.
pub open spec fn utf8_ok(s: Seq<u8>) -> bool
    decreases s.len(),
{
    if s.len() == 0 {
        true
    } else {
        let b0 = s[0];
        if b0 < 0x80 {
            utf8_ok(s.skip(1))
        } else if 0xc2 <= b0 && b0 <= 0xdf {
            s.len() >= 2 && is_cont(s[1]) && utf8_ok(s.skip(2))
        } else if b0 == 0xe0 {
            s.len() >= 3 && 0xa0 <= s[1] && s[1] <= 0xbf && is_cont(s[2]) && utf8_ok(s.skip(3))
        } else if b0 == 0xed {
            s.len() >= 3 && 0x80 <= s[1] && s[1] <= 0x9f && is_cont(s[2]) && utf8_ok(s.skip(3))
        } else if 0xe1 <= b0 && b0 <= 0xef {
            s.len() >= 3 && is_cont(s[1]) && is_cont(s[2]) && utf8_ok(s.skip(3))
        } else if b0 == 0xf0 {
            s.len() >= 4 && 0x90 <= s[1] && s[1] <= 0xbf && is_cont(s[2]) && is_cont(s[3])
                && utf8_ok(s.skip(4))
        } else if 0xf1 <= b0 && b0 <= 0xf3 {
            s.len() >= 4 && is_cont(s[1]) && is_cont(s[2]) && is_cont(s[3]) && utf8_ok(s.skip(4))
        } else if b0 == 0xf4 {
            s.len() >= 4 && 0x80 <= s[1] && s[1] <= 0x8f && is_cont(s[2]) && is_cont(s[3])
                && utf8_ok(s.skip(4))
        } else {
            false
        }
    }
}

fn cont(b: u8) -> (r: bool)
    ensures
        r == is_cont(b),
{
    0x80 <= b && b <= 0xbf
}

/// Decides `utf8_ok` for the byte range `[start, end)` of `bytes`.
pub fn check_utf8(bytes: &Vec<u8>, start: usize, end: usize) -> (r: bool)
    requires
        start <= end <= bytes.len(),
    ensures
        r == utf8_ok(bytes@.subrange(start as int, end as int)),
{
    let mut i: usize = start;
    while i < end
        invariant
            start <= i <= end <= bytes@.len(),
            utf8_ok(bytes@.subrange(start as int, end as int)) == utf8_ok(
                bytes@.subrange(i as int, end as int),
            ),
        decreases end - i,
    {
        let ghost s = bytes@.subrange(i as int, end as int);
        let b0: u8 = bytes[i];
        let n: usize = end - i;
        let step: usize;
        if b0 < 0x80 {
            step = 1;
        } else if 0xc2 <= b0 && b0 <= 0xdf {
            if !(n >= 2 && cont(bytes[i + 1])) {
                return false;
            }
            step = 2;
        } else if b0 == 0xe0 {
            if !(n >= 3 && 0xa0 <= bytes[i + 1] && bytes[i + 1] <= 0xbf && cont(bytes[i + 2])) {
                return false;
            }
            step = 3;
        } else if b0 == 0xed {
            if !(n >= 3 && 0x80 <= bytes[i + 1] && bytes[i + 1] <= 0x9f && cont(bytes[i + 2])) {
                return false;
            }
            step = 3;
        } else if 0xe1 <= b0 && b0 <= 0xef {
            if !(n >= 3 && cont(bytes[i + 1]) && cont(bytes[i + 2])) {
                return false;
            }
            step = 3;
        } else if b0 == 0xf0 {
            if !(n >= 4 && 0x90 <= bytes[i + 1] && bytes[i + 1] <= 0xbf && cont(bytes[i + 2])
                && cont(bytes[i + 3])) {
                return false;
            }
            step = 4;
        } else if 0xf1 <= b0 && b0 <= 0xf3 {
            if !(n >= 4 && cont(bytes[i + 1]) && cont(bytes[i + 2]) && cont(bytes[i + 3])) {
                return false;
            }
            step = 4;
        } else if b0 == 0xf4 {
            if !(n >= 4 && 0x80 <= bytes[i + 1] && bytes[i + 1] <= 0x8f && cont(bytes[i + 2])
                && cont(bytes[i + 3])) {
                return false;
            }
            step = 4;
        } else {
            return false;
        }
        proof {
            assert(s.skip(step as int) =~= bytes@.subrange(i + step, end as int));
        }
        i = i + step;
    }
    proof {
        assert(bytes@.subrange(end as int, end as int).len() == 0);
    }
    true
}

} // verus!
