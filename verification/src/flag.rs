use vstd::prelude::*;

verus! {

/// The four modelled 8086 flags: carry, overflow, sign, zero.
///
/// Every arithmetic, logic, shift and compare handler rewrites all four
/// fields through `set_cosz`; data moves and control transfers leave them
/// untouched.
#[derive(Clone, Copy, Debug, PartialEq, Eq, Structural)]
pub struct Flag {
    pub carry: bool,
    pub overflow: bool,
    pub sign: bool,
    pub zero: bool,
}

impl Flag {
    pub fn new() -> (r: Flag)
        ensures
            r == (Flag { carry: false, overflow: false, sign: false, zero: false }),
    {
        Flag { carry: false, overflow: false, sign: false, zero: false }
    }

    /// The single mutation point for the flag word: all four fields are
    /// written at once.
    pub fn set_cosz(&mut self, carry: bool, overflow: bool, sign: bool, zero: bool)
        ensures
            *final(self) == (Flag { carry, overflow, sign, zero }),
    {
        self.carry = carry;
        self.overflow = overflow;
        self.sign = sign;
        self.zero = zero;
    }

    /// The rendering of this flag word in trace lines: one of `C`, `O`,
    /// `S`, `Z` for each set flag, `-` for each clear one, in that order.
    pub open spec fn render_seq(self) -> Seq<u8> {
        seq![
            if self.carry {
                0x43u8
            } else {
                0x2du8
            },
            if self.overflow {
                0x4fu8
            } else {
                0x2du8
            },
            if self.sign {
                0x53u8
            } else {
                0x2du8
            },
            if self.zero {
                0x5au8
            } else {
                0x2du8
            },
        ]
    }

    /// The four-character rendering used in trace lines: one of `C`, `O`,
    /// `S`, `Z` for each set flag, `-` for each clear one.
    pub fn render(&self) -> (r: Vec<u8>)
        ensures
            r@.len() == 4,
            r@ == self.render_seq(),
    {
        let mut out: Vec<u8> = Vec::new();
        out.push(if self.carry { 0x43 } else { 0x2d });  // 'C' or '-'
        out.push(if self.overflow { 0x4f } else { 0x2d });  // 'O' or '-'
        out.push(if self.sign { 0x53 } else { 0x2d });  // 'S' or '-'
        out.push(if self.zero { 0x5a } else { 0x2d });  // 'Z' or '-'
        proof {
            assert(out@ =~= self.render_seq());
        }
        out
    }
}

} // verus!
