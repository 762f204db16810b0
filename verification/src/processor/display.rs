//! Rendering machine words for the state dump, in the machine's current
//! display radix.

use vstd::prelude::*;
use vstd::string::StringExecFns;

use super::{DisplayRadix, DisplaySigned, Processor};
use crate::assembler::{dec_digits, dec_u16, hex4_digits, hex4_u16};
use crate::instructions::to_vhdl::bit_char;

verus! {

/// A word as sixteen binary digits, most significant bit first.
pub open spec fn bin16_digits(v: u16) -> Seq<char> {
    Seq::new(16, |i: int| bit_char(v, (15 - i) as u16))
}

/// Renders a word as sixteen binary digits.
pub fn bin16_u16(v: u16) -> (s: String)
    ensures
        s@ == bin16_digits(v),
{
    let mut s = String::new();
    let mut k: usize = 0;
    while k < 16
        invariant
            k <= 16,
            s@ =~= bin16_digits(v).subrange(0, k as int),
        decreases 16 - k,
    {
        let sh: u16 = 15 - (k as u16);
        if (v >> sh) & 1 == 1 {
            s.append("1");
            proof {
                reveal_strlit("1");
            }
        } else {
            s.append("0");
            proof {
                reveal_strlit("0");
            }
        }
        proof {
            assert(s@ =~= bin16_digits(v).subrange(0, k + 1));
        }
        k += 1;
    }
    proof {
        assert(s@ =~= bin16_digits(v));
    }
    s
}

/// What a word renders to in each radix: unsigned decimal, two's-complement
/// signed decimal, `0x`-prefixed hexadecimal, or `0b`-prefixed binary.
pub open spec fn spec_print_value(radix: DisplayRadix, v: u16) -> Seq<char> {
    match radix {
        DisplayRadix::Decimal(DisplaySigned::Unsigned) => dec_digits(v as nat),
        DisplayRadix::Decimal(DisplaySigned::Signed) => if v >= 0x8000 {
            seq!['-'] + dec_digits((0x10000 - v) as nat)
        } else {
            dec_digits(v as nat)
        },
        DisplayRadix::Hexadecimal => "0x"@ + hex4_digits(v),
        DisplayRadix::Binary => "0b"@ + bin16_digits(v),
    }
}

impl Processor {
    /// Renders a word in the machine's current display radix.
    pub fn print_value(&self, value: u16) -> (s: String)
        ensures
            s@ == spec_print_value(self@.radix, value),
    {
        match self.get_radix() {
            DisplayRadix::Decimal(DisplaySigned::Unsigned) => dec_u16(value),
            DisplayRadix::Decimal(DisplaySigned::Signed) => {
                if value >= 0x8000 {
                    let magnitude: u16 = ((0x10000u32 - (value as u32)) as u16);
                    let mut s = String::from_str("-");
                    let digits = dec_u16(magnitude);
                    s.append(digits.as_str());
                    proof {
                        reveal_strlit("-");
                        assert(s@ =~= seq!['-'] + dec_digits((0x10000 - value) as nat));
                    }
                    s
                } else {
                    dec_u16(value)
                }
            },
            DisplayRadix::Hexadecimal => {
                let mut s = String::from_str("0x");
                let digits = hex4_u16(value);
                s.append(digits.as_str());
                s
            },
            DisplayRadix::Binary => {
                let mut s = String::from_str("0b");
                let digits = bin16_u16(value);
                s.append(digits.as_str());
                s
            },
        }
    }
}

} // verus!
