//! Parsing of data-section literals: an optional leading `-`, then a
//! decimal integer, a `0x`-prefixed hexadecimal one or a `0b`-prefixed
//! binary one, stored as a 16-bit word; a negative value is reinterpreted
//! in two's complement.

use vstd::prelude::*;
use vstd::string::{StrSliceExecFns, StringExecFns};

use super::{ParsingError, SpecParsingError};
use crate::instructions::from_str::{bits_ok, bits_val};

verus! {

/// Whether a character is a decimal digit.
pub open spec fn is_digit(c: char) -> bool {
    '0' <= c && c <= '9'
}

/// The value of a decimal digit.
pub open spec fn digit_val(c: char) -> nat {
    ((c as int) - ('0' as int)) as nat
}

/// Whether a sequence consists of decimal digits only.
pub open spec fn all_digits(s: Seq<char>) -> bool {
    forall|i: int| 0 <= i < s.len() ==> is_digit(#[trigger] s[i])
}

/// The value of a big-endian sequence of decimal digits.
pub open spec fn dec_val(s: Seq<char>) -> nat
    decreases s.len(),
{
    if s.len() == 0 {
        0
    } else {
        dec_val(s.drop_last()) * 10 + digit_val(s.last())
    }
}

/// Whether a character is a hexadecimal digit, of either case.
pub open spec fn is_hex_digit(c: char) -> bool {
    is_digit(c) || ('a' <= c && c <= 'f') || ('A' <= c && c <= 'F')
}

/// The value of a hexadecimal digit.
pub open spec fn hex_digit_val(c: char) -> nat {
    if is_digit(c) {
        digit_val(c)
    } else if 'a' <= c && c <= 'f' {
        ((c as int) - ('a' as int) + 10) as nat
    } else {
        ((c as int) - ('A' as int) + 10) as nat
    }
}

/// Whether a sequence consists of hexadecimal digits only.
pub open spec fn all_hex_digits(s: Seq<char>) -> bool {
    forall|i: int| 0 <= i < s.len() ==> is_hex_digit(#[trigger] s[i])
}

/// The value of a big-endian sequence of hexadecimal digits.
pub open spec fn hex_val(s: Seq<char>) -> nat
    decreases s.len(),
{
    if s.len() == 0 {
        0
    } else {
        hex_val(s.drop_last()) * 16 + hex_digit_val(s.last())
    }
}

/// A decimal literal's word value: every character a digit, the value at
/// most sixteen bits.
pub open spec fn spec_parse_u16_dec(s: Seq<char>) -> Option<u16> {
    if s.len() == 0 || !all_digits(s) {
        None
    } else if dec_val(s) > 0xffff {
        None
    } else {
        Some(dec_val(s) as u16)
    }
}

/// A hexadecimal literal's word value.
pub open spec fn spec_parse_u16_hex(s: Seq<char>) -> Option<u16> {
    if s.len() == 0 || !all_hex_digits(s) {
        None
    } else if hex_val(s) > 0xffff {
        None
    } else {
        Some(hex_val(s) as u16)
    }
}

/// A binary literal's word value.
pub open spec fn spec_parse_u16_bin(s: Seq<char>) -> Option<u16> {
    if s.len() == 0 || !bits_ok(s) {
        None
    } else if bits_val(s) > 0xffff {
        None
    } else {
        Some(bits_val(s) as u16)
    }
}

/// A digit string's value never shrinks as the string grows.
pub proof fn lemma_dec_val_prefix(s: Seq<char>, i: int)
    requires
        0 <= i <= s.len(),
    ensures
        dec_val(s.subrange(0, i)) <= dec_val(s),
    decreases s.len(),
{
    if i < s.len() {
        assert(s.drop_last().subrange(0, i) =~= s.subrange(0, i));
        lemma_dec_val_prefix(s.drop_last(), i);
    } else {
        assert(s.subrange(0, i) =~= s);
    }
}

/// A hex string's value never shrinks as the string grows.
proof fn lemma_hex_val_prefix(s: Seq<char>, i: int)
    requires
        0 <= i <= s.len(),
    ensures
        hex_val(s.subrange(0, i)) <= hex_val(s),
    decreases s.len(),
{
    if i < s.len() {
        assert(s.drop_last().subrange(0, i) =~= s.subrange(0, i));
        lemma_hex_val_prefix(s.drop_last(), i);
    } else {
        assert(s.subrange(0, i) =~= s);
    }
}

/// A bit string's value never shrinks as the string grows.
proof fn lemma_bits_val_prefix(s: Seq<char>, i: int)
    requires
        0 <= i <= s.len(),
    ensures
        bits_val(s.subrange(0, i)) <= bits_val(s),
    decreases s.len(),
{
    if i < s.len() {
        assert(s.drop_last().subrange(0, i) =~= s.subrange(0, i));
        lemma_bits_val_prefix(s.drop_last(), i);
    } else {
        assert(s.subrange(0, i) =~= s);
    }
}

/// Parses a decimal literal.
fn parse_u16_dec(s: &str) -> (r: Option<u16>)
    ensures
        r == spec_parse_u16_dec(s@),
{
    let n = s.unicode_len();
    if n == 0 {
        return None;
    }
    let mut v: u32 = 0;
    let mut i: usize = 0;
    while i < n
        invariant
            n == s@.len(),
            i <= n,
            all_digits(s@.subrange(0, i as int)),
            v as nat == dec_val(s@.subrange(0, i as int)),
            v <= 0xffff,
        decreases n - i,
    {
        let c = s.get_char(i);
        if !(c >= '0' && c <= '9') {
            return None;
        }
        let ghost pre = s@.subrange(0, i as int);
        let d: u32 = (c as u32) - ('0' as u32);
        v = v * 10 + d;
        proof {
            assert(s@.subrange(0, i + 1) =~= pre.push(s@[i as int]));
            assert(s@.subrange(0, i + 1).drop_last() =~= pre);
        }
        if v > 0xffff {
            proof {
                if all_digits(s@) {
                    lemma_dec_val_prefix(s@, i + 1);
                }
            }
            return None;
        }
        i += 1;
    }
    proof {
        assert(s@.subrange(0, n as int) =~= s@);
    }
    Some(v as u16)
}

/// Parses the hexadecimal digits after a `0x` prefix.
fn parse_u16_hex(s: &str) -> (r: Option<u16>)
    ensures
        r == spec_parse_u16_hex(s@),
{
    let n = s.unicode_len();
    if n == 0 {
        return None;
    }
    let mut v: u32 = 0;
    let mut i: usize = 0;
    while i < n
        invariant
            n == s@.len(),
            i <= n,
            all_hex_digits(s@.subrange(0, i as int)),
            v as nat == hex_val(s@.subrange(0, i as int)),
            v <= 0xffff,
        decreases n - i,
    {
        let c = s.get_char(i);
        let d: u32 = if c >= '0' && c <= '9' {
            (c as u32) - ('0' as u32)
        } else if c >= 'a' && c <= 'f' {
            (c as u32) - ('a' as u32) + 10
        } else if c >= 'A' && c <= 'F' {
            (c as u32) - ('A' as u32) + 10
        } else {
            return None;
        };
        let ghost pre = s@.subrange(0, i as int);
        v = v * 16 + d;
        proof {
            assert(s@.subrange(0, i + 1) =~= pre.push(s@[i as int]));
            assert(s@.subrange(0, i + 1).drop_last() =~= pre);
        }
        if v > 0xffff {
            proof {
                if all_hex_digits(s@) {
                    lemma_hex_val_prefix(s@, i + 1);
                }
            }
            return None;
        }
        i += 1;
    }
    proof {
        assert(s@.subrange(0, n as int) =~= s@);
    }
    Some(v as u16)
}

/// Parses the binary digits after a `0b` prefix.
fn parse_u16_bin(s: &str) -> (r: Option<u16>)
    ensures
        r == spec_parse_u16_bin(s@),
{
    let n = s.unicode_len();
    if n == 0 {
        return None;
    }
    let mut v: u32 = 0;
    let mut i: usize = 0;
    while i < n
        invariant
            n == s@.len(),
            i <= n,
            bits_ok(s@.subrange(0, i as int)),
            v as nat == bits_val(s@.subrange(0, i as int)),
            v <= 0xffff,
        decreases n - i,
    {
        let c = s.get_char(i);
        let d: u32 = if c == '0' {
            0
        } else if c == '1' {
            1
        } else {
            return None;
        };
        let ghost pre = s@.subrange(0, i as int);
        v = v * 2 + d;
        proof {
            assert(s@.subrange(0, i + 1) =~= pre.push(s@[i as int]));
            assert(s@.subrange(0, i + 1).drop_last() =~= pre);
        }
        if v > 0xffff {
            proof {
                if bits_ok(s@) {
                    lemma_bits_val_prefix(s@, i + 1);
                }
            }
            return None;
        }
        i += 1;
    }
    proof {
        assert(s@.subrange(0, n as int) =~= s@);
    }
    Some(v as u16)
}

/// A radix-prefixed literal: at least three characters, `0x` or `0b`, then
/// the digits; an unconvertible body is a `NumberConversion` error carrying
/// the whole token.
pub open spec fn spec_parse_radix(s: Seq<char>) -> Result<u16, SpecParsingError> {
    if s.len() < 3 {
        Err(SpecParsingError::UnexpectedToken)
    } else if s[0] == '0' && s[1] == 'x' {
        match spec_parse_u16_hex(s.subrange(2, s.len() as int)) {
            Some(v) => Ok(v),
            None => Err(SpecParsingError::NumberConversion(s)),
        }
    } else if s[0] == '0' && s[1] == 'b' {
        match spec_parse_u16_bin(s.subrange(2, s.len() as int)) {
            Some(v) => Ok(v),
            None => Err(SpecParsingError::NumberConversion(s)),
        }
    } else {
        Err(SpecParsingError::UnexpectedToken)
    }
}

/// Parses a radix-prefixed literal.
pub fn parse_radix(s: &str) -> (r: Result<u16, ParsingError>)
    ensures
        match r {
            Ok(v) => spec_parse_radix(s@) == Ok::<u16, SpecParsingError>(v),
            Err(e) => spec_parse_radix(s@) == Err::<u16, SpecParsingError>(e@),
        },
{
    let n = s.unicode_len();
    if n < 3 {
        return Err(ParsingError::UnexpectedToken);
    }
    let c0 = s.get_char(0);
    let c1 = s.get_char(1);
    if c0 == '0' && c1 == 'x' {
        match parse_u16_hex(s.substring_char(2, n)) {
            Some(v) => Ok(v),
            None => Err(ParsingError::NumberConversion(String::from_str(s))),
        }
    } else if c0 == '0' && c1 == 'b' {
        match parse_u16_bin(s.substring_char(2, n)) {
            Some(v) => Ok(v),
            None => Err(ParsingError::NumberConversion(String::from_str(s))),
        }
    } else {
        Err(ParsingError::UnexpectedToken)
    }
}

/// A bare decimal literal; an unconvertible one is a `NumberConversion`
/// error carrying the token.
pub open spec fn spec_parse_number(s: Seq<char>) -> Result<u16, SpecParsingError> {
    match spec_parse_u16_dec(s) {
        Some(v) => Ok(v),
        None => Err(SpecParsingError::NumberConversion(s)),
    }
}

/// Parses a bare decimal literal.
pub fn parse_number(s: &str) -> (r: Result<u16, ParsingError>)
    ensures
        match r {
            Ok(v) => spec_parse_number(s@) == Ok::<u16, SpecParsingError>(v),
            Err(e) => spec_parse_number(s@) == Err::<u16, SpecParsingError>(e@),
        },
{
    match parse_u16_dec(s) {
        Some(v) => Ok(v),
        None => Err(ParsingError::NumberConversion(String::from_str(s))),
    }
}

/// A whole data literal: an optional `-`, then a radix-prefixed or decimal
/// body; a negative value is stored in two's complement.
pub open spec fn spec_parse_data(s: Seq<char>) -> Result<u16, SpecParsingError> {
    let neg = s.len() > 0 && s[0] == '-';
    let body = if neg {
        s.subrange(1, s.len() as int)
    } else {
        s
    };
    let v = if body.len() >= 2 && body[0] == '0' && (body[1] == 'x' || body[1] == 'b') {
        spec_parse_radix(body)
    } else {
        spec_parse_number(body)
    };
    match v {
        Ok(n) => Ok(
            if neg {
                vstd::wrapping::u16_specs::wrapping_sub(0u16, n)
            } else {
                n
            },
        ),
        Err(e) => Err(e),
    }
}

/// Parses a whole data literal.
pub fn parse_data(s: &str) -> (r: Result<u16, ParsingError>)
    ensures
        match r {
            Ok(v) => spec_parse_data(s@) == Ok::<u16, SpecParsingError>(v),
            Err(e) => spec_parse_data(s@) == Err::<u16, SpecParsingError>(e@),
        },
{
    let n = s.unicode_len();
    let neg = n > 0 && s.get_char(0) == '-';
    let body = if neg {
        s.substring_char(1, n)
    } else {
        s
    };
    let m = body.unicode_len();
    let radix_form = m >= 2 && body.get_char(0) == '0' && (body.get_char(1) == 'x'
        || body.get_char(1) == 'b');
    let v = if radix_form {
        parse_radix(body)
    } else {
        parse_number(body)
    };
    match v {
        Ok(w) => Ok(
            if neg {
                0u16.wrapping_sub(w)
            } else {
                w
            },
        ),
        Err(e) => Err(e),
    }
}

} // verus!
