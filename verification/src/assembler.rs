//! The hardware-artifact emitter: the generated table lines of the
//! instruction ROM and of the data RAM, bit- and byte-exact. The fixed
//! entity/architecture boilerplate wrapped around these lines is plain
//! constant text and is the front end's affair.

use vstd::prelude::*;
use vstd::string::StringExecFns;

use crate::instructions::to_vhdl::ToVhdl;
use crate::instructions::Instruction;
use crate::processor::{RAM_SIZE, ROM_SIZE};

verus! {

/// The character of a decimal digit.
pub open spec fn dec_digit(d: nat) -> char {
    if d == 0 {
        '0'
    } else if d == 1 {
        '1'
    } else if d == 2 {
        '2'
    } else if d == 3 {
        '3'
    } else if d == 4 {
        '4'
    } else if d == 5 {
        '5'
    } else if d == 6 {
        '6'
    } else if d == 7 {
        '7'
    } else if d == 8 {
        '8'
    } else {
        '9'
    }
}

/// The decimal text of a number, most significant digit first, without
/// padding.
pub open spec fn dec_digits(n: nat) -> Seq<char>
    decreases n,
{
    if n < 10 {
        seq![dec_digit(n)]
    } else {
        dec_digits(n / 10) + seq![dec_digit(n % 10)]
    }
}

/// The character of a hexadecimal digit, lower case.
pub open spec fn hex_digit(d: nat) -> char {
    if d < 10 {
        dec_digit(d)
    } else if d == 10 {
        'a'
    } else if d == 11 {
        'b'
    } else if d == 12 {
        'c'
    } else if d == 13 {
        'd'
    } else if d == 14 {
        'e'
    } else {
        'f'
    }
}

/// A word as four hexadecimal digits, most significant nibble first.
pub open spec fn hex4_digits(v: u16) -> Seq<char> {
    seq![
        hex_digit(((v >> 12u16) & 0xf) as nat),
        hex_digit(((v >> 8u16) & 0xf) as nat),
        hex_digit(((v >> 4u16) & 0xf) as nat),
        hex_digit((v & 0xf) as nat),
    ]
}

/// One decimal digit as text.
fn dec_digit_str(d: u16) -> (s: &'static str)
    requires
        d < 10,
    ensures
        s@ == seq![dec_digit(d as nat)],
{
    let s: &'static str = match d {
        0 => "0",
        1 => "1",
        2 => "2",
        3 => "3",
        4 => "4",
        5 => "5",
        6 => "6",
        7 => "7",
        8 => "8",
        _ => "9",
    };
    proof {
        reveal_strlit("0");
        reveal_strlit("1");
        reveal_strlit("2");
        reveal_strlit("3");
        reveal_strlit("4");
        reveal_strlit("5");
        reveal_strlit("6");
        reveal_strlit("7");
        reveal_strlit("8");
        reveal_strlit("9");
        assert(s@ =~= seq![dec_digit(d as nat)]);
    }
    s
}

/// One hexadecimal digit as text.
fn hex_digit_str(d: u16) -> (s: &'static str)
    requires
        d < 16,
    ensures
        s@ == seq![hex_digit(d as nat)],
{
    if d < 10 {
        dec_digit_str(d)
    } else {
        let s: &'static str = match d {
            10 => "a",
            11 => "b",
            12 => "c",
            13 => "d",
            14 => "e",
            _ => "f",
        };
        proof {
            reveal_strlit("a");
            reveal_strlit("b");
            reveal_strlit("c");
            reveal_strlit("d");
            reveal_strlit("e");
            reveal_strlit("f");
            assert(s@ =~= seq![hex_digit(d as nat)]);
        }
        s
    }
}

/// Renders a word in decimal.
pub fn dec_u16(n: u16) -> (s: String)
    ensures
        s@ == dec_digits(n as nat),
    decreases n,
{
    if n < 10 {
        String::from_str(dec_digit_str(n))
    } else {
        let mut s = dec_u16(n / 10);
        s.append(dec_digit_str(n % 10));
        s
    }
}

/// Renders a word as four hexadecimal digits.
pub fn hex4_u16(v: u16) -> (s: String)
    ensures
        s@ == hex4_digits(v),
{
    proof {
        assert((v >> 12u16) & 0xf < 16 && (v >> 8u16) & 0xf < 16 && (v >> 4u16) & 0xf < 16 && v
            & 0xf < 16) by (bit_vector);
    }
    let mut s = String::from_str(hex_digit_str((v >> 12) & 0xf));
    s.append(hex_digit_str((v >> 8) & 0xf));
    s.append(hex_digit_str((v >> 4) & 0xf));
    s.append(hex_digit_str(v & 0xf));
    proof {
        assert(s@ =~= hex4_digits(v));
    }
    s
}

/// One instruction ROM table line: the quoted bit pattern and its address
/// selector.
pub open spec fn rom_line(i: nat, ins: Instruction) -> Seq<char> {
    "\t\t\""@ + ins.vhdl_spec() + "\"  when iA = "@ + dec_digits(i) + " else\n"@
}

/// The ROM table lines for the first `n` cells.
pub open spec fn rom_lines_upto(rom: Seq<Instruction>, n: int) -> Seq<char>
    decreases n,
{
    if n <= 0 {
        Seq::empty()
    } else {
        rom_lines_upto(rom, n - 1) + rom_line((n - 1) as nat, rom[n - 1])
    }
}

/// The ROM table lines of a whole program.
pub open spec fn spec_rom_lines(rom: Seq<Instruction>) -> Seq<char> {
    rom_lines_upto(rom, rom.len() as int)
}

/// Renders the instruction ROM table lines, one per program cell, in
/// address order.
pub fn parse_rom(rom: &[Instruction]) -> (s: String)
    requires
        rom@.len() <= ROM_SIZE,
        forall|i: int| 0 <= i < rom@.len() ==> (#[trigger] rom@[i]).encodable(),
    ensures
        s@ == spec_rom_lines(rom@),
{
    let mut s = String::new();
    let mut i: usize = 0;
    proof {
        assert(s@ =~= rom_lines_upto(rom@, 0));
    }
    while i < rom.len()
        invariant
            rom@.len() <= ROM_SIZE,
            forall|j: int| 0 <= j < rom@.len() ==> (#[trigger] rom@[j]).encodable(),
            i <= rom@.len(),
            s@ == rom_lines_upto(rom@, i as int),
        decreases rom@.len() - i,
    {
        s.append("\t\t\"");
        let enc = rom[i].to_vhdl();
        s.append(enc.as_str());
        s.append("\"  when iA = ");
        let idx = dec_u16(i as u16);
        s.append(idx.as_str());
        s.append(" else\n");
        proof {
            assert(s@ =~= rom_lines_upto(rom@, i + 1));
        }
        i += 1;
    }
    s
}

/// One data RAM table line: the cell index and its word in hexadecimal.
pub open spec fn ram_line(i: nat, v: u16) -> Seq<char> {
    "\tsMEM("@ + dec_digits(i) + ") <= x\""@ + hex4_digits(v) + "\";\n"@
}

/// The RAM table lines for the first `n` cells.
pub open spec fn ram_lines_upto(data: Seq<u16>, n: int) -> Seq<char>
    decreases n,
{
    if n <= 0 {
        Seq::empty()
    } else {
        ram_lines_upto(data, n - 1) + ram_line((n - 1) as nat, data[n - 1])
    }
}

/// The RAM table lines of a whole data image.
pub open spec fn spec_ram_lines(data: Seq<u16>) -> Seq<char> {
    ram_lines_upto(data, data.len() as int)
}

/// Renders the data RAM table lines, one per data cell, in address order.
pub fn parse_ram(data: &[u16]) -> (s: String)
    requires
        data@.len() <= RAM_SIZE,
    ensures
        s@ == spec_ram_lines(data@),
{
    let mut s = String::new();
    let mut i: usize = 0;
    proof {
        assert(s@ =~= ram_lines_upto(data@, 0));
    }
    while i < data.len()
        invariant
            data@.len() <= RAM_SIZE,
            i <= data@.len(),
            s@ == ram_lines_upto(data@, i as int),
        decreases data@.len() - i,
    {
        s.append("\tsMEM(");
        let idx = dec_u16(i as u16);
        s.append(idx.as_str());
        s.append(") <= x\"");
        let word = hex4_u16(data[i]);
        s.append(word.as_str());
        s.append("\";\n");
        proof {
            assert(s@ =~= ram_lines_upto(data@, i + 1));
        }
        i += 1;
    }
    s
}

} // verus!
