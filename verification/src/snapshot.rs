//! The register snapshot: one line of text with the program counter and
//! every register by name, each as four hexadecimal digits.

use vstd::prelude::*;
use vstd::string::StringExecFns;
use crate::cpu::{CpuView, CPU};
use crate::registers::{AX, BP, BX, CS, CX, DI, DS, DX, ES, FS, GS, SI, SP, SS};

verus! {

/// The upper-case hexadecimal digit for `d`, which is below sixteen.
pub open spec fn hex_digit(d: int) -> char {
    if d == 0 {
        '0'
    } else if d == 1 {
        '1'
    } else if d == 2 {
        '2'
    } else if d == 3 {
        '3'
    } else if d == 4 {
        '4'
    } else if d == 5 {
        '5'
    } else if d == 6 {
        '6'
    } else if d == 7 {
        '7'
    } else if d == 8 {
        '8'
    } else if d == 9 {
        '9'
    } else if d == 10 {
        'A'
    } else if d == 11 {
        'B'
    } else if d == 12 {
        'C'
    } else if d == 13 {
        'D'
    } else if d == 14 {
        'E'
    } else {
        'F'
    }
}

/// The four hexadecimal digits of `v`, most significant first, with leading
/// zeros.
pub open spec fn hex4(v: u16) -> Seq<char> {
    seq![
        hex_digit(v as int / 0x1000),
        hex_digit(v as int / 0x100 % 0x10),
        hex_digit(v as int / 0x10 % 0x10),
        hex_digit(v as int % 0x10),
    ]
}

/// The snapshot line of the state `s`.
pub open spec fn snapshot_text(s: CpuView) -> Seq<char> {
    "pc:"@ + hex4(s.pc) + "  ax:"@ + hex4(s.regs[AX as int]) + " bx:"@ + hex4(s.regs[BX as int])
        + " cx:"@ + hex4(s.regs[CX as int]) + " dx:"@ + hex4(s.regs[DX as int]) + "  sp:"@ + hex4(
        s.regs[SP as int],
    ) + " bp:"@ + hex4(s.regs[BP as int]) + " si:"@ + hex4(s.regs[SI as int]) + " di:"@ + hex4(
        s.regs[DI as int],
    ) + "   es:"@ + hex4(s.regs[ES as int]) + " cs:"@ + hex4(s.regs[CS as int]) + " ss:"@ + hex4(
        s.regs[SS as int],
    ) + " ds:"@ + hex4(s.regs[DS as int]) + " fs:"@ + hex4(s.regs[FS as int]) + " gs:"@ + hex4(
        s.regs[GS as int],
    )
}

/// The text of one hexadecimal digit.
fn hex_digit_str(d: u16) -> (s: &'static str)
    requires
        d < 16,
    ensures
        s@ == seq![hex_digit(d as int)],
{
    proof {
        reveal_strlit("0");
        reveal_strlit("1");
        reveal_strlit("2");
        reveal_strlit("3");
        reveal_strlit("4");
        reveal_strlit("5");
        reveal_strlit("6");
        reveal_strlit("7");
        reveal_strlit("8");
        reveal_strlit("9");
        reveal_strlit("A");
        reveal_strlit("B");
        reveal_strlit("C");
        reveal_strlit("D");
        reveal_strlit("E");
        reveal_strlit("F");
    }
    match d {
        0 => "0",
        1 => "1",
        2 => "2",
        3 => "3",
        4 => "4",
        5 => "5",
        6 => "6",
        7 => "7",
        8 => "8",
        9 => "9",
        10 => "A",
        11 => "B",
        12 => "C",
        13 => "D",
        14 => "E",
        _ => "F",
    }
}

/// Appends `label` and the four hexadecimal digits of `v` to `out`.
fn append_field(out: &mut String, label: &str, v: u16)
    ensures
        final(out)@ == old(out)@ + label@ + hex4(v),
{
    out.append(label);
    out.append(hex_digit_str(v / 0x1000));
    out.append(hex_digit_str(v / 0x100 % 0x10));
    out.append(hex_digit_str(v / 0x10 % 0x10));
    out.append(hex_digit_str(v % 0x10));
}

impl CPU {
    /// The register snapshot as one line of text, without a line end: the
    /// program counter and the fourteen registers, each under its name and
    /// as four upper-case hexadecimal digits.
    pub fn print_registers(&self) -> (line: String)
        ensures
            line@ == snapshot_text(self@),
    {
        let mut line = String::new();
        append_field(&mut line, "pc:", self.pc);
        append_field(&mut line, "  ax:", self.regs.read16(AX));
        append_field(&mut line, " bx:", self.regs.read16(BX));
        append_field(&mut line, " cx:", self.regs.read16(CX));
        append_field(&mut line, " dx:", self.regs.read16(DX));
        append_field(&mut line, "  sp:", self.regs.read16(SP));
        append_field(&mut line, " bp:", self.regs.read16(BP));
        append_field(&mut line, " si:", self.regs.read16(SI));
        append_field(&mut line, " di:", self.regs.read16(DI));
        append_field(&mut line, "   es:", self.regs.read16(ES));
        append_field(&mut line, " cs:", self.regs.read16(CS));
        append_field(&mut line, " ss:", self.regs.read16(SS));
        append_field(&mut line, " ds:", self.regs.read16(DS));
        append_field(&mut line, " fs:", self.regs.read16(FS));
        append_field(&mut line, " gs:", self.regs.read16(GS));
        line
    }
}

} // verus!
