//! Rendering of a decoded header as the fixed textual summary: one
//! field per line, labels padded so the values align, numbers in
//! decimal or `0x`-prefixed lowercase hexadecimal, and the sixteen
//! `ident` bytes as space-separated two-digit hexadecimal pairs.

use crate::describe::describe_machine;
use crate::describe::describe_type;
use crate::describe::machine_label;
use crate::describe::type_label;
use crate::header::ElfHeader;
use vstd::prelude::*;
use vstd::string::StringExecFns;

verus! {

/// The lowercase hexadecimal digit character for a value below 16.
pub open spec fn digit_char(d: int) -> char {
    if d == 0 {
        '0'
    } else if d == 1 {
        '1'
    } else if d == 2 {
        '2'
    } else if d == 3 {
        '3'
    } else if d == 4 {
        '4'
    } else if d == 5 {
        '5'
    } else if d == 6 {
        '6'
    } else if d == 7 {
        '7'
    } else if d == 8 {
        '8'
    } else if d == 9 {
        '9'
    } else if d == 10 {
        'a'
    } else if d == 11 {
        'b'
    } else if d == 12 {
        'c'
    } else if d == 13 {
        'd'
    } else if d == 14 {
        'e'
    } else {
        'f'
    }
}

/// `v` written in lowercase hexadecimal with no leading zeros (a bare
/// zero for `v == 0`).
pub open spec fn hex_seq(v: nat) -> Seq<char>
    decreases v,
{
    if v < 16 {
        seq![digit_char(v as int)]
    } else {
        hex_seq(v / 16) + seq![digit_char((v % 16) as int)]
    }
}

/// `v` written in decimal with no leading zeros.
pub open spec fn dec_seq(v: nat) -> Seq<char>
    decreases v,
{
    if v < 10 {
        seq![digit_char(v as int)]
    } else {
        dec_seq(v / 10) + seq![digit_char((v % 10) as int)]
    }
}

/// One byte as exactly two lowercase hexadecimal digits.
pub open spec fn byte_hex_seq(b: u8) -> Seq<char> {
    seq![digit_char(b as int / 16), digit_char(b as int % 16)]
}

/// The bytes of `s` as two-digit hexadecimal pairs separated by single
/// spaces.
pub open spec fn magic_seq(s: Seq<u8>) -> Seq<char>
    decreases s.len(),
{
    if s.len() == 0 {
        Seq::empty()
    } else if s.len() == 1 {
        byte_hex_seq(s[0])
    } else {
        magic_seq(s.drop_last()) + seq![' '] + byte_hex_seq(s.last())
    }
}

/// The single-character string for a digit value below 16.
fn digit_str(d: u8) -> (r: &'static str)
    requires
        d < 16,
    ensures
        r@ == seq![digit_char(d as int)],
{
    let r = match d {
        0 => "0",
        1 => "1",
        2 => "2",
        3 => "3",
        4 => "4",
        5 => "5",
        6 => "6",
        7 => "7",
        8 => "8",
        9 => "9",
        10 => "a",
        11 => "b",
        12 => "c",
        13 => "d",
        14 => "e",
        _ => "f",
    };
    proof {
        reveal_strlit("0");
        reveal_strlit("1");
        reveal_strlit("2");
        reveal_strlit("3");
        reveal_strlit("4");
        reveal_strlit("5");
        reveal_strlit("6");
        reveal_strlit("7");
        reveal_strlit("8");
        reveal_strlit("9");
        reveal_strlit("a");
        reveal_strlit("b");
        reveal_strlit("c");
        reveal_strlit("d");
        reveal_strlit("e");
        reveal_strlit("f");
        assert(r@ =~= seq![digit_char(d as int)]);
    }
    r
}

/// Appends `v` in lowercase hexadecimal, most significant digit first.
fn push_hex(v: u64, out: &mut String)
    ensures
        final(out)@ == old(out)@ + hex_seq(v as nat),
    decreases v,
{
    let ghost prefix = out@;
    if v >= 16 {
        push_hex(v / 16, out);
    }
    out.append(digit_str((v % 16) as u8));
    proof {
        if v >= 16 {
            assert(out@ =~= prefix + hex_seq(v as nat));
        }
    }
}

/// Appends `v` in decimal, most significant digit first.
fn push_dec(v: u64, out: &mut String)
    ensures
        final(out)@ == old(out)@ + dec_seq(v as nat),
    decreases v,
{
    let ghost prefix = out@;
    if v >= 10 {
        push_dec(v / 10, out);
    }
    out.append(digit_str((v % 10) as u8));
    proof {
        if v >= 10 {
            assert(out@ =~= prefix + dec_seq(v as nat));
        }
    }
}

/// Appends one byte as exactly two hexadecimal digits.
fn push_byte_hex(b: u8, out: &mut String)
    ensures
        final(out)@ == old(out)@ + byte_hex_seq(b),
{
    let ghost prefix = out@;
    out.append(digit_str(b / 16));
    out.append(digit_str(b % 16));
    proof {
        assert(out@ =~= prefix + byte_hex_seq(b));
    }
}

/// Appends the bytes of `bytes` as space-separated hexadecimal pairs.
fn push_magic(bytes: &Vec<u8>, out: &mut String)
    ensures
        final(out)@ == old(out)@ + magic_seq(bytes@),
{
    let ghost prefix = out@;
    let mut i: usize = 0;
    while i < bytes.len()
        invariant
            i <= bytes@.len(),
            out@ == prefix + magic_seq(bytes@.subrange(0, i as int)),
        decreases bytes@.len() - i,
    {
        if i > 0 {
            out.append(" ");
            proof {
                reveal_strlit(" ");
            }
        }
        push_byte_hex(bytes[i], out);
        proof {
            let sub = bytes@.subrange(0, i + 1);
            assert(sub.drop_last() =~= bytes@.subrange(0, i as int));
            assert(sub.last() == bytes@[i as int]);
            if i == 0 {
                assert(out@ =~= prefix + magic_seq(sub));
            } else {
                assert(" "@ =~= seq![' ']);
                assert(out@ =~= prefix + magic_seq(sub));
            }
        }
        i = i + 1;
    }
    proof {
        assert(bytes@.subrange(0, bytes@.len() as int) =~= bytes@);
    }
}

/// The full fixed-layout summary of `h`, line by line.
pub open spec fn render_spec(h: ElfHeader) -> Seq<Seq<char>> {
    seq![
        "ELF Header:"@,
        "  Magic:   "@ + magic_seq(h.ident@),
        "  Type:                              "@ + type_label(h.object_type),
        "  Machine:                           "@ + machine_label(h.machine),
        "  Version:                           0x"@ + hex_seq(h.version as nat),
        "  Entry point address:               0x"@ + hex_seq(h.entry as nat),
        "  Start of program headers:          "@ + dec_seq(h.program_header_offset as nat),
        "  Start of section headers:          "@ + dec_seq(h.section_header_offset as nat),
        "  Flags:                             0x"@ + hex_seq(h.flags as nat),
        "  Size of this header:               "@ + dec_seq(h.header_size as nat) + "(bytes)"@,
        "  Size of program headers:           "@ + dec_seq(h.program_header_entry_size as nat)
            + "(bytes)"@,
        "  Number of program headers:         "@ + dec_seq(h.program_header_count as nat),
        "  Size of section headers:           "@ + dec_seq(h.section_header_entry_size as nat)
            + " (bytes)"@,
        "  Number of section headers:         "@ + dec_seq(h.section_header_count as nat),
        "  Section header string table index: "@ + dec_seq(h.section_header_string_index as nat),
    ]
}

/// Renders the header as its textual summary, one `String` per line,
/// in the order and layout of `render_spec`.
pub fn render_header(h: &ElfHeader) -> (r: Vec<String>)
    ensures
        r@.len() == render_spec(*h).len(),
        forall|i: int| 0 <= i < r@.len() ==> r@[i]@ == render_spec(*h)[i],
{
    let mut lines: Vec<String> = Vec::new();

    lines.push(String::from_str("ELF Header:"));

    let mut magic = String::from_str("  Magic:   ");
    push_magic(&h.ident, &mut magic);
    lines.push(magic);

    let mut line_type = String::from_str("  Type:                              ");
    line_type.append(describe_type(h.object_type));
    lines.push(line_type);

    let mut line_machine = String::from_str("  Machine:                           ");
    line_machine.append(describe_machine(h.machine));
    lines.push(line_machine);

    let mut line_version = String::from_str("  Version:                           0x");
    push_hex(h.version as u64, &mut line_version);
    lines.push(line_version);

    let mut line_entry = String::from_str("  Entry point address:               0x");
    push_hex(h.entry, &mut line_entry);
    lines.push(line_entry);

    let mut line_phoff = String::from_str("  Start of program headers:          ");
    push_dec(h.program_header_offset, &mut line_phoff);
    lines.push(line_phoff);

    let mut line_shoff = String::from_str("  Start of section headers:          ");
    push_dec(h.section_header_offset, &mut line_shoff);
    lines.push(line_shoff);

    let mut line_flags = String::from_str("  Flags:                             0x");
    push_hex(h.flags as u64, &mut line_flags);
    lines.push(line_flags);

    let mut line_ehsize = String::from_str("  Size of this header:               ");
    push_dec(h.header_size as u64, &mut line_ehsize);
    line_ehsize.append("(bytes)");
    lines.push(line_ehsize);

    let mut line_phentsize = String::from_str("  Size of program headers:           ");
    push_dec(h.program_header_entry_size as u64, &mut line_phentsize);
    line_phentsize.append("(bytes)");
    lines.push(line_phentsize);

    let mut line_phnum = String::from_str("  Number of program headers:         ");
    push_dec(h.program_header_count as u64, &mut line_phnum);
    lines.push(line_phnum);

    let mut line_shentsize = String::from_str("  Size of section headers:           ");
    push_dec(h.section_header_entry_size as u64, &mut line_shentsize);
    line_shentsize.append(" (bytes)");
    lines.push(line_shentsize);

    let mut line_shnum = String::from_str("  Number of section headers:         ");
    push_dec(h.section_header_count as u64, &mut line_shnum);
    lines.push(line_shnum);

    let mut line_shstrndx = String::from_str("  Section header string table index: ");
    push_dec(h.section_header_string_index as u64, &mut line_shstrndx);
    lines.push(line_shstrndx);

    lines
}

} // verus!
