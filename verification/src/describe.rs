//! Labels for the enumerated object-type and machine codes.
//!
//! Both lookups are pure and total: every 16-bit code yields a fixed
//! label, with `"UNKNOWN"` as the fallback for unrecognized codes.

use vstd::prelude::*;

verus! {

/// The label that `describe_type` returns for an object-type code.
pub open spec fn type_label(code: u16) -> Seq<char> {
    if code == 0 {
        "NONE (No file type)"@
    } else if code == 1 {
        "REL (Relocatable file)"@
    } else if code == 2 {
        "EXEC (Executable file)"@
    } else if code == 3 {
        "DYN (Shared object file)"@
    } else if code == 4 {
        "CORE (Core file)"@
    } else {
        "UNKNOWN"@
    }
}

/// The label that `describe_machine` returns for a machine code.
pub open spec fn machine_label(code: u16) -> Seq<char> {
    if code == 0 {
        "NONE (No machine)"@
    } else if code == 3 {
        "i386 (Intel 80386)"@
    } else if code == 62 {
        "X86_64 (AMD x86-64 architecture)"@
    } else {
        "UNKNOWN"@
    }
}

/// Totality law: both lookups are defined for every 16-bit code — each
/// code yields a fixed, non-empty label, with `"UNKNOWN"` for every
/// code outside the recognized sets.  Determinism is inherent: the
/// labels are functions of the code alone.
pub proof fn lemma_labels_total(code: u16)
    ensures
        type_label(code).len() > 0,
        machine_label(code).len() > 0,
        code > 4 ==> type_label(code) == "UNKNOWN"@,
        !(code == 0 || code == 3 || code == 62) ==> machine_label(code) == "UNKNOWN"@,
{
    reveal_strlit("NONE (No file type)");
    reveal_strlit("REL (Relocatable file)");
    reveal_strlit("EXEC (Executable file)");
    reveal_strlit("DYN (Shared object file)");
    reveal_strlit("CORE (Core file)");
    reveal_strlit("NONE (No machine)");
    reveal_strlit("i386 (Intel 80386)");
    reveal_strlit("X86_64 (AMD x86-64 architecture)");
    reveal_strlit("UNKNOWN");
}

/// Descriptive label for an ELF object-type code; `"UNKNOWN"` for any
/// code outside the five recognized ones.
pub fn describe_type(code: u16) -> (r: &'static str)
    ensures
        r@ == type_label(code),
{
    match code {
        0 => "NONE (No file type)",
        1 => "REL (Relocatable file)",
        2 => "EXEC (Executable file)",
        3 => "DYN (Shared object file)",
        4 => "CORE (Core file)",
        _ => "UNKNOWN",
    }
}

/// Descriptive label for an ELF machine code; `"UNKNOWN"` for any code
/// outside the three recognized ones.
pub fn describe_machine(code: u16) -> (r: &'static str)
    ensures
        r@ == machine_label(code),
{
    match code {
        0 => "NONE (No machine)",
        3 => "i386 (Intel 80386)",
        62 => "X86_64 (AMD x86-64 architecture)",
        _ => "UNKNOWN",
    }
}

} // verus!
