use elf_header::describe_machine;
use elf_header::describe_type;

#[test]
fn object_type_labels() {
    assert_eq!(describe_type(0), "NONE (No file type)");
    assert_eq!(describe_type(1), "REL (Relocatable file)");
    assert_eq!(describe_type(2), "EXEC (Executable file)");
    assert_eq!(describe_type(3), "DYN (Shared object file)");
    assert_eq!(describe_type(4), "CORE (Core file)");
}

#[test]
fn object_type_unknown_codes() {
    assert_eq!(describe_type(5), "UNKNOWN");
    assert_eq!(describe_type(100), "UNKNOWN");
    assert_eq!(describe_type(u16::MAX), "UNKNOWN");
}

#[test]
fn machine_labels() {
    assert_eq!(describe_machine(0), "NONE (No machine)");
    assert_eq!(describe_machine(3), "i386 (Intel 80386)");
    assert_eq!(describe_machine(62), "X86_64 (AMD x86-64 architecture)");
}

#[test]
fn machine_unknown_codes() {
    assert_eq!(describe_machine(1), "UNKNOWN");
    assert_eq!(describe_machine(2), "UNKNOWN");
    assert_eq!(describe_machine(61), "UNKNOWN");
    assert_eq!(describe_machine(63), "UNKNOWN");
    assert_eq!(describe_machine(u16::MAX), "UNKNOWN");
}

#[test]
fn lookups_are_deterministic_and_total() {
    for code in 0..=u16::MAX {
        let a = describe_type(code);
        let b = describe_type(code);
        assert_eq!(a, b);
        assert!(!a.is_empty());
        let c = describe_machine(code);
        let d = describe_machine(code);
        assert_eq!(c, d);
        assert!(!c.is_empty());
    }
}
