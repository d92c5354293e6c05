use elf_header::decode;
use elf_header::render_header;

/// Same sample executable header as in the decoding tests.
fn sample_header_bytes() -> Vec<u8> {
    let mut b: Vec<u8> = Vec::new();
    b.extend_from_slice(&[0x7f, 0x45, 0x4c, 0x46, 0x02, 0x01, 0x01, 0x00]);
    b.extend_from_slice(&[0x00, 0x00, 0x00, 0x00, 0x00, 0x00, 0x00, 0x00]);
    b.extend_from_slice(&[0x02, 0x00]);
    b.extend_from_slice(&[0x3e, 0x00]);
    b.extend_from_slice(&[0x01, 0x00, 0x00, 0x00]);
    b.extend_from_slice(&[0x20, 0x10, 0x40, 0x00, 0x00, 0x00, 0x00, 0x00]);
    b.extend_from_slice(&[0x40, 0x00, 0x00, 0x00, 0x00, 0x00, 0x00, 0x00]);
    b.extend_from_slice(&[0x00, 0x34, 0x00, 0x00, 0x00, 0x00, 0x00, 0x00]);
    b.extend_from_slice(&[0x00, 0x00, 0x00, 0x00]);
    b.extend_from_slice(&[0x40, 0x00]);
    b.extend_from_slice(&[0x38, 0x00]);
    b.extend_from_slice(&[0x09, 0x00]);
    b.extend_from_slice(&[0x40, 0x00]);
    b.extend_from_slice(&[0x1e, 0x00]);
    b.extend_from_slice(&[0x1d, 0x00]);
    b
}

#[test]
fn renders_sample_executable_header() {
    let h = decode(&sample_header_bytes()).unwrap();
    let lines = render_header(&h);
    let expected = vec![
        "ELF Header:",
        "  Magic:   7f 45 4c 46 02 01 01 00 00 00 00 00 00 00 00 00",
        "  Type:                              EXEC (Executable file)",
        "  Machine:                           X86_64 (AMD x86-64 architecture)",
        "  Version:                           0x1",
        "  Entry point address:               0x401020",
        "  Start of program headers:          64",
        "  Start of section headers:          13312",
        "  Flags:                             0x0",
        "  Size of this header:               64(bytes)",
        "  Size of program headers:           56(bytes)",
        "  Number of program headers:         9",
        "  Size of section headers:           64 (bytes)",
        "  Number of section headers:         30",
        "  Section header string table index: 29",
    ];
    assert_eq!(lines.len(), expected.len());
    for (line, want) in lines.iter().zip(expected.iter()) {
        assert_eq!(line, want);
    }
}

#[test]
fn renders_all_zero_header() {
    let bytes = vec![0u8; 64];
    let h = decode(&bytes).unwrap();
    let lines = render_header(&h);
    assert_eq!(
        lines[1],
        "  Magic:   00 00 00 00 00 00 00 00 00 00 00 00 00 00 00 00"
    );
    assert_eq!(lines[2], "  Type:                              NONE (No file type)");
    assert_eq!(lines[3], "  Machine:                           NONE (No machine)");
    assert_eq!(lines[4], "  Version:                           0x0");
    assert_eq!(lines[5], "  Entry point address:               0x0");
    assert_eq!(lines[6], "  Start of program headers:          0");
    assert_eq!(lines[8], "  Flags:                             0x0");
    assert_eq!(lines[9], "  Size of this header:               0(bytes)");
}

#[test]
fn renders_extreme_values() {
    let bytes = vec![0xffu8; 64];
    let h = decode(&bytes).unwrap();
    let lines = render_header(&h);
    assert_eq!(
        lines[1],
        "  Magic:   ff ff ff ff ff ff ff ff ff ff ff ff ff ff ff ff"
    );
    assert_eq!(lines[2], "  Type:                              UNKNOWN");
    assert_eq!(lines[3], "  Machine:                           UNKNOWN");
    assert_eq!(lines[4], "  Version:                           0xffffffff");
    assert_eq!(
        lines[5],
        "  Entry point address:               0xffffffffffffffff"
    );
    assert_eq!(
        lines[6],
        "  Start of program headers:          18446744073709551615"
    );
    assert_eq!(lines[13], "  Number of section headers:         65535");
}

#[test]
fn renders_unknown_but_rare_codes() {
    let mut bytes = vec![0u8; 64];
    bytes[16] = 5; // first object-type code past the recognized range
    bytes[18] = 1; // a machine code the table does not recognize
    let h = decode(&bytes).unwrap();
    let lines = render_header(&h);
    assert_eq!(lines[2], "  Type:                              UNKNOWN");
    assert_eq!(lines[3], "  Machine:                           UNKNOWN");
}
