//! The ELF64 file header: a typed record of the first 64 bytes of a
//! binary, decoded field by field at fixed offsets with little-endian
//! integer decoding, together with the inverse encoding.

use vstd::bytes::*;
use vstd::prelude::*;
use vstd::slice::*;

verus! {

/// Number of bytes in the `ident` field.
pub const IDENT_LEN: usize = 16;

/// Number of bytes in the whole ELF64 file header.
pub const HEADER_LEN: usize = 64;

/// Failure to obtain the 64 header bytes: the source ended (or failed)
/// before a full header could be read.
#[derive(Clone, Copy, Debug, PartialEq, Eq, Structural)]
pub struct IoError;

/// The ELF64 file header, one typed field per byte range of the
/// 64-byte layout.
pub struct ElfHeader {
    /// Bytes 0..16: magic number, class, data encoding, version,
    /// OS/ABI, ABI version and padding, kept as raw bytes.
    pub ident: Vec<u8>,
    /// Bytes 16..18: enumerated class of the file.
    pub object_type: u16,
    /// Bytes 18..20: enumerated target architecture.
    pub machine: u16,
    /// Bytes 20..24: object file version.
    pub version: u32,
    /// Bytes 24..32: virtual address of the program entry point.
    pub entry: u64,
    /// Bytes 32..40: byte offset of the program header table.
    pub program_header_offset: u64,
    /// Bytes 40..48: byte offset of the section header table.
    pub section_header_offset: u64,
    /// Bytes 48..52: processor-specific flags.
    pub flags: u32,
    /// Bytes 52..54: size of this header.
    pub header_size: u16,
    /// Bytes 54..56: size of one program header entry.
    pub program_header_entry_size: u16,
    /// Bytes 56..58: number of program header entries.
    pub program_header_count: u16,
    /// Bytes 58..60: size of one section header entry.
    pub section_header_entry_size: u16,
    /// Bytes 60..62: number of section header entries.
    pub section_header_count: u16,
    /// Bytes 62..64: index of the section name string table.
    pub section_header_string_index: u16,
}

impl ElfHeader {
    /// A well-formed header carries exactly the sixteen `ident` bytes.
    pub open spec fn wf(self) -> bool {
        self.ident@.len() == IDENT_LEN
    }
}

/// The header that the first 64 bytes of `s` decode to: every field is
/// the little-endian reinterpretation of its byte range.
pub open spec fn decodes_to(s: Seq<u8>, h: ElfHeader) -> bool {
    &&& h.ident@ == s.subrange(0, 16)
    &&& h.object_type == spec_u16_from_le_bytes(s.subrange(16, 18))
    &&& h.machine == spec_u16_from_le_bytes(s.subrange(18, 20))
    &&& h.version == spec_u32_from_le_bytes(s.subrange(20, 24))
    &&& h.entry == spec_u64_from_le_bytes(s.subrange(24, 32))
    &&& h.program_header_offset == spec_u64_from_le_bytes(s.subrange(32, 40))
    &&& h.section_header_offset == spec_u64_from_le_bytes(s.subrange(40, 48))
    &&& h.flags == spec_u32_from_le_bytes(s.subrange(48, 52))
    &&& h.header_size == spec_u16_from_le_bytes(s.subrange(52, 54))
    &&& h.program_header_entry_size == spec_u16_from_le_bytes(s.subrange(54, 56))
    &&& h.program_header_count == spec_u16_from_le_bytes(s.subrange(56, 58))
    &&& h.section_header_entry_size == spec_u16_from_le_bytes(s.subrange(58, 60))
    &&& h.section_header_count == spec_u16_from_le_bytes(s.subrange(60, 62))
    &&& h.section_header_string_index == spec_u16_from_le_bytes(s.subrange(62, 64))
}

/// The 64 bytes that `h` encodes to under the same layout.
pub open spec fn encoding_of(h: ElfHeader) -> Seq<u8> {
    h.ident@ + spec_u16_to_le_bytes(h.object_type) + spec_u16_to_le_bytes(h.machine)
        + spec_u32_to_le_bytes(h.version) + spec_u64_to_le_bytes(h.entry) + spec_u64_to_le_bytes(
        h.program_header_offset,
    ) + spec_u64_to_le_bytes(h.section_header_offset) + spec_u32_to_le_bytes(h.flags)
        + spec_u16_to_le_bytes(h.header_size) + spec_u16_to_le_bytes(h.program_header_entry_size)
        + spec_u16_to_le_bytes(h.program_header_count) + spec_u16_to_le_bytes(
        h.section_header_entry_size,
    ) + spec_u16_to_le_bytes(h.section_header_count) + spec_u16_to_le_bytes(
        h.section_header_string_index,
    )
}

/// Decodes the first 64 bytes of `bytes` into an `ElfHeader`.
///
/// Succeeds exactly when at least 64 bytes are available; a shorter
/// input yields `IoError` and no partial record.  No validation of the
/// magic number or any field value is performed.
pub fn decode(bytes: &[u8]) -> (r: Result<ElfHeader, IoError>)
    ensures
        r is Ok <==> bytes@.len() >= HEADER_LEN,
        r matches Ok(h) ==> h.wf() && decodes_to(bytes@, h),
{
    if bytes.len() < HEADER_LEN {
        return Err(IoError);
    }
    let ident = slice_to_vec(slice_subrange(bytes, 0, 16));
    let h = ElfHeader {
        ident,
        object_type: u16_from_le_bytes(slice_subrange(bytes, 16, 18)),
        machine: u16_from_le_bytes(slice_subrange(bytes, 18, 20)),
        version: u32_from_le_bytes(slice_subrange(bytes, 20, 24)),
        entry: u64_from_le_bytes(slice_subrange(bytes, 24, 32)),
        program_header_offset: u64_from_le_bytes(slice_subrange(bytes, 32, 40)),
        section_header_offset: u64_from_le_bytes(slice_subrange(bytes, 40, 48)),
        flags: u32_from_le_bytes(slice_subrange(bytes, 48, 52)),
        header_size: u16_from_le_bytes(slice_subrange(bytes, 52, 54)),
        program_header_entry_size: u16_from_le_bytes(slice_subrange(bytes, 54, 56)),
        program_header_count: u16_from_le_bytes(slice_subrange(bytes, 56, 58)),
        section_header_entry_size: u16_from_le_bytes(slice_subrange(bytes, 58, 60)),
        section_header_count: u16_from_le_bytes(slice_subrange(bytes, 60, 62)),
        section_header_string_index: u16_from_le_bytes(slice_subrange(bytes, 62, 64)),
    };
    Ok(h)
}

/// Appends the bytes of `src` to `dst`.
fn extend_bytes(dst: &mut Vec<u8>, src: &Vec<u8>)
    ensures
        final(dst)@ == old(dst)@ + src@,
{
    let mut i: usize = 0;
    while i < src.len()
        invariant
            i <= src@.len(),
            dst@ == old(dst)@ + src@.subrange(0, i as int),
        decreases src@.len() - i,
    {
        dst.push(src[i]);
        i = i + 1;
        proof {
            assert(dst@ =~= old(dst)@ + src@.subrange(0, i as int));
        }
    }
    proof {
        assert(dst@ =~= old(dst)@ + src@);
    }
}

/// Encodes `h` back into the 64-byte layout it was decoded from.
pub fn encode(h: &ElfHeader) -> (r: Vec<u8>)
    requires
        h.wf(),
    ensures
        r@ == encoding_of(*h),
        r@.len() == HEADER_LEN,
{
    let mut out: Vec<u8> = Vec::new();
    extend_bytes(&mut out, &h.ident);
    extend_bytes(&mut out, &u16_to_le_bytes(h.object_type));
    extend_bytes(&mut out, &u16_to_le_bytes(h.machine));
    extend_bytes(&mut out, &u32_to_le_bytes(h.version));
    extend_bytes(&mut out, &u64_to_le_bytes(h.entry));
    extend_bytes(&mut out, &u64_to_le_bytes(h.program_header_offset));
    extend_bytes(&mut out, &u64_to_le_bytes(h.section_header_offset));
    extend_bytes(&mut out, &u32_to_le_bytes(h.flags));
    extend_bytes(&mut out, &u16_to_le_bytes(h.header_size));
    extend_bytes(&mut out, &u16_to_le_bytes(h.program_header_entry_size));
    extend_bytes(&mut out, &u16_to_le_bytes(h.program_header_count));
    extend_bytes(&mut out, &u16_to_le_bytes(h.section_header_entry_size));
    extend_bytes(&mut out, &u16_to_le_bytes(h.section_header_count));
    extend_bytes(&mut out, &u16_to_le_bytes(h.section_header_string_index));
    proof {
        lemma_auto_spec_u16_to_from_le_bytes();
        lemma_auto_spec_u32_to_from_le_bytes();
        lemma_auto_spec_u64_to_from_le_bytes();
        assert(out@ =~= encoding_of(*h));
    }
    out
}

/// Round-trip law: a record decoded from 64 bytes encodes back to
/// exactly those bytes, since decoding is pure reinterpretation.
pub proof fn lemma_decode_encode_round_trip(s: Seq<u8>, h: ElfHeader)
    requires
        s.len() == HEADER_LEN,
        decodes_to(s, h),
    ensures
        encoding_of(h) == s,
{
    lemma_auto_spec_u16_to_from_le_bytes();
    lemma_auto_spec_u32_to_from_le_bytes();
    lemma_auto_spec_u64_to_from_le_bytes();
    assert(encoding_of(h) =~= s);
}

} // verus!
