//! Decoding and rendering of the ELF64 file header.
//!
//! The library interprets the fixed 64-byte header layout of an ELF64
//! binary into a typed record, maps the enumerated type and machine
//! codes to descriptive labels, and renders the record as the familiar
//! one-field-per-line textual summary.  All of it is verified; the thin
//! I/O shell (opening the file and printing the lines) lives outside.

pub mod describe;
pub mod header;
pub mod render;

pub use describe::describe_machine;
pub use describe::describe_type;
pub use header::decode;
pub use header::encode;
pub use header::ElfHeader;
pub use header::IoError;
pub use render::render_header;
