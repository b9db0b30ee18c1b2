//! Decoder for executable-and-linkable object files: the file header, the
//! program (segment) header table and the section header table, with section
//! names resolved through the section-name string table.
//!
//! Every decoder reads from an immutable byte image through an explicit,
//! bounds-checked position, and its contract states the decoded value in
//! terms of the bytes at fixed offsets. A read past the end of the image is
//! the error `OutOfBounds`, never a panic.
//!
//! The header is decoded all or nothing: the first invalid field ends the
//! decode with its error. Both header tables are decoded entry by entry: an
//! entry that cannot be decoded is left out and reported in the table's
//! `errors`, and the entries that can are kept. Unrecognised segment types,
//! section types and flag values are not errors; they are kept with their
//! raw value.

pub mod binary;
pub mod bytes;
pub mod error;
pub mod header;
pub mod header_image;
pub mod program;
pub mod section;

pub use bytes::{ElfEndianness, ElfPlatformType};
pub use error::ElfError;
