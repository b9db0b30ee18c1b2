use vstd::prelude::*;

verus! {

/// Why a decode step failed.
#[derive(Debug, Clone, Copy, PartialEq, Eq, Structural)]
pub enum ElfError {
    /// A read would go past the end of the byte image.
    OutOfBounds,
    /// The first four bytes are not `0x7F 'E' 'L' 'F'`.
    MalformedMagic,
    /// The word-class byte is neither 1 (32-bit) nor 2 (64-bit).
    UnsupportedClass,
    /// The byte-order byte is neither 1 (little) nor 2 (big).
    UnsupportedEncoding,
    /// The OS/ABI byte names no known ABI.
    UnsupportedAbi,
    /// The object-file-type field names no known type.
    UnsupportedObjectFileType,
    /// The machine field names no known instruction set.
    UnsupportedInstructionSet,
    /// The file to decode is empty.
    EmptyFile,
}

/// A table entry that could not be decoded, by its index in the table.
#[derive(Debug, Clone, Copy, PartialEq, Eq, Structural)]
pub struct ElfEntryError {
    pub index: usize,
    pub error: ElfError,
}

} // verus!
