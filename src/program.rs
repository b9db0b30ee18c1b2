//! The program header table: one entry per segment, laid out differently
//! for 32-bit and 64-bit files.
use vstd::prelude::*;

use crate::bytes::{fits, read_u32, read_word, value_at, word_len, ElfEndianness, ElfPlatformType};
use crate::error::{ElfEntryError, ElfError};
use crate::header::ElfProgramHeaderEntryCount;

verus! {

/// Kind of a segment. Codes outside the named ones and the two reserved
/// ranges are kept in `PtUnknown`.
#[derive(Debug, Clone, Copy, PartialEq, Eq, Structural)]
pub enum ElfSegmentType {
    /// Unused entry.
    PtNull,
    /// Loadable segment.
    PtLoad,
    /// Dynamic linking information.
    PtDynamic,
    /// Interpreter path.
    PtInterp,
    /// Auxiliary notes.
    PtNote,
    /// Reserved.
    PtShlib,
    /// The program header table itself.
    PtPhdr,
    /// Thread-local storage template.
    PtTls,
    /// A code in the operating-system range 0x60000000 to 0x6FFFFFFF.
    PtOsSpecific(u32),
    /// A code in the processor range 0x70000000 to 0x7FFFFFFF.
    PtProcessorSpecific(u32),
    /// Any other code.
    PtUnknown(u32),
}

/// Permission flags of a segment. Only a value with exactly one of the three
/// known bits is named; every other value, combinations included, is kept
/// in `PfUnknown`.
#[derive(Debug, Clone, Copy, PartialEq, Eq, Structural)]
pub enum ElfSegmentFlags {
    /// Executable (1).
    PfX,
    /// Writable (2).
    PfW,
    /// Readable (4).
    PfR,
    PfUnknown(u32),
}

/// File offset of the segment.
#[derive(Debug, Clone, Copy, PartialEq, Eq, Structural)]
pub struct ElfSegmentOffset(pub u64);

/// Virtual address of the segment in memory.
#[derive(Debug, Clone, Copy, PartialEq, Eq, Structural)]
pub struct ElfSegmentVAddr(pub u64);

/// Physical address of the segment, where that is relevant.
#[derive(Debug, Clone, Copy, PartialEq, Eq, Structural)]
pub struct ElfSegmentPAddr(pub u64);

/// Size of the segment in the file.
#[derive(Debug, Clone, Copy, PartialEq, Eq, Structural)]
pub struct ElfSegmentFileSize(pub u64);

/// Size of the segment in memory.
#[derive(Debug, Clone, Copy, PartialEq, Eq, Structural)]
pub struct ElfSegmentMemorySize(pub u64);

/// Alignment of the segment: 0 or 1 for none, else a power of two.
#[derive(Debug, Clone, Copy, PartialEq, Eq, Structural)]
pub struct ElfSegmentAllignment(pub u64);

/// One decoded program header entry.
#[derive(Debug, Clone, Copy, PartialEq, Eq, Structural)]
pub struct ElfProgramHeaderEntry {
    pub segment_type: ElfSegmentType,
    pub segment_flags: ElfSegmentFlags,
    pub segment_offset: ElfSegmentOffset,
    pub segment_vaddr: ElfSegmentVAddr,
    pub segment_paddr: ElfSegmentPAddr,
    pub segment_file_size: ElfSegmentFileSize,
    pub segment_memory_size: ElfSegmentMemorySize,
    pub segment_allignment: ElfSegmentAllignment,
}

/// The decoded program header table: the entries that could be decoded, in
/// table order, and one error for each entry that could not.
#[derive(Debug)]
pub struct ElfProgramHeader {
    pub inner: Vec<ElfProgramHeaderEntry>,
    pub errors: Vec<ElfEntryError>,
}

impl ElfProgramHeader {
    /// A table with no entries.
    pub fn empty() -> (r: ElfProgramHeader)
        ensures
            r.inner@.len() == 0,
            r.errors@.len() == 0,
    {
        ElfProgramHeader { inner: Vec::new(), errors: Vec::new() }
    }

    /// The decoded entries.
    pub fn inner(self) -> (r: Vec<ElfProgramHeaderEntry>)
        ensures
            r@ == self.inner@,
    {
        self.inner
    }
}

/// Segment type named by a type code.
pub open spec fn segment_type_of(code: u32) -> ElfSegmentType {
    if code == 0 {
        ElfSegmentType::PtNull
    } else if code == 1 {
        ElfSegmentType::PtLoad
    } else if code == 2 {
        ElfSegmentType::PtDynamic
    } else if code == 3 {
        ElfSegmentType::PtInterp
    } else if code == 4 {
        ElfSegmentType::PtNote
    } else if code == 5 {
        ElfSegmentType::PtShlib
    } else if code == 6 {
        ElfSegmentType::PtPhdr
    } else if code == 7 {
        ElfSegmentType::PtTls
    } else if 0x60000000 <= code <= 0x6FFFFFFF {
        ElfSegmentType::PtOsSpecific(code)
    } else if 0x70000000 <= code <= 0x7FFFFFFF {
        ElfSegmentType::PtProcessorSpecific(code)
    } else {
        ElfSegmentType::PtUnknown(code)
    }
}

/// Segment flags named by a raw flags value.
pub open spec fn segment_flags_of(v: u32) -> ElfSegmentFlags {
    if v == 1 {
        ElfSegmentFlags::PfX
    } else if v == 2 {
        ElfSegmentFlags::PfW
    } else if v == 4 {
        ElfSegmentFlags::PfR
    } else {
        ElfSegmentFlags::PfUnknown(v)
    }
}

/// Size in bytes of one program header entry under `class`.
pub open spec fn program_entry_len(class: ElfPlatformType) -> int {
    match class {
        ElfPlatformType::Bit32 => 32,
        ElfPlatformType::Bit64 => 56,
    }
}

/// The program header entry held by the bytes of `c` at `p`. The 64-bit
/// layout puts the flags right after the type; the 32-bit layout puts them
/// after the memory size.
pub open spec fn program_entry_at(
    c: Seq<u8>,
    p: int,
    o: ElfEndianness,
    class: ElfPlatformType,
) -> ElfProgramHeaderEntry {
    match class {
        ElfPlatformType::Bit64 => ElfProgramHeaderEntry {
            segment_type: segment_type_of(value_at(c, p, 4, o) as u32),
            segment_flags: segment_flags_of(value_at(c, p + 4, 4, o) as u32),
            segment_offset: ElfSegmentOffset(value_at(c, p + 8, 8, o) as u64),
            segment_vaddr: ElfSegmentVAddr(value_at(c, p + 16, 8, o) as u64),
            segment_paddr: ElfSegmentPAddr(value_at(c, p + 24, 8, o) as u64),
            segment_file_size: ElfSegmentFileSize(value_at(c, p + 32, 8, o) as u64),
            segment_memory_size: ElfSegmentMemorySize(value_at(c, p + 40, 8, o) as u64),
            segment_allignment: ElfSegmentAllignment(value_at(c, p + 48, 8, o) as u64),
        },
        ElfPlatformType::Bit32 => ElfProgramHeaderEntry {
            segment_type: segment_type_of(value_at(c, p, 4, o) as u32),
            segment_offset: ElfSegmentOffset(value_at(c, p + 4, 4, o) as u64),
            segment_vaddr: ElfSegmentVAddr(value_at(c, p + 8, 4, o) as u64),
            segment_paddr: ElfSegmentPAddr(value_at(c, p + 12, 4, o) as u64),
            segment_file_size: ElfSegmentFileSize(value_at(c, p + 16, 4, o) as u64),
            segment_memory_size: ElfSegmentMemorySize(value_at(c, p + 20, 4, o) as u64),
            segment_flags: segment_flags_of(value_at(c, p + 24, 4, o) as u32),
            segment_allignment: ElfSegmentAllignment(value_at(c, p + 28, 4, o) as u64),
        },
    }
}

/// Whether `t` is the program header table of `count` entries at `off`:
/// every entry that lies inside `c` is decoded, in order, and each entry past
/// the end of `c` has an `OutOfBounds` error instead.
pub open spec fn program_table_matches(
    c: Seq<u8>,
    off: int,
    count: int,
    o: ElfEndianness,
    class: ElfPlatformType,
    t: ElfProgramHeader,
) -> bool {
    let n = t.inner@.len() as int;
    let len = program_entry_len(class);
    &&& n <= count
    &&& forall|i: int|
        0 <= i < n ==> fits(c, off + i * len, len) && #[trigger] t.inner@[i] == program_entry_at(
            c,
            off + i * len,
            o,
            class,
        )
    &&& n < count ==> !fits(c, off + n * len, len)
    &&& t.errors@.len() == count - n
    &&& forall|j: int|
        0 <= j < count - n ==> #[trigger] t.errors@[j] == (ElfEntryError {
            index: (n + j) as usize,
            error: ElfError::OutOfBounds,
        })
}

/// Decodes an address-sized number (four bytes in 32-bit files, eight in
/// 64-bit ones) at `*pointer` and moves past it.
pub fn parse_segment_usize_t(
    pointer: &mut usize,
    content: &[u8],
    endian: &ElfEndianness,
    platform: &ElfPlatformType,
) -> (r: Result<u64, ElfError>)
    ensures
        match r {
            Ok(f) => {
                &&& fits(content@, *old(pointer) as int, word_len(*platform))
                &&& f == value_at(content@, *old(pointer) as int, word_len(*platform), *endian)
                &&& *final(pointer) == *old(pointer) + word_len(*platform)
            },
            Err(e) => {
                &&& !fits(content@, *old(pointer) as int, word_len(*platform))
                &&& e == ElfError::OutOfBounds
                &&& *final(pointer) == *old(pointer)
            },
        },
{
    read_word(pointer, content, endian, platform)
}

/// Decodes the segment alignment (one word) at `*pointer` and moves past it.
pub fn parse_segment_allignment(
    pointer: &mut usize,
    content: &[u8],
    endian: &ElfEndianness,
    platform: &ElfPlatformType,
) -> (r: Result<ElfSegmentAllignment, ElfError>)
    ensures
        match r {
            Ok(f) => {
                &&& fits(content@, *old(pointer) as int, word_len(*platform))
                &&& f.0 == value_at(content@, *old(pointer) as int, word_len(*platform), *endian)
                &&& *final(pointer) == *old(pointer) + word_len(*platform)
            },
            Err(e) => {
                &&& !fits(content@, *old(pointer) as int, word_len(*platform))
                &&& e == ElfError::OutOfBounds
                &&& *final(pointer) == *old(pointer)
            },
        },
{
    match parse_segment_usize_t(pointer, content, endian, platform) {
        Ok(v) => Ok(ElfSegmentAllignment(v)),
        Err(e) => Err(e),
    }
}

/// Decodes the segment memory size (one word) at `*pointer` and moves past it.
pub fn parse_segment_memory_size(
    pointer: &mut usize,
    content: &[u8],
    endian: &ElfEndianness,
    platform: &ElfPlatformType,
) -> (r: Result<ElfSegmentMemorySize, ElfError>)
    ensures
        match r {
            Ok(f) => {
                &&& fits(content@, *old(pointer) as int, word_len(*platform))
                &&& f.0 == value_at(content@, *old(pointer) as int, word_len(*platform), *endian)
                &&& *final(pointer) == *old(pointer) + word_len(*platform)
            },
            Err(e) => {
                &&& !fits(content@, *old(pointer) as int, word_len(*platform))
                &&& e == ElfError::OutOfBounds
                &&& *final(pointer) == *old(pointer)
            },
        },
{
    match parse_segment_usize_t(pointer, content, endian, platform) {
        Ok(v) => Ok(ElfSegmentMemorySize(v)),
        Err(e) => Err(e),
    }
}

/// Decodes the segment file size (one word) at `*pointer` and moves past it.
pub fn parse_segment_file_size(
    pointer: &mut usize,
    content: &[u8],
    endian: &ElfEndianness,
    platform: &ElfPlatformType,
) -> (r: Result<ElfSegmentFileSize, ElfError>)
    ensures
        match r {
            Ok(f) => {
                &&& fits(content@, *old(pointer) as int, word_len(*platform))
                &&& f.0 == value_at(content@, *old(pointer) as int, word_len(*platform), *endian)
                &&& *final(pointer) == *old(pointer) + word_len(*platform)
            },
            Err(e) => {
                &&& !fits(content@, *old(pointer) as int, word_len(*platform))
                &&& e == ElfError::OutOfBounds
                &&& *final(pointer) == *old(pointer)
            },
        },
{
    match parse_segment_usize_t(pointer, content, endian, platform) {
        Ok(v) => Ok(ElfSegmentFileSize(v)),
        Err(e) => Err(e),
    }
}

/// Decodes the segment physical address (one word) at `*pointer` and moves past it.
pub fn parse_segment_paddr(
    pointer: &mut usize,
    content: &[u8],
    endian: &ElfEndianness,
    platform: &ElfPlatformType,
) -> (r: Result<ElfSegmentPAddr, ElfError>)
    ensures
        match r {
            Ok(f) => {
                &&& fits(content@, *old(pointer) as int, word_len(*platform))
                &&& f.0 == value_at(content@, *old(pointer) as int, word_len(*platform), *endian)
                &&& *final(pointer) == *old(pointer) + word_len(*platform)
            },
            Err(e) => {
                &&& !fits(content@, *old(pointer) as int, word_len(*platform))
                &&& e == ElfError::OutOfBounds
                &&& *final(pointer) == *old(pointer)
            },
        },
{
    match parse_segment_usize_t(pointer, content, endian, platform) {
        Ok(v) => Ok(ElfSegmentPAddr(v)),
        Err(e) => Err(e),
    }
}

/// Decodes the segment virtual address (one word) at `*pointer` and moves past it.
pub fn parse_segment_vaddr(
    pointer: &mut usize,
    content: &[u8],
    endian: &ElfEndianness,
    platform: &ElfPlatformType,
) -> (r: Result<ElfSegmentVAddr, ElfError>)
    ensures
        match r {
            Ok(f) => {
                &&& fits(content@, *old(pointer) as int, word_len(*platform))
                &&& f.0 == value_at(content@, *old(pointer) as int, word_len(*platform), *endian)
                &&& *final(pointer) == *old(pointer) + word_len(*platform)
            },
            Err(e) => {
                &&& !fits(content@, *old(pointer) as int, word_len(*platform))
                &&& e == ElfError::OutOfBounds
                &&& *final(pointer) == *old(pointer)
            },
        },
{
    match parse_segment_usize_t(pointer, content, endian, platform) {
        Ok(v) => Ok(ElfSegmentVAddr(v)),
        Err(e) => Err(e),
    }
}

/// Decodes the segment file offset (one word) at `*pointer` and moves past it.
pub fn parse_segment_offset(
    pointer: &mut usize,
    content: &[u8],
    endian: &ElfEndianness,
    platform: &ElfPlatformType,
) -> (r: Result<ElfSegmentOffset, ElfError>)
    ensures
        match r {
            Ok(f) => {
                &&& fits(content@, *old(pointer) as int, word_len(*platform))
                &&& f.0 == value_at(content@, *old(pointer) as int, word_len(*platform), *endian)
                &&& *final(pointer) == *old(pointer) + word_len(*platform)
            },
            Err(e) => {
                &&& !fits(content@, *old(pointer) as int, word_len(*platform))
                &&& e == ElfError::OutOfBounds
                &&& *final(pointer) == *old(pointer)
            },
        },
{
    match parse_segment_usize_t(pointer, content, endian, platform) {
        Ok(v) => Ok(ElfSegmentOffset(v)),
        Err(e) => Err(e),
    }
}

/// Decodes the segment flags (4 bytes) at `*pointer` and moves past them.
pub fn parse_segment_flags(
    pointer: &mut usize,
    content: &[u8],
    endian: &ElfEndianness,
) -> (r: Result<ElfSegmentFlags, ElfError>)
    ensures
        match r {
            Ok(f) => {
                &&& fits(content@, *old(pointer) as int, 4)
                &&& f == segment_flags_of(
                    value_at(content@, *old(pointer) as int, 4, *endian) as u32,
                )
                &&& *final(pointer) == *old(pointer) + 4
            },
            Err(e) => {
                &&& !fits(content@, *old(pointer) as int, 4)
                &&& e == ElfError::OutOfBounds
                &&& *final(pointer) == *old(pointer)
            },
        },
{
    match read_u32(pointer, content, endian) {
        Ok(v) => Ok(
            if v == 1 {
                ElfSegmentFlags::PfX
            } else if v == 2 {
                ElfSegmentFlags::PfW
            } else if v == 4 {
                ElfSegmentFlags::PfR
            } else {
                ElfSegmentFlags::PfUnknown(v)
            },
        ),
        Err(e) => Err(e),
    }
}

/// Decodes the segment type (4 bytes) at `*pointer` and moves past it.
pub fn parse_segment_type(
    pointer: &mut usize,
    content: &[u8],
    endian: &ElfEndianness,
) -> (r: Result<ElfSegmentType, ElfError>)
    ensures
        match r {
            Ok(f) => {
                &&& fits(content@, *old(pointer) as int, 4)
                &&& f == segment_type_of(
                    value_at(content@, *old(pointer) as int, 4, *endian) as u32,
                )
                &&& *final(pointer) == *old(pointer) + 4
            },
            Err(e) => {
                &&& !fits(content@, *old(pointer) as int, 4)
                &&& e == ElfError::OutOfBounds
                &&& *final(pointer) == *old(pointer)
            },
        },
{
    match read_u32(pointer, content, endian) {
        Ok(code) => Ok(
            if code == 0 {
                ElfSegmentType::PtNull
            } else if code == 1 {
                ElfSegmentType::PtLoad
            } else if code == 2 {
                ElfSegmentType::PtDynamic
            } else if code == 3 {
                ElfSegmentType::PtInterp
            } else if code == 4 {
                ElfSegmentType::PtNote
            } else if code == 5 {
                ElfSegmentType::PtShlib
            } else if code == 6 {
                ElfSegmentType::PtPhdr
            } else if code == 7 {
                ElfSegmentType::PtTls
            } else if 0x60000000 <= code && code <= 0x6FFFFFFF {
                ElfSegmentType::PtOsSpecific(code)
            } else if 0x70000000 <= code && code <= 0x7FFFFFFF {
                ElfSegmentType::PtProcessorSpecific(code)
            } else {
                ElfSegmentType::PtUnknown(code)
            },
        ),
        Err(e) => Err(e),
    }
}

/// Decodes one 64-bit program header entry at `*pointer`.
fn parse_program_entry64(pointer: &mut usize, content: &[u8], endian: &ElfEndianness) -> (r: Result<
    ElfProgramHeaderEntry,
    ElfError,
>)
    ensures
        match r {
            Ok(entry) => {
                &&& fits(content@, *old(pointer) as int, 56)
                &&& entry == program_entry_at(
                    content@,
                    *old(pointer) as int,
                    *endian,
                    ElfPlatformType::Bit64,
                )
                &&& *final(pointer) == *old(pointer) + 56
            },
            Err(e) => {
                &&& !fits(content@, *old(pointer) as int, 56)
                &&& e == ElfError::OutOfBounds
                &&& *final(pointer) == *old(pointer)
            },
        },
{
    let platform = ElfPlatformType::Bit64;
    let mut q = *pointer;
    let segment_type = match parse_segment_type(&mut q, content, endian) {
        Ok(v) => v,
        Err(e) => return Err(e),
    };
    let segment_flags = match parse_segment_flags(&mut q, content, endian) {
        Ok(v) => v,
        Err(e) => return Err(e),
    };
    let segment_offset = match parse_segment_offset(&mut q, content, endian, &platform) {
        Ok(v) => v,
        Err(e) => return Err(e),
    };
    let segment_vaddr = match parse_segment_vaddr(&mut q, content, endian, &platform) {
        Ok(v) => v,
        Err(e) => return Err(e),
    };
    let segment_paddr = match parse_segment_paddr(&mut q, content, endian, &platform) {
        Ok(v) => v,
        Err(e) => return Err(e),
    };
    let segment_file_size = match parse_segment_file_size(&mut q, content, endian, &platform) {
        Ok(v) => v,
        Err(e) => return Err(e),
    };
    let segment_memory_size = match parse_segment_memory_size(&mut q, content, endian, &platform) {
        Ok(v) => v,
        Err(e) => return Err(e),
    };
    let segment_allignment = match parse_segment_allignment(&mut q, content, endian, &platform) {
        Ok(v) => v,
        Err(e) => return Err(e),
    };
    *pointer = q;
    Ok(
        ElfProgramHeaderEntry {
            segment_type,
            segment_flags,
            segment_offset,
            segment_vaddr,
            segment_paddr,
            segment_file_size,
            segment_memory_size,
            segment_allignment,
        },
    )
}

/// Decodes one 32-bit program header entry at `*pointer`.
fn parse_program_entry32(pointer: &mut usize, content: &[u8], endian: &ElfEndianness) -> (r: Result<
    ElfProgramHeaderEntry,
    ElfError,
>)
    ensures
        match r {
            Ok(entry) => {
                &&& fits(content@, *old(pointer) as int, 32)
                &&& entry == program_entry_at(
                    content@,
                    *old(pointer) as int,
                    *endian,
                    ElfPlatformType::Bit32,
                )
                &&& *final(pointer) == *old(pointer) + 32
            },
            Err(e) => {
                &&& !fits(content@, *old(pointer) as int, 32)
                &&& e == ElfError::OutOfBounds
                &&& *final(pointer) == *old(pointer)
            },
        },
{
    let platform = ElfPlatformType::Bit32;
    let mut q = *pointer;
    let segment_type = match parse_segment_type(&mut q, content, endian) {
        Ok(v) => v,
        Err(e) => return Err(e),
    };
    let segment_offset = match parse_segment_offset(&mut q, content, endian, &platform) {
        Ok(v) => v,
        Err(e) => return Err(e),
    };
    let segment_vaddr = match parse_segment_vaddr(&mut q, content, endian, &platform) {
        Ok(v) => v,
        Err(e) => return Err(e),
    };
    let segment_paddr = match parse_segment_paddr(&mut q, content, endian, &platform) {
        Ok(v) => v,
        Err(e) => return Err(e),
    };
    let segment_file_size = match parse_segment_file_size(&mut q, content, endian, &platform) {
        Ok(v) => v,
        Err(e) => return Err(e),
    };
    let segment_memory_size = match parse_segment_memory_size(&mut q, content, endian, &platform) {
        Ok(v) => v,
        Err(e) => return Err(e),
    };
    let segment_flags = match parse_segment_flags(&mut q, content, endian) {
        Ok(v) => v,
        Err(e) => return Err(e),
    };
    let segment_allignment = match parse_segment_allignment(&mut q, content, endian, &platform) {
        Ok(v) => v,
        Err(e) => return Err(e),
    };
    *pointer = q;
    Ok(
        ElfProgramHeaderEntry {
            segment_type,
            segment_flags,
            segment_offset,
            segment_vaddr,
            segment_paddr,
            segment_file_size,
            segment_memory_size,
            segment_allignment,
        },
    )
}

/// Decodes one program header entry at `*pointer` with the layout of
/// `platform`. On success the position ends just past the entry; if the
/// entry does not lie inside `content`, the error is `OutOfBounds` and the
/// position is kept.
pub fn parse_program_header_entry(
    pointer: &mut usize,
    content: &[u8],
    endian: &ElfEndianness,
    platform: &ElfPlatformType,
) -> (r: Result<ElfProgramHeaderEntry, ElfError>)
    ensures
        match r {
            Ok(entry) => {
                &&& fits(content@, *old(pointer) as int, program_entry_len(*platform))
                &&& entry == program_entry_at(content@, *old(pointer) as int, *endian, *platform)
                &&& *final(pointer) == *old(pointer) + program_entry_len(*platform)
            },
            Err(e) => {
                &&& !fits(content@, *old(pointer) as int, program_entry_len(*platform))
                &&& e == ElfError::OutOfBounds
                &&& *final(pointer) == *old(pointer)
            },
        },
{
    match platform {
        ElfPlatformType::Bit32 => parse_program_entry32(pointer, content, endian),
        ElfPlatformType::Bit64 => parse_program_entry64(pointer, content, endian),
    }
}

/// Decodes the program header table of `entry_count` consecutive entries
/// that starts at `*pointer`. Entries that lie inside `content` are decoded
/// in order; each one that does not is reported in `errors` and left out,
/// and decoding never fails as a whole. The position ends just past the last
/// decoded entry.
pub fn parse_program_header(
    pointer: &mut usize,
    content: &[u8],
    prog_header_entry_count: &ElfProgramHeaderEntryCount,
    endian: &ElfEndianness,
    platform: &ElfPlatformType,
) -> (r: Result<ElfProgramHeader, ElfError>)
    ensures
        match r {
            Ok(t) => {
                &&& program_table_matches(
                    content@,
                    *old(pointer) as int,
                    prog_header_entry_count.0 as int,
                    *endian,
                    *platform,
                    t,
                )
                &&& *final(pointer) == *old(pointer) + t.inner@.len() * program_entry_len(
                    *platform,
                )
            },
            Err(_) => false,
        },
{
    let ghost c = content@;
    let ghost off = *pointer as int;
    let ghost len = program_entry_len(*platform);
    let entry_count = prog_header_entry_count.inner() as usize;
    let mut inner: Vec<ElfProgramHeaderEntry> = Vec::new();
    let mut errors: Vec<ElfEntryError> = Vec::new();
    let mut i: usize = 0;
    while i < entry_count
        invariant
            i <= entry_count,
            entry_count == prog_header_entry_count.0,
            len == program_entry_len(*platform),
            c == content@,
            inner@.len() + errors@.len() == i,
            *pointer == off + inner@.len() * len,
            forall|k: int|
                0 <= k < inner@.len() ==> fits(c, off + k * len, len) && #[trigger] inner@[k]
                    == program_entry_at(c, off + k * len, *endian, *platform),
            errors@.len() > 0 ==> !fits(c, off + inner@.len() * len, len),
            forall|j: int|
                0 <= j < errors@.len() ==> #[trigger] errors@[j] == (ElfEntryError {
                    index: (inner@.len() + j) as usize,
                    error: ElfError::OutOfBounds,
                }),
        decreases entry_count - i,
    {
        let ghost n = inner@.len() as int;
        match parse_program_header_entry(pointer, content, endian, platform) {
            Ok(entry) => {
                assert(off + (n + 1) * len == off + n * len + len) by (nonlinear_arith);
                inner.push(entry);
            },
            Err(error) => {
                errors.push(ElfEntryError { index: i, error });
            },
        }
        i = i + 1;
    }
    Ok(ElfProgramHeader { inner, errors })
}

} // verus!
