//! The section header table, and the names of its sections.
use vstd::prelude::*;

use crate::bytes::{fits, read_u32, value_at, word_len, ElfEndianness, ElfPlatformType};
use crate::error::{ElfEntryError, ElfError};
use crate::header::{ElfSectionHeaderEntryCount, ElfSectionHeaderSectionsTableIndex};
use crate::program::parse_segment_usize_t;

verus! {

/// Offset of the section's name inside the section-name string table.
#[derive(Debug, Clone, Copy, PartialEq, Eq, Structural)]
pub struct ElfSectionNameOffset(pub u32);

/// The section's name: the bytes of its NUL-terminated string, without the NUL.
#[derive(Debug, PartialEq, Eq)]
pub struct ElfSectionName(pub Vec<u8>);

/// Kind of a section. Codes without a name are kept in `ShtUnknown`.
#[derive(Debug, Clone, Copy, PartialEq, Eq, Structural)]
pub enum ElfSectionHeaderType {
    /// Unused entry (0x0).
    ShtNull,
    /// Program data (0x1).
    ShtProgbits,
    /// Symbol table (0x2).
    ShtSymtab,
    /// String table (0x3).
    ShtStrtab,
    /// Relocations with addends (0x4).
    ShtRela,
    /// Symbol hash table (0x5).
    ShtHash,
    /// Dynamic linking information (0x6).
    ShtDynamic,
    /// Notes (0x7).
    ShtNote,
    /// Space with no file data (0x8).
    ShtNobits,
    /// Relocations without addends (0x9).
    ShtRel,
    /// Reserved (0xA).
    ShtShlib,
    /// Dynamic linker symbol table (0xB).
    ShtDynsym,
    /// Array of constructors (0xE).
    ShtInitArray,
    /// Array of destructors (0xF).
    ShtFiniArray,
    /// Array of pre-constructors (0x10).
    ShtPreinitArray,
    /// Section group (0x11).
    ShtGroup,
    /// Extended section indices (0x12).
    ShtSymtabShndx,
    /// Number of defined types (0x13).
    ShtNum,
    /// Start of the operating-system range (0x60000000).
    ShtLoos,
    ShtUnknown(u32),
}

/// Attributes of a section. Only a value equal to one known flag is named;
/// 0 is `ShfNull`, and every other value is kept in `ShfUnknown`.
#[derive(Debug, Clone, Copy, PartialEq, Eq, Structural)]
pub enum ElfSectionFlags {
    /// Writable (0x1).
    ShfWrite,
    /// Occupies memory during execution (0x2).
    ShfAlloc,
    /// Executable (0x4).
    ShfExecinstr,
    /// Might be merged (0x10).
    ShfMerge,
    /// Holds NUL-terminated strings (0x20).
    ShfStrings,
    /// The info field holds a section index (0x40).
    ShfInfoLink,
    /// Keeps its order after combining (0x80).
    ShfLinkOrder,
    /// Needs OS-specific handling (0x100).
    ShfOsNonconforming,
    /// Member of a group (0x200).
    ShfGroup,
    /// Holds thread-local data (0x400).
    ShfTls,
    /// Operating-system mask (0xFF00000).
    ShfMaskos,
    /// Processor mask (0xF0000000).
    ShfMaskproc,
    /// Special ordering requirement (0x4000000).
    ShfOrdered,
    /// Excluded unless referenced or allocated (0x8000000).
    ShfExclude,
    /// No flags.
    ShfNull,
    ShfUnknown(u64),
}

/// Virtual address of the section in memory, for loaded sections.
#[derive(Debug, Clone, Copy, PartialEq, Eq, Structural)]
pub struct ElfSectionAddr(pub u64);

/// File offset of the section.
#[derive(Debug, Clone, Copy, PartialEq, Eq, Structural)]
pub struct ElfSectionOffset(pub u64);

/// Size of the section in bytes.
#[derive(Debug, Clone, Copy, PartialEq, Eq, Structural)]
pub struct ElfSectionSize(pub u64);

/// Index of an associated section; its use depends on the section type.
#[derive(Debug, Clone, Copy, PartialEq, Eq, Structural)]
pub struct ElfSectionLink(pub u32);

/// Extra information; its use depends on the section type.
#[derive(Debug, Clone, Copy, PartialEq, Eq, Structural)]
pub struct ElfSectionInfo(pub u32);

/// Required alignment of the section.
#[derive(Debug, Clone, Copy, PartialEq, Eq, Structural)]
pub struct ElfSectionAddrAllign(pub u64);

/// Size of each entry for sections of fixed-size entries, else 0.
#[derive(Debug, Clone, Copy, PartialEq, Eq, Structural)]
pub struct ElfSectionEntrySize(pub u64);

/// One decoded section header entry.
#[derive(Debug, PartialEq, Eq)]
pub struct ElfSectionHeaderEntry {
    pub section_name_offset: ElfSectionNameOffset,
    pub section_name: ElfSectionName,
    pub section_header_type: ElfSectionHeaderType,
    pub section_flags: ElfSectionFlags,
    pub section_addr: ElfSectionAddr,
    pub section_offset: ElfSectionOffset,
    pub section_size: ElfSectionSize,
    pub section_link: ElfSectionLink,
    pub section_info: ElfSectionInfo,
    pub section_addr_allign: ElfSectionAddrAllign,
    pub section_entry_size: ElfSectionEntrySize,
}

/// The decoded section header table: the entries that could be decoded, in
/// table order and named, and one error for each entry that could not.
#[derive(Debug)]
pub struct ElfSectionHeader {
    pub inner: Vec<ElfSectionHeaderEntry>,
    pub errors: Vec<ElfEntryError>,
}

impl ElfSectionHeader {
    /// A table with no entries.
    pub fn empty() -> (r: ElfSectionHeader)
        ensures
            r.inner@.len() == 0,
            r.errors@.len() == 0,
    {
        ElfSectionHeader { inner: Vec::new(), errors: Vec::new() }
    }

    /// The decoded entries.
    pub fn inner(self) -> (r: Vec<ElfSectionHeaderEntry>)
        ensures
            r@ == self.inner@,
    {
        self.inner
    }
}

/// Section type named by a type code.
pub open spec fn section_type_of(code: u32) -> ElfSectionHeaderType {
    if code == 0x0 {
        ElfSectionHeaderType::ShtNull
    } else if code == 0x1 {
        ElfSectionHeaderType::ShtProgbits
    } else if code == 0x2 {
        ElfSectionHeaderType::ShtSymtab
    } else if code == 0x3 {
        ElfSectionHeaderType::ShtStrtab
    } else if code == 0x4 {
        ElfSectionHeaderType::ShtRela
    } else if code == 0x5 {
        ElfSectionHeaderType::ShtHash
    } else if code == 0x6 {
        ElfSectionHeaderType::ShtDynamic
    } else if code == 0x7 {
        ElfSectionHeaderType::ShtNote
    } else if code == 0x8 {
        ElfSectionHeaderType::ShtNobits
    } else if code == 0x9 {
        ElfSectionHeaderType::ShtRel
    } else if code == 0xA {
        ElfSectionHeaderType::ShtShlib
    } else if code == 0xB {
        ElfSectionHeaderType::ShtDynsym
    } else if code == 0xE {
        ElfSectionHeaderType::ShtInitArray
    } else if code == 0xF {
        ElfSectionHeaderType::ShtFiniArray
    } else if code == 0x10 {
        ElfSectionHeaderType::ShtPreinitArray
    } else if code == 0x11 {
        ElfSectionHeaderType::ShtGroup
    } else if code == 0x12 {
        ElfSectionHeaderType::ShtSymtabShndx
    } else if code == 0x13 {
        ElfSectionHeaderType::ShtNum
    } else if code == 0x60000000 {
        ElfSectionHeaderType::ShtLoos
    } else {
        ElfSectionHeaderType::ShtUnknown(code)
    }
}

/// Section flags named by a raw flags value.
pub open spec fn section_flags_of(v: u64) -> ElfSectionFlags {
    if v == 0x1 {
        ElfSectionFlags::ShfWrite
    } else if v == 0x2 {
        ElfSectionFlags::ShfAlloc
    } else if v == 0x4 {
        ElfSectionFlags::ShfExecinstr
    } else if v == 0x10 {
        ElfSectionFlags::ShfMerge
    } else if v == 0x20 {
        ElfSectionFlags::ShfStrings
    } else if v == 0x40 {
        ElfSectionFlags::ShfInfoLink
    } else if v == 0x80 {
        ElfSectionFlags::ShfLinkOrder
    } else if v == 0x100 {
        ElfSectionFlags::ShfOsNonconforming
    } else if v == 0x200 {
        ElfSectionFlags::ShfGroup
    } else if v == 0x400 {
        ElfSectionFlags::ShfTls
    } else if v == 0xFF00000 {
        ElfSectionFlags::ShfMaskos
    } else if v == 0xF0000000 {
        ElfSectionFlags::ShfMaskproc
    } else if v == 0x4000000 {
        ElfSectionFlags::ShfOrdered
    } else if v == 0x8000000 {
        ElfSectionFlags::ShfExclude
    } else if v == 0 {
        ElfSectionFlags::ShfNull
    } else {
        ElfSectionFlags::ShfUnknown(v)
    }
}

/// Size in bytes of one section header entry under `class`.
pub open spec fn section_entry_len(class: ElfPlatformType) -> int {
    match class {
        ElfPlatformType::Bit32 => 40,
        ElfPlatformType::Bit64 => 64,
    }
}

/// File offset of entry `k` of the section header table at `off`.
pub open spec fn section_entry_pos(off: int, k: int, class: ElfPlatformType) -> int {
    off + k * section_entry_len(class)
}

/// File offset of the section whose header entry is at `p`.
pub open spec fn section_offset_at(
    c: Seq<u8>,
    p: int,
    o: ElfEndianness,
    class: ElfPlatformType,
) -> nat {
    value_at(c, p + 8 + 2 * word_len(class), word_len(class), o)
}

/// Size of the section whose header entry is at `p`.
pub open spec fn section_size_at(
    c: Seq<u8>,
    p: int,
    o: ElfEndianness,
    class: ElfPlatformType,
) -> nat {
    value_at(c, p + 8 + 3 * word_len(class), word_len(class), o)
}

/// Whether `e` holds the fields, all but the name, of the section header
/// entry at `p`: name offset, type, flags, address, offset, size, link, info,
/// alignment and entry size, in that order, the flags and the fields after
/// them that hold addresses or sizes being one word wide.
pub open spec fn section_fields_at(
    c: Seq<u8>,
    p: int,
    o: ElfEndianness,
    class: ElfPlatformType,
    e: ElfSectionHeaderEntry,
) -> bool {
    let w = word_len(class);
    &&& e.section_name_offset.0 == value_at(c, p, 4, o)
    &&& e.section_header_type == section_type_of(value_at(c, p + 4, 4, o) as u32)
    &&& e.section_flags == section_flags_of(value_at(c, p + 8, w, o) as u64)
    &&& e.section_addr.0 == value_at(c, p + 8 + w, w, o)
    &&& e.section_offset.0 == section_offset_at(c, p, o, class)
    &&& e.section_size.0 == section_size_at(c, p, o, class)
    &&& e.section_link.0 == value_at(c, p + 8 + 4 * w, 4, o)
    &&& e.section_info.0 == value_at(c, p + 12 + 4 * w, 4, o)
    &&& e.section_addr_allign.0 == value_at(c, p + 16 + 4 * w, w, o)
    &&& e.section_entry_size.0 == value_at(c, p + 16 + 5 * w, w, o)
}

/// Whether `a` and `b` agree on every field but the name.
pub open spec fn same_fields(a: ElfSectionHeaderEntry, b: ElfSectionHeaderEntry) -> bool {
    &&& a.section_name_offset == b.section_name_offset
    &&& a.section_header_type == b.section_header_type
    &&& a.section_flags == b.section_flags
    &&& a.section_addr == b.section_addr
    &&& a.section_offset == b.section_offset
    &&& a.section_size == b.section_size
    &&& a.section_link == b.section_link
    &&& a.section_info == b.section_info
    &&& a.section_addr_allign == b.section_addr_allign
    &&& a.section_entry_size == b.section_entry_size
}

/// Whether the section-name table of `entries` can be found: the entry at
/// `idx` exists and the bytes it spans lie inside `c`.
pub open spec fn names_table_in(c: Seq<u8>, entries: Seq<ElfSectionHeaderEntry>, idx: int) -> bool {
    &&& 0 <= idx < entries.len()
    &&& entries[idx].section_offset.0 + entries[idx].section_size.0 <= c.len()
}

/// The bytes of `c` spanned by the section of entry `e`.
pub open spec fn section_bytes(c: Seq<u8>, e: ElfSectionHeaderEntry) -> Seq<u8> {
    c.subrange(e.section_offset.0 as int, (e.section_offset.0 + e.section_size.0) as int)
}

/// Whether the section-name table of the section header table of `count`
/// entries at `off` can be found: no entry lies inside `c`, so there is
/// nothing to name; or the entry at `idx` is one of the `count`, lies inside
/// `c`, and spans bytes inside `c`.
pub open spec fn names_table_found(
    c: Seq<u8>,
    off: int,
    count: int,
    idx: int,
    o: ElfEndianness,
    class: ElfPlatformType,
) -> bool {
    let len = section_entry_len(class);
    let p = section_entry_pos(off, idx, class);
    ||| !(count > 0 && fits(c, off, len))
    ||| {
        &&& idx < count
        &&& fits(c, p, len)
        &&& section_offset_at(c, p, o, class) + section_size_at(c, p, o, class) <= c.len()
    }
}

/// The bytes of the section-name table named by the entry at `idx` of the
/// section header table at `off`.
pub open spec fn names_table_bytes(
    c: Seq<u8>,
    off: int,
    idx: int,
    o: ElfEndianness,
    class: ElfPlatformType,
) -> Seq<u8> {
    let p = section_entry_pos(off, idx, class);
    c.subrange(
        section_offset_at(c, p, o, class) as int,
        (section_offset_at(c, p, o, class) + section_size_at(c, p, o, class)) as int,
    )
}

/// Whether `t` is the section header table of `count` entries at `off`, with
/// the section-name table at index `idx`: every entry that lies inside `c`
/// is decoded in order and named by the string at its name offset in the
/// section-name table, and each entry past the end of `c` has an
/// `OutOfBounds` error instead.
pub open spec fn section_table_matches(
    c: Seq<u8>,
    off: int,
    count: int,
    idx: int,
    o: ElfEndianness,
    class: ElfPlatformType,
    t: ElfSectionHeader,
) -> bool {
    let n = t.inner@.len() as int;
    let len = section_entry_len(class);
    &&& n <= count
    &&& forall|i: int|
        0 <= i < n ==> {
            &&& fits(c, section_entry_pos(off, i, class), len)
            &&& section_fields_at(
                c,
                section_entry_pos(off, i, class),
                o,
                class,
                #[trigger] t.inner@[i],
            )
            &&& is_name_at(
                names_table_bytes(c, off, idx, o, class),
                t.inner@[i].section_name_offset.0 as int,
                t.inner@[i].section_name.0@,
            )
        }
    &&& n < count ==> !fits(c, section_entry_pos(off, n, class), len)
    &&& t.errors@.len() == count - n
    &&& forall|j: int|
        0 <= j < count - n ==> #[trigger] t.errors@[j] == (ElfEntryError {
            index: (n + j) as usize,
            error: ElfError::OutOfBounds,
        })
}

/// Whether `entries` are the first entries of the section header table at
/// `off`, in order, each lying inside `c`, with all fields but the name.
pub open spec fn decoded_prefix(
    c: Seq<u8>,
    off: int,
    o: ElfEndianness,
    class: ElfPlatformType,
    entries: Seq<ElfSectionHeaderEntry>,
) -> bool {
    let len = section_entry_len(class);
    forall|k: int|
        0 <= k < entries.len()
            ==> fits(c, section_entry_pos(off, k, class), len) && section_fields_at(
            c,
            section_entry_pos(off, k, class),
            o,
            class,
            #[trigger] entries[k],
        )
}

proof fn lemma_decoded_prefix_push(
    c: Seq<u8>,
    off: int,
    o: ElfEndianness,
    class: ElfPlatformType,
    entries: Seq<ElfSectionHeaderEntry>,
    entry: ElfSectionHeaderEntry,
)
    requires
        off >= 0,
        decoded_prefix(c, off, o, class, entries),
        fits(c, section_entry_pos(off, entries.len() as int, class), section_entry_len(class)),
        section_fields_at(c, section_entry_pos(off, entries.len() as int, class), o, class, entry),
    ensures
        decoded_prefix(c, off, o, class, entries.push(entry)),
{
    let len = section_entry_len(class);
    let s = entries.push(entry);
    assert forall|k: int| 0 <= k < s.len() implies fits(
        c,
        section_entry_pos(off, k, class),
        len,
    ) && section_fields_at(
        c,
        section_entry_pos(off, k, class),
        o,
        class,
        #[trigger] s[k],
    ) by {
        if k < entries.len() {
            assert(s[k] == entries[k]);
        } else {
            assert(k == entries.len());
            assert(k * len >= 0) by (nonlinear_arith)
                requires
                    k >= 0,
                    len > 0,
            ;
        }
    }
}

/// Whether `name` is the NUL-terminated string of `table` that starts at
/// `off`: the bytes from `off` up to the first NUL, or up to the end of the
/// table if no NUL follows; empty when `off` is past the end of the table.
pub open spec fn is_name_at(table: Seq<u8>, off: int, name: Seq<u8>) -> bool {
    if off >= table.len() {
        name.len() == 0
    } else {
        &&& off + name.len() <= table.len()
        &&& name == table.subrange(off, off + name.len())
        &&& forall|i: int| 0 <= i < name.len() ==> name[i] != 0
        &&& (off + name.len() == table.len() || table[off + name.len()] == 0)
    }
}

/// Decodes the section fixed entry size (one word) at `*pointer` and moves past it.
pub fn parse_section_entry_size(
    pointer: &mut usize,
    content: &[u8],
    endian: &ElfEndianness,
    platform: &ElfPlatformType,
) -> (r: Result<ElfSectionEntrySize, ElfError>)
    ensures
        match r {
            Ok(f) => {
                &&& fits(content@, *old(pointer) as int, word_len(*platform))
                &&& f.0 == value_at(content@, *old(pointer) as int, word_len(*platform), *endian)
                &&& *final(pointer) == *old(pointer) + word_len(*platform)
            },
            Err(e) => {
                &&& !fits(content@, *old(pointer) as int, word_len(*platform))
                &&& e == ElfError::OutOfBounds
                &&& *final(pointer) == *old(pointer)
            },
        },
{
    match parse_segment_usize_t(pointer, content, endian, platform) {
        Ok(v) => Ok(ElfSectionEntrySize(v)),
        Err(e) => Err(e),
    }
}

/// Decodes the section address alignment (one word) at `*pointer` and moves past it.
pub fn parse_section_addr_allignment(
    pointer: &mut usize,
    content: &[u8],
    endian: &ElfEndianness,
    platform: &ElfPlatformType,
) -> (r: Result<ElfSectionAddrAllign, ElfError>)
    ensures
        match r {
            Ok(f) => {
                &&& fits(content@, *old(pointer) as int, word_len(*platform))
                &&& f.0 == value_at(content@, *old(pointer) as int, word_len(*platform), *endian)
                &&& *final(pointer) == *old(pointer) + word_len(*platform)
            },
            Err(e) => {
                &&& !fits(content@, *old(pointer) as int, word_len(*platform))
                &&& e == ElfError::OutOfBounds
                &&& *final(pointer) == *old(pointer)
            },
        },
{
    match parse_segment_usize_t(pointer, content, endian, platform) {
        Ok(v) => Ok(ElfSectionAddrAllign(v)),
        Err(e) => Err(e),
    }
}

/// Decodes the section info field (4 bytes) at `*pointer` and moves past it.
pub fn parse_section_info(
    pointer: &mut usize,
    content: &[u8],
    endian: &ElfEndianness,
) -> (r: Result<ElfSectionInfo, ElfError>)
    ensures
        match r {
            Ok(f) => {
                &&& fits(content@, *old(pointer) as int, 4)
                &&& f.0 == value_at(content@, *old(pointer) as int, 4, *endian)
                &&& *final(pointer) == *old(pointer) + 4
            },
            Err(e) => {
                &&& !fits(content@, *old(pointer) as int, 4)
                &&& e == ElfError::OutOfBounds
                &&& *final(pointer) == *old(pointer)
            },
        },
{
    match read_u32(pointer, content, endian) {
        Ok(v) => Ok(ElfSectionInfo(v)),
        Err(e) => Err(e),
    }
}

/// Decodes the section link field (4 bytes) at `*pointer` and moves past it.
pub fn parse_section_link(
    pointer: &mut usize,
    content: &[u8],
    endian: &ElfEndianness,
) -> (r: Result<ElfSectionLink, ElfError>)
    ensures
        match r {
            Ok(f) => {
                &&& fits(content@, *old(pointer) as int, 4)
                &&& f.0 == value_at(content@, *old(pointer) as int, 4, *endian)
                &&& *final(pointer) == *old(pointer) + 4
            },
            Err(e) => {
                &&& !fits(content@, *old(pointer) as int, 4)
                &&& e == ElfError::OutOfBounds
                &&& *final(pointer) == *old(pointer)
            },
        },
{
    match read_u32(pointer, content, endian) {
        Ok(v) => Ok(ElfSectionLink(v)),
        Err(e) => Err(e),
    }
}

/// Decodes the section size (one word) at `*pointer` and moves past it.
pub fn parse_section_size(
    pointer: &mut usize,
    content: &[u8],
    endian: &ElfEndianness,
    platform: &ElfPlatformType,
) -> (r: Result<ElfSectionSize, ElfError>)
    ensures
        match r {
            Ok(f) => {
                &&& fits(content@, *old(pointer) as int, word_len(*platform))
                &&& f.0 == value_at(content@, *old(pointer) as int, word_len(*platform), *endian)
                &&& *final(pointer) == *old(pointer) + word_len(*platform)
            },
            Err(e) => {
                &&& !fits(content@, *old(pointer) as int, word_len(*platform))
                &&& e == ElfError::OutOfBounds
                &&& *final(pointer) == *old(pointer)
            },
        },
{
    match parse_segment_usize_t(pointer, content, endian, platform) {
        Ok(v) => Ok(ElfSectionSize(v)),
        Err(e) => Err(e),
    }
}

/// Decodes the section file offset (one word) at `*pointer` and moves past it.
pub fn parse_section_offset(
    pointer: &mut usize,
    content: &[u8],
    endian: &ElfEndianness,
    platform: &ElfPlatformType,
) -> (r: Result<ElfSectionOffset, ElfError>)
    ensures
        match r {
            Ok(f) => {
                &&& fits(content@, *old(pointer) as int, word_len(*platform))
                &&& f.0 == value_at(content@, *old(pointer) as int, word_len(*platform), *endian)
                &&& *final(pointer) == *old(pointer) + word_len(*platform)
            },
            Err(e) => {
                &&& !fits(content@, *old(pointer) as int, word_len(*platform))
                &&& e == ElfError::OutOfBounds
                &&& *final(pointer) == *old(pointer)
            },
        },
{
    match parse_segment_usize_t(pointer, content, endian, platform) {
        Ok(v) => Ok(ElfSectionOffset(v)),
        Err(e) => Err(e),
    }
}

/// Decodes the section address (one word) at `*pointer` and moves past it.
pub fn parse_section_addr(
    pointer: &mut usize,
    content: &[u8],
    endian: &ElfEndianness,
    platform: &ElfPlatformType,
) -> (r: Result<ElfSectionAddr, ElfError>)
    ensures
        match r {
            Ok(f) => {
                &&& fits(content@, *old(pointer) as int, word_len(*platform))
                &&& f.0 == value_at(content@, *old(pointer) as int, word_len(*platform), *endian)
                &&& *final(pointer) == *old(pointer) + word_len(*platform)
            },
            Err(e) => {
                &&& !fits(content@, *old(pointer) as int, word_len(*platform))
                &&& e == ElfError::OutOfBounds
                &&& *final(pointer) == *old(pointer)
            },
        },
{
    match parse_segment_usize_t(pointer, content, endian, platform) {
        Ok(v) => Ok(ElfSectionAddr(v)),
        Err(e) => Err(e),
    }
}

/// Decodes the section flags (one word) at `*pointer` and moves past them.
pub fn parse_section_flags(
    pointer: &mut usize,
    content: &[u8],
    endian: &ElfEndianness,
    platform: &ElfPlatformType,
) -> (r: Result<ElfSectionFlags, ElfError>)
    ensures
        match r {
            Ok(f) => {
                &&& fits(content@, *old(pointer) as int, word_len(*platform))
                &&& f == section_flags_of(
                    value_at(content@, *old(pointer) as int, word_len(*platform), *endian) as u64,
                )
                &&& *final(pointer) == *old(pointer) + word_len(*platform)
            },
            Err(e) => {
                &&& !fits(content@, *old(pointer) as int, word_len(*platform))
                &&& e == ElfError::OutOfBounds
                &&& *final(pointer) == *old(pointer)
            },
        },
{
    match parse_segment_usize_t(pointer, content, endian, platform) {
        Ok(v) => Ok(
            if v == 0x1 {
                ElfSectionFlags::ShfWrite
            } else if v == 0x2 {
                ElfSectionFlags::ShfAlloc
            } else if v == 0x4 {
                ElfSectionFlags::ShfExecinstr
            } else if v == 0x10 {
                ElfSectionFlags::ShfMerge
            } else if v == 0x20 {
                ElfSectionFlags::ShfStrings
            } else if v == 0x40 {
                ElfSectionFlags::ShfInfoLink
            } else if v == 0x80 {
                ElfSectionFlags::ShfLinkOrder
            } else if v == 0x100 {
                ElfSectionFlags::ShfOsNonconforming
            } else if v == 0x200 {
                ElfSectionFlags::ShfGroup
            } else if v == 0x400 {
                ElfSectionFlags::ShfTls
            } else if v == 0xFF00000 {
                ElfSectionFlags::ShfMaskos
            } else if v == 0xF0000000 {
                ElfSectionFlags::ShfMaskproc
            } else if v == 0x4000000 {
                ElfSectionFlags::ShfOrdered
            } else if v == 0x8000000 {
                ElfSectionFlags::ShfExclude
            } else if v == 0 {
                ElfSectionFlags::ShfNull
            } else {
                ElfSectionFlags::ShfUnknown(v)
            },
        ),
        Err(e) => Err(e),
    }
}

/// Decodes the section type (4 bytes) at `*pointer` and moves past it.
pub fn parse_section_header_type(
    pointer: &mut usize,
    content: &[u8],
    endian: &ElfEndianness,
) -> (r: Result<ElfSectionHeaderType, ElfError>)
    ensures
        match r {
            Ok(f) => {
                &&& fits(content@, *old(pointer) as int, 4)
                &&& f == section_type_of(
                    value_at(content@, *old(pointer) as int, 4, *endian) as u32,
                )
                &&& *final(pointer) == *old(pointer) + 4
            },
            Err(e) => {
                &&& !fits(content@, *old(pointer) as int, 4)
                &&& e == ElfError::OutOfBounds
                &&& *final(pointer) == *old(pointer)
            },
        },
{
    match read_u32(pointer, content, endian) {
        Ok(code) => Ok(
            if code == 0x0 {
                ElfSectionHeaderType::ShtNull
            } else if code == 0x1 {
                ElfSectionHeaderType::ShtProgbits
            } else if code == 0x2 {
                ElfSectionHeaderType::ShtSymtab
            } else if code == 0x3 {
                ElfSectionHeaderType::ShtStrtab
            } else if code == 0x4 {
                ElfSectionHeaderType::ShtRela
            } else if code == 0x5 {
                ElfSectionHeaderType::ShtHash
            } else if code == 0x6 {
                ElfSectionHeaderType::ShtDynamic
            } else if code == 0x7 {
                ElfSectionHeaderType::ShtNote
            } else if code == 0x8 {
                ElfSectionHeaderType::ShtNobits
            } else if code == 0x9 {
                ElfSectionHeaderType::ShtRel
            } else if code == 0xA {
                ElfSectionHeaderType::ShtShlib
            } else if code == 0xB {
                ElfSectionHeaderType::ShtDynsym
            } else if code == 0xE {
                ElfSectionHeaderType::ShtInitArray
            } else if code == 0xF {
                ElfSectionHeaderType::ShtFiniArray
            } else if code == 0x10 {
                ElfSectionHeaderType::ShtPreinitArray
            } else if code == 0x11 {
                ElfSectionHeaderType::ShtGroup
            } else if code == 0x12 {
                ElfSectionHeaderType::ShtSymtabShndx
            } else if code == 0x13 {
                ElfSectionHeaderType::ShtNum
            } else if code == 0x60000000 {
                ElfSectionHeaderType::ShtLoos
            } else {
                ElfSectionHeaderType::ShtUnknown(code)
            },
        ),
        Err(e) => Err(e),
    }
}

/// Decodes the offset of the section's name (4 bytes) at `*pointer` and
/// moves past it.
pub fn parse_section_name_offset(
    pointer: &mut usize,
    content: &[u8],
    endian: &ElfEndianness,
) -> (r: Result<ElfSectionNameOffset, ElfError>)
    ensures
        match r {
            Ok(f) => {
                &&& fits(content@, *old(pointer) as int, 4)
                &&& f.0 == value_at(content@, *old(pointer) as int, 4, *endian)
                &&& *final(pointer) == *old(pointer) + 4
            },
            Err(e) => {
                &&& !fits(content@, *old(pointer) as int, 4)
                &&& e == ElfError::OutOfBounds
                &&& *final(pointer) == *old(pointer)
            },
        },
{
    match read_u32(pointer, content, endian) {
        Ok(v) => Ok(ElfSectionNameOffset(v)),
        Err(e) => Err(e),
    }
}

/// Decodes one section header entry at `*pointer`, with an empty name. On
/// success the position ends just past the entry; if the entry does not lie
/// inside `content`, the error is `OutOfBounds` and the position is kept.
#[verifier::rlimit(50)]
pub fn parse_section_header_entry(
    pointer: &mut usize,
    content: &[u8],
    endian: &ElfEndianness,
    platform: &ElfPlatformType,
) -> (r: Result<ElfSectionHeaderEntry, ElfError>)
    ensures
        match r {
            Ok(entry) => {
                &&& fits(content@, *old(pointer) as int, section_entry_len(*platform))
                &&& section_fields_at(content@, *old(pointer) as int, *endian, *platform, entry)
                &&& entry.section_name.0@.len() == 0
                &&& *final(pointer) == *old(pointer) + section_entry_len(*platform)
            },
            Err(e) => {
                &&& !fits(content@, *old(pointer) as int, section_entry_len(*platform))
                &&& e == ElfError::OutOfBounds
                &&& *final(pointer) == *old(pointer)
            },
        },
{
    let mut q = *pointer;
    let section_name_offset = match parse_section_name_offset(&mut q, content, endian) {
        Ok(v) => v,
        Err(e) => return Err(e),
    };
    let section_header_type = match parse_section_header_type(&mut q, content, endian) {
        Ok(v) => v,
        Err(e) => return Err(e),
    };
    let section_flags = match parse_section_flags(&mut q, content, endian, platform) {
        Ok(v) => v,
        Err(e) => return Err(e),
    };
    let section_addr = match parse_section_addr(&mut q, content, endian, platform) {
        Ok(v) => v,
        Err(e) => return Err(e),
    };
    let section_offset = match parse_section_offset(&mut q, content, endian, platform) {
        Ok(v) => v,
        Err(e) => return Err(e),
    };
    let section_size = match parse_section_size(&mut q, content, endian, platform) {
        Ok(v) => v,
        Err(e) => return Err(e),
    };
    let section_link = match parse_section_link(&mut q, content, endian) {
        Ok(v) => v,
        Err(e) => return Err(e),
    };
    let section_info = match parse_section_info(&mut q, content, endian) {
        Ok(v) => v,
        Err(e) => return Err(e),
    };
    let section_addr_allign = match parse_section_addr_allignment(
        &mut q,
        content,
        endian,
        platform,
    ) {
        Ok(v) => v,
        Err(e) => return Err(e),
    };
    let section_entry_size = match parse_section_entry_size(&mut q, content, endian, platform) {
        Ok(v) => v,
        Err(e) => return Err(e),
    };
    *pointer = q;
    Ok(
        ElfSectionHeaderEntry {
            section_name: ElfSectionName(Vec::new()),
            section_name_offset,
            section_header_type,
            section_flags,
            section_addr,
            section_offset,
            section_size,
            section_link,
            section_info,
            section_addr_allign,
            section_entry_size,
        },
    )
}

/// The NUL-terminated string that starts `name_offset` bytes into the table
/// `content[start..end]`.
fn name_at(content: &[u8], start: usize, end: usize, name_offset: u32) -> (r: Vec<u8>)
    requires
        start <= end <= content@.len(),
    ensures
        is_name_at(content@.subrange(start as int, end as int), name_offset as int, r@),
{
    let ghost table = content@.subrange(start as int, end as int);
    let mut name: Vec<u8> = Vec::new();
    let rel = name_offset as usize;
    if rel < end - start {
        let first = start + rel;
        let mut j = first;
        while j < end && content[j] != 0
            invariant
                first <= j <= end,
                first == start + rel,
                end <= content@.len(),
                name@ == content@.subrange(first as int, j as int),
                forall|i: int| 0 <= i < name@.len() ==> name@[i] != 0,
            decreases end - j,
        {
            name.push(content[j]);
            j = j + 1;
        }
        assert(name@ =~= table.subrange(rel as int, rel + name@.len()));
    }
    name
}

/// Names every entry by the NUL-terminated string at its name offset in the
/// section-name table, the section of entry `sections_names_index`. With no
/// entries there is nothing to name. The error is `OutOfBounds` when that
/// entry does not exist or its bytes do not lie inside `content`.
pub fn resolve_section_names(
    entries: Vec<ElfSectionHeaderEntry>,
    content: &[u8],
    sections_names_index: &ElfSectionHeaderSectionsTableIndex,
) -> (r: Result<Vec<ElfSectionHeaderEntry>, ElfError>)
    ensures
        match r {
            Ok(named) => {
                &&& entries@.len() > 0 ==> names_table_in(
                    content@,
                    entries@,
                    sections_names_index.0 as int,
                )
                &&& named@.len() == entries@.len()
                &&& forall|i: int|
                    0 <= i < named@.len() ==> {
                        &&& same_fields(#[trigger] named@[i], entries@[i])
                        &&& is_name_at(
                            section_bytes(content@, entries@[sections_names_index.0 as int]),
                            named@[i].section_name_offset.0 as int,
                            named@[i].section_name.0@,
                        )
                    }
            },
            Err(e) => {
                &&& entries@.len() > 0
                &&& !names_table_in(content@, entries@, sections_names_index.0 as int)
                &&& e == ElfError::OutOfBounds
            },
        },
{
    let n = entries.len();
    if n == 0 {
        return Ok(entries);
    }
    let k = sections_names_index.0 as usize;
    if k >= n {
        return Err(ElfError::OutOfBounds);
    }
    let table_offset = entries[k].section_offset.0;
    let table_size = entries[k].section_size.0;
    let total = content.len() as u64;
    if table_offset > total || table_size > total - table_offset {
        return Err(ElfError::OutOfBounds);
    }
    let start = table_offset as usize;
    let end = start + table_size as usize;
    let ghost table = content@.subrange(start as int, end as int);
    assert(table == section_bytes(content@, entries@[k as int]));
    let mut named: Vec<ElfSectionHeaderEntry> = Vec::new();
    let mut i: usize = 0;
    while i < n
        invariant
            i <= n,
            n == entries@.len(),
            start <= end <= content@.len(),
            table == content@.subrange(start as int, end as int),
            named@.len() == i,
            forall|j: int|
                0 <= j < i ==> {
                    &&& same_fields(#[trigger] named@[j], entries@[j])
                    &&& is_name_at(
                        table,
                        named@[j].section_name_offset.0 as int,
                        named@[j].section_name.0@,
                    )
                },
        decreases n - i,
    {
        let e = &entries[i];
        let name = name_at(content, start, end, e.section_name_offset.0);
        named.push(
            ElfSectionHeaderEntry {
                section_name_offset: e.section_name_offset,
                section_name: ElfSectionName(name),
                section_header_type: e.section_header_type,
                section_flags: e.section_flags,
                section_addr: e.section_addr,
                section_offset: e.section_offset,
                section_size: e.section_size,
                section_link: e.section_link,
                section_info: e.section_info,
                section_addr_allign: e.section_addr_allign,
                section_entry_size: e.section_entry_size,
            },
        );
        i = i + 1;
    }
    Ok(named)
}

/// Decodes the section header table of `entry_count` consecutive entries
/// that starts at `*pointer`, then names each decoded entry through the
/// section-name table at index `sections_names_index`. Entries that lie
/// inside `content` are decoded in order; each one that does not is reported
/// in `errors` and left out. The whole decode fails with `OutOfBounds` only
/// when the section-name table cannot be found; the position then is kept,
/// and otherwise ends just past the last decoded entry.
pub fn parse_section_header(
    pointer: &mut usize,
    content: &[u8],
    entry_count: &ElfSectionHeaderEntryCount,
    sections_names_index: &ElfSectionHeaderSectionsTableIndex,
    endian: &ElfEndianness,
    platform: &ElfPlatformType,
) -> (r: Result<ElfSectionHeader, ElfError>)
    ensures
        match r {
            Ok(t) => {
                &&& names_table_found(
                    content@,
                    *old(pointer) as int,
                    entry_count.0 as int,
                    sections_names_index.0 as int,
                    *endian,
                    *platform,
                )
                &&& section_table_matches(
                    content@,
                    *old(pointer) as int,
                    entry_count.0 as int,
                    sections_names_index.0 as int,
                    *endian,
                    *platform,
                    t,
                )
                &&& *final(pointer) == *old(pointer) + t.inner@.len() * section_entry_len(
                    *platform,
                )
            },
            Err(e) => {
                &&& !names_table_found(
                    content@,
                    *old(pointer) as int,
                    entry_count.0 as int,
                    sections_names_index.0 as int,
                    *endian,
                    *platform,
                )
                &&& e == ElfError::OutOfBounds
                &&& *final(pointer) == *old(pointer)
            },
        },
{
    let ghost c = content@;
    let ghost off = *pointer as int;
    let ghost len = section_entry_len(*platform);
    let ghost count = entry_count.0 as int;
    let ghost idx = sections_names_index.0 as int;
    let count_usize = entry_count.0 as usize;
    let mut q = *pointer;
    let mut raw: Vec<ElfSectionHeaderEntry> = Vec::new();
    let mut errors: Vec<ElfEntryError> = Vec::new();
    let mut i: usize = 0;
    while i < count_usize
        invariant
            i <= count_usize,
            count_usize == count,
            0 <= off,
            len == section_entry_len(*platform),
            c == content@,
            raw@.len() + errors@.len() == i,
            q == section_entry_pos(off, raw@.len() as int, *platform),
            decoded_prefix(c, off, *endian, *platform, raw@),
            errors@.len() > 0
                ==> !fits(c, section_entry_pos(off, raw@.len() as int, *platform), len),
            forall|j: int|
                0 <= j < errors@.len() ==> #[trigger] errors@[j] == (ElfEntryError {
                    index: (raw@.len() + j) as usize,
                    error: ElfError::OutOfBounds,
                }),
        decreases count_usize - i,
    {
        let ghost n = raw@.len() as int;
        match parse_section_header_entry(&mut q, content, endian, platform) {
            Ok(entry) => {
                assert(off + (n + 1) * len == off + n * len + len) by (nonlinear_arith);
                proof {
                    lemma_decoded_prefix_push(c, off, *endian, *platform, raw@, entry);
                }
                raw.push(entry);
            },
            Err(error) => {
                errors.push(ElfEntryError { index: i, error });
            },
        }
        i = i + 1;
    }
    let ghost n = raw@.len() as int;
    proof {
        // Entries lie inside `c` exactly up to the first that does not.
        if n > 0 {
            assert(section_entry_pos(off, 0, *platform) == off);
            assert(section_fields_at(
                c,
                section_entry_pos(off, 0, *platform),
                *endian,
                *platform,
                raw@[0],
            ));
        }
        if 0 <= idx < n {
            assert(section_fields_at(
                c,
                section_entry_pos(off, idx, *platform),
                *endian,
                *platform,
                raw@[idx],
            ));
        } else if idx < count && n < count {
            assert(off + n * len + len <= off + idx * len + len) by (nonlinear_arith)
                requires
                    n <= idx,
                    len > 0,
            ;
        }
    }
    match resolve_section_names(raw, content, sections_names_index) {
        Ok(inner) => {
            proof {
                if n > 0 {
                    assert(section_fields_at(
                        c,
                        section_entry_pos(off, idx, *platform),
                        *endian,
                        *platform,
                        raw@[idx],
                    ));
                    assert(section_bytes(c, raw@[idx]) == names_table_bytes(
                        c,
                        off,
                        idx,
                        *endian,
                        *platform,
                    ));
                }
                assert forall|k: int| 0 <= k < inner@.len() implies section_fields_at(
                    c,
                    section_entry_pos(off, k, *platform),
                    *endian,
                    *platform,
                    #[trigger] inner@[k],
                ) by {
                    assert(same_fields(inner@[k], raw@[k]));
                    assert(section_fields_at(
                        c,
                        section_entry_pos(off, k, *platform),
                        *endian,
                        *platform,
                        raw@[k],
                    ));
                }
            }
            *pointer = q;
            Ok(ElfSectionHeader { inner, errors })
        },
        Err(e) => Err(e),
    }
}

} // verus!
