//! A whole decoded file: the header, the tables asked for, and the bytes.
use vstd::prelude::*;

use crate::bytes::fits;
use crate::error::ElfError;
use crate::header::{
    class_in, header_error, header_matches, order_in, parse_header, program_count_in,
    program_table_offset_in, section_count_in, section_names_index_in, section_table_offset_in,
    ElfHeader,
};
use crate::program::{
    parse_program_header, program_entry_len, program_table_matches, ElfProgramHeader,
};
use crate::section::{
    names_table_found, parse_section_header, section_entry_len, section_entry_pos,
    section_table_matches, ElfSectionHeader, ElfSectionHeaderEntry, ElfSectionHeaderType,
};

verus! {

/// Which parts of a file to decode beyond its header.
#[derive(Debug, Clone, Copy, PartialEq, Eq, Structural)]
pub enum ElfParts {
    Header,
    ProgramHeader,
    Data,
    SectionHeader,
    All,
}

/// The name of a part, as shown to users.
pub open spec fn part_name(part: ElfParts) -> Seq<char> {
    match part {
        ElfParts::Header => "Header"@,
        ElfParts::ProgramHeader => "ProgramHeader"@,
        ElfParts::Data => "Data"@,
        ElfParts::SectionHeader => "SectionHeader"@,
        ElfParts::All => "All"@,
    }
}

/// Whether decoding `part` needs the program header table.
pub open spec fn wants_program(part: ElfParts) -> bool {
    part == ElfParts::ProgramHeader || part == ElfParts::All
}

/// Whether decoding `part` needs the section header table.
pub open spec fn wants_sections(part: ElfParts) -> bool {
    part == ElfParts::SectionHeader || part == ElfParts::Data || part == ElfParts::All
}

impl ElfParts {
    pub fn as_str(&self) -> (r: &'static str)
        ensures
            r@ == part_name(*self),
    {
        match self {
            ElfParts::Header => "Header",
            ElfParts::ProgramHeader => "ProgramHeader",
            ElfParts::Data => "Data",
            ElfParts::SectionHeader => "SectionHeader",
            ElfParts::All => "All",
        }
    }
}

/// A decoded file. A table that was not asked for is empty.
#[derive(Debug)]
pub struct ElfBinary {
    pub header: ElfHeader,
    pub program_header: ElfProgramHeader,
    pub section_header: ElfSectionHeader,
    pub content: Vec<u8>,
}

/// Whether the section header table named by the header at the start of `c`
/// has a section-name table that can be found.
pub open spec fn names_table_found_in(c: Seq<u8>) -> bool {
    names_table_found(
        c,
        section_table_offset_in(c),
        section_count_in(c),
        section_names_index_in(c),
        order_in(c),
        class_in(c),
    )
}

/// A position inside `content` from which a table at `offset` reads the same
/// as from `offset` itself: `offset` if it lies inside, else the end.
fn table_start(offset: u64, content: &[u8]) -> (r: usize)
    ensures
        r <= content@.len(),
        r == offset || (r == content@.len() && offset > content@.len()),
{
    let n = content.len();
    if offset <= n as u64 {
        offset as usize
    } else {
        n
    }
}

/// Decodes the header at the start of `content`, then the tables that `part`
/// asks for: the program header table for `ProgramHeader` and `All`, the
/// section header table for `SectionHeader`, `Data` and `All`. Fails with the
/// header's error, or with `OutOfBounds` when a section header table is asked
/// for and its section-name table cannot be found.
pub fn parse_file(content: Vec<u8>, part: &ElfParts) -> (r: Result<ElfBinary, ElfError>)
    ensures
        match r {
            Ok(b) => {
                let c = content@;
                &&& header_error(c, 0) is None
                &&& header_matches(c, 0, b.header)
                &&& b.content@ == c
                &&& if wants_program(*part) {
                    program_table_matches(
                        c,
                        program_table_offset_in(c),
                        program_count_in(c),
                        order_in(c),
                        class_in(c),
                        b.program_header,
                    )
                } else {
                    b.program_header.inner@.len() == 0 && b.program_header.errors@.len() == 0
                }
                &&& if wants_sections(*part) {
                    &&& names_table_found_in(c)
                    &&& section_table_matches(
                        c,
                        section_table_offset_in(c),
                        section_count_in(c),
                        section_names_index_in(c),
                        order_in(c),
                        class_in(c),
                        b.section_header,
                    )
                } else {
                    b.section_header.inner@.len() == 0 && b.section_header.errors@.len() == 0
                }
            },
            Err(e) => {
                let c = content@;
                ||| header_error(c, 0) == Some(e)
                ||| {
                    &&& header_error(c, 0) is None
                    &&& wants_sections(*part)
                    &&& !names_table_found_in(c)
                    &&& e == ElfError::OutOfBounds
                }
            },
        },
{
    let ghost c = content@;
    let mut pointer: usize = 0;
    let header = match parse_header(&mut pointer, content.as_slice()) {
        Ok(h) => h,
        Err(e) => return Err(e),
    };
    let program_header = match part {
        ElfParts::ProgramHeader | ElfParts::All => {
            pointer = table_start(header.program_header_offset.0, content.as_slice());
            let ghost off = pointer as int;
            match parse_program_header(
                &mut pointer,
                content.as_slice(),
                &header.program_header_entry_count,
                &header.endianness,
                &header.platform_type,
            ) {
                Ok(t) => {
                    proof {
                        let len = program_entry_len(header.platform_type);
                        let count = header.program_header_entry_count.0 as int;
                        if off != program_table_offset_in(c) {
                            if t.inner@.len() > 0 {
                                let first = t.inner@[0];
                                assert(fits(c, off + 0 * len, len));
                            }
                            assert(!fits(c, program_table_offset_in(c) + 0 * len, len));
                        }
                    }
                    t
                },
                Err(e) => return Err(e),
            }
        },
        _ => ElfProgramHeader::empty(),
    };
    let section_header = match part {
        ElfParts::SectionHeader | ElfParts::Data | ElfParts::All => {
            pointer = table_start(header.section_header_offset.0, content.as_slice());
            let ghost off = pointer as int;
            let ghost soff = section_table_offset_in(c);
            let ghost len = section_entry_len(header.platform_type);
            proof {
                if off != soff {
                    assert(!fits(c, off, len));
                    assert(!fits(c, soff, len));
                }
            }
            match parse_section_header(
                &mut pointer,
                content.as_slice(),
                &header.section_header_entry_count,
                &header.section_header_sections_table_index,
                &header.endianness,
                &header.platform_type,
            ) {
                Ok(t) => {
                    proof {
                        if off != soff {
                            assert(section_entry_pos(off, 0, header.platform_type) == off);
                            assert(section_entry_pos(soff, 0, header.platform_type) == soff);
                            if t.inner@.len() > 0 {
                                let first = t.inner@[0];
                                assert(fits(c, off, len));
                            }
                        }
                    }
                    t
                },
                Err(e) => return Err(e),
            }
        },
        _ => ElfSectionHeader::empty(),
    };
    Ok(ElfBinary { header, program_header, section_header, content })
}

/// The first `limit` bytes (fewer if the section is shorter) of a section of
/// program data whose bytes lie inside `content`; `None` for a section of
/// any other type, or one that reaches past the end of `content`.
pub fn section_preview(content: &[u8], section: &ElfSectionHeaderEntry, limit: usize) -> (r:
    Option<Vec<u8>>)
    ensures
        match r {
            Some(bytes) => {
                let start = section.section_offset.0 as int;
                let size = section.section_size.0 as int;
                &&& section.section_header_type == ElfSectionHeaderType::ShtProgbits
                &&& start + size <= content@.len()
                &&& bytes@ == content@.subrange(
                    start,
                    start + if size < limit {
                        size
                    } else {
                        limit as int
                    },
                )
            },
            None => {
                ||| section.section_header_type != ElfSectionHeaderType::ShtProgbits
                ||| section.section_offset.0 + section.section_size.0 > content@.len()
            },
        },
{
    match section.section_header_type {
        ElfSectionHeaderType::ShtProgbits => {},
        _ => return None,
    }
    let total = content.len() as u64;
    let offset = section.section_offset.0;
    let size = section.section_size.0;
    if offset > total || size > total - offset {
        return None;
    }
    let start = offset as usize;
    let take = if size < limit as u64 {
        size as usize
    } else {
        limit
    };
    let mut bytes: Vec<u8> = Vec::new();
    let mut i: usize = 0;
    while i < take
        invariant
            i <= take,
            start + take <= content@.len(),
            content@.len() == content.len(),
            bytes@ == content@.subrange(start as int, start + i),
        decreases take - i,
    {
        bytes.push(content[start + i]);
        i = i + 1;
    }
    Some(bytes)
}

} // verus!
