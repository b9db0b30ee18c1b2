use elf_parser::binary::{parse_file, section_preview, ElfParts};
use elf_parser::bytes::{ElfEndianness, ElfPlatformType};
use elf_parser::error::{ElfEntryError, ElfError};
use elf_parser::header::{ElfProgramHeaderEntryCount, ElfSectionHeaderSectionsTableIndex};
use elf_parser::program::{
    parse_program_header, parse_program_header_entry, parse_segment_flags, parse_segment_type,
    ElfSegmentFlags, ElfSegmentType,
};
use elf_parser::section::{
    parse_section_flags, parse_section_header_type, resolve_section_names, ElfSectionAddr,
    ElfSectionAddrAllign, ElfSectionEntrySize, ElfSectionFlags, ElfSectionHeaderEntry,
    ElfSectionHeaderType, ElfSectionInfo, ElfSectionLink, ElfSectionName, ElfSectionNameOffset,
    ElfSectionOffset, ElfSectionSize,
};

fn put(buf: &mut Vec<u8>, at: usize, bytes: &[u8]) {
    if buf.len() < at + bytes.len() {
        buf.resize(at + bytes.len(), 0);
    }
    buf[at..at + bytes.len()].copy_from_slice(bytes);
}

/// A 64-bit little-endian header naming `phnum` program entries at 0x40 and
/// `shnum` section entries at `shoff`, the names in section `shstrndx`.
fn header64(phnum: u16, shoff: u64, shnum: u16, shstrndx: u16) -> Vec<u8> {
    let mut b = vec![0u8; 64];
    put(&mut b, 0, &[0x7F, 0x45, 0x4C, 0x46, 2, 1, 1, 0, 0]);
    put(&mut b, 16, &2u16.to_le_bytes());
    put(&mut b, 18, &0x3Eu16.to_le_bytes());
    put(&mut b, 20, &1u32.to_le_bytes());
    put(&mut b, 24, &0x401000u64.to_le_bytes());
    put(&mut b, 32, &0x40u64.to_le_bytes());
    put(&mut b, 40, &shoff.to_le_bytes());
    put(&mut b, 52, &64u16.to_le_bytes());
    put(&mut b, 54, &56u16.to_le_bytes());
    put(&mut b, 56, &phnum.to_le_bytes());
    put(&mut b, 58, &64u16.to_le_bytes());
    put(&mut b, 60, &shnum.to_le_bytes());
    put(&mut b, 62, &shstrndx.to_le_bytes());
    b
}

fn program_entry64(b: &mut Vec<u8>, at: usize, kind: u32, flags: u32, base: u64) {
    put(b, at, &kind.to_le_bytes());
    put(b, at + 4, &flags.to_le_bytes());
    for k in 0..6u64 {
        put(b, at + 8 + 8 * k as usize, &(base + k).to_le_bytes());
    }
}

fn section_entry64(b: &mut Vec<u8>, at: usize, name: u32, kind: u32, offset: u64, size: u64) {
    put(b, at, &name.to_le_bytes());
    put(b, at + 4, &kind.to_le_bytes());
    put(b, at + 8, &0u64.to_le_bytes());
    put(b, at + 16, &0u64.to_le_bytes());
    put(b, at + 24, &offset.to_le_bytes());
    put(b, at + 32, &size.to_le_bytes());
    put(b, at + 40, &0u32.to_le_bytes());
    put(b, at + 44, &0u32.to_le_bytes());
    put(b, at + 48, &1u64.to_le_bytes());
    put(b, at + 56, &0u64.to_le_bytes());
}

fn bare_section(name_offset: u32) -> ElfSectionHeaderEntry {
    ElfSectionHeaderEntry {
        section_name_offset: ElfSectionNameOffset(name_offset),
        section_name: ElfSectionName(Vec::new()),
        section_header_type: ElfSectionHeaderType::ShtProgbits,
        section_flags: ElfSectionFlags::ShfNull,
        section_addr: ElfSectionAddr(0),
        section_offset: ElfSectionOffset(0),
        section_size: ElfSectionSize(0),
        section_link: ElfSectionLink(0),
        section_info: ElfSectionInfo(0),
        section_addr_allign: ElfSectionAddrAllign(1),
        section_entry_size: ElfSectionEntrySize(0),
    }
}

#[test]
fn unknown_segment_type_is_kept_not_an_error() {
    let mut b = header64(2, 0, 0, 0);
    program_entry64(&mut b, 0x40, 1, 5, 0x1000);
    program_entry64(&mut b, 0x40 + 56, 0x99999999, 4, 0x2000);
    let bin = parse_file(b, &ElfParts::ProgramHeader).unwrap();
    let t = &bin.program_header;
    assert_eq!(t.inner.len(), 2);
    assert!(t.errors.is_empty());
    assert_eq!(t.inner[0].segment_type, ElfSegmentType::PtLoad);
    assert_eq!(t.inner[0].segment_flags, ElfSegmentFlags::PfUnknown(5));
    assert_eq!(t.inner[0].segment_offset.0, 0x1000);
    assert_eq!(t.inner[0].segment_vaddr.0, 0x1001);
    assert_eq!(t.inner[0].segment_paddr.0, 0x1002);
    assert_eq!(t.inner[0].segment_file_size.0, 0x1003);
    assert_eq!(t.inner[0].segment_memory_size.0, 0x1004);
    assert_eq!(t.inner[0].segment_allignment.0, 0x1005);
    assert_eq!(t.inner[1].segment_type, ElfSegmentType::PtUnknown(0x99999999));
    assert_eq!(t.inner[1].segment_flags, ElfSegmentFlags::PfR);
    assert_eq!(t.inner[1].segment_offset.0, 0x2000);
    assert!(bin.section_header.inner.is_empty());
}

#[test]
fn combined_segment_flags_are_not_decomposed() {
    let mut p = 0usize;
    assert_eq!(
        parse_segment_flags(&mut p, &[6, 0, 0, 0], &ElfEndianness::Little),
        Ok(ElfSegmentFlags::PfUnknown(0x6))
    );
    assert_eq!(p, 4);
    for (v, f) in [(1u32, ElfSegmentFlags::PfX), (2, ElfSegmentFlags::PfW), (4, ElfSegmentFlags::PfR)] {
        let mut p = 0usize;
        assert_eq!(parse_segment_flags(&mut p, &v.to_be_bytes(), &ElfEndianness::Big), Ok(f));
    }
    let mut p = 0usize;
    assert_eq!(
        parse_segment_flags(&mut p, &[0, 0, 0, 0], &ElfEndianness::Big),
        Ok(ElfSegmentFlags::PfUnknown(0))
    );
}

#[test]
fn segment_type_ranges() {
    let cases = [
        (0u32, ElfSegmentType::PtNull),
        (7, ElfSegmentType::PtTls),
        (8, ElfSegmentType::PtUnknown(8)),
        (0x60000000, ElfSegmentType::PtOsSpecific(0x60000000)),
        (0x6474E550, ElfSegmentType::PtOsSpecific(0x6474E550)),
        (0x6FFFFFFF, ElfSegmentType::PtOsSpecific(0x6FFFFFFF)),
        (0x70000000, ElfSegmentType::PtProcessorSpecific(0x70000000)),
        (0x7FFFFFFF, ElfSegmentType::PtProcessorSpecific(0x7FFFFFFF)),
        (0x80000000, ElfSegmentType::PtUnknown(0x80000000)),
    ];
    for (code, t) in cases {
        let mut p = 0usize;
        assert_eq!(parse_segment_type(&mut p, &code.to_le_bytes(), &ElfEndianness::Little), Ok(t));
    }
}

#[test]
fn thirty_two_bit_entry_puts_flags_after_memory_size() {
    let mut b = Vec::new();
    for (k, v) in [1u32, 0x100, 0x8000, 0x8001, 0x200, 0x300, 6, 0x1000].iter().enumerate() {
        put(&mut b, 4 * k, &v.to_be_bytes());
    }
    let mut p = 0usize;
    let e = parse_program_header_entry(&mut p, &b, &ElfEndianness::Big, &ElfPlatformType::Bit32).unwrap();
    assert_eq!(p, 32);
    assert_eq!(e.segment_type, ElfSegmentType::PtLoad);
    assert_eq!(e.segment_offset.0, 0x100);
    assert_eq!(e.segment_vaddr.0, 0x8000);
    assert_eq!(e.segment_paddr.0, 0x8001);
    assert_eq!(e.segment_file_size.0, 0x200);
    assert_eq!(e.segment_memory_size.0, 0x300);
    assert_eq!(e.segment_flags, ElfSegmentFlags::PfUnknown(6));
    assert_eq!(e.segment_allignment.0, 0x1000);
    let mut p = 0usize;
    assert_eq!(
        parse_program_header_entry(&mut p, &b[..31], &ElfEndianness::Big, &ElfPlatformType::Bit32),
        Err(ElfError::OutOfBounds)
    );
    assert_eq!(p, 0);
}

#[test]
fn entries_past_the_end_are_reported_and_dropped() {
    let mut b = vec![0u8; 8];
    program_entry64(&mut b, 8, 1, 4, 0x10);
    program_entry64(&mut b, 64, 2, 2, 0x20);
    b.truncate(8 + 56 + 56 + 10);
    let mut p = 8usize;
    let t = parse_program_header(
        &mut p,
        &b,
        &ElfProgramHeaderEntryCount(4),
        &ElfEndianness::Little,
        &ElfPlatformType::Bit64,
    )
    .unwrap();
    assert_eq!(p, 8 + 2 * 56);
    assert_eq!(t.inner.len(), 2);
    assert_eq!(t.inner[1].segment_type, ElfSegmentType::PtDynamic);
    assert_eq!(
        t.errors,
        vec![
            ElfEntryError { index: 2, error: ElfError::OutOfBounds },
            ElfEntryError { index: 3, error: ElfError::OutOfBounds },
        ]
    );
}

#[test]
fn program_table_offset_past_the_file() {
    let mut b = header64(3, 0, 0, 0);
    put(&mut b, 32, &0xFFFF_FFFF_FFFFu64.to_le_bytes());
    let bin = parse_file(b, &ElfParts::All).unwrap();
    assert!(bin.program_header.inner.is_empty());
    assert_eq!(bin.program_header.errors.len(), 3);
    assert!(bin.section_header.inner.is_empty());
}

#[test]
fn names_come_from_each_entry_offset() {
    let table = b".text\0.data\0";
    let mut content = vec![0u8; 4];
    content.extend_from_slice(table);
    let mut strtab = bare_section(0);
    strtab.section_header_type = ElfSectionHeaderType::ShtStrtab;
    strtab.section_offset = ElfSectionOffset(4);
    strtab.section_size = ElfSectionSize(table.len() as u64);
    let entries = vec![bare_section(6), bare_section(0), strtab];
    let named =
        resolve_section_names(entries, &content, &ElfSectionHeaderSectionsTableIndex(2)).unwrap();
    assert_eq!(named[0].section_name.0, b".data".to_vec());
    assert_eq!(named[1].section_name.0, b".text".to_vec());
    assert_eq!(named[2].section_name.0, b".text".to_vec());
    assert_eq!(named[2].section_offset.0, 4);
}

#[test]
fn odd_name_offsets() {
    let table = b"ab\0cd";
    let mut strtab = bare_section(3);
    strtab.section_size = ElfSectionSize(table.len() as u64);
    let entries = vec![bare_section(1), bare_section(2), strtab, bare_section(5), bare_section(99)];
    let named =
        resolve_section_names(entries, table, &ElfSectionHeaderSectionsTableIndex(2)).unwrap();
    assert_eq!(named[0].section_name.0, b"b".to_vec());
    assert_eq!(named[1].section_name.0, b"".to_vec());
    assert_eq!(named[2].section_name.0, b"cd".to_vec());
    assert_eq!(named[3].section_name.0, b"".to_vec());
    assert_eq!(named[4].section_name.0, b"".to_vec());
}

#[test]
fn missing_name_table_is_out_of_bounds() {
    let entries = vec![bare_section(0)];
    assert_eq!(
        resolve_section_names(entries, b"x\0", &ElfSectionHeaderSectionsTableIndex(1)),
        Err(ElfError::OutOfBounds)
    );
    let mut strtab = bare_section(0);
    strtab.section_offset = ElfSectionOffset(1);
    strtab.section_size = ElfSectionSize(2);
    assert_eq!(
        resolve_section_names(vec![strtab], b"x\0", &ElfSectionHeaderSectionsTableIndex(0)),
        Err(ElfError::OutOfBounds)
    );
    assert_eq!(
        resolve_section_names(Vec::new(), b"", &ElfSectionHeaderSectionsTableIndex(7)),
        Ok(Vec::new())
    );
}

#[test]
fn section_table_through_parse_file() {
    let names = b"\0.shstrtab\0.text\0";
    let shoff = 0x100u64;
    let mut b = header64(0, shoff, 3, 2);
    put(&mut b, 0x80, b"\x90\x90\xC3");
    put(&mut b, 0xC0, names);
    section_entry64(&mut b, 0x100, 0, 0, 0, 0);
    section_entry64(&mut b, 0x140, 11, 1, 0x80, 3);
    section_entry64(&mut b, 0x180, 1, 3, 0xC0, names.len() as u64);
    let bin = parse_file(b, &ElfParts::SectionHeader).unwrap();
    let t = &bin.section_header;
    assert!(t.errors.is_empty());
    assert_eq!(t.inner.len(), 3);
    assert_eq!(t.inner[0].section_name.0, b"".to_vec());
    assert_eq!(t.inner[0].section_header_type, ElfSectionHeaderType::ShtNull);
    assert_eq!(t.inner[1].section_name.0, b".text".to_vec());
    assert_eq!(t.inner[1].section_header_type, ElfSectionHeaderType::ShtProgbits);
    assert_eq!(t.inner[1].section_offset.0, 0x80);
    assert_eq!(t.inner[1].section_size.0, 3);
    assert_eq!(t.inner[1].section_addr_allign.0, 1);
    assert_eq!(t.inner[2].section_name.0, b".shstrtab".to_vec());
    assert_eq!(t.inner[2].section_header_type, ElfSectionHeaderType::ShtStrtab);
    assert!(bin.program_header.inner.is_empty());
    assert_eq!(section_preview(&bin.content, &t.inner[1], 16), Some(vec![0x90, 0x90, 0xC3]));
    assert_eq!(section_preview(&bin.content, &t.inner[1], 2), Some(vec![0x90, 0x90]));
    assert_eq!(section_preview(&bin.content, &t.inner[2], 16), None);
}

#[test]
fn section_name_index_out_of_range_fails_the_table() {
    let mut b = header64(0, 0x40, 1, 3);
    section_entry64(&mut b, 0x40, 0, 0, 0, 0);
    assert!(matches!(parse_file(b, &ElfParts::Data), Err(ElfError::OutOfBounds)));
}

#[test]
fn truncated_section_table_keeps_decoded_entries() {
    let mut b = header64(0, 0x40, 3, 0);
    section_entry64(&mut b, 0x40, 0, 3, 0, 0);
    section_entry64(&mut b, 0x80, 0, 1, 0, 0);
    b.truncate(0xC0 + 20);
    let bin = parse_file(b, &ElfParts::All).unwrap();
    assert_eq!(bin.section_header.inner.len(), 2);
    assert_eq!(
        bin.section_header.errors,
        vec![ElfEntryError { index: 2, error: ElfError::OutOfBounds }]
    );
}

#[test]
fn preview_of_a_section_past_the_end() {
    let mut s = bare_section(0);
    s.section_offset = ElfSectionOffset(2);
    s.section_size = ElfSectionSize(5);
    assert_eq!(section_preview(&[1, 2, 3, 4], &s, 16), None);
    s.section_size = ElfSectionSize(2);
    assert_eq!(section_preview(&[1, 2, 3, 4], &s, 16), Some(vec![3, 4]));
}

#[test]
fn section_flags_match_single_values_only() {
    let cases = [
        (0u64, ElfSectionFlags::ShfNull),
        (1, ElfSectionFlags::ShfWrite),
        (2, ElfSectionFlags::ShfAlloc),
        (3, ElfSectionFlags::ShfUnknown(3)),
        (0x400, ElfSectionFlags::ShfTls),
        (0x0FF00000, ElfSectionFlags::ShfMaskos),
        (0xF0000000, ElfSectionFlags::ShfMaskproc),
    ];
    for (v, f) in cases {
        let mut p = 0usize;
        assert_eq!(
            parse_section_flags(&mut p, &v.to_le_bytes(), &ElfEndianness::Little, &ElfPlatformType::Bit64),
            Ok(f)
        );
        assert_eq!(p, 8);
        let mut p = 0usize;
        assert_eq!(
            parse_section_flags(&mut p, &(v as u32).to_be_bytes(), &ElfEndianness::Big, &ElfPlatformType::Bit32),
            Ok(f)
        );
        assert_eq!(p, 4);
    }
}

#[test]
fn section_types() {
    let cases = [
        (0u32, ElfSectionHeaderType::ShtNull),
        (3, ElfSectionHeaderType::ShtStrtab),
        (0x0B, ElfSectionHeaderType::ShtDynsym),
        (0x0C, ElfSectionHeaderType::ShtUnknown(0x0C)),
        (0x13, ElfSectionHeaderType::ShtNum),
        (0x14, ElfSectionHeaderType::ShtUnknown(0x14)),
        (0x60000000, ElfSectionHeaderType::ShtLoos),
        (0x6FFFFFF6, ElfSectionHeaderType::ShtUnknown(0x6FFFFFF6)),
    ];
    for (v, t) in cases {
        let mut p = 0usize;
        assert_eq!(parse_section_header_type(&mut p, &v.to_le_bytes(), &ElfEndianness::Little), Ok(t));
    }
}
