use elf_parser::binary::{parse_file, ElfParts};
use elf_parser::bytes::{ElfEndianness, ElfPlatformType};
use elf_parser::error::ElfError;
use elf_parser::header::{
    parse_flags, parse_header, parse_instruction_set, parse_magic_number, ElfInstructionSet,
    ElfObjectFileType, ElfTargetSystemAbi,
};

fn put(buf: &mut Vec<u8>, at: usize, bytes: &[u8]) {
    buf[at..at + bytes.len()].copy_from_slice(bytes);
}

/// A 64-bit little-endian executable header for x86-64 with entry 0x401000.
fn header64_le() -> Vec<u8> {
    let mut b = vec![0u8; 64];
    put(&mut b, 0, &[0x7F, 0x45, 0x4C, 0x46, 2, 1, 1, 3, 0]);
    put(&mut b, 16, &2u16.to_le_bytes());
    put(&mut b, 18, &0x3Eu16.to_le_bytes());
    put(&mut b, 20, &1u32.to_le_bytes());
    put(&mut b, 24, &0x401000u64.to_le_bytes());
    put(&mut b, 32, &0x40u64.to_le_bytes());
    put(&mut b, 40, &0x1234u64.to_le_bytes());
    put(&mut b, 48, &0u32.to_le_bytes());
    put(&mut b, 52, &64u16.to_le_bytes());
    put(&mut b, 54, &56u16.to_le_bytes());
    put(&mut b, 56, &2u16.to_le_bytes());
    put(&mut b, 58, &64u16.to_le_bytes());
    put(&mut b, 60, &5u16.to_le_bytes());
    put(&mut b, 62, &4u16.to_le_bytes());
    b
}

#[test]
fn entry_point_is_the_little_endian_word_at_0x18() {
    let mut b = header64_le();
    put(&mut b, 0x18, &[0x11, 0x22, 0x33, 0x44, 0x55, 0x66, 0x77, 0x88]);
    let mut p = 0usize;
    let h = parse_header(&mut p, &b).unwrap();
    assert_eq!(h.entry_point.0, 0x8877665544332211);
    assert_eq!(h.entry_point.0, u64::from_le_bytes(b[0x18..0x20].try_into().unwrap()));
}

#[test]
fn encoded_header_decodes_to_its_fields() {
    let b = header64_le();
    let mut p = 0usize;
    let h = parse_header(&mut p, &b).unwrap();
    assert_eq!(p, 64);
    assert_eq!(h.magic_number.0, [0x7F, 0x45, 0x4C, 0x46]);
    assert_eq!(h.platform_type, ElfPlatformType::Bit64);
    assert_eq!(h.endianness, ElfEndianness::Little);
    assert_eq!(h.elf_header_version.0, 1);
    assert_eq!(h.target_system_abi, ElfTargetSystemAbi::Linux);
    assert_eq!(h.target_abi_version.0, 0);
    assert_eq!(h.object_file_type, ElfObjectFileType::EtExec);
    assert_eq!(h.instruction_set, ElfInstructionSet::AmdX86_64);
    assert_eq!(h.elf_version.0, 1);
    assert_eq!(h.entry_point.0, 0x401000);
    assert_eq!(h.program_header_offset.0, 0x40);
    assert_eq!(h.section_header_offset.0, 0x1234);
    assert_eq!(h.flags.0, 0);
    assert_eq!(h.header_size.0, 64);
    assert_eq!(h.program_header_entry_size.0, 56);
    assert_eq!(h.program_header_entry_count.0, 2);
    assert_eq!(h.program_header_entry_count.inner(), 2);
    assert_eq!(h.section_header_entry_size.0, 64);
    assert_eq!(h.section_header_entry_count.0, 5);
    assert_eq!(h.section_header_sections_table_index.0, 4);
}

#[test]
fn big_endian_32_bit_header() {
    let mut b = vec![0u8; 52];
    put(&mut b, 0, &[0x7F, 0x45, 0x4C, 0x46, 1, 2, 1, 0, 0]);
    put(&mut b, 16, &3u16.to_be_bytes());
    put(&mut b, 18, &0x14u16.to_be_bytes());
    put(&mut b, 20, &1u32.to_be_bytes());
    put(&mut b, 24, &0x10000u32.to_be_bytes());
    put(&mut b, 28, &0x34u32.to_be_bytes());
    put(&mut b, 32, &0x2000u32.to_be_bytes());
    put(&mut b, 36, &0x8000_0000u32.to_be_bytes());
    put(&mut b, 40, &52u16.to_be_bytes());
    put(&mut b, 42, &32u16.to_be_bytes());
    put(&mut b, 44, &7u16.to_be_bytes());
    put(&mut b, 46, &40u16.to_be_bytes());
    put(&mut b, 48, &9u16.to_be_bytes());
    put(&mut b, 50, &8u16.to_be_bytes());
    let mut p = 0usize;
    let h = parse_header(&mut p, &b).unwrap();
    assert_eq!(p, 52);
    assert_eq!(h.platform_type, ElfPlatformType::Bit32);
    assert_eq!(h.endianness, ElfEndianness::Big);
    assert_eq!(h.target_system_abi, ElfTargetSystemAbi::SystemV);
    assert_eq!(h.object_file_type, ElfObjectFileType::EtDyn);
    assert_eq!(h.instruction_set, ElfInstructionSet::PowerPc);
    assert_eq!(h.entry_point.0, 0x10000);
    assert_eq!(h.program_header_offset.0, 0x34);
    assert_eq!(h.section_header_offset.0, 0x2000);
    assert_eq!(h.flags.0, 0x8000_0000);
    assert_eq!(h.header_size.0, 52);
    assert_eq!(h.program_header_entry_count.0, 7);
    assert_eq!(h.section_header_entry_count.0, 9);
    assert_eq!(h.section_header_sections_table_index.0, 8);
}

#[test]
fn zero_magic_is_malformed() {
    let mut b = header64_le();
    put(&mut b, 0, &[0, 0, 0, 0]);
    let mut p = 0usize;
    assert_eq!(parse_header(&mut p, &b), Err(ElfError::MalformedMagic));
    assert_eq!(p, 0);
    assert!(matches!(parse_file(b, &ElfParts::All), Err(ElfError::MalformedMagic)));
}

#[test]
fn class_three_is_unsupported() {
    let mut b = header64_le();
    b[4] = 3;
    let mut p = 0usize;
    assert_eq!(parse_header(&mut p, &b), Err(ElfError::UnsupportedClass));
    assert_eq!(p, 0);
}

#[test]
fn order_three_is_unsupported() {
    let mut b = header64_le();
    b[5] = 3;
    let mut p = 0usize;
    assert_eq!(parse_header(&mut p, &b), Err(ElfError::UnsupportedEncoding));
}

#[test]
fn unnamed_abi_is_unsupported() {
    let mut b = header64_le();
    b[7] = 0x05;
    let mut p = 0usize;
    assert_eq!(parse_header(&mut p, &b), Err(ElfError::UnsupportedAbi));
}

#[test]
fn unnamed_object_type_is_unsupported() {
    let mut b = header64_le();
    put(&mut b, 16, &5u16.to_le_bytes());
    let mut p = 0usize;
    assert_eq!(parse_header(&mut p, &b), Err(ElfError::UnsupportedObjectFileType));
}

#[test]
fn unnamed_machine_is_unsupported() {
    let mut b = header64_le();
    put(&mut b, 18, &0x10u16.to_le_bytes());
    let mut p = 0usize;
    assert_eq!(parse_header(&mut p, &b), Err(ElfError::UnsupportedInstructionSet));
}

#[test]
fn reserved_machine_codes_are_reserved() {
    let mut p = 0usize;
    assert_eq!(
        parse_instruction_set(&mut p, &[0x0C, 0x00], &ElfEndianness::Little),
        Ok(ElfInstructionSet::Reserved)
    );
    let mut p = 0usize;
    assert_eq!(
        parse_instruction_set(&mut p, &[0x00, 0x20], &ElfEndianness::Big),
        Ok(ElfInstructionSet::Reserved)
    );
    let mut p = 0usize;
    assert_eq!(
        parse_instruction_set(&mut p, &[0x02, 0x01], &ElfEndianness::Little),
        Ok(ElfInstructionSet::LoongArch)
    );
}

#[test]
fn truncated_header_is_out_of_bounds() {
    let b = header64_le();
    for cut in [0usize, 3, 4, 7, 10, 17, 19, 30, 63] {
        let mut p = 0usize;
        assert_eq!(parse_header(&mut p, &b[..cut]), Err(ElfError::OutOfBounds), "cut {cut}");
        assert_eq!(p, 0);
    }
}

#[test]
fn magic_check_reads_four_bytes() {
    let mut p = 0usize;
    let m = parse_magic_number(&mut p, &[0x7F, b'E', b'L', b'F', 9]).unwrap();
    assert_eq!(m.0, [0x7F, b'E', b'L', b'F']);
    assert_eq!(p, 4);
    let mut p = 0usize;
    assert_eq!(parse_magic_number(&mut p, &[0x7F, b'E', b'L']), Err(ElfError::OutOfBounds));
}

#[test]
fn byte_order_changes_every_multi_byte_field() {
    // Object type 0xFFFF and machine 0x0000 read the same in both orders.
    let mut b = vec![0u8; 64];
    put(&mut b, 0, &[0x7F, 0x45, 0x4C, 0x46, 2, 1, 1, 0, 0]);
    put(&mut b, 16, &[0xFF, 0xFF, 0x00, 0x00]);
    let mut k: u8 = 1;
    for i in 20..64 {
        b[i] = k;
        k += 1;
    }
    let mut big = b.clone();
    big[5] = 2;
    let (mut p, mut q) = (0usize, 0usize);
    let l = parse_header(&mut p, &b).unwrap();
    let g = parse_header(&mut q, &big).unwrap();
    assert_eq!(l.endianness, ElfEndianness::Little);
    assert_eq!(g.endianness, ElfEndianness::Big);
    assert_eq!(l.object_file_type, g.object_file_type);
    assert_ne!(l.elf_version, g.elf_version);
    assert_ne!(l.entry_point, g.entry_point);
    assert_ne!(l.program_header_offset, g.program_header_offset);
    assert_ne!(l.section_header_offset, g.section_header_offset);
    assert_ne!(l.flags, g.flags);
    assert_ne!(l.header_size, g.header_size);
    assert_ne!(l.program_header_entry_size, g.program_header_entry_size);
    assert_ne!(l.program_header_entry_count, g.program_header_entry_count);
    assert_ne!(l.section_header_entry_size, g.section_header_entry_size);
    assert_ne!(l.section_header_entry_count, g.section_header_entry_count);
    assert_ne!(l.section_header_sections_table_index, g.section_header_sections_table_index);
    assert_eq!(l.elf_version.0, 0x04030201);
    assert_eq!(g.elf_version.0, 0x01020304);
}

#[test]
fn palindromic_field_reads_the_same_in_both_orders() {
    let mut p = 0usize;
    let a = parse_flags(&mut p, &[0xAB, 0x01, 0x01, 0xAB], &ElfEndianness::Little).unwrap();
    let mut q = 0usize;
    let b = parse_flags(&mut q, &[0xAB, 0x01, 0x01, 0xAB], &ElfEndianness::Big).unwrap();
    assert_eq!(a, b);
}

#[test]
fn field_past_the_end_is_out_of_bounds() {
    let mut p = 2usize;
    assert_eq!(parse_flags(&mut p, &[1, 2, 3, 4, 5], &ElfEndianness::Little), Err(ElfError::OutOfBounds));
    assert_eq!(p, 2);
    let mut p = 1usize;
    assert_eq!(parse_flags(&mut p, &[1, 2, 3, 4, 5], &ElfEndianness::Little).unwrap().0, 0x05040302);
    assert_eq!(p, 5);
    let mut p = usize::MAX;
    assert_eq!(parse_flags(&mut p, &[1, 2, 3, 4, 5], &ElfEndianness::Little), Err(ElfError::OutOfBounds));
}

#[test]
fn endianness_composes_integers() {
    let bytes = [0x01, 0x02, 0x03, 0x04, 0x05, 0x06, 0x07, 0x08];
    assert_eq!(ElfEndianness::Little.u16_from(&bytes), 0x0201);
    assert_eq!(ElfEndianness::Big.u16_from(&bytes), 0x0102);
    assert_eq!(ElfEndianness::Little.u32_from(&bytes), 0x04030201);
    assert_eq!(ElfEndianness::Big.u32_from(&bytes), 0x01020304);
    assert_eq!(ElfEndianness::Little.u64_from(&bytes), 0x0807060504030201);
    assert_eq!(ElfEndianness::Big.u64_from(&bytes), 0x0102030405060708);
    assert_eq!(ElfEndianness::Big.u64_from(&[0xFF; 8]), u64::MAX);
}

#[test]
fn parts_have_names() {
    assert_eq!(ElfParts::Header.as_str(), "Header");
    assert_eq!(ElfParts::ProgramHeader.as_str(), "ProgramHeader");
    assert_eq!(ElfParts::Data.as_str(), "Data");
    assert_eq!(ElfParts::SectionHeader.as_str(), "SectionHeader");
    assert_eq!(ElfParts::All.as_str(), "All");
}
