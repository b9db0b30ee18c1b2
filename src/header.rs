//! The fixed-layout file header: identity bytes, word class, byte order,
//! object type, machine, and the geometry of the two header tables.
use vstd::prelude::*;

use crate::bytes::{
    fits, le_value, lemma_byte_order_distinguishes, read_u16, read_u32, read_u8, read_word,
    value_at, word_len, ElfEndianness, ElfPlatformType,
};
use crate::error::ElfError;

verus! {

/// The four identity bytes `0x7F 'E' 'L' 'F'`.
#[derive(Debug, Clone, Copy, PartialEq, Eq)]
pub struct ElfMagicNumber(pub [u8; 4]);

/// Version of the identity layout (1 for the current format).
#[derive(Debug, Clone, Copy, PartialEq, Eq, Structural)]
pub struct ElfHeaderVersion(pub u8);

/// Operating system ABI the file targets.
#[derive(Debug, Clone, Copy, PartialEq, Eq, Structural)]
pub enum ElfTargetSystemAbi {
    SystemV,
    Hpux,
    NetBsd,
    Linux,
    GnuHurd,
    Solaris,
    AixMonterey,
    Irix,
    FreeBsd,
    Tru64,
    NovellModesto,
    OpenBsd,
    OpenVms,
    NonStopKernel,
    Aros,
    FenixOs,
    NuxiCloudAbi,
    StratusTechnologiesOpenVos,
}

/// Version of the target ABI; its meaning depends on the ABI.
#[derive(Debug, Clone, Copy, PartialEq, Eq, Structural)]
pub struct ElfTargetAbiVersion(pub u8);

/// The seven unused identity bytes that follow the ABI version.
#[derive(Debug, Clone, Copy, PartialEq, Eq)]
pub struct ElfReservedPadding(pub [u8; 7]);

/// Kind of object file.
#[derive(Debug, Clone, Copy, PartialEq, Eq, Structural)]
pub enum ElfObjectFileType {
    EtNone,
    EtRel,
    EtExec,
    EtDyn,
    EtCore,
    EtLoos,
    EtHios,
    EtLoproc,
    EtHiproc,
}

/// Instruction set architecture the file targets.
#[derive(Debug, Clone, Copy, PartialEq, Eq, Structural)]
pub enum ElfInstructionSet {
    AdvancedLogicCorpTinyJ,
    AmdX86_64,
    ArgonautRiscCore,
    Arm,
    Arm64bit,
    AtTwe32100,
    AxisCommunications32bit,
    BerkeleyPacketFilter,
    DensoNdr1,
    DigitalAlpha,
    DigitalEquipmentCorpPdp10,
    DigitalEquipmentCorpPdp11,
    DigitalVax,
    Element14_64bitDSP,
    FujitsuFr20,
    FujitsuMma,
    HewlettPackardPaRisc,
    HitachiH8500,
    HitachiH8S,
    HitachiH8_300,
    HitachiH8_300H,
    Ia64,
    IbmSpuSpc,
    Ibmsystem370,
    InfineonTechnologies32bit,
    Intel80860,
    Intel80960,
    IntelMcu,
    LoongArch,
    LsiLogic16bitDsp,
    McstElbrusE2k,
    Mips,
    Mipsrs3000LittleEndian,
    Motorola68000M68k,
    Motorola88000M88k,
    MotorolaColdFire,
    MotorolaM68hc12,
    MotorolaMc68hc05,
    MotorolaMc68hc08,
    MotorolaMc68hc11,
    MotorolaMc68hc16,
    MotorolaRce,
    MotorolaStarCore,
    NecV800,
    PowerPc,
    PowerPc64bit,
    Reserved,
    RiscV,
    S390,
    SiemensFx66,
    SiemensPcp,
    SiemensTriCore,
    SiliconGraphicsSvx,
    SonyDsp,
    SonyNCpu,
    Sparc,
    SparcV9,
    StanfordMipsX,
    StmicroElectronicsSt100,
    StmicroElectronicsSt19,
    StmicroElectronicsSt7,
    StmicroElectronicsSt9,
    SuperH,
    Tms320c6000Family,
    ToyotaMe16,
    TrwRh32,
    UnSpecified,
    Wdc65c816,
    X86,
    ZilogZ80,
}

/// Version of the object file format (1 for the first and current version).
#[derive(Debug, Clone, Copy, PartialEq, Eq, Structural)]
pub struct ElfVersion(pub u32);

/// Address at which the process starts executing.
#[derive(Debug, Clone, Copy, PartialEq, Eq, Structural)]
pub struct ElfEntryPoint(pub u64);

/// File offset of the program header table.
#[derive(Debug, Clone, Copy, PartialEq, Eq, Structural)]
pub struct ElfProgramHeaderOffset(pub u64);

/// File offset of the section header table.
#[derive(Debug, Clone, Copy, PartialEq, Eq, Structural)]
pub struct ElfSectionHeaderOffset(pub u64);

/// Processor-specific flags.
#[derive(Debug, Clone, Copy, PartialEq, Eq, Structural)]
pub struct ElfFlags(pub u32);

/// Size of this header in bytes (52 for 32-bit files, 64 for 64-bit ones).
#[derive(Debug, Clone, Copy, PartialEq, Eq, Structural)]
pub struct ElfHeaderSize(pub u16);

/// Size of one program header table entry.
#[derive(Debug, Clone, Copy, PartialEq, Eq, Structural)]
pub struct ElfProgramHeaderEntrySize(pub u16);

/// Number of entries in the program header table.
#[derive(Debug, Clone, Copy, PartialEq, Eq, Structural)]
pub struct ElfProgramHeaderEntryCount(pub u16);

impl ElfProgramHeaderEntryCount {
    pub fn inner(&self) -> (r: u16)
        ensures
            r == self.0,
    {
        self.0
    }
}

/// Size of one section header table entry.
#[derive(Debug, Clone, Copy, PartialEq, Eq, Structural)]
pub struct ElfSectionHeaderEntrySize(pub u16);

/// Number of entries in the section header table.
#[derive(Debug, Clone, Copy, PartialEq, Eq, Structural)]
pub struct ElfSectionHeaderEntryCount(pub u16);

/// Index of the section that holds the section names.
#[derive(Debug, Clone, Copy, PartialEq, Eq, Structural)]
pub struct ElfSectionHeaderSectionsTableIndex(pub u16);

/// The decoded file header.
#[derive(Debug, Clone, Copy, PartialEq, Eq)]
pub struct ElfHeader {
    pub magic_number: ElfMagicNumber,
    pub platform_type: ElfPlatformType,
    pub endianness: ElfEndianness,
    pub elf_header_version: ElfHeaderVersion,
    pub target_system_abi: ElfTargetSystemAbi,
    pub target_abi_version: ElfTargetAbiVersion,
    pub object_file_type: ElfObjectFileType,
    pub instruction_set: ElfInstructionSet,
    pub elf_version: ElfVersion,
    pub entry_point: ElfEntryPoint,
    pub program_header_offset: ElfProgramHeaderOffset,
    pub section_header_offset: ElfSectionHeaderOffset,
    pub flags: ElfFlags,
    pub header_size: ElfHeaderSize,
    pub program_header_entry_size: ElfProgramHeaderEntrySize,
    pub program_header_entry_count: ElfProgramHeaderEntryCount,
    pub section_header_entry_size: ElfSectionHeaderEntrySize,
    pub section_header_entry_count: ElfSectionHeaderEntryCount,
    pub section_header_sections_table_index: ElfSectionHeaderSectionsTableIndex,
}

/// Whether `b` is the identity sequence `0x7F 'E' 'L' 'F'`.
pub open spec fn is_magic(b: Seq<u8>) -> bool {
    &&& b.len() == 4
    &&& b[0] == 0x7F
    &&& b[1] == 0x45
    &&& b[2] == 0x4C
    &&& b[3] == 0x46
}

/// Word class named by the class byte.
pub open spec fn class_of(b: u8) -> Option<ElfPlatformType> {
    match b {
        1 => Some(ElfPlatformType::Bit32),
        2 => Some(ElfPlatformType::Bit64),
        _ => None,
    }
}

/// Byte order named by the data-order byte.
pub open spec fn order_of(b: u8) -> Option<ElfEndianness> {
    match b {
        1 => Some(ElfEndianness::Little),
        2 => Some(ElfEndianness::Big),
        _ => None,
    }
}

/// ABI named by the OS/ABI byte.
#[verifier::opaque]
pub open spec fn abi_of(b: u8) -> Option<ElfTargetSystemAbi> {
    match b {
        0x00 => Some(ElfTargetSystemAbi::SystemV),
        0x01 => Some(ElfTargetSystemAbi::Hpux),
        0x02 => Some(ElfTargetSystemAbi::NetBsd),
        0x03 => Some(ElfTargetSystemAbi::Linux),
        0x04 => Some(ElfTargetSystemAbi::GnuHurd),
        0x06 => Some(ElfTargetSystemAbi::Solaris),
        0x07 => Some(ElfTargetSystemAbi::AixMonterey),
        0x08 => Some(ElfTargetSystemAbi::Irix),
        0x09 => Some(ElfTargetSystemAbi::FreeBsd),
        0x0A => Some(ElfTargetSystemAbi::Tru64),
        0x0B => Some(ElfTargetSystemAbi::NovellModesto),
        0x0C => Some(ElfTargetSystemAbi::OpenBsd),
        0x0D => Some(ElfTargetSystemAbi::OpenVms),
        0x0E => Some(ElfTargetSystemAbi::NonStopKernel),
        0x0F => Some(ElfTargetSystemAbi::Aros),
        0x10 => Some(ElfTargetSystemAbi::FenixOs),
        0x11 => Some(ElfTargetSystemAbi::NuxiCloudAbi),
        0x12 => Some(ElfTargetSystemAbi::StratusTechnologiesOpenVos),
        _ => None,
    }
}

/// Object-file type named by a type code.
#[verifier::opaque]
pub open spec fn object_file_type_of(code: u16) -> Option<ElfObjectFileType> {
    match code {
        0x00 => Some(ElfObjectFileType::EtNone),
        0x01 => Some(ElfObjectFileType::EtRel),
        0x02 => Some(ElfObjectFileType::EtExec),
        0x03 => Some(ElfObjectFileType::EtDyn),
        0x04 => Some(ElfObjectFileType::EtCore),
        0xFE00 => Some(ElfObjectFileType::EtLoos),
        0xFEFF => Some(ElfObjectFileType::EtHios),
        0xFF00 => Some(ElfObjectFileType::EtLoproc),
        0xFFFF => Some(ElfObjectFileType::EtHiproc),
        _ => None,
    }
}

/// Instruction set named by a machine code; the codes 0x0B to 0x0E and 0x18
/// to 0x23 are reserved.
#[verifier::opaque]
pub open spec fn instruction_set_of(code: u16) -> Option<ElfInstructionSet> {
    match code {
        0x00 => Some(ElfInstructionSet::UnSpecified),
        0x01 => Some(ElfInstructionSet::AtTwe32100),
        0x02 => Some(ElfInstructionSet::Sparc),
        0x03 => Some(ElfInstructionSet::X86),
        0x04 => Some(ElfInstructionSet::Motorola68000M68k),
        0x05 => Some(ElfInstructionSet::Motorola88000M88k),
        0x06 => Some(ElfInstructionSet::IntelMcu),
        0x07 => Some(ElfInstructionSet::Intel80860),
        0x08 => Some(ElfInstructionSet::Mips),
        0x09 => Some(ElfInstructionSet::Ibmsystem370),
        0x0A => Some(ElfInstructionSet::Mipsrs3000LittleEndian),
        c if 0x0B <= c <= 0x0E => Some(ElfInstructionSet::Reserved),
        0x0F => Some(ElfInstructionSet::HewlettPackardPaRisc),
        0x13 => Some(ElfInstructionSet::Intel80960),
        0x14 => Some(ElfInstructionSet::PowerPc),
        0x15 => Some(ElfInstructionSet::PowerPc64bit),
        0x16 => Some(ElfInstructionSet::S390),
        0x17 => Some(ElfInstructionSet::IbmSpuSpc),
        c if 0x18 <= c <= 0x23 => Some(ElfInstructionSet::Reserved),
        0x24 => Some(ElfInstructionSet::NecV800),
        0x25 => Some(ElfInstructionSet::FujitsuFr20),
        0x26 => Some(ElfInstructionSet::TrwRh32),
        0x27 => Some(ElfInstructionSet::MotorolaRce),
        0x28 => Some(ElfInstructionSet::Arm),
        0x29 => Some(ElfInstructionSet::DigitalAlpha),
        0x2A => Some(ElfInstructionSet::SuperH),
        0x2B => Some(ElfInstructionSet::SparcV9),
        0x2C => Some(ElfInstructionSet::SiemensTriCore),
        0x2D => Some(ElfInstructionSet::ArgonautRiscCore),
        0x2E => Some(ElfInstructionSet::HitachiH8_300),
        0x2F => Some(ElfInstructionSet::HitachiH8_300H),
        0x30 => Some(ElfInstructionSet::HitachiH8S),
        0x31 => Some(ElfInstructionSet::HitachiH8500),
        0x32 => Some(ElfInstructionSet::Ia64),
        0x33 => Some(ElfInstructionSet::StanfordMipsX),
        0x34 => Some(ElfInstructionSet::MotorolaColdFire),
        0x35 => Some(ElfInstructionSet::MotorolaM68hc12),
        0x36 => Some(ElfInstructionSet::FujitsuMma),
        0x37 => Some(ElfInstructionSet::SiemensPcp),
        0x38 => Some(ElfInstructionSet::SonyNCpu),
        0x39 => Some(ElfInstructionSet::DensoNdr1),
        0x3A => Some(ElfInstructionSet::MotorolaStarCore),
        0x3B => Some(ElfInstructionSet::ToyotaMe16),
        0x3C => Some(ElfInstructionSet::StmicroElectronicsSt100),
        0x3D => Some(ElfInstructionSet::AdvancedLogicCorpTinyJ),
        0x3E => Some(ElfInstructionSet::AmdX86_64),
        0x3F => Some(ElfInstructionSet::SonyDsp),
        0x40 => Some(ElfInstructionSet::DigitalEquipmentCorpPdp10),
        0x41 => Some(ElfInstructionSet::DigitalEquipmentCorpPdp11),
        0x42 => Some(ElfInstructionSet::SiemensFx66),
        0x43 => Some(ElfInstructionSet::StmicroElectronicsSt9),
        0x44 => Some(ElfInstructionSet::StmicroElectronicsSt7),
        0x45 => Some(ElfInstructionSet::MotorolaMc68hc16),
        0x46 => Some(ElfInstructionSet::MotorolaMc68hc11),
        0x47 => Some(ElfInstructionSet::MotorolaMc68hc08),
        0x48 => Some(ElfInstructionSet::MotorolaMc68hc05),
        0x49 => Some(ElfInstructionSet::SiliconGraphicsSvx),
        0x4A => Some(ElfInstructionSet::StmicroElectronicsSt19),
        0x4B => Some(ElfInstructionSet::DigitalVax),
        0x4C => Some(ElfInstructionSet::AxisCommunications32bit),
        0x4D => Some(ElfInstructionSet::InfineonTechnologies32bit),
        0x4E => Some(ElfInstructionSet::Element14_64bitDSP),
        0x4F => Some(ElfInstructionSet::LsiLogic16bitDsp),
        0x8C => Some(ElfInstructionSet::Tms320c6000Family),
        0xAF => Some(ElfInstructionSet::McstElbrusE2k),
        0xB7 => Some(ElfInstructionSet::Arm64bit),
        0xDC => Some(ElfInstructionSet::ZilogZ80),
        0xF3 => Some(ElfInstructionSet::RiscV),
        0xF7 => Some(ElfInstructionSet::BerkeleyPacketFilter),
        0x101 => Some(ElfInstructionSet::Wdc65c816),
        0x102 => Some(ElfInstructionSet::LoongArch),
        _ => None,
    }
}

/// Size in bytes of the header of a file of word class `class`.
pub open spec fn header_len(class: ElfPlatformType) -> int {
    40 + 3 * word_len(class)
}

/// The error that decoding a header at `p` in `c` ends with, checking the
/// fields in file order; `None` when it decodes.
pub open spec fn header_error(c: Seq<u8>, p: int) -> Option<ElfError> {
    if !fits(c, p, 4) {
        Some(ElfError::OutOfBounds)
    } else if !is_magic(c.subrange(p, p + 4)) {
        Some(ElfError::MalformedMagic)
    } else if !fits(c, p + 4, 1) {
        Some(ElfError::OutOfBounds)
    } else if class_of(c[p + 4]) is None {
        Some(ElfError::UnsupportedClass)
    } else if !fits(c, p + 5, 1) {
        Some(ElfError::OutOfBounds)
    } else if order_of(c[p + 5]) is None {
        Some(ElfError::UnsupportedEncoding)
    } else if !fits(c, p + 6, 2) {
        Some(ElfError::OutOfBounds)
    } else if abi_of(c[p + 7]) is None {
        Some(ElfError::UnsupportedAbi)
    } else if !fits(c, p + 8, 10) {
        Some(ElfError::OutOfBounds)
    } else if object_file_type_of(
        value_at(c, p + 16, 2, order_of(c[p + 5]).unwrap()) as u16,
    ) is None {
        Some(ElfError::UnsupportedObjectFileType)
    } else if !fits(c, p + 18, 2) {
        Some(ElfError::OutOfBounds)
    } else if instruction_set_of(
        value_at(c, p + 18, 2, order_of(c[p + 5]).unwrap()) as u16,
    ) is None {
        Some(ElfError::UnsupportedInstructionSet)
    } else if !fits(c, p, header_len(class_of(c[p + 4]).unwrap())) {
        Some(ElfError::OutOfBounds)
    } else {
        None
    }
}

/// Word class named by the header at the start of `c`.
pub open spec fn class_in(c: Seq<u8>) -> ElfPlatformType {
    class_of(c[4]).unwrap()
}

/// Byte order named by the header at the start of `c`.
pub open spec fn order_in(c: Seq<u8>) -> ElfEndianness {
    order_of(c[5]).unwrap()
}

/// Program header table offset in the header at the start of `c`.
pub open spec fn program_table_offset_in(c: Seq<u8>) -> int {
    value_at(c, 24 + word_len(class_in(c)), word_len(class_in(c)), order_in(c)) as int
}

/// Program header entry count in the header at the start of `c`.
pub open spec fn program_count_in(c: Seq<u8>) -> int {
    value_at(c, 32 + 3 * word_len(class_in(c)), 2, order_in(c)) as int
}

/// Section header table offset in the header at the start of `c`.
pub open spec fn section_table_offset_in(c: Seq<u8>) -> int {
    value_at(c, 24 + 2 * word_len(class_in(c)), word_len(class_in(c)), order_in(c)) as int
}

/// Section header entry count in the header at the start of `c`.
pub open spec fn section_count_in(c: Seq<u8>) -> int {
    value_at(c, 36 + 3 * word_len(class_in(c)), 2, order_in(c)) as int
}

/// Index of the section-name table in the header at the start of `c`.
pub open spec fn section_names_index_in(c: Seq<u8>) -> int {
    value_at(c, 38 + 3 * word_len(class_in(c)), 2, order_in(c)) as int
}

/// Whether `h` holds the fields of the header at `p` in `c`.
pub open spec fn header_matches(c: Seq<u8>, p: int, h: ElfHeader) -> bool {
    let o = h.endianness;
    let w = word_len(h.platform_type);
    &&& h.magic_number.0@ == c.subrange(p, p + 4)
    &&& class_of(c[p + 4]) == Some(h.platform_type)
    &&& order_of(c[p + 5]) == Some(o)
    &&& h.elf_header_version.0 == c[p + 6]
    &&& abi_of(c[p + 7]) == Some(h.target_system_abi)
    &&& h.target_abi_version.0 == c[p + 8]
    &&& object_file_type_of(value_at(c, p + 16, 2, o) as u16) == Some(h.object_file_type)
    &&& instruction_set_of(value_at(c, p + 18, 2, o) as u16) == Some(h.instruction_set)
    &&& h.elf_version.0 == value_at(c, p + 20, 4, o)
    &&& h.entry_point.0 == value_at(c, p + 24, w, o)
    &&& h.program_header_offset.0 == value_at(c, p + 24 + w, w, o)
    &&& h.section_header_offset.0 == value_at(c, p + 24 + 2 * w, w, o)
    &&& h.flags.0 == value_at(c, p + 24 + 3 * w, 4, o)
    &&& h.header_size.0 == value_at(c, p + 28 + 3 * w, 2, o)
    &&& h.program_header_entry_size.0 == value_at(c, p + 30 + 3 * w, 2, o)
    &&& h.program_header_entry_count.0 == value_at(c, p + 32 + 3 * w, 2, o)
    &&& h.section_header_entry_size.0 == value_at(c, p + 34 + 3 * w, 2, o)
    &&& h.section_header_entry_count.0 == value_at(c, p + 36 + 3 * w, 2, o)
    &&& h.section_header_sections_table_index.0 == value_at(c, p + 38 + 3 * w, 2, o)
}

/// In a decoded 64-bit little-endian header, the entry point is the number
/// held by the eight bytes at offset 0x18, least significant first.
pub proof fn lemma_entry_point_64_le(c: Seq<u8>, h: ElfHeader)
    requires
        header_error(c, 0) is None,
        header_matches(c, 0, h),
        h.platform_type == ElfPlatformType::Bit64,
        h.endianness == ElfEndianness::Little,
    ensures
        h.entry_point.0 == le_value(c.subrange(0x18, 0x20)),
{
    reveal(value_at);
}

/// Whether `b` reads the same backwards.
pub open spec fn reads_same_backwards(b: Seq<u8>) -> bool {
    b == b.reverse()
}

proof fn lemma_field_in_both_orders(c1: Seq<u8>, c2: Seq<u8>, p: int, n: int)
    requires
        6 <= p,
        0 <= n,
        p + n <= c1.len(),
        c1.len() > 5,
        c2 == c1.update(5, 2),
    ensures
        !reads_same_backwards(c1.subrange(p, p + n)) ==> value_at(c1, p, n, ElfEndianness::Little)
            != value_at(c2, p, n, ElfEndianness::Big),
{
    reveal(value_at);
    assert(c1.subrange(p, p + n) =~= c2.subrange(p, p + n));
    lemma_byte_order_distinguishes(c1.subrange(p, p + n));
}

/// One image decoded with its data-order byte set to 1 (little endian) and
/// set to 2 (big endian) gives, in each multi-byte numeric field of the
/// header, two different values, unless the bytes of that field read the
/// same backwards.
pub proof fn lemma_header_byte_order(c1: Seq<u8>, c2: Seq<u8>, h1: ElfHeader, h2: ElfHeader)
    requires
        c1.len() > 5,
        c1[5] == 1,
        c2 == c1.update(5, 2),
        header_error(c1, 0) is None,
        header_error(c2, 0) is None,
        header_matches(c1, 0, h1),
        header_matches(c2, 0, h2),
    ensures
        h1.platform_type == h2.platform_type,
        ({
            let w = word_len(h1.platform_type);
            &&& !reads_same_backwards(c1.subrange(20, 24)) ==> h1.elf_version != h2.elf_version
            &&& !reads_same_backwards(c1.subrange(24, 24 + w)) ==> h1.entry_point != h2.entry_point
            &&& !reads_same_backwards(c1.subrange(24 + w, 24 + w + w))
                ==> h1.program_header_offset != h2.program_header_offset
            &&& !reads_same_backwards(c1.subrange(24 + 2 * w, 24 + 2 * w + w))
                ==> h1.section_header_offset != h2.section_header_offset
            &&& !reads_same_backwards(c1.subrange(24 + 3 * w, 24 + 3 * w + 4))
                ==> h1.flags != h2.flags
            &&& !reads_same_backwards(c1.subrange(28 + 3 * w, 28 + 3 * w + 2))
                ==> h1.header_size != h2.header_size
            &&& !reads_same_backwards(c1.subrange(30 + 3 * w, 30 + 3 * w + 2))
                ==> h1.program_header_entry_size != h2.program_header_entry_size
            &&& !reads_same_backwards(c1.subrange(32 + 3 * w, 32 + 3 * w + 2))
                ==> h1.program_header_entry_count != h2.program_header_entry_count
            &&& !reads_same_backwards(c1.subrange(34 + 3 * w, 34 + 3 * w + 2))
                ==> h1.section_header_entry_size != h2.section_header_entry_size
            &&& !reads_same_backwards(c1.subrange(36 + 3 * w, 36 + 3 * w + 2))
                ==> h1.section_header_entry_count != h2.section_header_entry_count
            &&& !reads_same_backwards(c1.subrange(38 + 3 * w, 38 + 3 * w + 2))
                ==> h1.section_header_sections_table_index != h2.section_header_sections_table_index
        }),
{
    assert(c2[4] == c1[4]);
    let w = word_len(h1.platform_type);
    assert(c1.len() >= header_len(h1.platform_type));
    lemma_field_in_both_orders(c1, c2, 20, 4);
    lemma_field_in_both_orders(c1, c2, 24, w);
    lemma_field_in_both_orders(c1, c2, 24 + w, w);
    lemma_field_in_both_orders(c1, c2, 24 + 2 * w, w);
    lemma_field_in_both_orders(c1, c2, 24 + 3 * w, 4);
    lemma_field_in_both_orders(c1, c2, 28 + 3 * w, 2);
    lemma_field_in_both_orders(c1, c2, 30 + 3 * w, 2);
    lemma_field_in_both_orders(c1, c2, 32 + 3 * w, 2);
    lemma_field_in_both_orders(c1, c2, 34 + 3 * w, 2);
    lemma_field_in_both_orders(c1, c2, 36 + 3 * w, 2);
    lemma_field_in_both_orders(c1, c2, 38 + 3 * w, 2);
}

fn abi_from_code(b: u8) -> (r: Option<ElfTargetSystemAbi>)
    ensures
        r == abi_of(b),
{
    reveal(abi_of);
    match b {
        0x00 => Some(ElfTargetSystemAbi::SystemV),
        0x01 => Some(ElfTargetSystemAbi::Hpux),
        0x02 => Some(ElfTargetSystemAbi::NetBsd),
        0x03 => Some(ElfTargetSystemAbi::Linux),
        0x04 => Some(ElfTargetSystemAbi::GnuHurd),
        0x06 => Some(ElfTargetSystemAbi::Solaris),
        0x07 => Some(ElfTargetSystemAbi::AixMonterey),
        0x08 => Some(ElfTargetSystemAbi::Irix),
        0x09 => Some(ElfTargetSystemAbi::FreeBsd),
        0x0A => Some(ElfTargetSystemAbi::Tru64),
        0x0B => Some(ElfTargetSystemAbi::NovellModesto),
        0x0C => Some(ElfTargetSystemAbi::OpenBsd),
        0x0D => Some(ElfTargetSystemAbi::OpenVms),
        0x0E => Some(ElfTargetSystemAbi::NonStopKernel),
        0x0F => Some(ElfTargetSystemAbi::Aros),
        0x10 => Some(ElfTargetSystemAbi::FenixOs),
        0x11 => Some(ElfTargetSystemAbi::NuxiCloudAbi),
        0x12 => Some(ElfTargetSystemAbi::StratusTechnologiesOpenVos),
        _ => None,
    }
}

fn object_file_type_from_code(code: u16) -> (r: Option<ElfObjectFileType>)
    ensures
        r == object_file_type_of(code),
{
    reveal(object_file_type_of);
    match code {
        0x00 => Some(ElfObjectFileType::EtNone),
        0x01 => Some(ElfObjectFileType::EtRel),
        0x02 => Some(ElfObjectFileType::EtExec),
        0x03 => Some(ElfObjectFileType::EtDyn),
        0x04 => Some(ElfObjectFileType::EtCore),
        0xFE00 => Some(ElfObjectFileType::EtLoos),
        0xFEFF => Some(ElfObjectFileType::EtHios),
        0xFF00 => Some(ElfObjectFileType::EtLoproc),
        0xFFFF => Some(ElfObjectFileType::EtHiproc),
        _ => None,
    }
}

fn instruction_set_from_code(code: u16) -> (r: Option<ElfInstructionSet>)
    ensures
        r == instruction_set_of(code),
{
    reveal(instruction_set_of);
    match code {
        0x00 => Some(ElfInstructionSet::UnSpecified),
        0x01 => Some(ElfInstructionSet::AtTwe32100),
        0x02 => Some(ElfInstructionSet::Sparc),
        0x03 => Some(ElfInstructionSet::X86),
        0x04 => Some(ElfInstructionSet::Motorola68000M68k),
        0x05 => Some(ElfInstructionSet::Motorola88000M88k),
        0x06 => Some(ElfInstructionSet::IntelMcu),
        0x07 => Some(ElfInstructionSet::Intel80860),
        0x08 => Some(ElfInstructionSet::Mips),
        0x09 => Some(ElfInstructionSet::Ibmsystem370),
        0x0A => Some(ElfInstructionSet::Mipsrs3000LittleEndian),
        c if 0x0B <= c && c <= 0x0E => Some(ElfInstructionSet::Reserved),
        0x0F => Some(ElfInstructionSet::HewlettPackardPaRisc),
        0x13 => Some(ElfInstructionSet::Intel80960),
        0x14 => Some(ElfInstructionSet::PowerPc),
        0x15 => Some(ElfInstructionSet::PowerPc64bit),
        0x16 => Some(ElfInstructionSet::S390),
        0x17 => Some(ElfInstructionSet::IbmSpuSpc),
        c if 0x18 <= c && c <= 0x23 => Some(ElfInstructionSet::Reserved),
        0x24 => Some(ElfInstructionSet::NecV800),
        0x25 => Some(ElfInstructionSet::FujitsuFr20),
        0x26 => Some(ElfInstructionSet::TrwRh32),
        0x27 => Some(ElfInstructionSet::MotorolaRce),
        0x28 => Some(ElfInstructionSet::Arm),
        0x29 => Some(ElfInstructionSet::DigitalAlpha),
        0x2A => Some(ElfInstructionSet::SuperH),
        0x2B => Some(ElfInstructionSet::SparcV9),
        0x2C => Some(ElfInstructionSet::SiemensTriCore),
        0x2D => Some(ElfInstructionSet::ArgonautRiscCore),
        0x2E => Some(ElfInstructionSet::HitachiH8_300),
        0x2F => Some(ElfInstructionSet::HitachiH8_300H),
        0x30 => Some(ElfInstructionSet::HitachiH8S),
        0x31 => Some(ElfInstructionSet::HitachiH8500),
        0x32 => Some(ElfInstructionSet::Ia64),
        0x33 => Some(ElfInstructionSet::StanfordMipsX),
        0x34 => Some(ElfInstructionSet::MotorolaColdFire),
        0x35 => Some(ElfInstructionSet::MotorolaM68hc12),
        0x36 => Some(ElfInstructionSet::FujitsuMma),
        0x37 => Some(ElfInstructionSet::SiemensPcp),
        0x38 => Some(ElfInstructionSet::SonyNCpu),
        0x39 => Some(ElfInstructionSet::DensoNdr1),
        0x3A => Some(ElfInstructionSet::MotorolaStarCore),
        0x3B => Some(ElfInstructionSet::ToyotaMe16),
        0x3C => Some(ElfInstructionSet::StmicroElectronicsSt100),
        0x3D => Some(ElfInstructionSet::AdvancedLogicCorpTinyJ),
        0x3E => Some(ElfInstructionSet::AmdX86_64),
        0x3F => Some(ElfInstructionSet::SonyDsp),
        0x40 => Some(ElfInstructionSet::DigitalEquipmentCorpPdp10),
        0x41 => Some(ElfInstructionSet::DigitalEquipmentCorpPdp11),
        0x42 => Some(ElfInstructionSet::SiemensFx66),
        0x43 => Some(ElfInstructionSet::StmicroElectronicsSt9),
        0x44 => Some(ElfInstructionSet::StmicroElectronicsSt7),
        0x45 => Some(ElfInstructionSet::MotorolaMc68hc16),
        0x46 => Some(ElfInstructionSet::MotorolaMc68hc11),
        0x47 => Some(ElfInstructionSet::MotorolaMc68hc08),
        0x48 => Some(ElfInstructionSet::MotorolaMc68hc05),
        0x49 => Some(ElfInstructionSet::SiliconGraphicsSvx),
        0x4A => Some(ElfInstructionSet::StmicroElectronicsSt19),
        0x4B => Some(ElfInstructionSet::DigitalVax),
        0x4C => Some(ElfInstructionSet::AxisCommunications32bit),
        0x4D => Some(ElfInstructionSet::InfineonTechnologies32bit),
        0x4E => Some(ElfInstructionSet::Element14_64bitDSP),
        0x4F => Some(ElfInstructionSet::LsiLogic16bitDsp),
        0x8C => Some(ElfInstructionSet::Tms320c6000Family),
        0xAF => Some(ElfInstructionSet::McstElbrusE2k),
        0xB7 => Some(ElfInstructionSet::Arm64bit),
        0xDC => Some(ElfInstructionSet::ZilogZ80),
        0xF3 => Some(ElfInstructionSet::RiscV),
        0xF7 => Some(ElfInstructionSet::BerkeleyPacketFilter),
        0x101 => Some(ElfInstructionSet::Wdc65c816),
        0x102 => Some(ElfInstructionSet::LoongArch),
        _ => None,
    }
}

/// Decodes the index of the section-name table (2 bytes) at `*pointer` and moves past it.
pub fn parse_section_header_sections_table_index(
    pointer: &mut usize,
    content: &[u8],
    endian: &ElfEndianness,
) -> (r: Result<ElfSectionHeaderSectionsTableIndex, ElfError>)
    ensures
        match r {
            Ok(f) => {
                &&& fits(content@, *old(pointer) as int, 2)
                &&& f.0 == value_at(content@, *old(pointer) as int, 2, *endian)
                &&& *final(pointer) == *old(pointer) + 2
            },
            Err(e) => {
                &&& !fits(content@, *old(pointer) as int, 2)
                &&& e == ElfError::OutOfBounds
                &&& *final(pointer) == *old(pointer)
            },
        },
{
    match read_u16(pointer, content, endian) {
        Ok(v) => Ok(ElfSectionHeaderSectionsTableIndex(v)),
        Err(e) => Err(e),
    }
}

/// Decodes the section header entry count (2 bytes) at `*pointer` and moves past it.
pub fn parse_section_header_entry_count(
    pointer: &mut usize,
    content: &[u8],
    endian: &ElfEndianness,
) -> (r: Result<ElfSectionHeaderEntryCount, ElfError>)
    ensures
        match r {
            Ok(f) => {
                &&& fits(content@, *old(pointer) as int, 2)
                &&& f.0 == value_at(content@, *old(pointer) as int, 2, *endian)
                &&& *final(pointer) == *old(pointer) + 2
            },
            Err(e) => {
                &&& !fits(content@, *old(pointer) as int, 2)
                &&& e == ElfError::OutOfBounds
                &&& *final(pointer) == *old(pointer)
            },
        },
{
    match read_u16(pointer, content, endian) {
        Ok(v) => Ok(ElfSectionHeaderEntryCount(v)),
        Err(e) => Err(e),
    }
}

/// Decodes the section header entry size (2 bytes) at `*pointer` and moves past it.
pub fn parse_section_header_entry_size(
    pointer: &mut usize,
    content: &[u8],
    endian: &ElfEndianness,
) -> (r: Result<ElfSectionHeaderEntrySize, ElfError>)
    ensures
        match r {
            Ok(f) => {
                &&& fits(content@, *old(pointer) as int, 2)
                &&& f.0 == value_at(content@, *old(pointer) as int, 2, *endian)
                &&& *final(pointer) == *old(pointer) + 2
            },
            Err(e) => {
                &&& !fits(content@, *old(pointer) as int, 2)
                &&& e == ElfError::OutOfBounds
                &&& *final(pointer) == *old(pointer)
            },
        },
{
    match read_u16(pointer, content, endian) {
        Ok(v) => Ok(ElfSectionHeaderEntrySize(v)),
        Err(e) => Err(e),
    }
}

/// Decodes the program header entry count (2 bytes) at `*pointer` and moves past it.
pub fn parse_program_header_entry_count(
    pointer: &mut usize,
    content: &[u8],
    endian: &ElfEndianness,
) -> (r: Result<ElfProgramHeaderEntryCount, ElfError>)
    ensures
        match r {
            Ok(f) => {
                &&& fits(content@, *old(pointer) as int, 2)
                &&& f.0 == value_at(content@, *old(pointer) as int, 2, *endian)
                &&& *final(pointer) == *old(pointer) + 2
            },
            Err(e) => {
                &&& !fits(content@, *old(pointer) as int, 2)
                &&& e == ElfError::OutOfBounds
                &&& *final(pointer) == *old(pointer)
            },
        },
{
    match read_u16(pointer, content, endian) {
        Ok(v) => Ok(ElfProgramHeaderEntryCount(v)),
        Err(e) => Err(e),
    }
}

/// Decodes the program header entry size (2 bytes) at `*pointer` and moves past it.
pub fn parse_program_header_entry_size(
    pointer: &mut usize,
    content: &[u8],
    endian: &ElfEndianness,
) -> (r: Result<ElfProgramHeaderEntrySize, ElfError>)
    ensures
        match r {
            Ok(f) => {
                &&& fits(content@, *old(pointer) as int, 2)
                &&& f.0 == value_at(content@, *old(pointer) as int, 2, *endian)
                &&& *final(pointer) == *old(pointer) + 2
            },
            Err(e) => {
                &&& !fits(content@, *old(pointer) as int, 2)
                &&& e == ElfError::OutOfBounds
                &&& *final(pointer) == *old(pointer)
            },
        },
{
    match read_u16(pointer, content, endian) {
        Ok(v) => Ok(ElfProgramHeaderEntrySize(v)),
        Err(e) => Err(e),
    }
}

/// Decodes the header size (2 bytes) at `*pointer` and moves past it.
pub fn parse_header_size(
    pointer: &mut usize,
    content: &[u8],
    endian: &ElfEndianness,
) -> (r: Result<ElfHeaderSize, ElfError>)
    ensures
        match r {
            Ok(f) => {
                &&& fits(content@, *old(pointer) as int, 2)
                &&& f.0 == value_at(content@, *old(pointer) as int, 2, *endian)
                &&& *final(pointer) == *old(pointer) + 2
            },
            Err(e) => {
                &&& !fits(content@, *old(pointer) as int, 2)
                &&& e == ElfError::OutOfBounds
                &&& *final(pointer) == *old(pointer)
            },
        },
{
    match read_u16(pointer, content, endian) {
        Ok(v) => Ok(ElfHeaderSize(v)),
        Err(e) => Err(e),
    }
}

/// Decodes the processor flags (4 bytes) at `*pointer` and moves past it.
pub fn parse_flags(
    pointer: &mut usize,
    content: &[u8],
    endian: &ElfEndianness,
) -> (r: Result<ElfFlags, ElfError>)
    ensures
        match r {
            Ok(f) => {
                &&& fits(content@, *old(pointer) as int, 4)
                &&& f.0 == value_at(content@, *old(pointer) as int, 4, *endian)
                &&& *final(pointer) == *old(pointer) + 4
            },
            Err(e) => {
                &&& !fits(content@, *old(pointer) as int, 4)
                &&& e == ElfError::OutOfBounds
                &&& *final(pointer) == *old(pointer)
            },
        },
{
    match read_u32(pointer, content, endian) {
        Ok(v) => Ok(ElfFlags(v)),
        Err(e) => Err(e),
    }
}

/// Decodes the section header table offset (one word) at `*pointer` and moves past it.
pub fn parse_section_header_offset(
    pointer: &mut usize,
    content: &[u8],
    platform: &ElfPlatformType,
    endian: &ElfEndianness,
) -> (r: Result<ElfSectionHeaderOffset, ElfError>)
    ensures
        match r {
            Ok(f) => {
                &&& fits(content@, *old(pointer) as int, word_len(*platform))
                &&& f.0 == value_at(content@, *old(pointer) as int, word_len(*platform), *endian)
                &&& *final(pointer) == *old(pointer) + word_len(*platform)
            },
            Err(e) => {
                &&& !fits(content@, *old(pointer) as int, word_len(*platform))
                &&& e == ElfError::OutOfBounds
                &&& *final(pointer) == *old(pointer)
            },
        },
{
    match read_word(pointer, content, endian, platform) {
        Ok(v) => Ok(ElfSectionHeaderOffset(v)),
        Err(e) => Err(e),
    }
}

/// Decodes the program header table offset (one word) at `*pointer` and moves past it.
pub fn parse_program_header_offset(
    pointer: &mut usize,
    content: &[u8],
    platform: &ElfPlatformType,
    endian: &ElfEndianness,
) -> (r: Result<ElfProgramHeaderOffset, ElfError>)
    ensures
        match r {
            Ok(f) => {
                &&& fits(content@, *old(pointer) as int, word_len(*platform))
                &&& f.0 == value_at(content@, *old(pointer) as int, word_len(*platform), *endian)
                &&& *final(pointer) == *old(pointer) + word_len(*platform)
            },
            Err(e) => {
                &&& !fits(content@, *old(pointer) as int, word_len(*platform))
                &&& e == ElfError::OutOfBounds
                &&& *final(pointer) == *old(pointer)
            },
        },
{
    match read_word(pointer, content, endian, platform) {
        Ok(v) => Ok(ElfProgramHeaderOffset(v)),
        Err(e) => Err(e),
    }
}

/// Decodes the entry-point address (one word) at `*pointer` and moves past it.
pub fn parse_entry_point(
    pointer: &mut usize,
    content: &[u8],
    platform: &ElfPlatformType,
    endian: &ElfEndianness,
) -> (r: Result<ElfEntryPoint, ElfError>)
    ensures
        match r {
            Ok(f) => {
                &&& fits(content@, *old(pointer) as int, word_len(*platform))
                &&& f.0 == value_at(content@, *old(pointer) as int, word_len(*platform), *endian)
                &&& *final(pointer) == *old(pointer) + word_len(*platform)
            },
            Err(e) => {
                &&& !fits(content@, *old(pointer) as int, word_len(*platform))
                &&& e == ElfError::OutOfBounds
                &&& *final(pointer) == *old(pointer)
            },
        },
{
    match read_word(pointer, content, endian, platform) {
        Ok(v) => Ok(ElfEntryPoint(v)),
        Err(e) => Err(e),
    }
}

/// Decodes the format version (4 bytes) at `*pointer` and moves past it.
pub fn parse_elf_version(
    pointer: &mut usize,
    content: &[u8],
    endian: &ElfEndianness,
) -> (r: Result<ElfVersion, ElfError>)
    ensures
        match r {
            Ok(f) => {
                &&& fits(content@, *old(pointer) as int, 4)
                &&& f.0 == value_at(content@, *old(pointer) as int, 4, *endian)
                &&& *final(pointer) == *old(pointer) + 4
            },
            Err(e) => {
                &&& !fits(content@, *old(pointer) as int, 4)
                &&& e == ElfError::OutOfBounds
                &&& *final(pointer) == *old(pointer)
            },
        },
{
    match read_u32(pointer, content, endian) {
        Ok(v) => Ok(ElfVersion(v)),
        Err(e) => Err(e),
    }
}

/// Decodes the machine field (2 bytes) at `*pointer` and moves past it; an
/// unknown code is refused with `UnsupportedInstructionSet`.
pub fn parse_instruction_set(
    pointer: &mut usize,
    content: &[u8],
    endian: &ElfEndianness,
) -> (r: Result<ElfInstructionSet, ElfError>)
    ensures
        match r {
            Ok(t) => {
                &&& fits(content@, *old(pointer) as int, 2)
                &&& instruction_set_of(
                    value_at(content@, *old(pointer) as int, 2, *endian) as u16,
                ) == Some(t)
                &&& *final(pointer) == *old(pointer) + 2
            },
            Err(e) => {
                &&& *final(pointer) == *old(pointer)
                &&& if fits(content@, *old(pointer) as int, 2) {
                    &&& instruction_set_of(
                        value_at(content@, *old(pointer) as int, 2, *endian) as u16,
                    ) is None
                    &&& e == ElfError::UnsupportedInstructionSet
                } else {
                    e == ElfError::OutOfBounds
                }
            },
        },
{
    let mut q = *pointer;
    match read_u16(&mut q, content, endian) {
        Ok(code) => match instruction_set_from_code(code) {
            Some(t) => {
                *pointer = q;
                Ok(t)
            },
            None => Err(ElfError::UnsupportedInstructionSet),
        },
        Err(e) => Err(e),
    }
}

/// Decodes the object-file type (2 bytes) at `*pointer` and moves past it; an
/// unknown code is refused with `UnsupportedObjectFileType`.
pub fn parse_object_file_type(
    pointer: &mut usize,
    content: &[u8],
    endian: &ElfEndianness,
) -> (r: Result<ElfObjectFileType, ElfError>)
    ensures
        match r {
            Ok(t) => {
                &&& fits(content@, *old(pointer) as int, 2)
                &&& object_file_type_of(
                    value_at(content@, *old(pointer) as int, 2, *endian) as u16,
                ) == Some(t)
                &&& *final(pointer) == *old(pointer) + 2
            },
            Err(e) => {
                &&& *final(pointer) == *old(pointer)
                &&& if fits(content@, *old(pointer) as int, 2) {
                    &&& object_file_type_of(
                        value_at(content@, *old(pointer) as int, 2, *endian) as u16,
                    ) is None
                    &&& e == ElfError::UnsupportedObjectFileType
                } else {
                    e == ElfError::OutOfBounds
                }
            },
        },
{
    let mut q = *pointer;
    match read_u16(&mut q, content, endian) {
        Ok(code) => match object_file_type_from_code(code) {
            Some(t) => {
                *pointer = q;
                Ok(t)
            },
            None => Err(ElfError::UnsupportedObjectFileType),
        },
        Err(e) => Err(e),
    }
}

/// Takes the seven unused identity bytes at `*pointer` and moves past them.
pub fn parse_reserved_padding(pointer: &mut usize, content: &[u8]) -> (r: Result<
    ElfReservedPadding,
    ElfError,
>)
    ensures
        match r {
            Ok(f) => {
                &&& fits(content@, *old(pointer) as int, 7)
                &&& f.0@ == content@.subrange(*old(pointer) as int, *old(pointer) + 7)
                &&& *final(pointer) == *old(pointer) + 7
            },
            Err(e) => {
                &&& !fits(content@, *old(pointer) as int, 7)
                &&& e == ElfError::OutOfBounds
                &&& *final(pointer) == *old(pointer)
            },
        },
{
    let p = *pointer;
    if p <= content.len() && 7 <= content.len() - p {
        let padding = [
            content[p],
            content[p + 1],
            content[p + 2],
            content[p + 3],
            content[p + 4],
            content[p + 5],
            content[p + 6],
        ];
        assert(padding@ =~= content@.subrange(p as int, p + 7));
        *pointer = p + 7;
        Ok(ElfReservedPadding(padding))
    } else {
        Err(ElfError::OutOfBounds)
    }
}

/// Takes the ABI version byte at `*pointer` and moves past it.
pub fn parse_target_abi_version(
    pointer: &mut usize,
    content: &[u8],
) -> (r: Result<ElfTargetAbiVersion, ElfError>)
    ensures
        match r {
            Ok(f) => {
                &&& fits(content@, *old(pointer) as int, 1)
                &&& f.0 == content@[*old(pointer) as int]
                &&& *final(pointer) == *old(pointer) + 1
            },
            Err(e) => {
                &&& !fits(content@, *old(pointer) as int, 1)
                &&& e == ElfError::OutOfBounds
                &&& *final(pointer) == *old(pointer)
            },
        },
{
    match read_u8(pointer, content) {
        Ok(v) => Ok(ElfTargetAbiVersion(v)),
        Err(e) => Err(e),
    }
}

/// Decodes the OS/ABI byte at `*pointer` and moves past it; an unknown
/// value is refused with `UnsupportedAbi`.
pub fn parse_target_system_abi(
    pointer: &mut usize,
    content: &[u8],
) -> (r: Result<ElfTargetSystemAbi, ElfError>)
    ensures
        match r {
            Ok(t) => {
                &&& fits(content@, *old(pointer) as int, 1)
                &&& abi_of(content@[*old(pointer) as int]) == Some(t)
                &&& *final(pointer) == *old(pointer) + 1
            },
            Err(e) => {
                &&& *final(pointer) == *old(pointer)
                &&& if fits(content@, *old(pointer) as int, 1) {
                    &&& abi_of(content@[*old(pointer) as int]) is None
                    &&& e == ElfError::UnsupportedAbi
                } else {
                    e == ElfError::OutOfBounds
                }
            },
        },
{
    let mut q = *pointer;
    match read_u8(&mut q, content) {
        Ok(b) => match abi_from_code(b) {
            Some(t) => {
                *pointer = q;
                Ok(t)
            },
            None => Err(ElfError::UnsupportedAbi),
        },
        Err(e) => Err(e),
    }
}

/// Takes the identity version byte at `*pointer` and moves past it.
pub fn parse_elf_header_version(
    pointer: &mut usize,
    content: &[u8],
) -> (r: Result<ElfHeaderVersion, ElfError>)
    ensures
        match r {
            Ok(f) => {
                &&& fits(content@, *old(pointer) as int, 1)
                &&& f.0 == content@[*old(pointer) as int]
                &&& *final(pointer) == *old(pointer) + 1
            },
            Err(e) => {
                &&& !fits(content@, *old(pointer) as int, 1)
                &&& e == ElfError::OutOfBounds
                &&& *final(pointer) == *old(pointer)
            },
        },
{
    match read_u8(pointer, content) {
        Ok(v) => Ok(ElfHeaderVersion(v)),
        Err(e) => Err(e),
    }
}

/// Decodes the data-order byte at `*pointer` and moves past it; an unknown
/// value is refused with `UnsupportedEncoding`.
pub fn parse_endianness(pointer: &mut usize, content: &[u8]) -> (r: Result<ElfEndianness, ElfError>)
    ensures
        match r {
            Ok(t) => {
                &&& fits(content@, *old(pointer) as int, 1)
                &&& order_of(content@[*old(pointer) as int]) == Some(t)
                &&& *final(pointer) == *old(pointer) + 1
            },
            Err(e) => {
                &&& *final(pointer) == *old(pointer)
                &&& if fits(content@, *old(pointer) as int, 1) {
                    &&& order_of(content@[*old(pointer) as int]) is None
                    &&& e == ElfError::UnsupportedEncoding
                } else {
                    e == ElfError::OutOfBounds
                }
            },
        },
{
    let mut q = *pointer;
    match read_u8(&mut q, content) {
        Ok(b) => match if b == 1 {
            Some(ElfEndianness::Little)
        } else if b == 2 {
            Some(ElfEndianness::Big)
        } else {
            None
        } {
            Some(t) => {
                *pointer = q;
                Ok(t)
            },
            None => Err(ElfError::UnsupportedEncoding),
        },
        Err(e) => Err(e),
    }
}

/// Decodes the class byte at `*pointer` and moves past it; an unknown
/// value is refused with `UnsupportedClass`.
pub fn parse_platform_type(
    pointer: &mut usize,
    content: &[u8],
) -> (r: Result<ElfPlatformType, ElfError>)
    ensures
        match r {
            Ok(t) => {
                &&& fits(content@, *old(pointer) as int, 1)
                &&& class_of(content@[*old(pointer) as int]) == Some(t)
                &&& *final(pointer) == *old(pointer) + 1
            },
            Err(e) => {
                &&& *final(pointer) == *old(pointer)
                &&& if fits(content@, *old(pointer) as int, 1) {
                    &&& class_of(content@[*old(pointer) as int]) is None
                    &&& e == ElfError::UnsupportedClass
                } else {
                    e == ElfError::OutOfBounds
                }
            },
        },
{
    let mut q = *pointer;
    match read_u8(&mut q, content) {
        Ok(b) => match if b == 1 {
            Some(ElfPlatformType::Bit32)
        } else if b == 2 {
            Some(ElfPlatformType::Bit64)
        } else {
            None
        } {
            Some(t) => {
                *pointer = q;
                Ok(t)
            },
            None => Err(ElfError::UnsupportedClass),
        },
        Err(e) => Err(e),
    }
}

/// Takes the four identity bytes at `*pointer` and moves past them; any other
/// four bytes are refused with `MalformedMagic`.
pub fn parse_magic_number(pointer: &mut usize, content: &[u8]) -> (r: Result<
    ElfMagicNumber,
    ElfError,
>)
    ensures
        match r {
            Ok(m) => {
                &&& fits(content@, *old(pointer) as int, 4)
                &&& is_magic(m.0@)
                &&& m.0@ == content@.subrange(*old(pointer) as int, *old(pointer) + 4)
                &&& *final(pointer) == *old(pointer) + 4
            },
            Err(e) => {
                &&& *final(pointer) == *old(pointer)
                &&& if fits(content@, *old(pointer) as int, 4) {
                    &&& !is_magic(content@.subrange(*old(pointer) as int, *old(pointer) + 4))
                    &&& e == ElfError::MalformedMagic
                } else {
                    e == ElfError::OutOfBounds
                }
            },
        },
{
    let p = *pointer;
    if p <= content.len() && 4 <= content.len() - p {
        let magic = [content[p], content[p + 1], content[p + 2], content[p + 3]];
        assert(magic@ =~= content@.subrange(p as int, p + 4));
        if magic[0] == 0x7F && magic[1] == 0x45 && magic[2] == 0x4C && magic[3] == 0x46 {
            *pointer = p + 4;
            Ok(ElfMagicNumber(magic))
        } else {
            Err(ElfError::MalformedMagic)
        }
    } else {
        Err(ElfError::OutOfBounds)
    }
}

/// Decodes the file header that starts at `*pointer`. On success the position
/// ends just past the header; on any failure nothing is returned but the
/// first error in file order, and the position is kept.
#[verifier::rlimit(80)]
pub fn parse_header(pointer: &mut usize, content: &[u8]) -> (r: Result<ElfHeader, ElfError>)
    ensures
        match r {
            Ok(h) => {
                &&& header_error(content@, *old(pointer) as int) is None
                &&& header_matches(content@, *old(pointer) as int, h)
                &&& *final(pointer) == *old(pointer) + header_len(h.platform_type)
            },
            Err(e) => {
                &&& header_error(content@, *old(pointer) as int) == Some(e)
                &&& *final(pointer) == *old(pointer)
            },
        },
{
    let ghost c = content@;
    let ghost p = *pointer as int;
    let mut q = *pointer;
    let magic_number = match parse_magic_number(&mut q, content) {
        Ok(v) => v,
        Err(e) => return Err(e),
    };
    let platform_type = match parse_platform_type(&mut q, content) {
        Ok(v) => v,
        Err(e) => return Err(e),
    };
    let endianness = match parse_endianness(&mut q, content) {
        Ok(v) => v,
        Err(e) => return Err(e),
    };
    let elf_header_version = match parse_elf_header_version(&mut q, content) {
        Ok(v) => v,
        Err(e) => return Err(e),
    };
    let target_system_abi = match parse_target_system_abi(&mut q, content) {
        Ok(v) => v,
        Err(e) => return Err(e),
    };
    let target_abi_version = match parse_target_abi_version(&mut q, content) {
        Ok(v) => v,
        Err(e) => return Err(e),
    };
    let _reserved_padding = match parse_reserved_padding(&mut q, content) {
        Ok(v) => v,
        Err(e) => return Err(e),
    };
    let object_file_type = match parse_object_file_type(&mut q, content, &endianness) {
        Ok(v) => v,
        Err(e) => return Err(e),
    };
    let instruction_set = match parse_instruction_set(&mut q, content, &endianness) {
        Ok(v) => v,
        Err(e) => return Err(e),
    };
    let elf_version = match parse_elf_version(&mut q, content, &endianness) {
        Ok(v) => v,
        Err(e) => return Err(e),
    };
    let entry_point = match parse_entry_point(&mut q, content, &platform_type, &endianness) {
        Ok(v) => v,
        Err(e) => return Err(e),
    };
    let program_header_offset = match parse_program_header_offset(
        &mut q,
        content,
        &platform_type,
        &endianness,
    ) {
        Ok(v) => v,
        Err(e) => return Err(e),
    };
    let section_header_offset = match parse_section_header_offset(
        &mut q,
        content,
        &platform_type,
        &endianness,
    ) {
        Ok(v) => v,
        Err(e) => return Err(e),
    };
    let flags = match parse_flags(&mut q, content, &endianness) {
        Ok(v) => v,
        Err(e) => return Err(e),
    };
    let header_size = match parse_header_size(&mut q, content, &endianness) {
        Ok(v) => v,
        Err(e) => return Err(e),
    };
    let program_header_entry_size = match parse_program_header_entry_size(
        &mut q,
        content,
        &endianness,
    ) {
        Ok(v) => v,
        Err(e) => return Err(e),
    };
    let program_header_entry_count = match parse_program_header_entry_count(
        &mut q,
        content,
        &endianness,
    ) {
        Ok(v) => v,
        Err(e) => return Err(e),
    };
    let section_header_entry_size = match parse_section_header_entry_size(
        &mut q,
        content,
        &endianness,
    ) {
        Ok(v) => v,
        Err(e) => return Err(e),
    };
    let section_header_entry_count = match parse_section_header_entry_count(
        &mut q,
        content,
        &endianness,
    ) {
        Ok(v) => v,
        Err(e) => return Err(e),
    };
    let section_header_sections_table_index = match parse_section_header_sections_table_index(
        &mut q,
        content,
        &endianness,
    ) {
        Ok(v) => v,
        Err(e) => return Err(e),
    };
    *pointer = q;
    Ok(
        ElfHeader {
            magic_number,
            platform_type,
            endianness,
            elf_header_version,
            target_system_abi,
            target_abi_version,
            object_file_type,
            instruction_set,
            elf_version,
            entry_point,
            program_header_offset,
            section_header_offset,
            flags,
            header_size,
            program_header_entry_size,
            program_header_entry_count,
            section_header_entry_size,
            section_header_entry_count,
            section_header_sections_table_index,
        },
    )
}

} // verus!
