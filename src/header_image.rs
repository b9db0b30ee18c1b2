//! The byte image of a file header, and the proof that decoding it gives
//! the header back.
use vstd::prelude::*;

use crate::bytes::{
    decode, lemma_be_is_reversed_le, le_value, value_at, word_len, ElfEndianness,
    ElfPlatformType,
};
use crate::header::{
    abi_of, class_of, header_error, header_len, header_matches, instruction_set_of, is_magic,
    object_file_type_of, order_of, ElfHeader, ElfInstructionSet, ElfObjectFileType,
    ElfTargetSystemAbi,
};

verus! {

/// 256 to the power `n`.
pub open spec fn pow256(n: nat) -> nat
    decreases n,
{
    if n == 0 {
        1
    } else {
        256 * pow256((n - 1) as nat)
    }
}

/// The `n` bytes that hold `v`, least significant first.
pub open spec fn le_bytes(v: nat, n: nat) -> Seq<u8>
    decreases n,
{
    if n == 0 {
        Seq::empty()
    } else {
        seq![(v % 256) as u8] + le_bytes(v / 256, (n - 1) as nat)
    }
}

/// The `n` bytes that hold `v` in byte order `o`.
pub open spec fn bytes_of(o: ElfEndianness, v: nat, n: nat) -> Seq<u8> {
    match o {
        ElfEndianness::Little => le_bytes(v, n),
        ElfEndianness::Big => le_bytes(v, n).reverse(),
    }
}

/// Class byte of a word class.
pub open spec fn class_code(c: ElfPlatformType) -> u8 {
    match c {
        ElfPlatformType::Bit32 => 1,
        ElfPlatformType::Bit64 => 2,
    }
}

/// Data-order byte of a byte order.
pub open spec fn order_code(o: ElfEndianness) -> u8 {
    match o {
        ElfEndianness::Little => 1,
        ElfEndianness::Big => 2,
    }
}

/// OS/ABI byte of an ABI.
pub open spec fn abi_code(a: ElfTargetSystemAbi) -> u8 {
    match a {
        ElfTargetSystemAbi::SystemV => 0x00,
        ElfTargetSystemAbi::Hpux => 0x01,
        ElfTargetSystemAbi::NetBsd => 0x02,
        ElfTargetSystemAbi::Linux => 0x03,
        ElfTargetSystemAbi::GnuHurd => 0x04,
        ElfTargetSystemAbi::Solaris => 0x06,
        ElfTargetSystemAbi::AixMonterey => 0x07,
        ElfTargetSystemAbi::Irix => 0x08,
        ElfTargetSystemAbi::FreeBsd => 0x09,
        ElfTargetSystemAbi::Tru64 => 0x0A,
        ElfTargetSystemAbi::NovellModesto => 0x0B,
        ElfTargetSystemAbi::OpenBsd => 0x0C,
        ElfTargetSystemAbi::OpenVms => 0x0D,
        ElfTargetSystemAbi::NonStopKernel => 0x0E,
        ElfTargetSystemAbi::Aros => 0x0F,
        ElfTargetSystemAbi::FenixOs => 0x10,
        ElfTargetSystemAbi::NuxiCloudAbi => 0x11,
        ElfTargetSystemAbi::StratusTechnologiesOpenVos => 0x12,
    }
}

/// Type code of an object-file type.
pub open spec fn object_file_type_code(t: ElfObjectFileType) -> u16 {
    match t {
        ElfObjectFileType::EtNone => 0x00,
        ElfObjectFileType::EtRel => 0x01,
        ElfObjectFileType::EtExec => 0x02,
        ElfObjectFileType::EtDyn => 0x03,
        ElfObjectFileType::EtCore => 0x04,
        ElfObjectFileType::EtLoos => 0xFE00,
        ElfObjectFileType::EtHios => 0xFEFF,
        ElfObjectFileType::EtLoproc => 0xFF00,
        ElfObjectFileType::EtHiproc => 0xFFFF,
    }
}

/// Machine code of an instruction set; `Reserved` is given the first
/// reserved code.
pub open spec fn instruction_set_code(s: ElfInstructionSet) -> u16 {
    match s {
        ElfInstructionSet::UnSpecified => 0x00,
        ElfInstructionSet::AtTwe32100 => 0x01,
        ElfInstructionSet::Sparc => 0x02,
        ElfInstructionSet::X86 => 0x03,
        ElfInstructionSet::Motorola68000M68k => 0x04,
        ElfInstructionSet::Motorola88000M88k => 0x05,
        ElfInstructionSet::IntelMcu => 0x06,
        ElfInstructionSet::Intel80860 => 0x07,
        ElfInstructionSet::Mips => 0x08,
        ElfInstructionSet::Ibmsystem370 => 0x09,
        ElfInstructionSet::Mipsrs3000LittleEndian => 0x0A,
        ElfInstructionSet::Reserved => 0x0B,
        ElfInstructionSet::HewlettPackardPaRisc => 0x0F,
        ElfInstructionSet::Intel80960 => 0x13,
        ElfInstructionSet::PowerPc => 0x14,
        ElfInstructionSet::PowerPc64bit => 0x15,
        ElfInstructionSet::S390 => 0x16,
        ElfInstructionSet::IbmSpuSpc => 0x17,
        ElfInstructionSet::NecV800 => 0x24,
        ElfInstructionSet::FujitsuFr20 => 0x25,
        ElfInstructionSet::TrwRh32 => 0x26,
        ElfInstructionSet::MotorolaRce => 0x27,
        ElfInstructionSet::Arm => 0x28,
        ElfInstructionSet::DigitalAlpha => 0x29,
        ElfInstructionSet::SuperH => 0x2A,
        ElfInstructionSet::SparcV9 => 0x2B,
        ElfInstructionSet::SiemensTriCore => 0x2C,
        ElfInstructionSet::ArgonautRiscCore => 0x2D,
        ElfInstructionSet::HitachiH8_300 => 0x2E,
        ElfInstructionSet::HitachiH8_300H => 0x2F,
        ElfInstructionSet::HitachiH8S => 0x30,
        ElfInstructionSet::HitachiH8500 => 0x31,
        ElfInstructionSet::Ia64 => 0x32,
        ElfInstructionSet::StanfordMipsX => 0x33,
        ElfInstructionSet::MotorolaColdFire => 0x34,
        ElfInstructionSet::MotorolaM68hc12 => 0x35,
        ElfInstructionSet::FujitsuMma => 0x36,
        ElfInstructionSet::SiemensPcp => 0x37,
        ElfInstructionSet::SonyNCpu => 0x38,
        ElfInstructionSet::DensoNdr1 => 0x39,
        ElfInstructionSet::MotorolaStarCore => 0x3A,
        ElfInstructionSet::ToyotaMe16 => 0x3B,
        ElfInstructionSet::StmicroElectronicsSt100 => 0x3C,
        ElfInstructionSet::AdvancedLogicCorpTinyJ => 0x3D,
        ElfInstructionSet::AmdX86_64 => 0x3E,
        ElfInstructionSet::SonyDsp => 0x3F,
        ElfInstructionSet::DigitalEquipmentCorpPdp10 => 0x40,
        ElfInstructionSet::DigitalEquipmentCorpPdp11 => 0x41,
        ElfInstructionSet::SiemensFx66 => 0x42,
        ElfInstructionSet::StmicroElectronicsSt9 => 0x43,
        ElfInstructionSet::StmicroElectronicsSt7 => 0x44,
        ElfInstructionSet::MotorolaMc68hc16 => 0x45,
        ElfInstructionSet::MotorolaMc68hc11 => 0x46,
        ElfInstructionSet::MotorolaMc68hc08 => 0x47,
        ElfInstructionSet::MotorolaMc68hc05 => 0x48,
        ElfInstructionSet::SiliconGraphicsSvx => 0x49,
        ElfInstructionSet::StmicroElectronicsSt19 => 0x4A,
        ElfInstructionSet::DigitalVax => 0x4B,
        ElfInstructionSet::AxisCommunications32bit => 0x4C,
        ElfInstructionSet::InfineonTechnologies32bit => 0x4D,
        ElfInstructionSet::Element14_64bitDSP => 0x4E,
        ElfInstructionSet::LsiLogic16bitDsp => 0x4F,
        ElfInstructionSet::Tms320c6000Family => 0x8C,
        ElfInstructionSet::McstElbrusE2k => 0xAF,
        ElfInstructionSet::Arm64bit => 0xB7,
        ElfInstructionSet::ZilogZ80 => 0xDC,
        ElfInstructionSet::RiscV => 0xF3,
        ElfInstructionSet::BerkeleyPacketFilter => 0xF7,
        ElfInstructionSet::Wdc65c816 => 0x101,
        ElfInstructionSet::LoongArch => 0x102,
    }
}

/// Whether `h` can be written as a header: its identity bytes are the fixed
/// ones, and in a 32-bit file its addresses and offsets fit in four bytes.
pub open spec fn header_encodable(h: ElfHeader) -> bool {
    &&& is_magic(h.magic_number.0@)
    &&& h.platform_type == ElfPlatformType::Bit32 ==> {
        &&& h.entry_point.0 < 0x1_0000_0000
        &&& h.program_header_offset.0 < 0x1_0000_0000
        &&& h.section_header_offset.0 < 0x1_0000_0000
    }
}

/// The bytes of the header `h`, the seven unused identity bytes being zero.
#[verifier::opaque]
pub open spec fn header_image(h: ElfHeader) -> Seq<u8> {
    let o = h.endianness;
    let w = word_len(h.platform_type) as nat;
    h.magic_number.0@ + seq![
        class_code(h.platform_type),
        order_code(o),
        h.elf_header_version.0,
        abi_code(h.target_system_abi),
        h.target_abi_version.0,
    ] + Seq::new(7, |i: int| 0u8) + bytes_of(o, object_file_type_code(h.object_file_type) as nat, 2)
        + bytes_of(o, instruction_set_code(h.instruction_set) as nat, 2) + bytes_of(
        o,
        h.elf_version.0 as nat,
        4,
    ) + bytes_of(o, h.entry_point.0 as nat, w) + bytes_of(o, h.program_header_offset.0 as nat, w)
        + bytes_of(o, h.section_header_offset.0 as nat, w) + bytes_of(o, h.flags.0 as nat, 4)
        + bytes_of(o, h.header_size.0 as nat, 2) + bytes_of(
        o,
        h.program_header_entry_size.0 as nat,
        2,
    ) + bytes_of(o, h.program_header_entry_count.0 as nat, 2) + bytes_of(
        o,
        h.section_header_entry_size.0 as nat,
        2,
    ) + bytes_of(o, h.section_header_entry_count.0 as nat, 2) + bytes_of(
        o,
        h.section_header_sections_table_index.0 as nat,
        2,
    )
}

/// Writing a header as bytes and decoding those bytes gives back the same
/// header.
/// Writing a header as bytes and decoding those bytes gives back the same
/// header.
pub proof fn lemma_header_round_trip(h: ElfHeader)
    requires
        header_encodable(h),
    ensures
        header_error(header_image(h), 0) is None,
        header_matches(header_image(h), 0, h),
{
    let o = h.endianness;
    let w = word_len(h.platform_type) as nat;
    let c = header_image(h);
    lemma_pow256();
    lemma_codes(h);
    lemma_image_pieces(h);
    reveal(value_at);
    assert(h.entry_point.0 < pow256(w));
    assert(h.program_header_offset.0 < pow256(w));
    assert(h.section_header_offset.0 < pow256(w));
    lemma_bytes_of(o, object_file_type_code(h.object_file_type) as nat, 2);
    lemma_bytes_of(o, instruction_set_code(h.instruction_set) as nat, 2);
    lemma_bytes_of(o, h.elf_version.0 as nat, 4);
    lemma_bytes_of(o, h.entry_point.0 as nat, w);
    lemma_bytes_of(o, h.program_header_offset.0 as nat, w);
    lemma_bytes_of(o, h.section_header_offset.0 as nat, w);
    lemma_bytes_of(o, h.flags.0 as nat, 4);
    lemma_bytes_of(o, h.header_size.0 as nat, 2);
    lemma_bytes_of(o, h.program_header_entry_size.0 as nat, 2);
    lemma_bytes_of(o, h.program_header_entry_count.0 as nat, 2);
    lemma_bytes_of(o, h.section_header_entry_size.0 as nat, 2);
    lemma_bytes_of(o, h.section_header_entry_count.0 as nat, 2);
    lemma_bytes_of(o, h.section_header_sections_table_index.0 as nat, 2);
}

/// `x` and `y` stay where they are in `c` when `c` starts with `x + y`.
proof fn lemma_prefix_extends(c: Seq<u8>, x: Seq<u8>, y: Seq<u8>)
    requires
        (x.len() + y.len()) as int <= c.len(),
        c.subrange(0, (x.len() + y.len()) as int) == x + y,
    ensures
        c.subrange(0, x.len() as int) == x,
        c.subrange(x.len() as int, (x.len() + y.len()) as int) == y,
{
    assert(c.subrange(0, x.len() as int) =~= (x + y).subrange(0, x.len() as int));
    assert(c.subrange(x.len() as int, (x.len() + y.len()) as int) =~= (x + y).subrange(
        x.len() as int,
        (x.len() + y.len()) as int,
    ));
}

proof fn lemma_image_pieces(h: ElfHeader)
    ensures
        ({
            let c = header_image(h);
            let o = h.endianness;
            let w = word_len(h.platform_type);
            &&& c.len() == header_len(h.platform_type)
            &&& c.subrange(0, 4) == h.magic_number.0@
            &&& c[4] == class_code(h.platform_type)
            &&& c[5] == order_code(o)
            &&& c[6] == h.elf_header_version.0
            &&& c[7] == abi_code(h.target_system_abi)
            &&& c[8] == h.target_abi_version.0
            &&& c.subrange(16, 18) == bytes_of(
                o,
                object_file_type_code(h.object_file_type) as nat,
                2,
            )
            &&& c.subrange(18, 20) == bytes_of(
                o,
                instruction_set_code(h.instruction_set) as nat,
                2,
            )
            &&& c.subrange(20, 24) == bytes_of(
                o,
                h.elf_version.0 as nat,
                4,
            )
            &&& c.subrange(24, 24 + w) == bytes_of(
                o,
                h.entry_point.0 as nat,
                w as nat,
            )
            &&& c.subrange(24 + w, 24 + 2 * w) == bytes_of(
                o,
                h.program_header_offset.0 as nat,
                w as nat,
            )
            &&& c.subrange(24 + 2 * w, 24 + 3 * w) == bytes_of(
                o,
                h.section_header_offset.0 as nat,
                w as nat,
            )
            &&& c.subrange(24 + 3 * w, 24 + 3 * w + 4) == bytes_of(
                o,
                h.flags.0 as nat,
                4,
            )
            &&& c.subrange(28 + 3 * w, 28 + 3 * w + 2) == bytes_of(
                o,
                h.header_size.0 as nat,
                2,
            )
            &&& c.subrange(30 + 3 * w, 30 + 3 * w + 2) == bytes_of(
                o,
                h.program_header_entry_size.0 as nat,
                2,
            )
            &&& c.subrange(32 + 3 * w, 32 + 3 * w + 2) == bytes_of(
                o,
                h.program_header_entry_count.0 as nat,
                2,
            )
            &&& c.subrange(34 + 3 * w, 34 + 3 * w + 2) == bytes_of(
                o,
                h.section_header_entry_size.0 as nat,
                2,
            )
            &&& c.subrange(36 + 3 * w, 36 + 3 * w + 2) == bytes_of(
                o,
                h.section_header_entry_count.0 as nat,
                2,
            )
            &&& c.subrange(38 + 3 * w, 38 + 3 * w + 2) == bytes_of(
                o,
                h.section_header_sections_table_index.0 as nat,
                2,
            )
        }),
{
    reveal(header_image);
    let o = h.endianness;
    let w = word_len(h.platform_type) as nat;
    let c = header_image(h);
    let s0 = h.magic_number.0@ + seq![
        class_code(h.platform_type),
        order_code(o),
        h.elf_header_version.0,
        abi_code(h.target_system_abi),
        h.target_abi_version.0,
    ] + Seq::new(7, |i: int| 0u8);
    let b1 = bytes_of(o, object_file_type_code(h.object_file_type) as nat, 2);
    lemma_bytes_of_len(o, object_file_type_code(h.object_file_type) as nat, 2);
    let s1 = s0 + b1;
    let b2 = bytes_of(o, instruction_set_code(h.instruction_set) as nat, 2);
    lemma_bytes_of_len(o, instruction_set_code(h.instruction_set) as nat, 2);
    let s2 = s1 + b2;
    let b3 = bytes_of(o, h.elf_version.0 as nat, 4);
    lemma_bytes_of_len(o, h.elf_version.0 as nat, 4);
    let s3 = s2 + b3;
    let b4 = bytes_of(o, h.entry_point.0 as nat, w);
    lemma_bytes_of_len(o, h.entry_point.0 as nat, w);
    let s4 = s3 + b4;
    let b5 = bytes_of(o, h.program_header_offset.0 as nat, w);
    lemma_bytes_of_len(o, h.program_header_offset.0 as nat, w);
    let s5 = s4 + b5;
    let b6 = bytes_of(o, h.section_header_offset.0 as nat, w);
    lemma_bytes_of_len(o, h.section_header_offset.0 as nat, w);
    let s6 = s5 + b6;
    let b7 = bytes_of(o, h.flags.0 as nat, 4);
    lemma_bytes_of_len(o, h.flags.0 as nat, 4);
    let s7 = s6 + b7;
    let b8 = bytes_of(o, h.header_size.0 as nat, 2);
    lemma_bytes_of_len(o, h.header_size.0 as nat, 2);
    let s8 = s7 + b8;
    let b9 = bytes_of(o, h.program_header_entry_size.0 as nat, 2);
    lemma_bytes_of_len(o, h.program_header_entry_size.0 as nat, 2);
    let s9 = s8 + b9;
    let b10 = bytes_of(o, h.program_header_entry_count.0 as nat, 2);
    lemma_bytes_of_len(o, h.program_header_entry_count.0 as nat, 2);
    let s10 = s9 + b10;
    let b11 = bytes_of(o, h.section_header_entry_size.0 as nat, 2);
    lemma_bytes_of_len(o, h.section_header_entry_size.0 as nat, 2);
    let s11 = s10 + b11;
    let b12 = bytes_of(o, h.section_header_entry_count.0 as nat, 2);
    lemma_bytes_of_len(o, h.section_header_entry_count.0 as nat, 2);
    let s12 = s11 + b12;
    let b13 = bytes_of(o, h.section_header_sections_table_index.0 as nat, 2);
    lemma_bytes_of_len(o, h.section_header_sections_table_index.0 as nat, 2);
    let s13 = s12 + b13;
    assert(c == s13);
    assert(c.subrange(0, c.len() as int) =~= c);
    lemma_prefix_extends(c, s12, b13);
    lemma_prefix_extends(c, s11, b12);
    lemma_prefix_extends(c, s10, b11);
    lemma_prefix_extends(c, s9, b10);
    lemma_prefix_extends(c, s8, b9);
    lemma_prefix_extends(c, s7, b8);
    lemma_prefix_extends(c, s6, b7);
    lemma_prefix_extends(c, s5, b6);
    lemma_prefix_extends(c, s4, b5);
    lemma_prefix_extends(c, s3, b4);
    lemma_prefix_extends(c, s2, b3);
    lemma_prefix_extends(c, s1, b2);
    lemma_prefix_extends(c, s0, b1);
    assert(s0.subrange(0, 4) =~= h.magic_number.0@);
    assert(c.subrange(0, 4) =~= s0.subrange(0, 4));
}

proof fn lemma_bytes_of_len(o: ElfEndianness, v: nat, n: nat)
    ensures
        bytes_of(o, v, n).len() == n,
    decreases n,
{
    if n > 0 {
        lemma_bytes_of_len(ElfEndianness::Little, v / 256, (n - 1) as nat);
    }
}

proof fn lemma_le_bytes(v: nat, n: nat)
    requires
        v < pow256(n),
    ensures
        le_bytes(v, n).len() == n,
        le_value(le_bytes(v, n)) == v,
    decreases n,
{
    if n > 0 {
        let rest = (n - 1) as nat;
        assert(v / 256 < pow256(rest)) by {
            assert(pow256(n) == 256 * pow256(rest));
        }
        lemma_le_bytes(v / 256, rest);
        assert(le_bytes(v, n).drop_first() =~= le_bytes(v / 256, rest));
    }
}

proof fn lemma_bytes_of(o: ElfEndianness, v: nat, n: nat)
    requires
        v < pow256(n),
    ensures
        bytes_of(o, v, n).len() == n,
        decode(o, bytes_of(o, v, n)) == v,
{
    lemma_le_bytes(v, n);
    let b = le_bytes(v, n);
    lemma_be_is_reversed_le(b.reverse());
    assert(b.reverse().reverse() =~= b);
}

proof fn lemma_pow256()
    ensures
        pow256(2) == 0x1_0000,
        pow256(4) == 0x1_0000_0000,
        pow256(8) == 0x1_0000_0000_0000_0000,
{
    reveal_with_fuel(pow256, 9);
}

proof fn lemma_codes(h: ElfHeader)
    ensures
        class_of(class_code(h.platform_type)) == Some(h.platform_type),
        order_of(order_code(h.endianness)) == Some(h.endianness),
        abi_of(abi_code(h.target_system_abi)) == Some(h.target_system_abi),
        object_file_type_of(object_file_type_code(h.object_file_type)) == Some(h.object_file_type),
        instruction_set_of(instruction_set_code(h.instruction_set)) == Some(h.instruction_set),
{
    reveal(abi_of);
    reveal(object_file_type_of);
    reveal(instruction_set_of);
}

} // verus!
