//! Bounds-checked reads of fixed-width unsigned integers at an explicit
//! position, in an explicitly given byte order.
use vstd::prelude::*;

use crate::error::ElfError;

verus! {

/// Byte order of the multi-byte fields of a file.
#[derive(Debug, Clone, Copy, PartialEq, Eq, Structural)]
pub enum ElfEndianness {
    Little,
    Big,
}

/// Word class of a file: the width of its addresses and offsets.
#[derive(Debug, Clone, Copy, PartialEq, Eq, Structural)]
pub enum ElfPlatformType {
    Bit32,
    Bit64,
}

/// Width in bytes of an address or offset under `class`.
pub open spec fn word_len(class: ElfPlatformType) -> int {
    match class {
        ElfPlatformType::Bit32 => 4,
        ElfPlatformType::Bit64 => 8,
    }
}

/// Whether `len` bytes starting at `p` lie inside `c`.
pub open spec fn fits(c: Seq<u8>, p: int, len: int) -> bool {
    0 <= p && p + len <= c.len()
}

/// The number that `b` encodes, least significant byte first.
pub open spec fn le_value(b: Seq<u8>) -> nat
    decreases b.len(),
{
    if b.len() == 0 {
        0
    } else {
        b[0] as nat + 256 * le_value(b.drop_first())
    }
}

/// The number that `b` encodes, most significant byte first.
pub open spec fn be_value(b: Seq<u8>) -> nat
    decreases b.len(),
{
    if b.len() == 0 {
        0
    } else {
        b.last() as nat + 256 * be_value(b.drop_last())
    }
}

/// The number that `b` encodes in byte order `order`.
pub open spec fn decode(order: ElfEndianness, b: Seq<u8>) -> nat {
    match order {
        ElfEndianness::Little => le_value(b),
        ElfEndianness::Big => be_value(b),
    }
}

/// The number held by the `len` bytes of `c` that start at `p`.
#[verifier::opaque]
pub open spec fn value_at(c: Seq<u8>, p: int, len: int, order: ElfEndianness) -> nat {
    decode(order, c.subrange(p, p + len))
}

proof fn lemma_decode2(b: Seq<u8>)
    requires
        b.len() == 2,
    ensures
        le_value(b) == b[0] + 256 * b[1],
        be_value(b) == 256 * b[0] + b[1],
{
    reveal_with_fuel(le_value, 3);
    reveal_with_fuel(be_value, 3);
}

proof fn lemma_decode4(b: Seq<u8>)
    requires
        b.len() == 4,
    ensures
        le_value(b) == b[0] + 0x100 * b[1] + 0x10000 * b[2] + 0x1000000 * b[3],
        be_value(b) == 0x1000000 * b[0] + 0x10000 * b[1] + 0x100 * b[2] + b[3],
{
    reveal_with_fuel(le_value, 5);
    reveal_with_fuel(be_value, 5);
}

proof fn lemma_decode8(b: Seq<u8>)
    requires
        b.len() == 8,
    ensures
        le_value(b) == b[0] + 0x100 * b[1] + 0x10000 * b[2] + 0x1000000 * b[3] + 0x100000000
            * b[4] + 0x10000000000 * b[5] + 0x1000000000000 * b[6] + 0x100000000000000 * b[7],
        be_value(b) == 0x100000000000000 * b[0] + 0x1000000000000 * b[1] + 0x10000000000 * b[2]
            + 0x100000000 * b[3] + 0x1000000 * b[4] + 0x10000 * b[5] + 0x100 * b[6] + b[7],
{
    reveal_with_fuel(le_value, 9);
    reveal_with_fuel(be_value, 9);
}

/// Reading bytes most significant first is reading them reversed least
/// significant first.
pub proof fn lemma_be_is_reversed_le(b: Seq<u8>)
    ensures
        be_value(b) == le_value(b.reverse()),
    decreases b.len(),
{
    if b.len() > 0 {
        lemma_be_is_reversed_le(b.drop_last());
        assert(b.reverse().drop_first() =~= b.drop_last().reverse());
    }
}

/// Two byte strings of one length that read as the same number least
/// significant first are equal.
pub proof fn lemma_le_injective(a: Seq<u8>, b: Seq<u8>)
    requires
        a.len() == b.len(),
        le_value(a) == le_value(b),
    ensures
        a == b,
    decreases a.len(),
{
    if a.len() > 0 {
        assert(a[0] == b[0]);
        lemma_le_injective(a.drop_first(), b.drop_first());
        assert(a =~= seq![a[0]] + a.drop_first());
        assert(b =~= seq![b[0]] + b.drop_first());
    } else {
        assert(a =~= b);
    }
}

/// The same bytes read in the two byte orders give two different numbers
/// exactly when they do not read the same backwards.
pub proof fn lemma_byte_order_distinguishes(b: Seq<u8>)
    ensures
        decode(ElfEndianness::Little, b) != decode(ElfEndianness::Big, b) <==> b != b.reverse(),
{
    lemma_be_is_reversed_le(b);
    if le_value(b) == le_value(b.reverse()) {
        lemma_le_injective(b, b.reverse());
    }
}

impl ElfEndianness {
    /// The 16-bit number held by the first two bytes of `bytes`.
    pub fn u16_from(&self, bytes: &[u8]) -> (r: u16)
        requires
            bytes@.len() >= 2,
        ensures
            r == decode(*self, bytes@.subrange(0, 2)),
    {
        proof {
            lemma_decode2(bytes@.subrange(0, 2));
        }
        let b0 = bytes[0] as u16;
        let b1 = bytes[1] as u16;
        match self {
            ElfEndianness::Little => b0 + 0x100 * b1,
            ElfEndianness::Big => 0x100 * b0 + b1,
        }
    }

    /// The 32-bit number held by the first four bytes of `bytes`.
    pub fn u32_from(&self, bytes: &[u8]) -> (r: u32)
        requires
            bytes@.len() >= 4,
        ensures
            r == decode(*self, bytes@.subrange(0, 4)),
    {
        proof {
            lemma_decode4(bytes@.subrange(0, 4));
        }
        let b0 = bytes[0] as u32;
        let b1 = bytes[1] as u32;
        let b2 = bytes[2] as u32;
        let b3 = bytes[3] as u32;
        match self {
            ElfEndianness::Little => b0 + 0x100 * b1 + 0x10000 * b2 + 0x1000000 * b3,
            ElfEndianness::Big => 0x1000000 * b0 + 0x10000 * b1 + 0x100 * b2 + b3,
        }
    }

    /// The 64-bit number held by the first eight bytes of `bytes`.
    pub fn u64_from(&self, bytes: &[u8]) -> (r: u64)
        requires
            bytes@.len() >= 8,
        ensures
            r == decode(*self, bytes@.subrange(0, 8)),
    {
        proof {
            lemma_decode8(bytes@.subrange(0, 8));
        }
        let b0 = bytes[0] as u64;
        let b1 = bytes[1] as u64;
        let b2 = bytes[2] as u64;
        let b3 = bytes[3] as u64;
        let b4 = bytes[4] as u64;
        let b5 = bytes[5] as u64;
        let b6 = bytes[6] as u64;
        let b7 = bytes[7] as u64;
        match self {
            ElfEndianness::Little => b0 + 0x100 * b1 + 0x10000 * b2 + 0x1000000 * b3 + 0x100000000
                * b4 + 0x10000000000 * b5 + 0x1000000000000 * b6 + 0x100000000000000 * b7,
            ElfEndianness::Big => 0x100000000000000 * b0 + 0x1000000000000 * b1 + 0x10000000000
                * b2 + 0x100000000 * b3 + 0x1000000 * b4 + 0x10000 * b5 + 0x100 * b6 + b7,
        }
    }
}

/// Whether `width` bytes starting at `*pointer` lie inside `content`.
fn in_bounds(pointer: usize, content: &[u8], width: usize) -> (r: bool)
    ensures
        r == fits(content@, pointer as int, width as int),
        content@.len() <= usize::MAX,
{
    let n = content.len();
    pointer <= n && width <= n - pointer
}

/// Reads one byte at `*pointer` and moves past it.
pub fn read_u8(pointer: &mut usize, content: &[u8]) -> (r: Result<u8, ElfError>)
    ensures
        match r {
            Ok(v) => {
                &&& fits(content@, *old(pointer) as int, 1)
                &&& v == content@[*old(pointer) as int]
                &&& *final(pointer) == *old(pointer) + 1
            },
            Err(e) => {
                &&& !fits(content@, *old(pointer) as int, 1)
                &&& e == ElfError::OutOfBounds
                &&& *final(pointer) == *old(pointer)
            },
        },
{
    let p = *pointer;
    if in_bounds(p, content, 1) {
        *pointer = p + 1;
        Ok(content[p])
    } else {
        Err(ElfError::OutOfBounds)
    }
}

/// Reads a 16-bit number at `*pointer` in byte order `endian` and moves past it.
pub fn read_u16(pointer: &mut usize, content: &[u8], endian: &ElfEndianness) -> (r: Result<
    u16,
    ElfError,
>)
    ensures
        match r {
            Ok(v) => {
                &&& fits(content@, *old(pointer) as int, 2)
                &&& v == value_at(content@, *old(pointer) as int, 2, *endian)
                &&& *final(pointer) == *old(pointer) + 2
            },
            Err(e) => {
                &&& !fits(content@, *old(pointer) as int, 2)
                &&& e == ElfError::OutOfBounds
                &&& *final(pointer) == *old(pointer)
            },
        },
{
    let p = *pointer;
    if in_bounds(p, content, 2) {
        let bytes = &content[p..p + 2];
        assert(bytes@.subrange(0, 2) =~= content@.subrange(p as int, p + 2));
        reveal(value_at);
        *pointer = p + 2;
        Ok(endian.u16_from(bytes))
    } else {
        Err(ElfError::OutOfBounds)
    }
}

/// Reads a 32-bit number at `*pointer` in byte order `endian` and moves past it.
pub fn read_u32(pointer: &mut usize, content: &[u8], endian: &ElfEndianness) -> (r: Result<
    u32,
    ElfError,
>)
    ensures
        match r {
            Ok(v) => {
                &&& fits(content@, *old(pointer) as int, 4)
                &&& v == value_at(content@, *old(pointer) as int, 4, *endian)
                &&& *final(pointer) == *old(pointer) + 4
            },
            Err(e) => {
                &&& !fits(content@, *old(pointer) as int, 4)
                &&& e == ElfError::OutOfBounds
                &&& *final(pointer) == *old(pointer)
            },
        },
{
    let p = *pointer;
    if in_bounds(p, content, 4) {
        let bytes = &content[p..p + 4];
        assert(bytes@.subrange(0, 4) =~= content@.subrange(p as int, p + 4));
        reveal(value_at);
        *pointer = p + 4;
        Ok(endian.u32_from(bytes))
    } else {
        Err(ElfError::OutOfBounds)
    }
}

/// Reads a 64-bit number at `*pointer` in byte order `endian` and moves past it.
pub fn read_u64(pointer: &mut usize, content: &[u8], endian: &ElfEndianness) -> (r: Result<
    u64,
    ElfError,
>)
    ensures
        match r {
            Ok(v) => {
                &&& fits(content@, *old(pointer) as int, 8)
                &&& v == value_at(content@, *old(pointer) as int, 8, *endian)
                &&& *final(pointer) == *old(pointer) + 8
            },
            Err(e) => {
                &&& !fits(content@, *old(pointer) as int, 8)
                &&& e == ElfError::OutOfBounds
                &&& *final(pointer) == *old(pointer)
            },
        },
{
    let p = *pointer;
    if in_bounds(p, content, 8) {
        let bytes = &content[p..p + 8];
        assert(bytes@.subrange(0, 8) =~= content@.subrange(p as int, p + 8));
        reveal(value_at);
        *pointer = p + 8;
        Ok(endian.u64_from(bytes))
    } else {
        Err(ElfError::OutOfBounds)
    }
}

/// Reads an address-sized number (four bytes under `Bit32`, eight under
/// `Bit64`) at `*pointer` and moves past it.
pub fn read_word(
    pointer: &mut usize,
    content: &[u8],
    endian: &ElfEndianness,
    platform: &ElfPlatformType,
) -> (r: Result<u64, ElfError>)
    ensures
        match r {
            Ok(v) => {
                &&& fits(content@, *old(pointer) as int, word_len(*platform))
                &&& v == value_at(content@, *old(pointer) as int, word_len(*platform), *endian)
                &&& *final(pointer) == *old(pointer) + word_len(*platform)
            },
            Err(e) => {
                &&& !fits(content@, *old(pointer) as int, word_len(*platform))
                &&& e == ElfError::OutOfBounds
                &&& *final(pointer) == *old(pointer)
            },
        },
{
    match platform {
        ElfPlatformType::Bit32 => match read_u32(pointer, content, endian) {
            Ok(v) => Ok(v as u64),
            Err(e) => Err(e),
        },
        ElfPlatformType::Bit64 => read_u64(pointer, content, endian),
    }
}

} // verus!
