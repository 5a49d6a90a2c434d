//! Facts about masks, shifts and rotations, proved by bit blasting, that
//! the arithmetic of the CPUs relies on
use vstd::prelude::*;

verus! {

/// Masks, shifts and rotations of a byte
pub proof fn lemma_u8(x: u8)
    by (bit_vector)
    ensures
        x & 0xF == x % 16,
        x & 7 == x % 8,
        x & 0x3 < 4,
        x & 0x3F <= 0x3F,
        (x >> 4u8) & 0xF == x / 16,
        (x >> 6u8) & 3 == x / 64,
        (x >> 3u8) & 7 == (x / 8) % 8,
        (x >> 4u8) & 3 == (x / 16) % 4,
        (x >> 3u8) & 1 == (x / 8) % 2,
        (x >> 2u8) & 0x3 < 4,
        (x >> 5u8) & 0x3 < 4,
        x >> 0u8 == x,
        (x >> 0u8) & 1 == x & 1,
        (x >> 7u8) & 1 == x >> 7u8,
        (x >> 1u8) & 0x7F == x >> 1u8,
        ((x >> 1u8) & 0x7F) | ((x & 1) << 7u8) == (x >> 1u8) | (x << 7u8),
        ((x << 1u8) & 0xFE) | ((x >> 7u8) & 1) == (x << 1u8) | (x >> 7u8),
        ((((x & !1u8) & !2u8) & !4u8) & !8u8) & !0x80u8 == x & 0x70,
        (((x & 0xF0) >> 4u8) & 0xF) | ((x & 0x0F) << 4u8) == (x % 16) * 16 + x / 16,
        ((x & 0xF).wrapping_sub(1) & 0xF0) != 0 <==> x % 16 == 0,
        ((x & 0x10) >> 4u8) & 1 == (if x & 0x10 == 0x10 {
            1u8
        } else {
            0u8
        }),
        (x & 0x10) >> 4u8 == (if x & 0x10 == 0x10 {
            1u8
        } else {
            0u8
        }),
        (x & 0x10) << 3u8 == (if x & 0x10 == 0x10 {
            128u8
        } else {
            0u8
        }),
        ((x & 0x10) >> 4u8) & 0xF == (x & 0x10) >> 4u8,
        x == 0 ==> x << 7u8 == 0,
        x == 1 ==> x << 7u8 == 128,
        !(1u8 << 0u8) == !1u8,
        1u8 << 0u8 == 1u8,
        0u8 << 0u8 == 0u8,
{
}

/// The bytes and nibbles of a 16-bit value
pub proof fn lemma_u16(v: u16)
    by (bit_vector)
    ensures
        (v >> 8u16) & 0xFF == v / 256,
        v & 0xFF == v % 256,
        v & 0xF0 == (v % 256) / 16 * 16,
        v & 0xFFF == v % 4096,
        v & 0xF == v % 16,
        (v >> 5u16) & 0b11 < 4,
        (v >> 7u16) & 0b11 < 4,
        (v >> 12u16) & 0b11 < 4,
        v & 0x7 < 8,
        (v >> 3u16) & 0x7 < 8,
        (v >> 6u16) & 0x7 < 8,
        (v >> 8u16) & 0x7 < 8,
        (v >> 3u16) & 0xF < 16,
        (v >> 6u16) & 0xF < 16,
        (v >> 8u16) & 0xF < 16,
        (v >> 6u16) & 0x1F < 32,
        (v >> 8u16) & 0x3 < 4,
        (v >> 9u16) & 0x3 < 4,
        (v >> 10u16) & 0x3 < 4,
        (v >> 11u16) & 0x3 < 4,
        v & 0x7FF < 0x800,
        v & 0xFF < 0x100,
        v & 0x7F < 0x80,
{
}

/// A 16-bit value made of two bytes
pub proof fn lemma_word(lo: u8, hi: u8)
    by (bit_vector)
    ensures
        ((hi as u16) << 8u16) | (lo as u16) == (hi as u16) * 256 + (lo as u16),
        hi <= 7 ==> ((hi as u16) << 8u16) | (lo as u16) <= 0x7FF,
{
}

/// A value shifted right is no larger, and an 11-bit value plus such a
/// shift fits in 16 bits
pub proof fn lemma_shift(f: u16, sh: u8)
    by (bit_vector)
    ensures
        f >> sh <= f,
        f <= 0x7FF ==> f + (f >> sh) <= 0xFFFF,
{
}

/// Masks of a 32-bit address
pub proof fn lemma_u32(a: u32)
    by (bit_vector)
    ensures
        a & 0x3 < 4,
        a & 0xF < 16,
        a & 0xFF < 0x100,
        a & 0xFF_FFFF < 0x100_0000,
        (a >> 4u32) & 0xF < 16,
        (a >> 8u32) & 0xF < 16,
        (a >> 12u32) & 0xF < 16,
        (a >> 16u32) & 0xF < 16,
        (a >> 21u32) & 0xF < 16,
        (a >> 28u32) & 0xF < 16,
        (a >> 25u32) & 0x7 < 8,
        (a >> 5u32) & 0x3 < 4,
        (a >> 7u32) & 0x1F < 32,
        a & 0x3FF < 0x400,
        a & 0x3FFF < 0x4000,
        a & 0x7FFF < 0x8000,
        a & 0xFFFF < 0x10000,
        a & 0x1FFFF < 0x20000,
        a & 0x3FFFF < 0x40000,
        a & 0x7FFFF < 0x80000,
        a & 0x1FFFFF < 0x200000,
        a & 0x1FFFFFF < 0x2000000,
        (a & 0x1FFFF) > 0x17FFF ==> (a & 0x1FFFF) & !0x8000u32 < 0x18000,
        (a & !3u32) & !1u32 == a & !3u32,
        ((a & !0x1Fu32) | 0b10011u32) & 0x1F == 0b10011,
        ((a & !0x1Fu32) | 0b10010u32) & 0x1F == 0b10010,
        (a & !1u32) & 0x1FFFFFF < (a | 1u32) & 0x1FFFFFF,
        (a & !3u32) & 0x1FFFFFF < ((a & !3u32) | 3u32) & 0x1FFFFFF,
        ((a & !3u32) | 1u32) & 0x1FFFFFF < ((a & !3u32) | 3u32) & 0x1FFFFFF,
        ((a & !3u32) | 2u32) & 0x1FFFFFF < ((a & !3u32) | 3u32) & 0x1FFFFFF,
        0x4000000 <= a <= 0x4FFFFFF ==> 0x4000000 <= a & !1u32 <= 0x4FFFFFF,
        0x4000000 <= a <= 0x4FFFFFF ==> 0x4000000 <= a | 1 <= 0x4FFFFFF,
        0x4000000 <= a <= 0x4FFFFFF ==> 0x4000000 <= a & !3u32 <= 0x4FFFFFF,
        0x4000000 <= a <= 0x4FFFFFF ==> 0x4000000 <= a | 2 <= 0x4FFFFFF,
{
}

/// The bytes of a 32-bit value, through its 16-bit halves
pub proof fn lemma_u32_bytes(val: u32)
    by (bit_vector)
    ensures
        ((val as u16) >> 8u16) as u8 == (val >> 8u32) as u8,
        ((val >> 16u32) as u16) as u8 == (val >> 16u32) as u8,
        (((val >> 16u32) as u16) >> 8u16) as u8 == (val >> 24u32) as u8,
        (val as u16) as u8 == val as u8,
{
}

} // verus!
