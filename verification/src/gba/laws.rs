//! Properties of the GBA machine that span several operations
use vstd::prelude::*;

use super::control::DmaControl;
use super::machine::dma::dma_addr;
use super::machine::{setf, thumb_alu, GbaView, IW_RAM_SIZE, WRAM_SIZE};
use super::registers::{bit_of, with_bit, RegisterMode, Registers};

verus! {

/// A register reads back the value written to it, and writing it leaves
/// the status register, and with it the mode, alone.
pub proof fn lemma_reg_roundtrip(r: Registers, i: u8, x: u32)
    requires
        i < 16,
    ensures
        r.spec_set_reg(i, x).spec_reg(i) == x,
        r.spec_set_reg(i, x).cpsr == r.cpsr,
{
}

proof fn lemma_half_bits(a: u32, x: u16)
    by (bit_vector)
    ensures
        (a & !1u32) & 0x3FFFF != (a | 1u32) & 0x3FFFF,
        (a & !1u32) & 0x7FFF != (a | 1u32) & 0x7FFF,
        ((((x >> 8u16) & 0xFF) as u8 as u16) << 8u16) | (((x & 0xFF) as u8) as u16) == x,
{
}

proof fn lemma_word_bits(a: u32, x: u32)
    by (bit_vector)
    ensures
        (a & !3u32) & 0x3FFFF != ((a & !3u32) | 1u32) & 0x3FFFF,
        (a & !3u32) & 0x3FFFF != ((a & !3u32) | 2u32) & 0x3FFFF,
        (a & !3u32) & 0x3FFFF != ((a & !3u32) | 3u32) & 0x3FFFF,
        ((a & !3u32) | 1u32) & 0x3FFFF != ((a & !3u32) | 2u32) & 0x3FFFF,
        ((a & !3u32) | 1u32) & 0x3FFFF != ((a & !3u32) | 3u32) & 0x3FFFF,
        ((a & !3u32) | 2u32) & 0x3FFFF != ((a & !3u32) | 3u32) & 0x3FFFF,
        (a & !3u32) & 0x7FFF != ((a & !3u32) | 1u32) & 0x7FFF,
        (a & !3u32) & 0x7FFF != ((a & !3u32) | 2u32) & 0x7FFF,
        (a & !3u32) & 0x7FFF != ((a & !3u32) | 3u32) & 0x7FFF,
        ((a & !3u32) | 1u32) & 0x7FFF != ((a & !3u32) | 2u32) & 0x7FFF,
        ((a & !3u32) | 1u32) & 0x7FFF != ((a & !3u32) | 3u32) & 0x7FFF,
        ((a & !3u32) | 2u32) & 0x7FFF != ((a & !3u32) | 3u32) & 0x7FFF,
        ((((x >> 24u32) & 0xFF) as u8 as u32) << 24u32) | ((((x >> 16u32) & 0xFF) as u8 as u32)
            << 16u32) | ((((x >> 8u32) & 0xFF) as u8 as u32) << 8u32) | (((x & 0xFF) as u8) as u32)
            == x,
{
}

/// A byte written to work RAM or internal work RAM reads back, in three
/// cycles from work RAM and one from internal work RAM.
pub proof fn lemma_ram_byte_roundtrip(v: GbaView, a: u32, x: u8)
    requires
        v.wram.len() == WRAM_SIZE,
        v.iw_ram.len() == IW_RAM_SIZE,
        0x0200_0000 <= a <= 0x03FF_FFFF,
    ensures
        v.write8(a, x).read8(a) == (x, if a <= 0x02FF_FFFF {
            3u8
        } else {
            1u8
        }),
{
    crate::bits::lemma_u32(a);
}

/// A halfword written to work RAM or internal work RAM reads back.
pub proof fn lemma_ram_half_roundtrip(v: GbaView, a: u32, x: u16, sequential: bool)
    requires
        v.wram.len() == WRAM_SIZE,
        v.iw_ram.len() == IW_RAM_SIZE,
        0x0200_0000 <= a <= 0x03FF_FFFF,
    ensures
        v.write16(a, x).read16(a, sequential).0 == x,
{
    crate::bits::lemma_u32(a & !1u32);
    crate::bits::lemma_u32(a | 1u32);
    lemma_half_bits(a, x);
}

/// A word written to an aligned address of work RAM or internal work RAM
/// reads back.
pub proof fn lemma_ram_word_roundtrip(v: GbaView, a: u32, x: u32, sequential: bool)
    requires
        v.wram.len() == WRAM_SIZE,
        v.iw_ram.len() == IW_RAM_SIZE,
        0x0200_0000 <= a <= 0x03FF_FFFF,
        a & 3 == 0,
    ensures
        v.write32(a, x).read32(a, sequential).0 == x,
{
    let b1 = a & !3u32;
    crate::bits::lemma_u32(b1);
    crate::bits::lemma_u32(b1 | 1u32);
    crate::bits::lemma_u32(b1 | 2u32);
    crate::bits::lemma_u32(b1 | 3u32);
    lemma_word_bits(a, x);
}

/// Taking an IRQ enters IRQ mode at the IRQ vector, in ARM state with IRQs
/// masked, with the CPSR saved and the return address in the link
/// register; while IRQs are masked nothing happens.
pub proof fn lemma_irq_entry(v: GbaView)
    ensures
        bit_of(v.r.cpsr, 7) ==> v.interrupts_handled() == v,
        !bit_of(v.r.cpsr, 7) && v.irq_pending() ==> {
            let r = v.interrupts_handled().r;
            &&& r.pc == 0x18
            &&& r.mode() == Some(RegisterMode::IRQ)
            &&& r.spsr_irq == v.r.cpsr
            &&& bit_of(r.cpsr, 7)
            &&& !bit_of(r.cpsr, 5)
            &&& r.spec_reg(14) == (v.r.pc + 4) as u32
        },
{
    let c = v.r.cpsr;
    let c1 = (c & !0x1Fu32) | 0b10010;
    assert({
        let c4 = with_bit(c1, 5, false) | 0x80;
        &&& (c1 & 0x1F) as u8 == 0b10010
        &&& (c4 & 0x1F) as u8 == 0b10010
        &&& bit_of(c4, 7)
        &&& !bit_of(c4, 5)
    }) by (bit_vector)
        requires
            c1 == (c & !0x1Fu32) | 0b10010,
    ;
}


/// A unit of a 32-bit DMA transfer into work RAM or internal work RAM
/// copies its word: the destination then reads what the source read.
pub proof fn lemma_dma_word_copied(v: GbaView, c: DmaControl, src: u32, dest: u32, i: int, sequential: bool)
    requires
        v.wram.len() == WRAM_SIZE,
        v.iw_ram.len() == IW_RAM_SIZE,
        c.transfer_type,
        0 <= dma_addr(c.source_addr_control, src, i * 4) <= u32::MAX,
        0x0200_0000 <= dma_addr(c.dest_addr_control, dest, i * 4) <= 0x03FF_FFFF,
        (dma_addr(c.dest_addr_control, dest, i * 4) as u32) & 3 == 0,
    ensures
        v.dma_unit(c, src, dest, i).0.read32(dma_addr(c.dest_addr_control, dest, i * 4) as u32, sequential).0
            == v.read32(dma_addr(c.source_addr_control, src, i * 4) as u32, i > 0).0,
{
    let s = dma_addr(c.source_addr_control, src, i * 4) as u32;
    let d = dma_addr(c.dest_addr_control, dest, i * 4) as u32;
    lemma_ram_word_roundtrip(v, d, v.read32(s, i > 0).0, sequential);
}

/// Thumb BIC Rd, Rs clears in Rd the bits that are set in Rs and keeps the
/// others: the result shares no bit with Rs, the bits that Rd and Rs had in
/// common give Rd back with it, and Z tells whether it is zero.
pub proof fn lemma_thumb_bic(r: Registers, opcode: u16)
    requires
        (opcode >> 6u16) & 0xF == 14,
    ensures
        ({
            let rs = ((opcode >> 3u16) & 0x7) as u8;
            let rd = (opcode & 0x7) as u8;
            let x = r.spec_reg(rs);
            let y = r.spec_reg(rd);
            let after = thumb_alu(r, opcode).0;
            let res = after.spec_reg(rd);
            &&& res & x == 0
            &&& res | (y & x) == y
            &&& bit_of(after.cpsr, 30) == (res == 0)
        }),
{
    let rs = ((opcode >> 3u16) & 0x7) as u8;
    let rd = (opcode & 0x7) as u8;
    let x = r.spec_reg(rs);
    let y = r.spec_reg(rd);
    assert(rd < 8) by (bit_vector)
        requires
            rd == ((opcode & 0x7) as u8),
    ;
    assert((y & !x) & x == 0 && (y & !x) | (y & x) == y) by (bit_vector);
    let r1 = r.spec_set_reg(rd, y & !x);
    let z = y & !x;
    let c0 = r1.cpsr;
    let c1 = with_bit(c0, 30, z == 0);
    assert(bit_of(with_bit(c1, 31, (z >> 31u32) & 1 == 1), 30) == (z == 0)) by (bit_vector)
        requires
            c1 == with_bit(c0, 30, z == 0),
    ;
}

/// The Thumb ALU operations that write Rd with a result of Rd and Rs alone:
/// AND keeps exactly the bits set in both, EOR gives Rd back when Rs is
/// applied again, ORR keeps every bit of either and no other, NEG gives zero
/// when Rs is added back, MUL gives the product modulo 2^32, and MVN gives
/// all ones when combined by XOR with Rs; after each, Z tells whether the
/// result is zero and N is its top bit.
pub proof fn lemma_thumb_logic(r: Registers, opcode: u16)
    ensures
        ({
            let op = (opcode >> 6u16) & 0xF;
            let rs = ((opcode >> 3u16) & 0x7) as u8;
            let rd = (opcode & 0x7) as u8;
            let x = r.spec_reg(rs);
            let y = r.spec_reg(rd);
            let after = thumb_alu(r, opcode).0;
            let res = after.spec_reg(rd);
            &&& op == 0 ==> res & !x == 0 && res & !y == 0 && (x & y) & !res == 0
            &&& op == 1 ==> res ^ x == y
            &&& op == 12 ==> res & x == x && res & y == y && res & !(x | y) == 0
            &&& op == 9 ==> (res + x) % 0x1_0000_0000 == 0
            &&& op == 13 ==> res == (y * x) % 0x1_0000_0000
            &&& op == 15 ==> res ^ x == 0xFFFF_FFFFu32
            &&& (op == 0 || op == 1 || op == 9 || op == 12 || op == 13 || op == 15) ==> bit_of(
                after.cpsr,
                30,
            ) == (res == 0) && bit_of(after.cpsr, 31) == ((res >> 31u32) & 1 == 1)
        }),
{
    let op = (opcode >> 6u16) & 0xF;
    let rd = (opcode & 0x7) as u8;
    let rs = ((opcode >> 3u16) & 0x7) as u8;
    let x = r.spec_reg(rs);
    let y = r.spec_reg(rd);
    assert(rd < 8) by (bit_vector)
        requires
            rd == ((opcode & 0x7) as u8),
    ;
    assert((x & y) & !x == 0 && (x & y) & !y == 0 && (x & y) & !(x & y) == 0) by (bit_vector);
    assert((x ^ y) ^ x == y) by (bit_vector);
    assert((y | x) & x == x && (y | x) & y == y && (y | x) & !(x | y) == 0) by (bit_vector);
    assert(!x ^ x == 0xFFFF_FFFFu32) by (bit_vector);
    let n = 0u32.wrapping_sub(x);
    assert((n + x) % 0x1_0000_0000 == 0);
    if op == 0 || op == 1 || op == 9 || op == 12 || op == 13 || op == 15 {
        let res: u32 = if op == 0 {
            x & y
        } else if op == 1 {
            x ^ y
        } else if op == 9 {
            n
        } else if op == 12 {
            y | x
        } else if op == 13 {
            y.wrapping_mul(x)
        } else {
            !x
        };
        let r0 = r.spec_set_reg(rd, res);
        let r1 = if op == 9 {
            setf(setf(r0, 28, y & 0x8000_0000 == 0 && res & 0x8000_0000 != 0), 29, false)
        } else {
            r0
        };
        let z = r1.spec_reg(rd);
        assert(z == res);
        let c0 = r1.cpsr;
        let c1 = with_bit(c0, 30, z == 0);
        assert(bit_of(with_bit(c1, 31, (z >> 31u32) & 1 == 1), 30) == (z == 0) && bit_of(
            with_bit(c1, 31, (z >> 31u32) & 1 == 1),
            31,
        ) == ((z >> 31u32) & 1 == 1)) by (bit_vector)
            requires
                c1 == with_bit(c0, 30, z == 0),
        ;
    }
}

} // verus!
