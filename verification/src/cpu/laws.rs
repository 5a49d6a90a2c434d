//! Properties of the Game Boy CPU that span several operations
use vstd::prelude::*;

use super::alu::{op_add, op_daa, op_sbc, with_f};
use super::constants::{CpuRegister, CpuRegister16, CL, MEM_ARRAY_SIZE, ZL};
use super::control::{popped, pushed, stack_top};
use super::cartridge::{concat_banks, masked, CartView, SubView};
use super::dispatch::{
    cb_cycles, exec_instruction, exec_unprefixed, exec_x0, exec_x1, exec_x2, exec_x3_hi, exec_x3_z0,
    exec_x3_z1, exec_x3_z2, op_y, op_z, runs_instruction, step,
};
use super::apu::ApuView;
use super::{carry_flag, half_flag, lemma_flag_byte, sub_flag, word, zero_flag, CpuView};

verus! {

/// A register pair reads back the value written to it; AF reads it back
/// with the low four bits of F cleared.
pub proof fn lemma_reg16_roundtrip(v: CpuView, r: CpuRegister16, x: u16)
    requires
        !(r is Num),
    ensures
        r is AF ==> v.set_reg16(r, x).reg16(r) == x / 16 * 16,
        !(r is AF) ==> v.set_reg16(r, x).reg16(r) == x,
{
    assert(word((x % 256) as u8, (x / 256) as u8) == x) by (nonlinear_arith);
    assert(word(((x % 256) / 16 * 16) as u8, (x / 256) as u8) == x / 16 * 16) by (nonlinear_arith);
}

/// A value pushed on a stack in work RAM or high RAM is the value on top
/// of the stack, and popping it gives back the stack pointer.
pub proof fn lemma_push_pop(v: CpuView, nn: u16)
    requires
        v.mem.len() == MEM_ARRAY_SIZE,
        (0xC002 <= v.sp <= 0xDE01) || (0xFF82 <= v.sp <= 0xFFFF),
    ensures
        stack_top(pushed(v, nn)) == nn,
        popped(pushed(v, nn)).sp == v.sp,
{
    assert(word((nn % 256) as u8, (nn / 256) as u8) == nn) by (nonlinear_arith);
}

/// CCF twice keeps Z and C as they were, and clears N and H.
pub proof fn lemma_ccf_twice(v: CpuView)
    ensures
        ({
            let v1 = with_f(v, (v.f & (ZL | CL)) ^ CL);
            with_f(v1, (v1.f & (ZL | CL)) ^ CL)
        }) == with_f(v, v.f & (ZL | CL)),
{
    let f = v.f;
    assert((((f & (ZL | CL)) ^ CL) & (ZL | CL)) ^ CL == f & (ZL | CL)) by (bit_vector);
}


/// The first `n` banks read from `data` lie one after the other as the
/// first `n * 0x2000` bytes of `data`
proof fn lemma_banks_concat(data: Seq<u8>, n: nat)
    requires
        data.len() >= n * 0x2000,
    ensures
        concat_banks(Seq::new(n, |i: int| data.subrange(i * 0x2000, i * 0x2000 + 0x2000)))
            =~= data.subrange(0, (n * 0x2000) as int),
    decreases n,
{
    let b = Seq::new(n, |i: int| data.subrange(i * 0x2000, i * 0x2000 + 0x2000));
    if n > 0 {
        let m = (n - 1) as nat;
        assert(b.drop_last() =~= Seq::new(m, |i: int| data.subrange(i * 0x2000, i * 0x2000 + 0x2000)));
        lemma_banks_concat(data, m);
        assert(data.subrange(0, (m * 0x2000) as int) + data.subrange((m * 0x2000) as int, (m * 0x2000 + 0x2000) as int)
            =~= data.subrange(0, (n * 0x2000) as int));
    }
}

/// Saved RAM read back into an MBC1 cartridge is saved again unchanged:
/// restoring exactly as many bytes as its banks hold, then saving, gives
/// those bytes.
pub proof fn lemma_ram_restore_save(c: CartView, data: Seq<u8>)
    requires
        c.wf(),
        c.sub matches Some(SubView::Mbc1 { banks, .. }) && data.len() == banks.len() * 0x2000,
    ensures
        c.ram_restored(data).saved_ram() == data,
{
    if let Some(SubView::Mbc1 { banks, .. }) = c.sub {
        lemma_banks_concat(data, banks.len());
        assert(data.subrange(0, (banks.len() * 0x2000) as int) =~= data);
    }
}


/// Work RAM and its echo hold the same byte: a write to either reads back
/// at the address written and at its mirror 0x2000 away.
pub proof fn lemma_wram_echo(v: CpuView, a: u16, x: u8)
    requires
        v.mem.len() == MEM_ARRAY_SIZE,
        0xC000 <= a <= 0xFDFF,
    ensures
        0xC000 <= a <= 0xDE00 ==> v.mem_write(a, x).mem[a as int] == x && v.mem_write(a, x).mem[a
            + 0x2000] == x,
        0xE000 <= a ==> v.mem_write(a, x).mem[a as int] == x && v.mem_write(a, x).mem[a - 0x2000]
            == x,
{
}

/// The cycle counts that one step of the CPU can take
pub open spec fn step_cycles(t: u8) -> bool {
    t == 4 || t == 8 || t == 12 || t == 16 || t == 20 || t == 24
}

/// Opcodes `00yyyzzz` take one of the step cycle counts, and leave the
/// cycle counter
proof fn lemma_x0_cycles(v: CpuView, y: u8, z: u8, b1: u8, b2: u8)
    ensures
        step_cycles(exec_x0(v, y, z, b1, b2).1),
        exec_x0(v, y, z, b1, b2).0.cycles == v.cycles,
{
    reveal(exec_x0);
}

/// Opcodes `01yyyzzz` likewise
proof fn lemma_x1_cycles(v: CpuView, y: u8, z: u8)
    ensures
        step_cycles(exec_x1(v, y, z).1),
        exec_x1(v, y, z).0.cycles == v.cycles,
{
    reveal(exec_x1);
}

/// Opcodes `11yyy000` likewise
proof fn lemma_x3_z0_cycles(v: CpuView, y: u8, b1: u8)
    ensures
        step_cycles(exec_x3_z0(v, y, b1).1),
        exec_x3_z0(v, y, b1).0.cycles == v.cycles,
{
    reveal(exec_x3_z0);
}

/// Opcodes `11yyy001` likewise
proof fn lemma_x3_z1_cycles(v: CpuView, y: u8)
    ensures
        step_cycles(exec_x3_z1(v, y).1),
        exec_x3_z1(v, y).0.cycles == v.cycles,
{
    reveal(exec_x3_z1);
}

/// Opcodes `11yyy010` likewise
proof fn lemma_x3_z2_cycles(v: CpuView, y: u8, b1: u8, b2: u8)
    ensures
        step_cycles(exec_x3_z2(v, y, b1, b2).1),
        exec_x3_z2(v, y, b1, b2).0.cycles == v.cycles,
{
    reveal(exec_x3_z2);
}

/// Opcodes `11yyyzzz` with `z` from 3 to 7 likewise
#[verifier::rlimit(40)]
proof fn lemma_x3_hi_cycles(v: CpuView, y: u8, z: u8, b1: u8, b2: u8)
    ensures
        step_cycles(exec_x3_hi(v, y, z, b1, b2).1),
        exec_x3_hi(v, y, z, b1, b2).0.cycles == v.cycles,
{
    reveal(exec_x3_hi);
    reveal(super::dispatch::alu_op);
}

/// Opcodes `10yyyzzz` and CB-prefixed ones leave the cycle counter
proof fn lemma_x2_cb_cycles(v: CpuView, y: u8, z: u8, b1: u8)
    ensures
        exec_x2(v, y, z).0.cycles == v.cycles,
        super::dispatch::cb_op(v, b1).cycles == v.cycles,
{
    reveal(super::dispatch::alu_op);
    reveal(super::dispatch::cb_op);
}

/// Servicing interrupts leaves the cycle counter
proof fn lemma_interrupts_keep_cycles(v: CpuView)
    ensures
        super::control::interrupts_handled(v).cycles == v.cycles,
{
    reveal(super::control::interrupts_handled);
}

/// Every step of the CPU takes 4, 8, 12, 16, 20 or 24 cycles: a halted or
/// stopped CPU idles for 4 and its cycle counter stays; otherwise the
/// instruction's cycles are added to the counter, wrapping at 64 bits.
pub proof fn lemma_step_cycles(v: CpuView)
    ensures
        step_cycles(step(v).1),
        !runs_instruction(v) ==> step(v).1 == 4 && step(v).0.cycles == v.cycles,
        runs_instruction(v) ==> step(v).0.cycles == (v.cycles + step(v).1) % 0x1_0000_0000_0000_0000,
{
    lemma_interrupts_keep_cycles(v);
    let v1 = super::control::interrupts_handled(v);
    if runs_instruction(v) {
        let b0 = v1.mem[v1.pc as int];
        let b1 = v1.mem[v1.pc + 1];
        let b2 = v1.mem[v1.pc + 2];
        let y = op_y(b0);
        let z = op_z(b0);
        lemma_x0_cycles(v1, y, z, b1, b2);
        lemma_x1_cycles(v1, y, z);
        lemma_x3_z0_cycles(v1, y, b1);
        lemma_x3_z1_cycles(v1, y);
        lemma_x3_z2_cycles(v1, y, b1, b2);
        lemma_x3_hi_cycles(v1, y, z, b1, b2);
        assert(step_cycles(cb_cycles(b1)));
        lemma_x2_cb_cycles(v1, y, z, b1);
        assert(step_cycles(exec_x2(v1, y, z).1));
        assert(step_cycles(exec_unprefixed(v1, b0, b1, b2).1));
        assert(step_cycles(exec_instruction(v1).1));
    }
}

/// The envelope counters of channels 1, 2 and 4 are each between 1 and 8
pub open spec fn envelope_counters_in_range(v: ApuView) -> bool {
    &&& 1 <= v.channel1_envelope_counter <= 8
    &&& 1 <= v.channel2_envelope_counter <= 8
    &&& 1 <= v.channel4_envelope_counter <= 8
}

/// Whether a frame sequencer step reloads an envelope counter of a
/// sounding channel from a register whose pace is now 0, though the
/// channel's own pace is not
pub open spec fn envelope_reloads_zero(v: ApuView) -> bool {
    &&& v.next_div() == 7
    &&& {
        ||| (v.sound(0) && v.channel1_envelope_counter == 1 && v.channel1_envelope_pace != 0
            && v.env_pace(0xFF12) == 0)
        ||| (v.sound(1) && v.channel2_envelope_counter == 1 && v.channel2_envelope_pace != 0
            && v.env_pace(0xFF17) == 0)
        ||| (v.sound(3) && v.channel4_envelope_counter == 1 && v.channel4_envelope_pace != 0
            && v.env_pace(0xFF21) == 0)
    }
}

/// A frame sequencer step moves on to the next of its eight steps, and
/// keeps the envelope counters between 1 and 8, so that no later tick
/// counts below zero; a reload from a register whose pace was set to 0
/// meanwhile is the one way out of that range.
#[verifier::rlimit(30)]
pub proof fn lemma_envelope_counters(v: ApuView)
    requires
        v.div_apu <= 7,
        envelope_counters_in_range(v),
        !envelope_reloads_zero(v),
    ensures
        v.stepped().div_apu == (v.div_apu + 1) % 8,
        envelope_counters_in_range(v.stepped()),
{
    let d = v.div_apu;
    assert(((d + 1) as u8) & 0x7 == (d + 1) % 8) by (bit_vector)
        requires
            d <= 7,
    ;
    assert(v.env_pace(0xFF12) <= 7 && v.env_pace(0xFF17) <= 7 && v.env_pace(0xFF21) <= 7) by {
        let r1 = v.reg(0xFF12);
        let r2 = v.reg(0xFF17);
        let r4 = v.reg(0xFF21);
        assert(r1 & 0x7 <= 7 && r2 & 0x7 <= 7 && r4 & 0x7 <= 7) by (bit_vector);
    }
}

/// Wave RAM (0xFF30 to 0xFF3F) reads back the byte last written to it,
/// whether or not the sound unit is on; the write-only registers NR13, NR23
/// and NR33 (0xFF13, 0xFF18, 0xFF1D) read as 0xFF in every state.
pub proof fn lemma_wave_ram_roundtrip(v: ApuView, addr: u16, x: u8)
    requires
        v.mem.len() == 0x30,
        0xFF30 <= addr <= 0xFF3F,
    ensures
        v.cpu_write(addr, x).cpu_read(addr) == x,
        v.cpu_read(0xFF13) == 0xFF,
        v.cpu_read(0xFF18) == 0xFF,
        v.cpu_read(0xFF1D) == 0xFF,
{
    reveal(ApuView::cpu_write);
    reveal(ApuView::cpu_read);
}

/// Whether cartridge RAM takes writes: the RAM of a ROM-only cartridge,
/// or MBC1 or MBC5 RAM that is enabled, with its selected bank present
pub open spec fn cart_ram_writable(c: CartView) -> bool {
    match c.sub {
        Some(SubView::RomOnly { .. }) => true,
        Some(SubView::Mbc1 { banks, ram_active, rbs, .. }) => ram_active && rbs < banks.len(),
        Some(SubView::Mbc5 { banks, ram_active, rbs, .. }) => ram_active && rbs < banks.len(),
        _ => false,
    }
}

/// A byte written to cartridge RAM (0xA000 to 0xBFFF) through `index_mut`
/// reads back at its address, and every other address that the cartridge
/// answers reads as before.
pub proof fn lemma_cart_ram_roundtrip(c: CartView, a: u16, x: u8, b: u16)
    requires
        c.wf(),
        0xA000 <= a <= 0xBFFF,
        cart_ram_writable(c),
        c.read_defined(b),
    ensures
        c.written(a, x).read(a) == x,
        b != a ==> c.written(a, x).read(b) == c.read(b),
{
}

/// Whether a byte holds two decimal digits, one per nibble
pub open spec fn is_bcd(x: u8) -> bool {
    x % 16 <= 9 && x / 16 <= 9
}

/// The number that a BCD byte stands for
pub open spec fn bcd_value(x: u8) -> int {
    (x / 16) * 10 + x % 16
}

/// The digits of a subtraction of BCD bytes: when the low digit borrows,
/// taking 6 away from the binary difference puts it back in decimal
proof fn lemma_bcd_sub_digits(a: u8, b: u8)
    requires
        is_bcd(a),
        is_bcd(b),
        bcd_value(b) <= bcd_value(a),
    ensures
        a >= b,
        ({
            let r: int = if a % 16 < b % 16 {
                a - b - 6
            } else {
                a - b
            };
            &&& 0 <= r < 256
            &&& is_bcd(r as u8)
            &&& bcd_value(r as u8) == bcd_value(a) - bcd_value(b)
        }),
{
    let ah = a / 16;
    let al = a % 16;
    let bh = b / 16;
    let bl = b % 16;
    assert(a == ah * 16 + al && b == bh * 16 + bl) by (nonlinear_arith)
        requires
            ah == a / 16,
            al == a % 16,
            bh == b / 16,
            bl == b % 16,
    ;
    let r: int = if al < bl {
        a - b - 6
    } else {
        a - b
    };
    let rh: int = if al < bl {
        ah - bh - 1
    } else {
        ah - bh
    };
    let rl: int = if al < bl {
        al + 10 - bl
    } else {
        al - bl
    };
    assert(r == rh * 16 + rl);
    assert(0 <= rl < 10 && 0 <= rh < 10);
    assert((r as u8) / 16 == rh && (r as u8) % 16 == rl) by (nonlinear_arith)
        requires
            r == rh * 16 + rl,
            0 <= rl < 10,
            0 <= rh < 10,
    ;
}

/// SBC with the carry clear: A minus the operand, N set, H set when the
/// low digit borrows and C when the byte does
proof fn lemma_sbc_without_carry(v: CpuView, b: u8)
    requires
        !carry_flag(v.f),
        v.a >= b,
    ensures
        ({
            let s = op_sbc(v, CpuRegister::Num(b));
            &&& s.a == v.a - b
            &&& s.f & 0x40 == 0x40
            &&& (s.f & 0x20 == 0x20) == (v.a % 16 < b % 16)
            &&& !carry_flag(s.f)
        }),
{
    let h = v.a % 16 < b % 16;
    let d = (v.a - b) as u8;
    assert(super::alu::cf(v) == 0);
    lemma_flag_byte(d == 0, true, h, false);
}

/// DAA after a subtraction that did not borrow out of the byte: A loses
/// 0x06 when H is set, and N stays set and C clear
proof fn lemma_daa_after_borrow(s: CpuView, r: int)
    requires
        s.f & 0x40 == 0x40,
        !carry_flag(s.f),
        r == (if s.f & 0x20 == 0x20 {
            s.a - 6
        } else {
            s.a as int
        }),
        0 <= r < 256,
    ensures
        op_daa(s).a == r as u8,
        !carry_flag(op_daa(s).f),
        sub_flag(op_daa(s).f),
        !half_flag(op_daa(s).f),
        zero_flag(op_daa(s).f) == (r == 0),
{
    let w = op_daa(s);
    lemma_flag_byte(w.a == 0, true, false, false);
}

/// Decimal subtraction: for BCD bytes `a >= b`, SBC of `b` with the carry
/// clear and then DAA leave in A the BCD encoding of `a - b`, with the
/// carry clear and N set (after a subtraction DAA takes 0x06 away exactly
/// when the low digit borrowed, and 0x60 exactly when the byte did).
pub proof fn lemma_bcd_subtraction(v: CpuView, b: u8)
    requires
        is_bcd(v.a),
        is_bcd(b),
        bcd_value(b) <= bcd_value(v.a),
        !carry_flag(v.f),
    ensures
        ({
            let w = op_daa(op_sbc(v, CpuRegister::Num(b)));
            &&& is_bcd(w.a)
            &&& bcd_value(w.a) == bcd_value(v.a) - bcd_value(b)
            &&& !carry_flag(w.f)
            &&& sub_flag(w.f)
            &&& !half_flag(w.f)
            &&& zero_flag(w.f) == (bcd_value(v.a) == bcd_value(b))
        }),
{
    let a = v.a;
    lemma_bcd_sub_digits(a, b);
    let s = op_sbc(v, CpuRegister::Num(b));
    lemma_sbc_without_carry(v, b);
    let r: int = if a % 16 < b % 16 {
        a - b - 6
    } else {
        a - b
    };
    lemma_daa_after_borrow(s, r);
}

/// The digits of an addition of BCD bytes whose low digits sum to at most
/// 15 and whose binary sum fits in a byte: the adjustment by 0x60 when the
/// sum passes 0x99, then by 0x06 when the low digit passes 9, gives the
/// decimal sum modulo 100, with the carry telling whether it reached 100
proof fn lemma_bcd_add_digits(a: u8, b: u8)
    requires
        is_bcd(a),
        is_bcd(b),
        a % 16 + b % 16 <= 15,
        a + b < 256,
    ensures
        ({
            let s: int = a + b;
            let s1: int = if s > 0x99 {
                (s + 0x60) % 256
            } else {
                s
            };
            let s2: int = if s1 % 16 > 9 {
                (s1 + 6) % 256
            } else {
                s1
            };
            &&& 0 <= s2 < 256
            &&& is_bcd(s2 as u8)
            &&& bcd_value(s2 as u8) == (bcd_value(a) + bcd_value(b)) % 100
            &&& (s > 0x99) == (bcd_value(a) + bcd_value(b) >= 100)
        }),
{
    let ah = a / 16;
    let al = a % 16;
    let bh = b / 16;
    let bl = b % 16;
    assert(a == ah * 16 + al && b == bh * 16 + bl) by (nonlinear_arith)
        requires
            ah == a / 16,
            al == a % 16,
            bh == b / 16,
            bl == b % 16,
    ;
    let s: int = a + b;
    let lo: int = al + bl;
    let hi: int = ah + bh;
    assert(s == hi * 16 + lo);
    let carry_lo: int = if lo > 9 {
        1
    } else {
        0
    };
    let dl: int = lo - 10 * carry_lo;
    let dh: int = hi + carry_lo;
    assert(bcd_value(a) + bcd_value(b) == dh * 10 + dl);
    let s1: int = if s > 0x99 {
        (s + 0x60) % 256
    } else {
        s
    };
    let s2: int = if s1 % 16 > 9 {
        (s1 + 6) % 256
    } else {
        s1
    };
    let eh: int = if dh >= 10 {
        dh - 10
    } else {
        dh
    };
    assert(s2 == eh * 16 + dl) by (nonlinear_arith)
        requires
            s == hi * 16 + lo,
            0 <= lo <= 15,
            0 <= hi <= 18,
            s < 256,
            carry_lo == (if lo > 9 { 1int } else { 0int }),
            dl == lo - 10 * carry_lo,
            dh == hi + carry_lo,
            eh == (if dh >= 10 { dh - 10 } else { dh }),
            s1 == (if s > 0x99 { (s + 0x60) % 256 } else { s }),
            s2 == (if s1 % 16 > 9 { (s1 + 6) % 256 } else { s1 }),
    ;
    assert((s2 as u8) / 16 == eh && (s2 as u8) % 16 == dl) by (nonlinear_arith)
        requires
            s2 == eh * 16 + dl,
            0 <= dl < 10,
            0 <= eh < 10,
    ;
}

/// ADD whose sum fits in a byte: A is the sum, N and C clear
proof fn lemma_add_without_carry_out(v: CpuView, b: u8)
    requires
        v.a + b < 256,
    ensures
        ({
            let s = op_add(v, CpuRegister::Num(b));
            &&& s.a == v.a + b
            &&& s.f & 0x40 != 0x40
            &&& !carry_flag(s.f)
        }),
{
    let d = super::wrap8(v.a + b);
    assert(d == v.a + b);
    lemma_flag_byte(d == 0, false, v.a % 16 + b % 16 >= 16, false);
}

/// DAA after an addition that left N and C clear: 0x60 is added when A
/// passes 0x99, then 0x06 when the low digit passes 9; C tells the first
proof fn lemma_daa_after_addition(s: CpuView)
    requires
        s.f & 0x40 != 0x40,
        !carry_flag(s.f),
    ensures
        ({
            let a0: int = s.a as int;
            let s1: int = if a0 > 0x99 {
                (a0 + 0x60) % 256
            } else {
                a0
            };
            let s2: int = if s1 % 16 > 9 {
                (s1 + 6) % 256
            } else {
                s1
            };
            &&& op_daa(s).a == s2
            &&& carry_flag(op_daa(s).f) == (a0 > 0x99)
            &&& !sub_flag(op_daa(s).f)
            &&& !half_flag(op_daa(s).f)
            &&& zero_flag(op_daa(s).f) == (s2 == 0)
        }),
{
    let w = op_daa(s);
    lemma_flag_byte(w.a == 0, false, false, s.a > 0x99);
}

/// Decimal addition: for BCD bytes whose low digits sum to at most 15 and
/// whose binary sum fits in a byte, ADD and then DAA leave in A the BCD
/// encoding of the decimal sum modulo 100, with the carry set exactly when
/// the sum reaches 100.
pub proof fn lemma_bcd_addition(v: CpuView, b: u8)
    requires
        is_bcd(v.a),
        is_bcd(b),
        v.a % 16 + b % 16 <= 15,
        v.a + b < 256,
    ensures
        ({
            let w = op_daa(op_add(v, CpuRegister::Num(b)));
            &&& is_bcd(w.a)
            &&& bcd_value(w.a) == (bcd_value(v.a) + bcd_value(b)) % 100
            &&& carry_flag(w.f) == (bcd_value(v.a) + bcd_value(b) >= 100)
            &&& !sub_flag(w.f)
            &&& !half_flag(w.f)
            &&& zero_flag(w.f) == ((bcd_value(v.a) + bcd_value(b)) % 100 == 0)
        }),
{
    let a = v.a;
    lemma_bcd_add_digits(a, b);
    lemma_add_without_carry_out(v, b);
    lemma_daa_after_addition(op_add(v, CpuRegister::Num(b)));
}

/// Selecting an MBC1 ROM bank: after `v` is written to 0x2000-0x3FFF the
/// bank is the low five bits of `v`, or 1 where those are 0, and a read at
/// `0x4000 + i` gives the ROM byte `i` of that bank (wrapped to the ROM's
/// banks in the 16/8 memory model).
pub proof fn lemma_mbc1_rom_bank(c: CartView, a: u16, v: u8, i: u16)
    requires
        c.wf(),
        c.sub is Some && c.sub->0 is Mbc1,
        0x2000 <= a <= 0x3FFF,
        i < 0x4000,
    ensures
        ({
            let bank: int = if v % 32 == 0 {
                1
            } else {
                (v % 32) as int
            };
            let off = bank * 0x4000 + i;
            let c2 = c.ram_value_written(a, v);
            match c.sub {
                Some(SubView::Mbc1 { four_32, num_rom_banks, .. }) => c2.read((0x4000 + i) as u16)
                    == if four_32 {
                    c.rom[off]
                } else {
                    c.rom[masked(off, num_rom_banks)]
                },
                _ => false,
            }
        }),
{
    assert(v & 0x1F == v % 32) by (bit_vector);
}

/// Enabling MBC1 RAM: after `v` is written to 0x0000-0x1FFF, cartridge RAM
/// answers exactly when the low four bits of `v` are 0xA (and its selected
/// bank is present); otherwise it reads as 0xFF.
pub proof fn lemma_mbc1_ram_enable(c: CartView, a: u16, v: u8, j: u16)
    requires
        c.wf(),
        c.sub is Some && c.sub->0 is Mbc1,
        a <= 0x1FFF,
        j < 0x2000,
    ensures
        ({
            let c2 = c.ram_value_written(a, v);
            match c.sub {
                Some(SubView::Mbc1 { banks, rbs, .. }) => c2.read((0xA000 + j) as u16) == if v % 16
                    == 0xA && rbs < banks.len() {
                    banks[rbs as int][j as int]
                } else {
                    0xFFu8
                },
                _ => false,
            }
        }),
{
    assert(v & 0xF == v % 16) by (bit_vector);
}

/// Selecting an MBC1 RAM bank: after `v` is written to 0x4000-0x5FFF, an
/// enabled cartridge RAM reads from bank `v % 4`, when that bank is present.
pub proof fn lemma_mbc1_ram_bank(c: CartView, a: u16, v: u8, j: u16)
    requires
        c.wf(),
        c.sub is Some && c.sub->0 is Mbc1,
        0x4000 <= a <= 0x5FFF,
        j < 0x2000,
    ensures
        ({
            let c2 = c.ram_value_written(a, v);
            match c.sub {
                Some(SubView::Mbc1 { banks, ram_active, .. }) => c2.read((0xA000 + j) as u16) == if ram_active
                    && v % 4 < banks.len() {
                    banks[(v % 4) as int][j as int]
                } else {
                    0xFFu8
                },
                _ => false,
            }
        }),
{
    assert(v & 0x3 == v % 4) by (bit_vector);
}

/// Selecting an MBC3 ROM bank: after `v` is written to 0x2000-0x3FFF the
/// bank is the low seven bits of `v`, or 1 where those are 0, and a read at
/// `0x4000 + i` gives the ROM byte `i` of that bank.
pub proof fn lemma_mbc3_rom_bank(c: CartView, a: u16, v: u8, i: u16)
    requires
        c.wf(),
        c.sub is Some && c.sub->0 is Mbc3,
        0x2000 <= a <= 0x3FFF,
        i < 0x4000,
    ensures
        ({
            let bank: int = if v % 128 == 0 {
                1
            } else {
                (v % 128) as int
            };
            c.ram_value_written(a, v).read((0x4000 + i) as u16) == c.rom[bank * 0x4000 + i]
        }),
{
    assert(v & 0x7F == v % 128) by (bit_vector);
}

} // verus!
