//! Arithmetic, logic, rotate, shift, bit and load instructions
use vstd::prelude::*;

use crate::cpu::memvis::cpumemvis::log_view;

use super::constants::{CpuRegister, CpuRegister16, CL, ZL};
use super::{
    add_u16_i8, carry_flag, operand_written, wrap16, wrap8, zero_flag, Cpu, CpuView,
};

verus! {

/// The carry flag as a number
pub open spec fn cf(v: CpuView) -> int {
    if carry_flag(v.f) {
        1
    } else {
        0
    }
}

/// ADD A, r
pub open spec fn op_add(v: CpuView, r: CpuRegister) -> CpuView {
    let a = v.a as int;
    let b = v.reg8(r) as int;
    let res = wrap8(a + b);
    CpuView { a: res, ..v }.with_flags(res == 0, false, a % 16 + b % 16 >= 16, a + b >= 256)
}

/// ADC A, r
pub open spec fn op_adc(v: CpuView, r: CpuRegister) -> CpuView {
    let a = v.a as int;
    let b = v.reg8(r) as int;
    let c = cf(v);
    let res = wrap8(a + b + c);
    CpuView { a: res, ..v }.with_flags(res == 0, false, a % 16 + b % 16 + c >= 16, a + b + c >= 256)
}

/// SUB r: H is set when bit 4 does not borrow, C when nothing borrows
pub open spec fn op_sub(v: CpuView, r: CpuRegister) -> CpuView {
    let a = v.a as int;
    let b = v.reg8(r) as int;
    let res = wrap8(a - b);
    CpuView { a: res, ..v }.with_flags(res == 0, true, a % 16 >= b % 16, a >= b)
}

/// SBC A, r
pub open spec fn op_sbc(v: CpuView, r: CpuRegister) -> CpuView {
    let a = v.a as int;
    let b = v.reg8(r) as int;
    let c = cf(v);
    let res = wrap8(a - b - c);
    CpuView { a: res, ..v }.with_flags(res == 0, true, a % 16 < b % 16 + c, a < b + c)
}

/// AND r
pub open spec fn op_and(v: CpuView, r: CpuRegister) -> CpuView {
    let res = v.a & v.reg8(r);
    CpuView { a: res, ..v }.with_flags(res == 0, false, true, false)
}

/// OR r
pub open spec fn op_or(v: CpuView, r: CpuRegister) -> CpuView {
    let res = v.a | v.reg8(r);
    CpuView { a: res, ..v }.with_flags(res == 0, false, false, false)
}

/// XOR r
pub open spec fn op_xor(v: CpuView, r: CpuRegister) -> CpuView {
    let res = v.a ^ v.reg8(r);
    CpuView { a: res, ..v }.with_flags(res == 0, false, false, false)
}

/// CP r: the flags of SUB r, with A kept
pub open spec fn op_cp(v: CpuView, r: CpuRegister) -> CpuView {
    CpuView { a: v.a, ..op_sub(v, r) }
}

/// INC r (the half carry flag is set when bit 3 falls from 1 to 0)
pub open spec fn op_inc(v: CpuView, r: CpuRegister) -> CpuView {
    let old = v.reg8(r);
    let new = wrap8(old + 1);
    v.set_reg8(r, new).with_flags(
        new == 0,
        false,
        old & 0x8 == 0x8 && new & 0x8 != 0x8,
        carry_flag(v.f),
    )
}

/// DEC r: H is set when bit 4 does not borrow
pub open spec fn op_dec(v: CpuView, r: CpuRegister) -> CpuView {
    let old = v.reg8(r);
    let new = wrap8(old - 1);
    v.set_reg8(r, new).with_flags(new == 0, true, old % 16 != 0, carry_flag(v.f))
}

/// ADD HL, rr
pub open spec fn op_add_hl(v: CpuView, r: CpuRegister16) -> CpuView {
    let hl = v.hl() as int;
    let x = v.reg16(r) as int;
    v.set_reg16(CpuRegister16::HL, wrap16(hl + x)).with_flags(
        zero_flag(v.f),
        false,
        hl % 4096 + x % 4096 > 0xFFF,
        hl + x > 0xFFFF,
    )
}

/// The low byte of a signed byte's two's complement
pub open spec fn i8_bits(n: i8) -> int {
    if n < 0 {
        n as int + 256
    } else {
        n as int
    }
}

/// ADD SP, n
pub open spec fn op_addspn(v: CpuView, n: i8) -> CpuView {
    let sp = v.sp as int;
    let nb = i8_bits(n);
    CpuView { sp: wrap16(sp + n as int), ..v }.with_flags(
        false,
        false,
        sp % 16 + nb % 16 >= 16,
        sp % 256 + nb >= 256,
    )
}

/// INC rr / DEC rr
pub open spec fn op_inc16(v: CpuView, r: CpuRegister16) -> CpuView {
    v.set_reg16(r, wrap16(v.reg16(r) + 1))
}

pub open spec fn op_dec16(v: CpuView, r: CpuRegister16) -> CpuView {
    v.set_reg16(r, wrap16(v.reg16(r) - 1))
}

/// SWAP r: exchanges the two nibbles
pub open spec fn op_swap(v: CpuView, r: CpuRegister) -> CpuView {
    let x = v.reg8(r);
    let res = ((x % 16) * 16 + x / 16) as u8;
    CpuView { f: if x == 0 { ZL } else { 0 }, ..v.set_reg8(r, res) }
}

/// DAA: decimal adjustment of A after a BCD addition or subtraction; after an
/// addition the correction is decided by the value of A alone
pub open spec fn op_daa(v: CpuView) -> CpuView {
    let nf = v.f & 0x40 == 0x40;
    let hf = v.f & 0x20 == 0x20;
    let cf = carry_flag(v.f);
    let a0 = v.a as int;
    if !nf {
        let a1 = if a0 > 0x99 { wrap8(a0 + 0x60) as int } else { a0 };
        let a2 = if a1 % 16 > 9 { wrap8(a1 + 0x06) as int } else { a1 };
        CpuView { a: a2 as u8, ..v }.with_flags(a2 == 0, nf, false, cf || a0 > 0x99)
    } else {
        let a1 = if cf { wrap8(a0 - 0x60) as int } else { a0 };
        let a2 = if hf { wrap8(a1 - 0x06) as int } else { a1 };
        CpuView { a: a2 as u8, ..v }.with_flags(a2 == 0, nf, false, cf)
    }
}

/// The state with the given flags, given as a whole byte
pub open spec fn with_f(v: CpuView, f: u8) -> CpuView {
    CpuView { f: f, ..v }
}

/// RLCA and friends: the rotated accumulator and the bit that left it
pub open spec fn op_rot_a(v: CpuView, res: u8, carry_out: bool) -> CpuView {
    CpuView { a: res, ..v }.with_flags(false, false, false, carry_out)
}

/// The carry flag as a bit
pub open spec fn cbit(f: u8) -> u8 {
    if carry_flag(f) {
        1
    } else {
        0
    }
}

/// The value that the CB-prefixed rotation, shift or swap with field `y`
/// makes of operand `r`
pub open spec fn shift_value(v: CpuView, y: u8, r: CpuRegister) -> u8 {
    let x = v.reg8(r);
    if y == 0 {
        (x << 1u8) | (x >> 7u8)
    } else if y == 1 {
        (x >> 1u8) | (x << 7u8)
    } else if y == 2 {
        (x << 1u8) | cbit(v.f)
    } else if y == 3 {
        (x >> 1u8) | (cbit(v.f) << 7u8)
    } else if y == 4 {
        x << 1u8
    } else if y == 5 {
        (x >> 1u8) | (x & 0x80)
    } else if y == 6 {
        ((x % 16) * 16 + x / 16) as u8
    } else {
        x >> 1u8
    }
}

/// RLC, RL, RRC, RR, SLA, SRA, SRL of an operand: the new value and carry
pub open spec fn op_rot_r(v: CpuView, r: CpuRegister, res: u8, carry_out: bool) -> CpuView {
    v.set_reg8(r, res).with_flags(res == 0, false, false, carry_out)
}

/// BIT b, r
pub open spec fn op_bit(v: CpuView, b: u8, r: CpuRegister) -> CpuView {
    v.with_flags((v.reg8(r) >> b) & 1 != 1, false, true, carry_flag(v.f))
}

impl Cpu {
    proof fn lemma_carry(f: u8)
        ensures
            ((f & CL) >> 4u8) & 1 == cbit(f),
            (f & CL) >> 4u8 == cbit(f),
            (f & CL) << 3u8 == cbit(f) * 128,
    {
        assert(((f & 0x10) >> 4u8) & 1 == (if f & 0x10 == 0x10 { 1u8 } else { 0u8 })) by {
            crate::bits::lemma_u8(f);
        }
        assert((f & 0x10) >> 4u8 == (if f & 0x10 == 0x10 { 1u8 } else { 0u8 })) by {
            crate::bits::lemma_u8(f);
        }
        assert((f & 0x10) << 3u8 == (if f & 0x10 == 0x10 { 128u8 } else { 0u8 })) by {
            crate::bits::lemma_u8(f);
        }
    }

    /// The value of an operand that is a register, `(HL)` or a literal
    pub fn reg_or_const(&self, reg: CpuRegister) -> (r: u8)
        requires
            self.wf(),
        ensures
            r == self@.reg8(reg),
    {
        match self.access_register(reg) {
            Some(r) => r,
            None => {
                match reg {
                    CpuRegister::Num(v) => v,
                    _ => 0,
                }
            },
        }
    }

    pub fn add(&mut self, reg: CpuRegister)
        requires
            old(self).wf(),
        ensures
            final(self).wf(),
            final(self)@ == op_add(old(self)@, reg),
            final(self).event_logger == old(self).event_logger,
    {
        let old_a = self.a;
        let old_b = self.reg_or_const(reg);
        let new_a = old_a.wrapping_add(old_b);
        self.a = new_a;
        proof {
            assert(old_a & 0xF == old_a % 16) by {
                crate::bits::lemma_u8(old_a);
            }
            assert(old_b & 0xF == old_b % 16) by {
                crate::bits::lemma_u8(old_b);
            }
        }
        self.set_flags(
            new_a == 0,
            false,
            (old_a & 0xF) + (old_b & 0xF) >= 0x10,
            (old_a as u16) + (old_b as u16) >= 0x100,
        );
    }

    pub fn adc(&mut self, reg: CpuRegister)
        requires
            old(self).wf(),
        ensures
            final(self).wf(),
            final(self)@ == op_adc(old(self)@, reg),
            final(self).event_logger == old(self).event_logger,
    {
        let old_a = self.a;
        let old_b = self.reg_or_const(reg);
        let cf: u8 = ((self.f & CL) >> 4) & 1;
        proof {
            Self::lemma_carry(self.f);
            assert(old_a & 0xF == old_a % 16) by {
                crate::bits::lemma_u8(old_a);
            }
            assert(old_b & 0xF == old_b % 16) by {
                crate::bits::lemma_u8(old_b);
            }
        }
        let new_a = old_a.wrapping_add(old_b).wrapping_add(cf);
        self.a = new_a;
        self.set_flags(
            new_a == 0,
            false,
            (old_a & 0xF) + (old_b & 0xF) + cf >= 0x10,
            (old_a as u16) + (old_b as u16) + (cf as u16) >= 0x100,
        );
    }

    pub fn sub(&mut self, reg: CpuRegister)
        requires
            old(self).wf(),
        ensures
            final(self).wf(),
            final(self)@ == op_sub(old(self)@, reg),
            final(self).event_logger == old(self).event_logger,
    {
        let old_a = self.a;
        let old_b = self.reg_or_const(reg);
        let new_a = old_a.wrapping_sub(old_b);
        self.a = new_a;
        proof {
            assert(old_a & 0xF == old_a % 16) by {
                crate::bits::lemma_u8(old_a);
            }
            assert(old_b & 0xF == old_b % 16) by {
                crate::bits::lemma_u8(old_b);
            }
        }
        self.set_flags(new_a == 0, true, (old_a & 0xF) >= (old_b & 0xF), old_a >= old_b);
    }

    pub fn sbc(&mut self, reg: CpuRegister)
        requires
            old(self).wf(),
        ensures
            final(self).wf(),
            final(self)@ == op_sbc(old(self)@, reg),
            final(self).event_logger == old(self).event_logger,
    {
        let old_a = self.a;
        let old_b = self.reg_or_const(reg);
        let cf: u8 = (self.f & CL) >> 4;
        proof {
            Self::lemma_carry(self.f);
            assert(old_a & 0xF == old_a % 16) by {
                crate::bits::lemma_u8(old_a);
            }
            assert(old_b & 0xF == old_b % 16) by {
                crate::bits::lemma_u8(old_b);
            }
        }
        let new_a = old_a.wrapping_sub(old_b).wrapping_sub(cf);
        self.a = new_a;
        self.set_flags(
            new_a == 0,
            true,
            ((old_a & 0xF) as u16) < ((old_b & 0xF) as u16) + (cf as u16),
            (old_a as u16) < (old_b as u16) + (cf as u16),
        );
    }

    pub fn and(&mut self, reg: CpuRegister)
        requires
            old(self).wf(),
        ensures
            final(self).wf(),
            final(self)@ == op_and(old(self)@, reg),
            final(self).event_logger == old(self).event_logger,
    {
        let new_a = self.a & self.reg_or_const(reg);
        self.a = new_a;
        self.set_flags(new_a == 0, false, true, false);
    }

    pub fn or(&mut self, reg: CpuRegister)
        requires
            old(self).wf(),
        ensures
            final(self).wf(),
            final(self)@ == op_or(old(self)@, reg),
            final(self).event_logger == old(self).event_logger,
    {
        let new_a = self.a | self.reg_or_const(reg);
        self.a = new_a;
        self.set_flags(new_a == 0, false, false, false);
    }

    pub fn xor(&mut self, reg: CpuRegister)
        requires
            old(self).wf(),
        ensures
            final(self).wf(),
            final(self)@ == op_xor(old(self)@, reg),
            final(self).event_logger == old(self).event_logger,
    {
        let new_a = self.a ^ self.reg_or_const(reg);
        self.a = new_a;
        self.set_flags(new_a == 0, false, false, false);
    }

    pub fn cp(&mut self, reg: CpuRegister)
        requires
            old(self).wf(),
        ensures
            final(self).wf(),
            final(self)@ == op_cp(old(self)@, reg),
            final(self).event_logger == old(self).event_logger,
    {
        let old_a = self.a;
        self.sub(reg);
        self.a = old_a;
    }

    pub fn inc(&mut self, reg: CpuRegister)
        requires
            old(self).wf(),
            !(reg is Num),
        ensures
            final(self).wf(),
            final(self)@ == op_inc(old(self)@, reg),
            final(self).event_logger is Some == old(self).event_logger is Some,
            log_view(final(self).event_logger) == operand_written(log_view(old(self).event_logger), old(self)@, reg, wrap8(old(self)@.reg8(reg) + 1)),
    {
        let old_c = (self.f & CL) == CL;
        let old_val = self.reg_or_const(reg);
        let old_3bit = old_val & 0x8;
        let new_val = old_val.wrapping_add(1);
        self.set_register(reg, new_val);
        self.set_flags(new_val == 0, false, (old_3bit == 0x8) && ((new_val & 0x8) != 0x8), old_c);
        proof {
            assert(old_val & 0x8 == 0x8 <==> (old_val & 0x8) == 0x8);
        }
    }

    pub fn dec(&mut self, reg: CpuRegister)
        requires
            old(self).wf(),
            !(reg is Num),
        ensures
            final(self).wf(),
            final(self)@ == op_dec(old(self)@, reg),
            final(self).event_logger is Some == old(self).event_logger is Some,
            log_view(final(self).event_logger) == operand_written(log_view(old(self).event_logger), old(self)@, reg, wrap8(old(self)@.reg8(reg) - 1)),
    {
        let old_c = (self.f & CL) == CL;
        let reg_val = self.reg_or_const(reg);
        let new_val = reg_val.wrapping_sub(1);
        self.set_register(reg, new_val);
        proof {
            assert((reg_val & 0xF) != 0 <==> reg_val % 16 != 0) by {
                crate::bits::lemma_u8(reg_val);
            }
        }
        self.set_flags(new_val == 0, true, (reg_val & 0xF) != 0, old_c);
    }

    pub fn add_hl(&mut self, reg: CpuRegister16)
        requires
            old(self).wf(),
        ensures
            final(self).wf(),
            final(self)@ == op_add_hl(old(self)@, reg),
            final(self).event_logger == old(self).event_logger,
    {
        let old_z = (self.f & ZL) == ZL;
        let hl = self.hl();
        let regval = self.access_register16(reg);
        proof {
            assert(hl & 0xFFF == hl % 4096) by {
                crate::bits::lemma_u16(hl);
            }
            assert(regval & 0xFFF == regval % 4096) by {
                crate::bits::lemma_u16(regval);
            }
        }
        let overflow12bit = ((hl & 0xFFF) + (regval & 0xFFF)) > 0xFFF;
        let overflow16bit = (hl as u32 + regval as u32) > 0xFFFF;
        self.set_register16(CpuRegister16::HL, hl.wrapping_add(regval));
        self.set_flags(old_z, false, overflow12bit, overflow16bit);
    }

    pub fn addspn(&mut self, n: i8)
        requires
            old(self).wf(),
        ensures
            final(self).wf(),
            final(self)@ == op_addspn(old(self)@, n),
            final(self).event_logger == old(self).event_logger,
    {
        let old_sp = self.sp;
        let nb: u16 = if n < 0 {
            (n as i16 + 256) as u16
        } else {
            n as u16
        };
        self.sp = add_u16_i8(old_sp, n);
        proof {
            assert(old_sp & 0xF == old_sp % 16) by {
                crate::bits::lemma_u16(old_sp);
            }
            assert(old_sp & 0xFF == old_sp % 256) by {
                crate::bits::lemma_u16(old_sp);
            }
            assert(nb & 0xF == nb % 16) by {
                crate::bits::lemma_u16(nb);
            }
        }
        self.set_flags(
            false,
            false,
            (old_sp & 0xF) + (nb & 0xF) >= 16,
            (old_sp & 0xFF) + nb >= 256,
        );
    }

    pub fn inc16(&mut self, reg: CpuRegister16)
        requires
            old(self).wf(),
            reg is BC || reg is DE || reg is HL || reg is SP,
        ensures
            final(self).wf(),
            final(self)@ == op_inc16(old(self)@, reg),
            final(self).event_logger == old(self).event_logger,
    {
        let v = self.access_register16(reg);
        self.set_register16(reg, v.wrapping_add(1));
    }

    pub fn dec16(&mut self, reg: CpuRegister16)
        requires
            old(self).wf(),
            !(reg is Num),
        ensures
            final(self).wf(),
            final(self)@ == op_dec16(old(self)@, reg),
            final(self).event_logger == old(self).event_logger,
    {
        let val = self.access_register16(reg);
        self.set_register16(
            reg,
            if val == 0 {
                0xFFFF
            } else {
                val - 1
            },
        );
    }

    pub fn swap(&mut self, reg: CpuRegister)
        requires
            old(self).wf(),
            !(reg is Num),
        ensures
            final(self).wf(),
            final(self)@ == op_swap(old(self)@, reg),
            final(self).event_logger is Some == old(self).event_logger is Some,
            log_view(final(self).event_logger) == operand_written(log_view(old(self).event_logger), old(self)@, reg, shift_value(old(self)@, 6, reg)),
    {
        let val = self.reg_or_const(reg);
        let top = val & 0xF0;
        let bot = val & 0x0F;
        proof {
            crate::bits::lemma_u8(val);
            assert(((top >> 4u8) & 0xF) | (bot << 4u8) == (val % 16) * 16 + val / 16);
            ;
        }
        self.set_register(reg, ((top >> 4) & 0xF) | (bot << 4));
        self.f = if val == 0 {
            ZL
        } else {
            0
        };
    }

    #[verifier::rlimit(40)]
    pub fn daa(&mut self)
        requires
            old(self).wf(),
        ensures
            final(self).wf(),
            final(self)@ == op_daa(old(self)@),
            final(self).event_logger == old(self).event_logger,
    {
        let nf = self.f & 0x40 == 0x40;
        let hf = self.f & 0x20 == 0x20;
        let cf = self.f & CL == CL;
        let a0 = self.a;
        let mut a2: u8 = a0;
        let mut new_cf = cf;
        if !nf {
            let a1 = if a0 > 0x99 {
                a0.wrapping_add(0x60)
            } else {
                a0
            };
            proof {
                assert(a1 & 0xF == a1 % 16) by {
                    crate::bits::lemma_u8(a1);
                }
            }
            a2 = if (a1 & 0xF) > 0x9 {
                a1.wrapping_add(0x06)
            } else {
                a1
            };
            new_cf = cf || a0 > 0x99;
        } else {
            let a1 = if cf {
                a0.wrapping_sub(0x60)
            } else {
                a0
            };
            a2 = if hf {
                a1.wrapping_sub(0x06)
            } else {
                a1
            };
        }
        self.a = a2;
        self.set_flags(a2 == 0, nf, false, new_cf);
    }

    /// CPL: A becomes its complement; N and H are set, Z and C kept
    pub fn cpl(&mut self)
        ensures
            final(self)@ == with_f(
                CpuView { a: !old(self).a, ..old(self)@ },
                (old(self).f & (ZL | CL)) | super::constants::NLV | super::constants::HL,
            ),
            final(self).mem == old(self).mem,
            final(self).event_logger == old(self).event_logger,
    {
        let new_val = !self.a;
        let old_flags = self.f & (ZL | CL);
        self.f = old_flags | super::constants::NLV | super::constants::HL;
        self.a = new_val;
    }

    /// CCF: flips the carry flag, keeps Z, clears N and H
    pub fn ccf(&mut self)
        ensures
            final(self)@ == with_f(old(self)@, (old(self).f & (ZL | CL)) ^ CL),
            final(self).mem == old(self).mem,
            final(self).event_logger == old(self).event_logger,
    {
        let old_flags = self.f & (ZL | CL);
        self.f = old_flags ^ CL;
    }

    /// SCF: sets the carry flag, keeps Z, clears N and H
    pub fn scf(&mut self)
        ensures
            final(self)@ == with_f(old(self)@, (old(self).f & ZL) | CL),
            final(self).mem == old(self).mem,
            final(self).event_logger == old(self).event_logger,
    {
        let old_flags = self.f & ZL;
        self.f = old_flags | CL;
    }

    pub fn rlca(&mut self)
        ensures
            final(self)@ == op_rot_a(
                old(self)@,
                (old(self).a << 1u8) | (old(self).a >> 7u8),
                (old(self).a >> 7u8) & 1 == 1,
            ),
            final(self).mem == old(self).mem,
            final(self).event_logger == old(self).event_logger,
    {
        let old_bit7 = (self.a >> 7) & 1;
        proof {
            let a = self.a;
            assert((a >> 7u8) & 1 == a >> 7u8) by {
                crate::bits::lemma_u8(a);
            }
        }
        let new_a = (self.a << 1) | old_bit7;
        self.a = new_a;
        self.set_flags(false, false, false, old_bit7 == 1);
    }

    pub fn rla(&mut self)
        ensures
            final(self)@ == op_rot_a(
                old(self)@,
                (old(self).a << 1u8) | cbit(old(self).f),
                (old(self).a >> 7u8) & 1 == 1,
            ),
            final(self).mem == old(self).mem,
            final(self).event_logger == old(self).event_logger,
    {
        let old_bit7 = (self.a >> 7) & 1;
        let old_flags = ((self.f & CL) >> 4) & 0x1;
        proof {
            Self::lemma_carry(self.f);
        }
        let new_a = (self.a << 1) | old_flags;
        self.a = new_a;
        self.set_flags(false, false, false, old_bit7 == 1);
    }

    pub fn rrca(&mut self)
        ensures
            final(self)@ == op_rot_a(
                old(self)@,
                (old(self).a >> 1u8) | (old(self).a << 7u8),
                old(self).a & 1 == 1,
            ),
            final(self).mem == old(self).mem,
            final(self).event_logger == old(self).event_logger,
    {
        let old_bit0 = self.a & 1;
        proof {
            let a = self.a;
            assert(((a >> 1u8) & 0x7F) | ((a & 1) << 7u8) == (a >> 1u8) | (a << 7u8)) by {
                crate::bits::lemma_u8(a);
            }
        }
        let new_a = ((self.a >> 1) & 0x7F) | (old_bit0 << 7);
        self.a = new_a;
        self.set_flags(false, false, false, old_bit0 == 1);
    }

    pub fn rra(&mut self)
        ensures
            final(self)@ == op_rot_a(
                old(self)@,
                (old(self).a >> 1u8) | (cbit(old(self).f) << 7u8),
                old(self).a & 1 == 1,
            ),
            final(self).mem == old(self).mem,
            final(self).event_logger == old(self).event_logger,
    {
        let old_bit0 = self.a & 1;
        let old_flags = ((self.f & CL) >> 4) & 0xF;
        proof {
            Self::lemma_carry(self.f);
            let a = self.a;
            let f = self.f;
            assert(((f & 0x10) >> 4u8) & 0xF == (f & 0x10) >> 4u8) by {
                crate::bits::lemma_u8(f);
            }
            assert((a >> 1u8) & 0x7F == a >> 1u8) by {
                crate::bits::lemma_u8(a);
            }
        }
        let new_a = ((self.a >> 1) & 0x7F) | (old_flags << 7);
        self.a = new_a;
        self.set_flags(false, false, false, old_bit0 == 1);
    }

    pub fn rlc(&mut self, reg: CpuRegister)
        requires
            old(self).wf(),
            !(reg is Num),
        ensures
            final(self).wf(),
            final(self)@ == op_rot_r(
                old(self)@,
                reg,
                (old(self)@.reg8(reg) << 1u8) | (old(self)@.reg8(reg) >> 7u8),
                (old(self)@.reg8(reg) >> 7u8) & 1 == 1,
            ),
            final(self).event_logger is Some == old(self).event_logger is Some,
            log_view(final(self).event_logger) == operand_written(log_view(old(self).event_logger), old(self)@, reg, shift_value(old(self)@, 0, reg)),
    {
        let reg_val = self.reg_or_const(reg);
        let old_bit7 = (reg_val >> 7) & 1;
        proof {
            crate::bits::lemma_u8(reg_val);
        }
        let new_reg = ((reg_val << 1) & 0xFE) | old_bit7;
        self.set_register(reg, new_reg);
        self.set_flags(new_reg == 0, false, false, old_bit7 == 1);
    }

    pub fn rl(&mut self, reg: CpuRegister)
        requires
            old(self).wf(),
            !(reg is Num),
        ensures
            final(self).wf(),
            final(self)@ == op_rot_r(
                old(self)@,
                reg,
                (old(self)@.reg8(reg) << 1u8) | cbit(old(self).f),
                (old(self)@.reg8(reg) >> 7u8) & 1 == 1,
            ),
            final(self).event_logger is Some == old(self).event_logger is Some,
            log_view(final(self).event_logger) == operand_written(log_view(old(self).event_logger), old(self)@, reg, shift_value(old(self)@, 2, reg)),
    {
        let reg_val = self.reg_or_const(reg);
        let old_bit7 = (reg_val >> 7) & 1;
        let old_flags = ((self.f & CL) >> 4) & 0xF;
        proof {
            Self::lemma_carry(self.f);
            let f = self.f;
            assert(((f & 0x10) >> 4u8) & 0xF == (f & 0x10) >> 4u8) by {
                crate::bits::lemma_u8(f);
            }
        }
        let new_reg = (reg_val << 1) | old_flags;
        self.set_register(reg, new_reg);
        self.set_flags(new_reg == 0, false, false, old_bit7 == 1);
    }

    pub fn rrc(&mut self, reg: CpuRegister)
        requires
            old(self).wf(),
            !(reg is Num),
        ensures
            final(self).wf(),
            final(self)@ == op_rot_r(
                old(self)@,
                reg,
                (old(self)@.reg8(reg) >> 1u8) | (old(self)@.reg8(reg) << 7u8),
                old(self)@.reg8(reg) & 1 == 1,
            ),
            final(self).event_logger is Some == old(self).event_logger is Some,
            log_view(final(self).event_logger) == operand_written(log_view(old(self).event_logger), old(self)@, reg, shift_value(old(self)@, 1, reg)),
    {
        let reg_val = self.reg_or_const(reg);
        let old_bit0 = reg_val & 1;
        proof {
            crate::bits::lemma_u8(reg_val);
        }
        let new_val = ((reg_val >> 1) & 0x7F) | (old_bit0 << 7);
        self.set_register(reg, new_val);
        self.set_flags(new_val == 0, false, false, old_bit0 == 1);
    }

    /// Rotate right through the carry flag
    pub fn rr(&mut self, reg: CpuRegister)
        requires
            old(self).wf(),
            !(reg is Num),
        ensures
            final(self).wf(),
            final(self)@ == op_rot_r(
                old(self)@,
                reg,
                (old(self)@.reg8(reg) >> 1u8) | (cbit(old(self).f) << 7u8),
                old(self)@.reg8(reg) & 1 == 1,
            ),
            final(self).event_logger is Some == old(self).event_logger is Some,
            log_view(final(self).event_logger) == operand_written(log_view(old(self).event_logger), old(self)@, reg, shift_value(old(self)@, 3, reg)),
    {
        let reg_val = self.reg_or_const(reg);
        let old_bit0 = reg_val & 1;
        let old_flags = (self.f & CL) << 3;
        proof {
            Self::lemma_carry(self.f);
            let c = cbit(self.f);
            assert(c == 0 || c == 1);
            assert(c == 0 ==> c << 7u8 == 0) by {
                crate::bits::lemma_u8(c);
            }
            assert(c == 1 ==> c << 7u8 == 128) by {
                crate::bits::lemma_u8(c);
            }
        }
        let new_val = (reg_val >> 1) | old_flags;
        self.set_register(reg, new_val);
        self.set_flags(new_val == 0, false, false, old_bit0 == 1);
    }

    pub fn sla(&mut self, reg: CpuRegister)
        requires
            old(self).wf(),
            !(reg is Num),
        ensures
            final(self).wf(),
            final(self)@ == op_rot_r(
                old(self)@,
                reg,
                old(self)@.reg8(reg) << 1u8,
                (old(self)@.reg8(reg) >> 7u8) & 1 == 1,
            ),
            final(self).event_logger is Some == old(self).event_logger is Some,
            log_view(final(self).event_logger) == operand_written(log_view(old(self).event_logger), old(self)@, reg, shift_value(old(self)@, 4, reg)),
    {
        let reg_val = self.reg_or_const(reg);
        let old_bit7 = (reg_val >> 7) & 1;
        self.set_register(reg, reg_val << 1);
        self.set_flags((reg_val << 1) == 0, false, false, old_bit7 == 1);
    }

    pub fn sra(&mut self, reg: CpuRegister)
        requires
            old(self).wf(),
            !(reg is Num),
        ensures
            final(self).wf(),
            final(self)@ == sra_result(old(self)@, reg),
            final(self).event_logger is Some == old(self).event_logger is Some,
            log_view(final(self).event_logger) == operand_written(log_view(old(self).event_logger), old(self)@, reg, shift_value(old(self)@, 5, reg)),
    {
        let reg_val = self.reg_or_const(reg);
        let old_bit0 = reg_val & 1;
        let old_bit7 = reg_val & 0x80;
        self.set_register(reg, (reg_val >> 1) | old_bit7);
        self.set_flags((reg_val >> 1) == 0, false, false, old_bit0 == 1);
    }

    pub fn srl(&mut self, reg: CpuRegister)
        requires
            old(self).wf(),
            !(reg is Num),
        ensures
            final(self).wf(),
            final(self)@ == op_rot_r(
                old(self)@,
                reg,
                old(self)@.reg8(reg) >> 1u8,
                old(self)@.reg8(reg) & 1 == 1,
            ),
            final(self).event_logger is Some == old(self).event_logger is Some,
            log_view(final(self).event_logger) == operand_written(log_view(old(self).event_logger), old(self)@, reg, shift_value(old(self)@, 7, reg)),
    {
        let reg_val = self.reg_or_const(reg);
        let old_bit0 = reg_val & 1;
        self.set_register(reg, reg_val >> 1);
        self.set_flags((reg_val >> 1) == 0, false, false, old_bit0 == 1);
    }

    /// BIT b, r: Z is set when bit `b` is clear; H set; C kept
    pub fn bit(&mut self, b: u8, reg: CpuRegister)
        requires
            old(self).wf(),
            b < 8,
            !(reg is Num),
        ensures
            final(self).wf(),
            final(self)@ == op_bit(old(self)@, b, reg),
            final(self).event_logger == old(self).event_logger,
    {
        let reg_val = self.reg_or_const(reg);
        let old_flags = (self.f & CL) >> 4;
        proof {
            Self::lemma_carry(self.f);
        }
        self.set_flags(((reg_val >> b) & 1) != 1, false, true, (old_flags & 1) == 1);
    }

    /// SET b, r
    pub fn set(&mut self, b: u8, reg: CpuRegister)
        requires
            old(self).wf(),
            b < 8,
            !(reg is Num),
        ensures
            final(self).wf(),
            final(self)@ == old(self)@.set_reg8(reg, old(self)@.reg8(reg) | (1u8 << b)),
            final(self).event_logger is Some == old(self).event_logger is Some,
            log_view(final(self).event_logger) == operand_written(log_view(old(self).event_logger), old(self)@, reg, old(self)@.reg8(reg) | (1u8 << b)),
    {
        let reg_val = self.reg_or_const(reg);
        self.set_register(reg, reg_val | (1u8 << b));
    }

    /// RES b, r
    pub fn res(&mut self, b: u8, reg: CpuRegister)
        requires
            old(self).wf(),
            b < 8,
            !(reg is Num),
        ensures
            final(self).wf(),
            final(self)@ == old(self)@.set_reg8(reg, old(self)@.reg8(reg) & !(1u8 << b)),
            final(self).event_logger is Some == old(self).event_logger is Some,
            log_view(final(self).event_logger) == operand_written(log_view(old(self).event_logger), old(self)@, reg, old(self)@.reg8(reg) & !(1u8 << b)),
    {
        let reg_val = self.reg_or_const(reg);
        self.set_register(reg, reg_val & !(1u8 << b));
    }
}

/// SRA r: shift right keeping bit 7
pub open spec fn sra_result(v: CpuView, r: CpuRegister) -> CpuView {
    let x = v.reg8(r);
    v.set_reg8(r, (x >> 1u8) | (x & 0x80)).with_flags(x >> 1u8 == 0, false, false, x & 1 == 1)
}

} // verus!
