//! Load instructions
use vstd::prelude::*;

use crate::cpu::memvis::cpumemvis::{after_read, after_write, log_view};

use super::alu::op_addspn;
use super::constants::{CpuRegister, CpuRegister16};
use super::{byte_to_u16, hi_byte, lo_byte, operand_written, word, wrap16, Cpu, CpuView};

verus! {

/// LD A, (addr)
pub open spec fn load_a(v: CpuView, addr: u16) -> CpuView {
    CpuView { a: v.mem[addr as int], ..v }
}

/// LD (addr), A
pub open spec fn store_a(v: CpuView, addr: u16) -> CpuView {
    v.mem_write(addr, v.a)
}

/// LD HL, SP+n: HL gets what ADD SP, n would give SP, with its flags
pub open spec fn op_ldhlspn(v: CpuView, n: i8) -> CpuView {
    let t = op_addspn(v, n);
    CpuView { sp: v.sp, ..t }.set_reg16(CpuRegister16::HL, t.sp)
}

/// LD (nn), SP
pub open spec fn op_ldnnsp(v: CpuView, b1: u8, b2: u8) -> CpuView {
    let addr = word(b1, b2);
    v.mem_write(addr, lo_byte(v.sp)).mem_write(wrap16(addr + 1), hi_byte(v.sp))
}

impl Cpu {
    /// LD r, n
    pub fn ldnnn(&mut self, nn: CpuRegister, n: u8)
        requires
            old(self).wf(),
            !(nn is Num),
        ensures
            final(self).wf(),
            final(self)@ == old(self)@.set_reg8(nn, n),
            final(self).event_logger is Some == old(self).event_logger is Some,
            log_view(final(self).event_logger) == operand_written(log_view(old(self).event_logger), old(self)@, nn, n),
    {
        self.set_register(nn, n);
    }

    /// LD r1, r2
    pub fn ldr1r2(&mut self, r1: CpuRegister, r2: CpuRegister)
        requires
            old(self).wf(),
            !(r1 is Num),
            !(r2 is Num),
        ensures
            final(self).wf(),
            final(self)@ == old(self)@.set_reg8(r1, old(self)@.reg8(r2)),
            final(self).event_logger is Some == old(self).event_logger is Some,
            log_view(final(self).event_logger) == operand_written(log_view(old(self).event_logger), old(self)@, r1, old(self)@.reg8(r2)),
    {
        let val = self.reg_or_const(r2);
        self.set_register(r1, val);
    }

    /// LD A, (rr)
    pub fn ldan16(&mut self, n: CpuRegister16)
        requires
            old(self).wf(),
        ensures
            final(self).wf(),
            final(self)@ == load_a(old(self)@, old(self)@.reg16(n)),
            final(self).event_logger is Some == old(self).event_logger is Some,
            log_view(final(self).event_logger) == after_read(log_view(old(self).event_logger), old(self)@.reg16(n)),
    {
        let addr = self.access_register16(n);
        let val = self.get_mem(addr);
        self.a = val;
    }

    /// LD A, (nn)
    pub fn ldan16c(&mut self, b1: u8, b2: u8)
        requires
            old(self).wf(),
        ensures
            final(self).wf(),
            final(self)@ == load_a(old(self)@, word(b1, b2)),
            final(self).event_logger is Some == old(self).event_logger is Some,
            log_view(final(self).event_logger) == after_read(log_view(old(self).event_logger), word(b1, b2)),
    {
        let addr = byte_to_u16(b1, b2);
        let val = self.get_mem(addr);
        self.a = val;
    }

    /// LD (rr), A
    pub fn ldna16(&mut self, n: CpuRegister16)
        requires
            old(self).wf(),
        ensures
            final(self).wf(),
            final(self)@ == store_a(old(self)@, old(self)@.reg16(n)),
            final(self).event_logger is Some == old(self).event_logger is Some,
            log_view(final(self).event_logger) == after_write(log_view(old(self).event_logger), old(self)@.reg16(n), old(self).a),
    {
        let val = self.a;
        let addr = self.access_register16(n);
        self.set_mem(addr, val);
    }

    /// LD (nn), A
    pub fn ldna16c(&mut self, b1: u8, b2: u8)
        requires
            old(self).wf(),
        ensures
            final(self).wf(),
            final(self)@ == store_a(old(self)@, word(b1, b2)),
            final(self).event_logger is Some == old(self).event_logger is Some,
            log_view(final(self).event_logger) == after_write(log_view(old(self).event_logger), word(b1, b2), old(self).a),
    {
        let val = self.a;
        let addr = byte_to_u16(b1, b2);
        self.set_mem(addr, val);
    }

    /// LD A, (0xFF00 + C)
    pub fn ldac(&mut self)
        requires
            old(self).wf(),
        ensures
            final(self).wf(),
            final(self)@ == load_a(old(self)@, (0xFF00 + old(self).c) as u16),
            final(self).event_logger is Some == old(self).event_logger is Some,
            log_view(final(self).event_logger) == after_read(log_view(old(self).event_logger), (0xFF00 + old(self).c) as u16),
    {
        let reg_c = self.c;
        let val = self.get_mem(0xFF00u16 + (reg_c as u16));
        self.a = val;
    }

    /// LD (0xFF00 + C), A
    pub fn ldca(&mut self)
        requires
            old(self).wf(),
        ensures
            final(self).wf(),
            final(self)@ == store_a(old(self)@, (0xFF00 + old(self).c) as u16),
            final(self).event_logger is Some == old(self).event_logger is Some,
            log_view(final(self).event_logger) == after_write(log_view(old(self).event_logger), (0xFF00 + old(self).c) as u16, old(self).a),
    {
        let addr = 0xFF00u16 + (self.c as u16);
        let val = self.a;
        self.set_mem(addr, val);
    }

    /// LDD A, (HL)
    pub fn lddahl(&mut self)
        requires
            old(self).wf(),
        ensures
            final(self).wf(),
            final(self)@ == load_a(old(self)@, old(self)@.hl()).set_reg16(
                CpuRegister16::HL,
                wrap16(old(self)@.hl() - 1),
            ),
            final(self).event_logger is Some == old(self).event_logger is Some,
            log_view(final(self).event_logger) == after_read(log_view(old(self).event_logger), old(self)@.hl()),
    {
        let addr = self.hl();
        let val = self.get_mem(addr);
        self.a = val;
        self.dec16(CpuRegister16::HL);
    }

    /// LDD (HL), A
    pub fn lddhla(&mut self)
        requires
            old(self).wf(),
        ensures
            final(self).wf(),
            final(self)@ == store_a(old(self)@, old(self)@.hl()).set_reg16(
                CpuRegister16::HL,
                wrap16(old(self)@.hl() - 1),
            ),
            final(self).event_logger is Some == old(self).event_logger is Some,
            log_view(final(self).event_logger) == after_write(log_view(old(self).event_logger), old(self)@.hl(), old(self).a),
    {
        let val = self.a;
        let addr = self.hl();
        self.set_mem(addr, val);
        self.dec16(CpuRegister16::HL);
    }

    /// LDI A, (HL)
    pub fn ldiahl(&mut self)
        requires
            old(self).wf(),
        ensures
            final(self).wf(),
            final(self)@ == load_a(old(self)@, old(self)@.hl()).set_reg16(
                CpuRegister16::HL,
                wrap16(old(self)@.hl() + 1),
            ),
            final(self).event_logger is Some == old(self).event_logger is Some,
            log_view(final(self).event_logger) == after_read(log_view(old(self).event_logger), old(self)@.hl()),
    {
        let addr = self.hl();
        let val = self.get_mem(addr);
        self.a = val;
        self.inc16(CpuRegister16::HL);
    }

    /// LDI (HL), A
    pub fn ldihla(&mut self)
        requires
            old(self).wf(),
        ensures
            final(self).wf(),
            final(self)@ == store_a(old(self)@, old(self)@.hl()).set_reg16(
                CpuRegister16::HL,
                wrap16(old(self)@.hl() + 1),
            ),
            final(self).event_logger is Some == old(self).event_logger is Some,
            log_view(final(self).event_logger) == after_write(log_view(old(self).event_logger), old(self)@.hl(), old(self).a),
    {
        let val = self.a;
        let addr = self.hl();
        self.set_mem(addr, val);
        self.inc16(CpuRegister16::HL);
    }

    /// LDH (n), A
    pub fn ldhna(&mut self, n: u8)
        requires
            old(self).wf(),
        ensures
            final(self).wf(),
            final(self)@ == store_a(old(self)@, (0xFF00 + n) as u16),
            final(self).event_logger is Some == old(self).event_logger is Some,
            log_view(final(self).event_logger) == after_write(log_view(old(self).event_logger), (0xFF00 + n) as u16, old(self).a),
    {
        let val = self.a;
        self.set_mem(0xFF00u16 + (n as u16), val);
    }

    /// LDH A, (n)
    pub fn ldhan(&mut self, n: u8)
        requires
            old(self).wf(),
        ensures
            final(self).wf(),
            final(self)@ == load_a(old(self)@, (0xFF00 + n) as u16),
            final(self).event_logger is Some == old(self).event_logger is Some,
            log_view(final(self).event_logger) == after_read(log_view(old(self).event_logger), (0xFF00 + n) as u16),
    {
        let val = self.get_mem(0xFF00u16 + (n as u16));
        self.a = val;
    }

    /// LD rr, nn
    pub fn ldnnn16(&mut self, n: CpuRegister16, b1: u8, b2: u8)
        requires
            old(self).wf(),
            !(n is Num),
        ensures
            final(self).wf(),
            final(self)@ == old(self)@.set_reg16(n, word(b1, b2)),
            final(self).event_logger == old(self).event_logger,
    {
        let v = byte_to_u16(b1, b2);
        self.set_register16(n, v);
    }

    /// LD SP, HL
    pub fn ldsphl(&mut self)
        requires
            old(self).wf(),
        ensures
            final(self).wf(),
            final(self)@ == (CpuView { sp: old(self)@.hl(), ..old(self)@ }),
            final(self).event_logger == old(self).event_logger,
    {
        let val = self.hl();
        self.set_register16(CpuRegister16::SP, val);
    }

    /// LD HL, SP+n
    pub fn ldhlspn(&mut self, n: i8)
        requires
            old(self).wf(),
        ensures
            final(self).wf(),
            final(self)@ == op_ldhlspn(old(self)@, n),
            final(self).event_logger == old(self).event_logger,
    {
        let old_sp = self.sp;
        self.addspn(n);
        let new_sp = self.sp;
        self.sp = old_sp;
        self.set_register16(CpuRegister16::HL, new_sp);
    }

    /// LD (nn), SP
    pub fn ldnnsp(&mut self, b1: u8, b2: u8)
        requires
            old(self).wf(),
        ensures
            final(self).wf(),
            final(self)@ == op_ldnnsp(old(self)@, b1, b2),
            final(self).event_logger is Some == old(self).event_logger is Some,
            log_view(final(self).event_logger) == after_write(after_write(log_view(old(self).event_logger), word(b1, b2), lo_byte(old(self).sp)), wrap16(word(b1, b2) + 1), hi_byte(old(self).sp)),
    {
        let old_sp = self.sp;
        let addr = byte_to_u16(b1, b2);
        proof {
            assert(old_sp & 0xFF == old_sp % 256) by {
                crate::bits::lemma_u16(old_sp);
            }
            assert((old_sp >> 8u16) & 0xFF == old_sp / 256) by {
                crate::bits::lemma_u16(old_sp);
            }
        }
        self.set_mem(addr, (old_sp & 0xFF) as u8);
        self.set_mem(addr.wrapping_add(1), ((old_sp >> 8) & 0xFF) as u8);
    }
}

} // verus!
