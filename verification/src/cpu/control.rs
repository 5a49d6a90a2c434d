//! Jumps, calls, the stack, interrupts and the CPU run state
use vstd::prelude::*;

use crate::cpu::memvis::cpumemvis::{after_jump, after_read, after_write, log_view, LogView};

use super::constants::{
    Cc, CpuState, LCDC_INTERRUPT_ADDRESS, P1013_INTERRUPT_ADDRESS,
    SERIAL_TRANSFER_INTERRUPT_ADDRESS, TIMER_OVERFLOW_INTERRUPT_ADDRESS, VBLANK_INTERRUPT_ADDRESS,
};
use super::memvis::cpumemvis::CpuEventLogger;
use super::{add_u16_i8, byte_to_u16, hi_byte, lo_byte, word, wrap16, Cpu, CpuView};

verus! {

/// Whether a condition code holds for the flags in `f`
pub open spec fn cc_holds(f: u8, cc: Cc) -> bool {
    match cc {
        Cc::NZ => (f >> 7u8) & 1 == 0,
        Cc::Z => (f >> 7u8) & 1 == 1,
        Cc::NC => (f >> 4u8) & 1 == 0,
        Cc::C => (f >> 4u8) & 1 == 1,
    }
}

/// The state after pushing a 16-bit value: high byte first, at SP - 1
pub open spec fn pushed(v: CpuView, nn: u16) -> CpuView {
    let v1 = v.mem_write(wrap16(v.sp - 1), hi_byte(nn));
    let v2 = v1.mem_write(wrap16(v.sp - 2), lo_byte(nn));
    CpuView { sp: wrap16(v.sp - 2), ..v2 }
}

/// The value at the top of the stack
pub open spec fn stack_top(v: CpuView) -> u16 {
    word(v.mem[v.sp as int], v.mem[wrap16(v.sp + 1) as int])
}

/// The state after popping a value off the stack
pub open spec fn popped(v: CpuView) -> CpuView {
    CpuView { sp: wrap16(v.sp + 2), ..v }
}

/// The log after pushing `nn` in state `v`: the writes of its high byte
/// and then its low byte
pub open spec fn push_logged(o: Option<LogView>, v: CpuView, nn: u16) -> Option<LogView> {
    after_write(after_write(o, wrap16(v.sp - 1), hi_byte(nn)), wrap16(v.sp - 2), lo_byte(nn))
}

/// The log after popping in state `v`: the reads of the two bytes at SP
pub open spec fn pop_logged(o: Option<LogView>, v: CpuView) -> Option<LogView> {
    after_read(after_read(o, v.sp), wrap16(v.sp + 1))
}

/// The log after a return in state `v`: the pop, then the jump to the
/// address popped
pub open spec fn ret_logged(o: Option<LogView>, v: CpuView) -> Option<LogView> {
    after_jump(pop_logged(o, v), v.cycles, v.pc, stack_top(v))
}

/// JP nn: PC is set three short of the target, since the dispatcher then
/// advances past the three bytes of the instruction
pub open spec fn op_jpnn(v: CpuView, nn: u16) -> CpuView {
    CpuView { pc: wrap16(nn - 3), ..v }
}

/// JR n: PC moves by `n`
pub open spec fn op_jrn(v: CpuView, n: i8) -> CpuView {
    CpuView { pc: add_spec(v.pc, n), ..v }
}

pub open spec fn add_spec(w: u16, n: i8) -> u16 {
    wrap16(w + n)
}

/// CALL nn
pub open spec fn op_callnn(v: CpuView, nn: u16) -> CpuView {
    CpuView { pc: wrap16(nn - 3), ..pushed(v, (v.pc + 3) as u16) }
}

/// RST n
pub open spec fn op_rst(v: CpuView, n: u8) -> CpuView {
    CpuView { pc: wrap16(n - 1), ..pushed(v, wrap16(v.pc + 1)) }
}

/// RET
pub open spec fn op_ret(v: CpuView) -> CpuView {
    CpuView { pc: wrap16(stack_top(v) - 1), ..popped(v) }
}

/// Whether an interrupt is both enabled and requested
pub open spec fn interrupt_pending(v: CpuView, mask: u8) -> bool {
    &&& v.mem[0xFFFF] & mask == mask
    &&& v.mem[0xFF0F] & mask == mask
}

/// Servicing an interrupt: interrupts off, its request cleared, PC pushed
/// and PC set to the handler
pub open spec fn serviced(v: CpuView, mask: u8, handler: u16) -> CpuView {
    let v1 = CpuView { ime: false, ..v }.poke(0xFF0F, v.mem[0xFF0F] & !mask);
    CpuView { pc: handler, ..pushed(v1, v.pc) }
}

/// What handling interrupts does to the state: nothing with interrupts
/// off; otherwise a halted CPU resumes and the pending interrupt of the
/// highest priority is serviced
#[verifier::opaque]
pub open spec fn interrupts_handled(v: CpuView) -> CpuView {
    if !v.ime {
        v
    } else {
        let v1 = if v.state == CpuState::Halt {
            CpuView { state: CpuState::Normal, ..v }
        } else {
            v
        };
        if interrupt_pending(v1, 0x1) {
            serviced(v1, 0x1, 0x40)
        } else if interrupt_pending(v1, 0x2) {
            serviced(v1, 0x2, 0x48)
        } else if interrupt_pending(v1, 0x4) {
            serviced(v1, 0x4, 0x50)
        } else if interrupt_pending(v1, 0x8) {
            serviced(v1, 0x8, 0x58)
        } else if interrupt_pending(v1, 0x10) {
            serviced(v1, 0x10, 0x60)
        } else {
            v1
        }
    }
}

/// The log after handling interrupts: the push of PC when an interrupt is
/// serviced
#[verifier::opaque]
pub open spec fn interrupts_logged(v: CpuView, o: Option<LogView>) -> Option<LogView> {
    if v.ime && (interrupt_pending(v, 0x1) || interrupt_pending(v, 0x2) || interrupt_pending(v, 0x4)
        || interrupt_pending(v, 0x8) || interrupt_pending(v, 0x10)) {
        push_logged(o, v, v.pc)
    } else {
        o
    }
}

/// Handling interrupts never crashes a CPU, nor revives a crashed one
pub proof fn lemma_interrupts_keep_crash(v: CpuView)
    ensures
        (interrupts_handled(v).state == CpuState::Crashed) == (v.state == CpuState::Crashed),
{
    reveal(interrupts_handled);
}

impl Cpu {
    /// Whether a condition code holds for the current flags
    pub fn check_cc(&self, cc: Cc) -> (r: bool)
        ensures
            r == cc_holds(self.f, cc),
    {
        match cc {
            Cc::NZ => (self.f >> 7) & 1 == 0,
            Cc::Z => (self.f >> 7) & 1 == 1,
            Cc::NC => (self.f >> 4) & 1 == 0,
            Cc::C => (self.f >> 4) & 1 == 1,
        }
    }

    /// Logs a jump from `from` to `to` at the current cycle count
    fn log_jump(&mut self, from: u16, to: u16)
        requires
            old(self).wf(),
        ensures
            final(self).wf(),
            final(self)@ == old(self)@,
            final(self).event_logger is Some == old(self).event_logger is Some,
            log_view(final(self).event_logger) == after_jump(log_view(old(self).event_logger), old(self).cycles, from, to),
    {
        let cycles = self.cycles;
        match &mut self.event_logger {
            Some(logger) => logger.log_jump(cycles, from, to),
            None => {},
        }
    }

    pub fn jpnn(&mut self, nn: u16)
        requires
            old(self).wf(),
        ensures
            final(self).wf(),
            final(self)@ == op_jpnn(old(self)@, nn),
            final(self).event_logger is Some == old(self).event_logger is Some,
            log_view(final(self).event_logger) == after_jump(log_view(old(self).event_logger), old(self).cycles, old(self).pc, wrap16(nn - 3)),
    {
        let old_pc = self.pc;
        let new_pc = nn.wrapping_sub(3);
        self.log_jump(old_pc, new_pc);
        self.pc = new_pc;
    }

    /// JP cc, nn: jumps when the condition holds, and tells whether it did
    pub fn jpccnn(&mut self, cc: Cc, nn: u16) -> (r: bool)
        requires
            old(self).wf(),
        ensures
            final(self).wf(),
            r == cc_holds(old(self).f, cc),
            final(self)@ == (if r { op_jpnn(old(self)@, nn) } else { old(self)@ }),
            final(self).event_logger is Some == old(self).event_logger is Some,
            log_view(final(self).event_logger) == (if r { after_jump(log_view(old(self).event_logger), old(self).cycles, old(self).pc, wrap16(nn - 3)) } else { log_view(old(self).event_logger) }),
    {
        if self.check_cc(cc) {
            self.jpnn(nn);
            true
        } else {
            false
        }
    }

    /// JP (HL): PC is set one short of HL
    pub fn jphl(&mut self)
        requires
            old(self).wf(),
        ensures
            final(self).wf(),
            final(self)@ == (CpuView { pc: wrap16(old(self)@.hl() - 1), ..old(self)@ }),
            final(self).event_logger is Some == old(self).event_logger is Some,
            log_view(final(self).event_logger) == after_jump(log_view(old(self).event_logger), old(self).cycles, old(self).pc, wrap16(old(self)@.hl() - 1)),
    {
        let old_pc = self.pc;
        let new_pc = self.hl().wrapping_sub(1);
        self.log_jump(old_pc, new_pc);
        self.pc = new_pc;
    }

    pub fn jrn(&mut self, n: i8)
        requires
            old(self).wf(),
        ensures
            final(self).wf(),
            final(self)@ == op_jrn(old(self)@, n),
            final(self).event_logger is Some == old(self).event_logger is Some,
            log_view(final(self).event_logger) == after_jump(log_view(old(self).event_logger), old(self).cycles, old(self).pc, wrap16(old(self).pc + n)),
    {
        let old_pc = self.pc;
        let new_pc = add_u16_i8(old_pc, n);
        self.log_jump(old_pc, new_pc);
        self.pc = new_pc;
    }

    /// JR cc, n
    pub fn jrccn(&mut self, cc: Cc, n: i8) -> (r: bool)
        requires
            old(self).wf(),
        ensures
            final(self).wf(),
            r == cc_holds(old(self).f, cc),
            final(self)@ == (if r { op_jrn(old(self)@, n) } else { old(self)@ }),
            final(self).event_logger is Some == old(self).event_logger is Some,
            log_view(final(self).event_logger) == (if r { after_jump(log_view(old(self).event_logger), old(self).cycles, old(self).pc, wrap16(old(self).pc + n)) } else { log_view(old(self).event_logger) }),
    {
        if self.check_cc(cc) {
            self.jrn(n);
            true
        } else {
            false
        }
    }

    pub fn push_onto_stack(&mut self, nn: u16)
        requires
            old(self).wf(),
        ensures
            final(self).wf(),
            final(self)@ == pushed(old(self)@, nn),
            final(self).event_logger is Some == old(self).event_logger is Some,
            log_view(final(self).event_logger) == push_logged(log_view(old(self).event_logger), old(self)@, nn),
    {
        proof {
            assert((nn >> 8u16) & 0xFF == nn / 256) by {
                crate::bits::lemma_u16(nn);
            }
            assert(nn & 0xFF == nn % 256) by {
                crate::bits::lemma_u16(nn);
            }
        }
        let first_half = ((nn >> 8) & 0xFF) as u8;
        let second_half = (nn & 0xFF) as u8;
        let sp = self.sp;
        self.set_mem(sp.wrapping_sub(1), first_half);
        self.set_mem(sp.wrapping_sub(2), second_half);
        self.sp = sp.wrapping_sub(2);
    }

    /// CALL nn (the return address must fit in 16 bits)
    pub fn callnn(&mut self, nn: u16)
        requires
            old(self).wf(),
            old(self).pc + 3 <= 0xFFFF,
        ensures
            final(self).wf(),
            final(self)@ == op_callnn(old(self)@, nn),
            final(self).event_logger is Some == old(self).event_logger is Some,
            log_view(final(self).event_logger) == after_jump(push_logged(log_view(old(self).event_logger), old(self)@, (old(self).pc + 3) as u16), old(self).cycles, old(self).pc, nn),
    {
        let old_pc = self.pc;
        self.push_onto_stack(old_pc + 3);
        self.log_jump(old_pc, nn);
        self.pc = nn.wrapping_sub(3);
    }

    /// CALL cc, nn (when taken, the return address must fit in 16 bits)
    pub fn callccnn(&mut self, cc: Cc, nn: u16) -> (r: bool)
        requires
            old(self).wf(),
            cc_holds(old(self).f, cc) ==> old(self).pc + 3 <= 0xFFFF,
        ensures
            final(self).wf(),
            r == cc_holds(old(self).f, cc),
            final(self)@ == (if r { op_callnn(old(self)@, nn) } else { old(self)@ }),
            final(self).event_logger is Some == old(self).event_logger is Some,
            log_view(final(self).event_logger) == (if r { after_jump(push_logged(log_view(old(self).event_logger), old(self)@, (old(self).pc + 3) as u16), old(self).cycles, old(self).pc, nn) } else { log_view(old(self).event_logger) }),
    {
        if self.check_cc(cc) {
            self.callnn(nn);
            true
        } else {
            false
        }
    }

    /// RST n: pushes the address after this instruction and jumps to `n`
    pub fn rst(&mut self, n: u8)
        requires
            old(self).wf(),
        ensures
            final(self).wf(),
            final(self)@ == op_rst(old(self)@, n),
            final(self).event_logger is Some == old(self).event_logger is Some,
            log_view(final(self).event_logger) == push_logged(log_view(old(self).event_logger), old(self)@, wrap16(old(self).pc + 1)),
    {
        let old_pc = self.pc;
        self.push_onto_stack(old_pc.wrapping_add(1));
        self.pc = (n as u16).wrapping_sub(1);
    }

    pub fn pop_from_stack(&mut self) -> (r: u16)
        requires
            old(self).wf(),
        ensures
            final(self).wf(),
            r == stack_top(old(self)@),
            final(self)@ == popped(old(self)@),
            final(self).event_logger is Some == old(self).event_logger is Some,
            log_view(final(self).event_logger) == pop_logged(log_view(old(self).event_logger), old(self)@),
    {
        let sp = self.sp;
        let second_half = self.get_mem(sp);
        let first_half = self.get_mem(sp.wrapping_add(1));
        self.sp = sp.wrapping_add(2);
        byte_to_u16(second_half, first_half)
    }

    pub fn ret(&mut self)
        requires
            old(self).wf(),
        ensures
            final(self).wf(),
            final(self)@ == op_ret(old(self)@),
            final(self).event_logger is Some == old(self).event_logger is Some,
            log_view(final(self).event_logger) == ret_logged(log_view(old(self).event_logger), old(self)@),
    {
        let old_pc = self.pc;
        let new_pc = self.pop_from_stack();
        self.log_jump(old_pc, new_pc);
        self.pc = new_pc.wrapping_sub(1);
    }

    /// RET cc
    pub fn retcc(&mut self, cc: Cc) -> (r: bool)
        requires
            old(self).wf(),
        ensures
            final(self).wf(),
            r == cc_holds(old(self).f, cc),
            final(self)@ == (if r { op_ret(old(self)@) } else { old(self)@ }),
            final(self).event_logger is Some == old(self).event_logger is Some,
            log_view(final(self).event_logger) == (if r { ret_logged(log_view(old(self).event_logger), old(self)@) } else { log_view(old(self).event_logger) }),
    {
        if self.check_cc(cc) {
            self.ret();
            true
        } else {
            false
        }
    }

    /// RETI: returns and enables interrupts
    pub fn reti(&mut self)
        requires
            old(self).wf(),
        ensures
            final(self).wf(),
            final(self)@ == (CpuView { ime: true, ..op_ret(old(self)@) }),
            final(self).event_logger is Some == old(self).event_logger is Some,
            log_view(final(self).event_logger) == ret_logged(log_view(old(self).event_logger), old(self)@),
    {
        self.ret();
        self.ei();
    }

    /// The four bytes at PC
    pub fn read_instruction(&self) -> (r: (u8, u8, u8, u8))
        requires
            self.wf(),
        ensures
            r == (
                self@.mem[self.pc as int],
                self@.mem[self.pc + 1],
                self@.mem[self.pc + 2],
                self@.mem[self.pc + 3],
            ),
    {
        let pc = self.pc as usize;
        (self.mem[pc], self.mem[pc + 1], self.mem[pc + 2], self.mem[pc + 3])
    }

    pub fn inc_pc(&mut self)
        ensures
            final(self)@ == (CpuView { pc: wrap16(old(self).pc + 1), ..old(self)@ }),
            final(self).mem == old(self).mem,
            final(self).event_logger == old(self).event_logger,
    {
        self.pc = self.pc.wrapping_add(1);
    }

    pub fn nop(&self) {
    }

    pub fn halt(&mut self)
        ensures
            final(self)@ == (CpuView { state: CpuState::Halt, ..old(self)@ }),
            final(self).mem == old(self).mem,
            final(self).event_logger == old(self).event_logger,
    {
        self.state = CpuState::Halt;
    }

    pub fn stop(&mut self)
        ensures
            final(self)@ == (CpuView { state: CpuState::Stop, ..old(self)@ }),
            final(self).mem == old(self).mem,
            final(self).event_logger == old(self).event_logger,
    {
        self.state = CpuState::Stop;
    }

    /// DI: interrupts go off after the next instruction
    pub fn di(&mut self)
        ensures
            final(self)@ == (CpuView { interrupt_next_inst: true, ..old(self)@ }),
            final(self).mem == old(self).mem,
            final(self).event_logger == old(self).event_logger,
    {
        self.interrupt_next_inst = true;
    }

    pub fn ei(&mut self)
        ensures
            final(self)@ == (CpuView { ime: true, ..old(self)@ }),
            final(self).mem == old(self).mem,
            final(self).event_logger == old(self).event_logger,
    {
        self.enable_interrupts();
    }

    fn service_interrupt(&mut self, mask: u8, handler: u16)
        requires
            old(self).wf(),
        ensures
            final(self).wf(),
            final(self)@ == serviced(old(self)@, mask, handler),
            final(self).event_logger is Some == old(self).event_logger is Some,
            log_view(final(self).event_logger) == push_logged(log_view(old(self).event_logger), old(self)@, old(self).pc),
    {
        let old_pc = self.pc;
        self.disable_interrupts();
        let v = self.mem[0xFF0F];
        self.mem.set(0xFF0F, v & !mask);
        self.push_onto_stack(old_pc);
        self.pc = handler;
    }

    /// Services the pending interrupt of the highest priority, if
    /// interrupts are enabled
    pub fn handle_interrupts(&mut self)
        requires
            old(self).wf(),
        ensures
            final(self).wf(),
            final(self)@ == interrupts_handled(old(self)@),
            final(self).event_logger is Some == old(self).event_logger is Some,
            log_view(final(self).event_logger) == interrupts_logged(old(self)@, log_view(old(self).event_logger)),
    {
        reveal(interrupts_handled);
        reveal(interrupts_logged);
        if !self.get_interrupts_enabled() {
            return ;
        }
        if self.state == CpuState::Halt {
            self.state = CpuState::Normal;
        }
        if self.get_vblank_interrupt_enabled() && self.get_vblank_interrupt_bit() {
            self.service_interrupt(0x1, VBLANK_INTERRUPT_ADDRESS);
        } else if self.get_lcdc_interrupt_enabled() && self.get_lcdc_interrupt_bit() {
            self.service_interrupt(0x2, LCDC_INTERRUPT_ADDRESS);
        } else if self.get_timer_interrupt_enabled() && self.get_timer_interrupt_bit() {
            self.service_interrupt(0x4, TIMER_OVERFLOW_INTERRUPT_ADDRESS);
        } else if self.get_serial_io_interrupt_enabled() && self.get_serial_io_interrupt_bit() {
            self.service_interrupt(0x8, SERIAL_TRANSFER_INTERRUPT_ADDRESS);
        } else if self.get_input_interrupt_enabled() && self.get_input_interrupt_bit() {
            self.service_interrupt(0x10, P1013_INTERRUPT_ADDRESS);
        }
    }
}

} // verus!
