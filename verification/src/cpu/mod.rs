//! The hardware emulation logic of the Game Boy CPU
use vstd::prelude::*;


pub mod alu;
pub mod apu;
pub mod cartridge;
pub mod constants;
pub mod control;
pub mod dispatch;
pub mod fifo;
pub mod io;
pub mod laws;
pub mod loads;
pub mod memory;
pub mod memvis;

use self::constants::{
    CpuRegister, CpuRegister16, CpuState, CL, DISPLAY_RAM_END, DISPLAY_RAM_START, HL, MEM_ARRAY_SIZE,
    NLV, OAM_END, OAM_START, STAT_ADDR, ZL,
};
use self::memvis::cpumemvis::{
    after_read, after_write, log_view, CpuEventLogger, CycleCount, DeqCpuEventLogger, LogView,
    MemAddr,
};

verus! {

/// The mathematical state of a `Cpu`: its registers, its memory and its
/// run state (the event logger is left out).
pub ghost struct CpuView {
    pub a: u8,
    pub b: u8,
    pub c: u8,
    pub d: u8,
    pub e: u8,
    pub f: u8,
    pub h: u8,
    pub l: u8,
    pub sp: u16,
    pub ime: bool,
    pub pc: u16,
    pub mem: Seq<u8>,
    pub state: CpuState,
    pub input_state: u8,
    pub cycles: u64,
    pub interrupt_next_inst: bool,
}

/// The 16-bit value made of a low and a high byte
pub open spec fn word(low: u8, high: u8) -> u16 {
    (high as int * 256 + low as int) as u16
}

/// The low byte of a 16-bit value
pub open spec fn lo_byte(v: u16) -> u8 {
    (v % 256) as u8
}

/// The high byte of a 16-bit value
pub open spec fn hi_byte(v: u16) -> u8 {
    (v / 256) as u8
}

/// `a + b`, wrapped to 16 bits
pub open spec fn wrap16(x: int) -> u16 {
    (x % 65536) as u16
}

/// `a + b`, wrapped to 8 bits
pub open spec fn wrap8(x: int) -> u8 {
    (x % 256) as u8
}

/// The F register with the given flags set and the low four bits clear
pub open spec fn flag_byte(z: bool, n: bool, h: bool, c: bool) -> u8 {
    ((if z { 0x80int } else { 0 }) + (if n { 0x40int } else { 0 }) + (if h { 0x20int } else { 0 })
        + (if c { 0x10int } else { 0 })) as u8
}

pub open spec fn zero_flag(f: u8) -> bool {
    f & ZL == ZL
}

pub open spec fn sub_flag(f: u8) -> bool {
    f & NLV == NLV
}

pub open spec fn half_flag(f: u8) -> bool {
    f & HL == HL
}

pub open spec fn carry_flag(f: u8) -> bool {
    f & CL == CL
}

/// The flags of a flag byte read back are the flags it was made of.
pub proof fn lemma_flag_byte(z: bool, n: bool, h: bool, c: bool)
    ensures
        zero_flag(flag_byte(z, n, h, c)) == z,
        sub_flag(flag_byte(z, n, h, c)) == n,
        half_flag(flag_byte(z, n, h, c)) == h,
        carry_flag(flag_byte(z, n, h, c)) == c,
        flag_byte(z, n, h, c) & 0x0F == 0,
{
    let zb: u8 = if z { 0x80 } else { 0 };
    let nb: u8 = if n { 0x40 } else { 0 };
    let hb: u8 = if h { 0x20 } else { 0 };
    let cb: u8 = if c { 0x10 } else { 0 };
    let f: u8 = (zb + nb + hb + cb) as u8;
    assert(flag_byte(z, n, h, c) == f);
    assert((f & 0x80 == 0x80) == z && (f & 0x40 == 0x40) == n && (f & 0x20 == 0x20) == h && (f & 0x10
        == 0x10) == c && f & 0x0F == 0) by (bit_vector)
        requires
            zb == (if z { 0x80u8 } else { 0u8 }),
            nb == (if n { 0x40u8 } else { 0u8 }),
            hb == (if h { 0x20u8 } else { 0u8 }),
            cb == (if c { 0x10u8 } else { 0u8 }),
            f == (zb + nb + hb + cb) as u8,
    ;
}

/// The log after an instruction in state `v` writes `val` to operand `r`:
/// only a write of `(HL)` is a memory access, and logged
pub open spec fn operand_written(o: Option<LogView>, v: CpuView, r: CpuRegister, val: u8) -> Option<
    LogView,
> {
    if r is HL {
        after_write(o, v.hl(), val)
    } else {
        o
    }
}

impl CpuView {
    pub open spec fn af(self) -> u16 {
        word(self.f, self.a)
    }

    pub open spec fn bc(self) -> u16 {
        word(self.c, self.b)
    }

    pub open spec fn de(self) -> u16 {
        word(self.e, self.d)
    }

    pub open spec fn hl(self) -> u16 {
        word(self.l, self.h)
    }

    /// The byte at an address
    pub open spec fn byte_at(self, addr: int) -> u8 {
        self.mem[addr]
    }

    /// The view with one byte of memory replaced, no side effects
    pub open spec fn poke(self, addr: int, value: u8) -> CpuView {
        CpuView { mem: self.mem.update(addr, value), ..self }
    }

    /// The LY to LYC comparison that sets or clears the coincidence flag
    pub open spec fn lyc_compared(self) -> CpuView {
        let stat = self.mem[STAT_ADDR as int];
        if self.mem[0xFF44] == self.mem[0xFF45] {
            self.poke(STAT_ADDR as int, stat | 0x04)
        } else {
            self.poke(STAT_ADDR as int, stat & !0x04u8)
        }
    }

    /// DMA: copies 0xA0 bytes from `FF46 * 0x100` to OAM
    pub open spec fn dma_done(self) -> CpuView {
        let src = self.mem[0xFF46] as int * 256;
        let m = self.mem;
        CpuView {
            mem: Seq::new(
                m.len(),
                |j: int|
                    if 0xFE00 <= j < 0xFEA0 {
                        m[src + (j - 0xFE00)]
                    } else {
                        m[j]
                    },
            ),
            ..self
        }
    }

    /// What a CPU write of `value` to `addr` does (memory mapped I/O included)
    pub open spec fn mem_write(self, addr: u16, value: u8) -> CpuView {
        let a = addr as int;
        let stat = self.mem[STAT_ADDR as int];
        if 0x8000 <= a <= 0x9FFF {
            if stat & 3 == 3 {
                self
            } else {
                self.poke(a, value)
            }
        } else if 0xFE00 <= a <= 0xFE9F {
            if stat & 3 == 2 || stat & 3 == 3 {
                self
            } else {
                self.poke(a, value)
            }
        } else if 0xE000 <= a <= 0xFDFF {
            self.poke(a, value).poke(a - 0x2000, value)
        } else if 0xC000 <= a <= 0xDE00 {
            self.poke(a, value).poke(a + 0x2000, value)
        } else if a == 0xFF00 {
            if value & 0x10 == 0x10 {
                self.poke(a, value | (self.input_state >> 4u8))
            } else if value & 0x20 == 0x20 {
                self.poke(a, value | (self.input_state & 0x0F))
            } else {
                self
            }
        } else if a == 0xFF04 || a == 0xFF44 {
            self.poke(a, 0)
        } else if a == 0xFF26 {
            if (value >> 7u8) & 1 == 0 {
                self.poke(0xFF26, self.mem[0xFF26] & 0x70).poke(0xFF13, 0)
            } else {
                self.poke(0xFF26, self.mem[0xFF26] | 0x80)
            }
        } else if a == 0xFF45 {
            self.poke(a, value).lyc_compared()
        } else if a == 0xFF46 {
            self.poke(a, value).dma_done()
        } else {
            self.poke(a, value)
        }
    }

    /// The value of an 8-bit register operand (`(HL)` reads memory)
    pub open spec fn reg8(self, r: CpuRegister) -> u8 {
        match r {
            CpuRegister::A => self.a,
            CpuRegister::B => self.b,
            CpuRegister::C => self.c,
            CpuRegister::D => self.d,
            CpuRegister::E => self.e,
            CpuRegister::H => self.h,
            CpuRegister::L => self.l,
            CpuRegister::HL => self.mem[self.hl() as int],
            CpuRegister::Num(n) => n,
        }
    }

    /// The state after writing an 8-bit register operand (`(HL)` writes memory)
    pub open spec fn set_reg8(self, r: CpuRegister, v: u8) -> CpuView {
        match r {
            CpuRegister::A => CpuView { a: v, ..self },
            CpuRegister::B => CpuView { b: v, ..self },
            CpuRegister::C => CpuView { c: v, ..self },
            CpuRegister::D => CpuView { d: v, ..self },
            CpuRegister::E => CpuView { e: v, ..self },
            CpuRegister::H => CpuView { h: v, ..self },
            CpuRegister::L => CpuView { l: v, ..self },
            CpuRegister::HL => self.mem_write(self.hl(), v),
            CpuRegister::Num(_) => self,
        }
    }

    /// The value of a 16-bit register operand
    pub open spec fn reg16(self, r: CpuRegister16) -> u16 {
        match r {
            CpuRegister16::BC => self.bc(),
            CpuRegister16::DE => self.de(),
            CpuRegister16::HL => self.hl(),
            CpuRegister16::SP => self.sp,
            CpuRegister16::AF => self.af(),
            CpuRegister16::Num(i) => wrap16(i as int),
        }
    }

    /// The state after writing a 16-bit register (the low four bits of F
    /// always read as zero)
    pub open spec fn set_reg16(self, r: CpuRegister16, v: u16) -> CpuView {
        match r {
            CpuRegister16::BC => CpuView { b: hi_byte(v), c: lo_byte(v), ..self },
            CpuRegister16::DE => CpuView { d: hi_byte(v), e: lo_byte(v), ..self },
            CpuRegister16::HL => CpuView { h: hi_byte(v), l: lo_byte(v), ..self },
            CpuRegister16::SP => CpuView { sp: v, ..self },
            CpuRegister16::AF => CpuView { a: hi_byte(v), f: (lo_byte(v) / 16 * 16) as u8, ..self },
            CpuRegister16::Num(_) => self,
        }
    }

    pub open spec fn with_flags(self, z: bool, n: bool, h: bool, c: bool) -> CpuView {
        CpuView { f: flag_byte(z, n, h, c), ..self }
    }
}

/// The memory values that the boot ROM leaves behind
pub open spec fn boot_mem(m: Seq<u8>) -> Seq<u8> {
    m.update(0xFF05, 0x00).update(0xFF06, 0x00).update(0xFF07, 0x00).update(0xFF10, 0x80).update(
        0xFF11,
        0xBF,
    ).update(0xFF12, 0xF3).update(0xFF14, 0xBF).update(0xFF16, 0x3F).update(0xFF17, 0x00).update(
        0xFF19,
        0xBF,
    ).update(0xFF1A, 0x7F).update(0xFF1B, 0xFF).update(0xFF1C, 0x9F).update(0xFF1E, 0xBF).update(
        0xFF20,
        0xFF,
    ).update(0xFF21, 0x00).update(0xFF22, 0x00).update(0xFF23, 0xBF).update(0xFF24, 0x77).update(
        0xFF25,
        0xF3,
    ).update(0xFF26, 0xF1).update(0xFF40, 0x91).update(0xFF42, 0x00).update(0xFF43, 0x00).update(
        0xFF45,
        0x00,
    ).update(0xFF47, 0xFC).update(0xFF48, 0xFF).update(0xFF49, 0xFF).update(0xFF4A, 0x00).update(
        0xFF4B,
        0x00,
    ).update(0xFFFF, 0x00)
}

/// The 16-bit value made of two bytes
pub fn byte_to_u16(low_byte: u8, high_byte: u8) -> (r: u16)
    ensures
        r == word(low_byte, high_byte),
{
    proof {
        crate::bits::lemma_word(low_byte, high_byte);
    }
    ((high_byte as u16) << 8) | (low_byte as u16)
}

/// `word + sbyte`, wrapped to 16 bits
pub fn add_u16_i8(word: u16, sbyte: i8) -> (r: u16)
    ensures
        r == wrap16(word as int + sbyte as int),
{
    let s: i32 = word as i32 + sbyte as i32;
    if s < 0 {
        (s + 65536) as u16
    } else if s >= 65536 {
        (s - 65536) as u16
    } else {
        s as u16
    }
}

/// The CPU itself, with the whole address space of the Game Boy.
pub struct Cpu {
    pub a: u8,
    pub b: u8,
    pub c: u8,
    pub d: u8,
    pub e: u8,
    /// bit 7: zero flag; bit 6: subtract flag; bit 5: half carry; bit 4: carry flag
    pub f: u8,
    pub h: u8,
    pub l: u8,
    pub sp: u16,
    /// Interrupt Master Enable flag
    pub ime: bool,
    pub pc: u16,
    pub mem: Vec<u8>,
    /// Whether the CPU is running, waiting for an interrupt, or stopped
    pub state: CpuState,
    /// State of all buttons (low is pressed)
    pub input_state: u8,
    /// Log of events, used in the memory visualisation
    pub event_logger: Option<DeqCpuEventLogger>,
    pub cycles: CycleCount,
    pub interrupt_next_inst: bool,
}

impl View for Cpu {
    type V = CpuView;

    open spec fn view(&self) -> CpuView {
        CpuView {
            a: self.a,
            b: self.b,
            c: self.c,
            d: self.d,
            e: self.e,
            f: self.f,
            h: self.h,
            l: self.l,
            sp: self.sp,
            ime: self.ime,
            pc: self.pc,
            mem: self.mem@,
            state: self.state,
            input_state: self.input_state,
            cycles: self.cycles,
            interrupt_next_inst: self.interrupt_next_inst,
        }
    }
}

impl Cpu {
    /// The memory has its fixed size, and a logger, if any, its textures.
    pub open spec fn wf(&self) -> bool {
        &&& self.mem@.len() == MEM_ARRAY_SIZE
        &&& self.event_logger matches Some(l) ==> l.wf()
    }

    /// A CPU in the state that the boot ROM leaves, with zeroed memory
    /// besides the boot values
    pub fn new() -> (cpu: Cpu)
        ensures
            cpu.wf(),
            cpu.event_logger is Some,
            cpu@ == (CpuView {
                a: 0x01,
                b: 0,
                c: 0x13,
                d: 0,
                e: 0xD8,
                f: 0xB0,
                h: 0x01,
                l: 0x4D,
                sp: 0xFFFE,
                ime: true,
                pc: 0x100,
                mem: boot_mem(Seq::new(MEM_ARRAY_SIZE as nat, |i: int| 0u8)),
                state: CpuState::Normal,
                input_state: 0xFF,
                cycles: 0,
                interrupt_next_inst: false,
            }),
    {
        let mut new_cpu = Cpu {
            a: 0x01,
            b: 0,
            c: 0,
            d: 0,
            e: 0,
            f: 0xB0,
            h: 0,
            l: 0,
            sp: 0xFFFE,
            ime: true,
            pc: 0,
            mem: vec![0u8; MEM_ARRAY_SIZE],
            state: CpuState::Normal,
            input_state: 0xFF,
            event_logger: Some(DeqCpuEventLogger::new(None)),
            cycles: 0,
            interrupt_next_inst: false,
        };
        proof {
            assert(new_cpu.mem@ =~= Seq::new(MEM_ARRAY_SIZE as nat, |i: int| 0u8));
        }
        new_cpu.reset();
        new_cpu
    }

    /// Sets the CPU to the state the boot ROM leaves it in
    pub fn reset(&mut self)
        requires
            old(self).wf(),
        ensures
            final(self).wf(),
            final(self).event_logger is Some,
            final(self)@ == (CpuView {
                state: CpuState::Normal,
                a: 0x01,
                b: 0,
                c: 0x13,
                d: 0,
                e: 0xD8,
                f: 0xB0,
                h: 0x01,
                l: 0x4D,
                sp: 0xFFFE,
                pc: 0x100,
                cycles: 0,
                mem: boot_mem(old(self)@.mem),
                ..old(self)@
            }),
    {
        self.state = CpuState::Normal;
        self.a = 0x01;
        self.b = 0;
        self.c = 0;
        self.d = 0;
        self.e = 0;
        self.f = 0xB0;
        self.h = 0;
        self.l = 0;
        self.sp = 0xFFFE;
        self.pc = 0x100;
        self.cycles = 0;
        self.event_logger = Some(DeqCpuEventLogger::new(Some(self.mem.as_slice())));
        self.set_bc(0x0013);
        self.set_de(0x00D8);
        self.set_hl(0x014D);
        self.mem.set(0xFF05, 0x00);
        self.mem.set(0xFF06, 0x00);
        self.mem.set(0xFF07, 0x00);
        self.mem.set(0xFF10, 0x80);
        self.mem.set(0xFF11, 0xBF);
        self.mem.set(0xFF12, 0xF3);
        self.mem.set(0xFF14, 0xBF);
        self.mem.set(0xFF16, 0x3F);
        self.mem.set(0xFF17, 0x00);
        self.mem.set(0xFF19, 0xBF);
        self.mem.set(0xFF1A, 0x7F);
        self.mem.set(0xFF1B, 0xFF);
        self.mem.set(0xFF1C, 0x9F);
        self.mem.set(0xFF1E, 0xBF);
        self.mem.set(0xFF20, 0xFF);
        self.mem.set(0xFF21, 0x00);
        self.mem.set(0xFF22, 0x00);
        self.mem.set(0xFF23, 0xBF);
        self.mem.set(0xFF24, 0x77);
        self.mem.set(0xFF25, 0xF3);
        self.mem.set(0xFF26, 0xF1);
        self.mem.set(0xFF40, 0x91);
        self.mem.set(0xFF42, 0x00);
        self.mem.set(0xFF43, 0x00);
        self.mem.set(0xFF45, 0x00);
        self.mem.set(0xFF47, 0xFC);
        self.mem.set(0xFF48, 0xFF);
        self.mem.set(0xFF49, 0xFF);
        self.mem.set(0xFF4A, 0x00);
        self.mem.set(0xFF4B, 0x00);
        self.mem.set(0xFFFF, 0x00);
    }

    /// Replaces the logger with one that mirrors the current memory
    pub fn reinit_logger(&mut self)
        requires
            old(self).wf(),
        ensures
            final(self).wf(),
            final(self)@ == old(self)@,
            final(self).event_logger is Some,
    {
        self.event_logger = Some(DeqCpuEventLogger::new(Some(self.mem.as_slice())));
    }

    /// Turns the logger off if it is on, and on (mirroring memory) if off
    pub fn toggle_logger(&mut self)
        requires
            old(self).wf(),
        ensures
            final(self).wf(),
            final(self)@ == old(self)@,
            final(self).event_logger is Some <==> old(self).event_logger is None,
    {
        match self.event_logger {
            Some(_) => self.event_logger = None,
            None => self.reinit_logger(),
        }
    }

    pub fn af(&self) -> (r: u16)
        ensures
            r == self@.af(),
    {
        byte_to_u16(self.f, self.a)
    }

    pub fn bc(&self) -> (r: u16)
        ensures
            r == self@.bc(),
    {
        byte_to_u16(self.c, self.b)
    }

    pub fn de(&self) -> (r: u16)
        ensures
            r == self@.de(),
    {
        byte_to_u16(self.e, self.d)
    }

    pub fn hl(&self) -> (r: u16)
        ensures
            r == self@.hl(),
    {
        byte_to_u16(self.l, self.h)
    }

    /// Sets A and F; the low four bits of F are always zero
    pub fn set_af(&mut self, v: u16)
        ensures
            final(self)@ == old(self)@.set_reg16(CpuRegister16::AF, v),
            final(self).mem == old(self).mem,
            final(self).event_logger == old(self).event_logger,
    {
        assert((v >> 8u16) & 0xFF == v / 256) by {
            crate::bits::lemma_u16(v);
        }
        assert(v & 0xF0 == (v % 256) / 16 * 16) by {
            crate::bits::lemma_u16(v);
        }
        self.a = ((v >> 8) & 0xFF) as u8;
        self.f = (v & 0xF0) as u8;
    }

    pub fn set_hl(&mut self, v: u16)
        ensures
            final(self)@ == old(self)@.set_reg16(CpuRegister16::HL, v),
            final(self).mem == old(self).mem,
            final(self).event_logger == old(self).event_logger,
    {
        assert((v >> 8u16) & 0xFF == v / 256) by {
            crate::bits::lemma_u16(v);
        }
        assert(v & 0xFF == v % 256) by {
            crate::bits::lemma_u16(v);
        }
        self.h = ((v >> 8) & 0xFF) as u8;
        self.l = (v & 0xFF) as u8;
    }

    pub fn set_bc(&mut self, v: u16)
        ensures
            final(self)@ == old(self)@.set_reg16(CpuRegister16::BC, v),
            final(self).mem == old(self).mem,
            final(self).event_logger == old(self).event_logger,
    {
        assert((v >> 8u16) & 0xFF == v / 256) by {
            crate::bits::lemma_u16(v);
        }
        assert(v & 0xFF == v % 256) by {
            crate::bits::lemma_u16(v);
        }
        self.b = ((v >> 8) & 0xFF) as u8;
        self.c = (v & 0xFF) as u8;
    }

    pub fn set_de(&mut self, v: u16)
        ensures
            final(self)@ == old(self)@.set_reg16(CpuRegister16::DE, v),
            final(self).mem == old(self).mem,
            final(self).event_logger == old(self).event_logger,
    {
        assert((v >> 8u16) & 0xFF == v / 256) by {
            crate::bits::lemma_u16(v);
        }
        assert(v & 0xFF == v % 256) by {
            crate::bits::lemma_u16(v);
        }
        self.d = ((v >> 8) & 0xFF) as u8;
        self.e = (v & 0xFF) as u8;
    }

    /// Writes a 16-bit register; a numeric literal cannot be written
    pub fn set_register16(&mut self, reg: CpuRegister16, val: u16)
        requires
            !(reg is Num),
        ensures
            final(self)@ == old(self)@.set_reg16(reg, val),
            final(self).mem == old(self).mem,
            final(self).event_logger == old(self).event_logger,
    {
        match reg {
            CpuRegister16::BC => self.set_bc(val),
            CpuRegister16::DE => self.set_de(val),
            CpuRegister16::HL => self.set_hl(val),
            CpuRegister16::AF => self.set_af(val),
            CpuRegister16::SP => self.sp = val,
            CpuRegister16::Num(_) => {},
        }
    }

    /// Reads a 16-bit register, or the literal itself
    pub fn access_register16(&self, reg: CpuRegister16) -> (r: u16)
        ensures
            r == self@.reg16(reg),
    {
        match reg {
            CpuRegister16::BC => self.bc(),
            CpuRegister16::DE => self.de(),
            CpuRegister16::HL => self.hl(),
            CpuRegister16::SP => self.sp,
            CpuRegister16::AF => self.af(),
            CpuRegister16::Num(i) => {
                if i < 0 {
                    (i as i32 + 65536) as u16
                } else {
                    i as u16
                }
            },
        }
    }

    /// Sets the flags, clearing the low four bits of F
    pub fn set_flags(&mut self, z: bool, n: bool, h: bool, c: bool)
        ensures
            final(self)@ == old(self)@.with_flags(z, n, h, c),
            final(self).mem == old(self).mem,
            final(self).event_logger == old(self).event_logger,
    {
        let zn: u8 = if z { 0x80 } else { 0 };
        let nn: u8 = if n { 0x40 } else { 0 };
        let hn: u8 = if h { 0x20 } else { 0 };
        let cn: u8 = if c { 0x10 } else { 0 };
        self.f = zn + nn + hn + cn;
    }

    /// 1 when a flag in `mask` is set, else 0
    pub fn is_flag_set(&self, mask: u8) -> (r: u8)
        ensures
            r == (if self.f & mask != 0 { 1u8 } else { 0u8 }),
    {
        if (self.f & mask) != 0 {
            1
        } else {
            0
        }
    }

    /// Reads memory, logging the read
    pub fn get_mem(&mut self, address: MemAddr) -> (r: u8)
        requires
            old(self).wf(),
        ensures
            final(self).wf(),
            final(self)@ == old(self)@,
            r == old(self)@.mem[address as int],
            final(self).event_logger is Some == old(self).event_logger is Some,
            log_view(final(self).event_logger) == after_read(log_view(old(self).event_logger), address),
    {
        let cycles = self.cycles;
        match &mut self.event_logger {
            Some(logger) => logger.log_read(cycles, address),
            None => {},
        }
        self.mem[address as usize]
    }

    /// Writes memory as the CPU does, with its memory mapped effects
    pub fn set_mem(&mut self, address: MemAddr, value: u8)
        requires
            old(self).wf(),
        ensures
            final(self).wf(),
            final(self)@ == old(self)@.mem_write(address, value),
            final(self).event_logger is Some == old(self).event_logger is Some,
            log_view(final(self).event_logger) == after_write(log_view(old(self).event_logger), address, value),
    {
        let cycles = self.cycles;
        match &mut self.event_logger {
            Some(logger) => logger.log_write(cycles, address, value),
            None => {},
        }
        let address = address as usize;
        if DISPLAY_RAM_START <= address && address <= DISPLAY_RAM_END {
            if self.mem[STAT_ADDR] & 3 != 3 {
                self.mem.set(address, value);
            }
        } else if OAM_START <= address && address <= OAM_END {
            let lock = self.mem[STAT_ADDR] & 3;
            if lock != 2 && lock != 3 {
                self.mem.set(address, value);
            }
        } else if 0xE000 <= address && address <= 0xFDFF {
            self.mem.set(address, value);
            self.mem.set(address - 0x2000, value);
        } else if 0xC000 <= address && address <= 0xDE00 {
            self.mem.set(address, value);
            self.mem.set(address + 0x2000, value);
        } else if address == 0xFF00 {
            if value & 0x10 == 0x10 {
                self.mem.set(0xFF00, value | (self.input_state >> 4));
            } else if value & 0x20 == 0x20 {
                self.mem.set(0xFF00, value | (self.input_state & 0x0F));
            }
        } else if address == 0xFF04 || address == 0xFF44 {
            self.mem.set(address, 0);
        } else if address == 0xFF26 {
            if (value >> 7) & 1 == 0 {
                self.unset_sound_all();
            } else {
                self.set_sound_all();
            }
        } else if address == 0xFF45 {
            self.mem.set(0xFF45, value);
            self.lyc_compare();
        } else if address == 0xFF46 {
            self.mem.set(0xFF46, value);
            self.dma();
        } else {
            self.mem.set(address, value);
        }
    }

    /// Reads an 8-bit register (`(HL)` reads memory); `None` for a literal
    pub fn access_register(&self, reg: CpuRegister) -> (r: Option<u8>)
        requires
            self.wf(),
        ensures
            reg is Num ==> r is None,
            !(reg is Num) ==> r == Some(self@.reg8(reg)),
    {
        match reg {
            CpuRegister::A => Some(self.a),
            CpuRegister::B => Some(self.b),
            CpuRegister::C => Some(self.c),
            CpuRegister::D => Some(self.d),
            CpuRegister::E => Some(self.e),
            CpuRegister::H => Some(self.h),
            CpuRegister::L => Some(self.l),
            CpuRegister::HL => Some(self.mem[self.hl() as usize]),
            CpuRegister::Num(_) => None,
        }
    }

    /// Writes an 8-bit register (`(HL)` writes memory); a literal cannot be
    /// written
    pub fn set_register(&mut self, reg: CpuRegister, val: u8)
        requires
            old(self).wf(),
            !(reg is Num),
        ensures
            final(self).wf(),
            final(self)@ == old(self)@.set_reg8(reg, val),
            final(self).event_logger is Some == old(self).event_logger is Some,
            log_view(final(self).event_logger) == operand_written(log_view(old(self).event_logger), old(self)@, reg, val),
    {
        match reg {
            CpuRegister::A => self.a = val,
            CpuRegister::B => self.b = val,
            CpuRegister::C => self.c = val,
            CpuRegister::D => self.d = val,
            CpuRegister::E => self.e = val,
            CpuRegister::H => self.h = val,
            CpuRegister::L => self.l = val,
            CpuRegister::HL => {
                let hlv = self.hl();
                self.set_mem(hlv, val);
            },
            CpuRegister::Num(_) => {},
        }
    }
}

} // verus!
