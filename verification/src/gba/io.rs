//! The GBA's memory mapped I/O registers at 0x04000000..0x040003FF: the
//! raw register file, the DMA and timer state cached from it, and the APU
//! behind the sound registers
use vstd::prelude::*;

use super::control::{
    spec_dma_control, BitMapBgRotationScale, DmaControl, DmaStartTiming,
};
use crate::cpu::apu::{Apu, ApuView};

verus! {

/// Where the Game Boy sound registers start in the CGB address space
pub const CGB_APU_BASE: u16 = 0xFF10;

/// The size of the I/O register file
pub const IO_SIZE: usize = 0x400;

/// The I/O registers
pub struct IoRegisters {
    io_registers: Vec<u8>,
    dma0_enabled: bool,
    pub dma1_enabled: bool,
    pub dma2_enabled: bool,
    pub dma3_enabled: bool,
    pub dma_triggered: [bool; 4],
    pub dma_just_enabled: [bool; 4],
    dma0_delay_counter: u8,
    dma1_delay_counter: u8,
    dma2_delay_counter: u8,
    dma3_delay_counter: u8,
    /// cached values
    dma_source: [u32; 4],
    /// cached values
    dma_dest: [u32; 4],
    /// cached values
    dma_count: [u16; 4],
    timer0: u16,
    timer1: u16,
    timer2: u16,
    timer3: u16,
    pub bg2_rotation: BitMapBgRotationScale,
    pub bg3_rotation: BitMapBgRotationScale,
    pub apu: Apu,
    pub sound_a_timer1: bool,
    pub sound_b_timer1: bool,
    pub sram_wait: u8,
    pub wait_state0: (u8, u8),
    pub wait_state1: (u8, u8),
    pub wait_state2: (u8, u8),
}

/// The mathematical state of the I/O registers
pub ghost struct IoView {
    /// The raw register file, 0x400 bytes
    pub regs: Seq<u8>,
    /// Whether each DMA channel is running
    pub dma_enabled: Seq<bool>,
    pub dma_triggered: Seq<bool>,
    pub dma_just_enabled: Seq<bool>,
    pub dma_delay: Seq<u8>,
    pub dma_source: Seq<u32>,
    pub dma_dest: Seq<u32>,
    pub dma_count: Seq<u16>,
    /// The four timer counters
    pub timers: Seq<u16>,
    pub bg2_rotation: BitMapBgRotationScale,
    pub bg3_rotation: BitMapBgRotationScale,
    pub apu: ApuView,
    pub sound_a_timer1: bool,
    pub sound_b_timer1: bool,
    pub sram_wait: u8,
    pub wait_state0: (u8, u8),
    pub wait_state1: (u8, u8),
    pub wait_state2: (u8, u8),
}

impl View for IoRegisters {
    type V = IoView;

    closed spec fn view(&self) -> IoView {
        IoView {
            regs: self.io_registers@,
            dma_enabled: seq![self.dma0_enabled, self.dma1_enabled, self.dma2_enabled, self.dma3_enabled],
            dma_triggered: self.dma_triggered@,
            dma_just_enabled: self.dma_just_enabled@,
            dma_delay: seq![
                self.dma0_delay_counter,
                self.dma1_delay_counter,
                self.dma2_delay_counter,
                self.dma3_delay_counter,
            ],
            dma_source: self.dma_source@,
            dma_dest: self.dma_dest@,
            dma_count: self.dma_count@,
            timers: seq![self.timer0, self.timer1, self.timer2, self.timer3],
            bg2_rotation: self.bg2_rotation,
            bg3_rotation: self.bg3_rotation,
            apu: self.apu@,
            sound_a_timer1: self.sound_a_timer1,
            sound_b_timer1: self.sound_b_timer1,
            sram_wait: self.sram_wait,
            wait_state0: self.wait_state0,
            wait_state1: self.wait_state1,
            wait_state2: self.wait_state2,
        }
    }
}

/// A 16-bit little-endian value in the register file
pub open spec fn regs16(regs: Seq<u8>, i: int) -> u16 {
    (regs[i] as u16) | ((regs[i + 1] as u16) << 8u16)
}

/// A 32-bit little-endian value in the register file
pub open spec fn regs32(regs: Seq<u8>, i: int) -> u32 {
    (regs[i] as u32) | ((regs[i + 1] as u32) << 8u32) | ((regs[i + 2] as u32) << 16u32) | ((regs[
    i + 3] as u32) << 24u32)
}

/// The offset of DMA channel `n`'s register block
pub open spec fn dma_base(n: int) -> int {
    0xB0 + 12 * n
}

/// The offset of timer `n`'s register block
pub open spec fn timer_base(n: int) -> int {
    0x100 + 4 * n
}

/// The cycles of a wait state setting
pub open spec fn waitstate(i: u8) -> u8 {
    if i == 0 {
        4
    } else if i == 1 {
        3
    } else if i == 2 {
        2
    } else {
        8
    }
}

/// The Game Boy sound register that an I/O offset stands for, if any
pub open spec fn apu_port(a: u32) -> Option<u16> {
    if a == 0x60 {
        Some(0xFF10u16)
    } else if a == 0x62 {
        Some(0xFF11u16)
    } else if a == 0x63 {
        Some(0xFF12u16)
    } else if a == 0x64 {
        Some(0xFF13u16)
    } else if a == 0x65 {
        Some(0xFF14u16)
    } else if a == 0x68 {
        Some(0xFF16u16)
    } else if a == 0x69 {
        Some(0xFF17u16)
    } else if a == 0x6C {
        Some(0xFF18u16)
    } else if a == 0x6D {
        Some(0xFF19u16)
    } else if a == 0x70 {
        Some(0xFF1Au16)
    } else if a == 0x72 {
        Some(0xFF1Bu16)
    } else if a == 0x73 {
        Some(0xFF1Cu16)
    } else if a == 0x74 {
        Some(0xFF1Du16)
    } else if a == 0x75 {
        Some(0xFF1Eu16)
    } else if a == 0x78 {
        Some(0xFF20u16)
    } else if a == 0x79 {
        Some(0xFF21u16)
    } else if a == 0x7C {
        Some(0xFF22u16)
    } else if a == 0x7D {
        Some(0xFF23u16)
    } else if 0x90 <= a <= 0x9F {
        Some((0xFF10 + (a - 0x90)) as u16)
    } else {
        None
    }
}

/// The unused offsets between the sound registers
pub open spec fn apu_gap(a: u32) -> bool {
    a == 0x61 || a == 0x66 || a == 0x67 || a == 0x6A || a == 0x6B || a == 0x6E || a == 0x6F || a
        == 0x71 || a == 0x76 || a == 0x77 || a == 0x7A || a == 0x7B || a == 0x7E || a == 0x7F
}

/// A byte patched into a 16-bit parameter at byte `off`
pub open spec fn patch16(p: i16, off: u32, val: u8) -> i16 {
    (((p as u16) & !(0xFFu16 << ((off * 8) as u16))) | ((val as u16) << ((off * 8) as u16))) as i16
}

/// A byte patched into a 32-bit parameter at byte `off`
pub open spec fn patch32(p: i32, off: u32, val: u8) -> i32 {
    (((p as u32) & !(0xFFu32 << off * 8)) | ((val as u32) << off * 8)) as i32
}

/// A 28-bit value sign-extended to 32 bits
pub open spec fn sext28(x: i32) -> i32 {
    let u = (x as u32) & 0x0FFF_FFFF;
    if u & 0x0800_0000 != 0 {
        (u | 0xF000_0000) as i32
    } else {
        u as i32
    }
}

/// A byte written into a reference point coordinate; the top byte
/// completes a signed 28-bit value
pub open spec fn ref_point_written(p: i32, off: u32, val: u8) -> i32 {
    if off == 3 {
        sext28(patch32(p, off, val))
    } else {
        patch32(p, off, val)
    }
}

/// A byte written to the affine parameters of a background at offset `o`
/// of its block of 16
#[verifier::opaque]
pub open spec fn rotation_written(r: BitMapBgRotationScale, o: u32, val: u8) -> BitMapBgRotationScale {
    if o < 2 {
        BitMapBgRotationScale { pa: patch16(r.pa, o, val), ..r }
    } else if o < 4 {
        BitMapBgRotationScale { pb: patch16(r.pb, (o - 2) as u32, val), ..r }
    } else if o < 6 {
        BitMapBgRotationScale { pc: patch16(r.pc, (o - 4) as u32, val), ..r }
    } else if o < 8 {
        BitMapBgRotationScale { pd: patch16(r.pd, (o - 6) as u32, val), ..r }
    } else if o < 12 {
        BitMapBgRotationScale { x: ref_point_written(r.x, (o - 8) as u32, val), ..r }
    } else {
        BitMapBgRotationScale { y: ref_point_written(r.y, (o - 12) as u32, val), ..r }
    }
}

/// The prescaler selected by a timer control register
pub open spec fn prescaler(ctl: u8) -> u16 {
    let p = ctl & 3;
    if p == 0 {
        1
    } else if p == 1 {
        64
    } else if p == 2 {
        256
    } else {
        1024
    }
}

/// Whether an 8-bit write is one the emulator handles: the sound FIFOs take
/// only 32-bit writes, and timer count-up mode is not emulated
pub open spec fn io_write_defined(addr: u32, val: u8) -> bool {
    let a = addr & 0x3FF;
    &&& !(0xA0 <= a <= 0xA7)
    &&& (a == 0x106 || a == 0x10A || a == 0x10E) ==> (val >> 2u8) & 1 == 0
}

impl IoView {
    /// The register file with one byte replaced
    pub open spec fn put(self, a: int, v: u8) -> IoView {
        IoView { regs: self.regs.update(a, v), ..self }
    }

    /// DMA channel `n`'s source address register
    pub open spec fn dma_source_raw(self, n: int) -> u32 {
        regs32(self.regs, dma_base(n))
    }

    /// DMA channel `n`'s destination address register
    pub open spec fn dma_dest_raw(self, n: int) -> u32 {
        regs32(self.regs, dma_base(n) + 4)
    }

    /// DMA channel `n`'s word count register (14 bits, 16 for DMA 3)
    pub open spec fn dma_count_raw(self, n: int) -> u16 {
        let lo = self.regs[dma_base(n) + 8];
        let hi = self.regs[dma_base(n) + 9];
        if n == 3 {
            (lo as u16) | ((hi as u16) << 8u16)
        } else {
            (lo as u16) | (((hi & 0x3F) as u16) << 8u16)
        }
    }

    /// DMA channel `n`'s control register
    pub open spec fn dma_control(self, n: int) -> DmaControl {
        spec_dma_control(regs16(self.regs, dma_base(n) + 10))
    }

    /// The cached source, destination and count of channel `n` reloaded
    /// from the registers
    #[verifier::opaque]
    pub open spec fn dma_loaded(self, n: int) -> IoView {
        IoView {
            dma_source: self.dma_source.update(n, self.dma_source_raw(n)),
            dma_dest: self.dma_dest.update(n, self.dma_dest_raw(n)),
            dma_count: self.dma_count.update(n, self.dma_count_raw(n)),
            ..self
        }
    }

    /// Starting DMA channel `n`
    #[verifier::opaque]
    pub open spec fn dma_started(self, n: int) -> IoView {
        let v = IoView {
            dma_just_enabled: if !self.dma_enabled[n] {
                self.dma_just_enabled.update(n, true)
            } else {
                self.dma_just_enabled
            },
            dma_enabled: self.dma_enabled.update(n, true),
            dma_delay: self.dma_delay.update(n, 0),
            ..self
        };
        v.dma_loaded(n)
    }

    /// What a write to the DMA register block does besides storing the byte:
    /// setting a control register's enable bit starts the channel, and
    /// clearing it stops DMA 1 or 2
    #[verifier::opaque]
    pub open spec fn dma_effect(self, a: int, val: u8) -> IoView {
        if a == 0xBB && val & 0x80 != 0 {
            self.dma_started(0)
        } else if a == 0xC7 && val & 0x80 != 0 {
            self.dma_started(1)
        } else if a == 0xC7 {
            IoView { dma_enabled: self.dma_enabled.update(1, false), ..self }
        } else if a == 0xD3 && val & 0x80 != 0 {
            self.dma_started(2)
        } else if a == 0xD3 {
            IoView { dma_enabled: self.dma_enabled.update(2, false), ..self }
        } else if a == 0xDF && val & 0x80 != 0 {
            self.dma_started(3)
        } else {
            self
        }
    }

    /// A write to the DMA register block
    pub open spec fn dma_written(self, a: int, val: u8) -> IoView {
        self.dma_effect(a, val).put(a, val)
    }

    /// A write to timer `n`'s control register: starting the timer loads
    /// its reload value
    #[verifier::opaque]
    pub open spec fn timer_control_written(self, n: int, val: u8) -> IoView {
        let a = timer_base(n) + 2;
        let v = if self.regs[a] >> 7u8 == 0 && val >> 7u8 == 1 {
            IoView { timers: self.timers.update(n, regs16(self.regs, timer_base(n))), ..self }
        } else {
            self
        };
        v.put(a, val)
    }

    /// A write to SOUNDCNT_H's high byte
    #[verifier::opaque]
    pub open spec fn soundcnt_written(self, val: u8) -> IoView {
        let apu = self.apu;
        let fa = if (val >> 3u8) & 1 == 1 {
            crate::cpu::fifo::FifoView { data: Seq::empty(), sound_buffer: Seq::empty(), reset_flag: true }
        } else {
            apu.gba_fifo_a
        };
        let fb = if (val >> 7u8) & 1 == 1 {
            crate::cpu::fifo::FifoView { data: Seq::empty(), sound_buffer: Seq::empty(), reset_flag: true }
        } else {
            apu.gba_fifo_b
        };
        IoView {
            apu: ApuView {
                gba_fifo_a: fa,
                gba_fifo_b: fb,
                gba_sound_a_enabled: ((val >> 1u8) & 1 == 1, (val & 1) == 1),
                gba_sound_b_enabled: ((val >> 5u8) & 1 == 1, ((val >> 4u8) & 1) == 1),
                ..apu
            },
            sound_a_timer1: (val >> 2u8) & 1 == 1,
            sound_b_timer1: (val >> 6u8) & 1 == 1,
            ..self
        }.put(0x83, val)
    }

    /// What an 8-bit CPU write does to the registers
    pub open spec fn written(self, addr: u32, val: u8) -> IoView {
        let a = addr & 0x3FF;
        let ai = a as int;
        if a == 0x4 {
            let writeable_bits = val & !0x47u8;
            self.put(4, (self.regs[4] & !writeable_bits) | !writeable_bits)
        } else if a == 0x6 || a == 0x7 {
            self
        } else if 0x20 <= a <= 0x2F {
            IoView { bg2_rotation: rotation_written(self.bg2_rotation, (a - 0x20) as u32, val), ..self }
        } else if 0x30 <= a <= 0x3F {
            IoView { bg3_rotation: rotation_written(self.bg3_rotation, (a - 0x30) as u32, val), ..self }
        } else if apu_port(a) is Some {
            IoView { apu: self.apu.cpu_write(apu_port(a)->0, val), ..self }
        } else if apu_gap(a) {
            self
        } else if a == 0x83 {
            self.soundcnt_written(val)
        } else if a == 0x202 || a == 0x203 {
            self.put(ai, self.regs[ai] & !val)
        } else if 0xB0 <= a <= 0xE0 {
            self.dma_written(ai, val)
        } else if a == 0x102 || a == 0x106 || a == 0x10A || a == 0x10E {
            self.timer_control_written((ai - 0x102) / 4, val)
        } else if 0x100 <= a <= 0x11D {
            self.put(ai, val)
        } else if a == 0x130 || a == 0x131 {
            self
        } else if a == 0x204 {
            IoView {
                sram_wait: waitstate(val & 0x3),
                wait_state0: (
                    waitstate((val >> 2u8) & 0x3),
                    if (val >> 4u8) & 1 == 1 {
                        1
                    } else {
                        2
                    },
                ),
                wait_state1: (
                    waitstate((val >> 5u8) & 0x3),
                    if (val >> 7u8) & 1 == 1 {
                        1
                    } else {
                        4
                    },
                ),
                ..self
            }.put(ai, val)
        } else if a == 0x205 {
            IoView {
                wait_state2: (
                    waitstate(val & 0x3),
                    if (val >> 2u8) & 1 == 1 {
                        1
                    } else {
                        8
                    },
                ),
                ..self
            }.put(ai, val)
        } else if a == 0x206 || a == 0x207 {
            self
        } else if a == 0x208 {
            self.put(ai, val & 1)
        } else if 0x209 <= a <= 0x20B {
            self
        } else if 0x214 <= a <= 0x217 {
            self.put(ai, self.regs[ai] & !val)
        } else {
            self.put(ai, val)
        }
    }

    /// What an 8-bit CPU read returns
    pub open spec fn read8(self, addr: u32) -> u8 {
        let a = addr & 0x3FF;
        let ai = a as int;
        if apu_port(a) is Some {
            self.apu.cpu_read(apu_port(a)->0)
        } else if apu_gap(a) || 0xA0 <= a <= 0xDD || 0x209 <= a <= 0x20B {
            0
        } else if a == 0x100 || a == 0x104 || a == 0x108 || a == 0x10C {
            (self.timers[(ai - 0x100) / 4] & 0xFF) as u8
        } else if a == 0x101 || a == 0x105 || a == 0x109 || a == 0x10D {
            (self.timers[(ai - 0x101) / 4] >> 8u16) as u8
        } else if a == 0x208 {
            self.regs[ai] & 1
        } else {
            self.regs[ai]
        }
    }

    /// What a 16-bit CPU read returns
    pub open spec fn read16(self, addr: u32) -> u16 {
        (self.read8(addr & !1u32) as u16) | ((self.read8(addr | 1) as u16) << 8u16)
    }

    /// What a 32-bit CPU read returns
    pub open spec fn read32(self, addr: u32) -> u32 {
        (self.read16(addr & !3u32) as u32) | ((self.read16(addr | 2) as u32) << 16u32)
    }

    /// What a 16-bit CPU write does
    pub open spec fn written16(self, addr: u32, val: u16) -> IoView {
        self.written(addr & !1u32, val as u8).written(addr | 1, (val >> 8u16) as u8)
    }

    /// The four little-endian bytes of a word pushed into a sound FIFO
    pub open spec fn fifo_pushed(f: crate::cpu::fifo::FifoView, val: u32) -> crate::cpu::fifo::FifoView {
        let f1 = crate::cpu::fifo::FifoView { data: f.pushed((val & 0xFF) as u8 as i8), ..f };
        let f2 = crate::cpu::fifo::FifoView { data: f1.pushed(((val >> 8u32) & 0xFF) as u8 as i8), ..f1 };
        let f3 = crate::cpu::fifo::FifoView { data: f2.pushed(((val >> 16u32) & 0xFF) as u8 as i8), ..f2 };
        crate::cpu::fifo::FifoView { data: f3.pushed((val >> 24u32) as u8 as i8), ..f3 }
    }

    /// What a 32-bit CPU write does: words written to the sound FIFO ports
    /// feed the FIFOs
    pub open spec fn written32(self, addr: u32, val: u32) -> IoView {
        if addr == 0x40000A0 {
            IoView { apu: ApuView { gba_fifo_a: IoView::fifo_pushed(self.apu.gba_fifo_a, val), ..self.apu }, ..self }
        } else if addr == 0x40000A4 {
            IoView { apu: ApuView { gba_fifo_b: IoView::fifo_pushed(self.apu.gba_fifo_b, val), ..self.apu }, ..self }
        } else {
            self.written16(addr & !3u32, val as u16).written16(addr | 2, (val >> 16u32) as u16)
        }
    }
}

fn apu_port_of(a: u32) -> (p: Option<u16>)
    ensures
        p == apu_port(a),
{
    match a {
        0x60 => Some(0xFF10),
        0x62 => Some(0xFF11),
        0x63 => Some(0xFF12),
        0x64 => Some(0xFF13),
        0x65 => Some(0xFF14),
        0x68 => Some(0xFF16),
        0x69 => Some(0xFF17),
        0x6C => Some(0xFF18),
        0x6D => Some(0xFF19),
        0x70 => Some(0xFF1A),
        0x72 => Some(0xFF1B),
        0x73 => Some(0xFF1C),
        0x74 => Some(0xFF1D),
        0x75 => Some(0xFF1E),
        0x78 => Some(0xFF20),
        0x79 => Some(0xFF21),
        0x7C => Some(0xFF22),
        0x7D => Some(0xFF23),
        0x90..=0x9F => Some(CGB_APU_BASE + (a as u16 - 0x90)),
        _ => None,
    }
}

fn is_apu_gap(a: u32) -> (r: bool)
    ensures
        r == apu_gap(a),
{
    a == 0x61 || a == 0x66 || a == 0x67 || a == 0x6A || a == 0x6B || a == 0x6E || a == 0x6F || a
        == 0x71 || a == 0x76 || a == 0x77 || a == 0x7A || a == 0x7B || a == 0x7E || a == 0x7F
}

fn waitstate_of(i: u8) -> (r: u8)
    requires
        i < 4,
    ensures
        r == waitstate(i),
{
    match i {
        0 => 4,
        1 => 3,
        2 => 2,
        _ => 8,
    }
}

fn exec_patch16(p: i16, off: u32, val: u8) -> (r: i16)
    requires
        off < 2,
    ensures
        r == patch16(p, off, val),
{
    let sh: u16 = (off * 8) as u16;
    (((p as u16) & !(0xFFu16 << sh)) | ((val as u16) << sh)) as i16
}

fn exec_ref_point(p: i32, off: u32, val: u8) -> (r: i32)
    requires
        off < 4,
    ensures
        r == ref_point_written(p, off, val),
{
    let patched = (((p as u32) & !(0xFFu32 << (off * 8))) | ((val as u32) << (off * 8))) as i32;
    if off == 3 {
        let u = (patched as u32) & 0x0FFF_FFFF;
        if u & 0x0800_0000 != 0 {
            (u | 0xF000_0000) as i32
        } else {
            u as i32
        }
    } else {
        patched
    }
}

fn exec_rotation_written(r: BitMapBgRotationScale, o: u32, val: u8) -> (res: BitMapBgRotationScale)
    requires
        o < 16,
    ensures
        res == rotation_written(r, o, val),
{
    reveal(rotation_written);
    if o < 2 {
        BitMapBgRotationScale { pa: exec_patch16(r.pa, o, val), ..r }
    } else if o < 4 {
        BitMapBgRotationScale { pb: exec_patch16(r.pb, o - 2, val), ..r }
    } else if o < 6 {
        BitMapBgRotationScale { pc: exec_patch16(r.pc, o - 4, val), ..r }
    } else if o < 8 {
        BitMapBgRotationScale { pd: exec_patch16(r.pd, o - 6, val), ..r }
    } else if o < 12 {
        BitMapBgRotationScale { x: exec_ref_point(r.x, o - 8, val), ..r }
    } else {
        BitMapBgRotationScale { y: exec_ref_point(r.y, o - 12, val), ..r }
    }
}

impl IoRegisters {
    /// The register file has its size, and the sound FIFOs their bound
    pub closed spec fn wf(&self) -> bool {
        &&& self.io_registers@.len() == IO_SIZE
        &&& self.apu.wf()
        &&& self.sram_wait <= 8
        &&& self.wait_state0.0 <= 8 && self.wait_state0.1 <= 8
        &&& self.wait_state1.0 <= 8 && self.wait_state1.1 <= 8
        &&& self.wait_state2.0 <= 8 && self.wait_state2.1 <= 8
    }

    /// The shape of the view of well-formed registers
    pub proof fn lemma_wf(&self)
        requires
            self.wf(),
        ensures
            self@.regs.len() == IO_SIZE,
            self@.dma_enabled.len() == 4,
            self@.dma_triggered.len() == 4,
            self@.dma_just_enabled.len() == 4,
            self@.dma_delay.len() == 4,
            self@.dma_source.len() == 4,
            self@.dma_dest.len() == 4,
            self@.dma_count.len() == 4,
            self@.timers.len() == 4,
            self@.apu.gba_fifo_a.data.len() <= 32,
            self@.apu.gba_fifo_b.data.len() <= 32,
            self@.sram_wait <= 8,
            self@.wait_state0.0 <= 8 && self@.wait_state0.1 <= 8,
            self@.wait_state1.0 <= 8 && self@.wait_state1.1 <= 8,
            self@.wait_state2.0 <= 8 && self@.wait_state2.1 <= 8,
    {
    }

    /// The wait states (first, sequential access) of cartridge ROM mirror
    /// `n`
    pub fn rom_wait_states(&self, n: u8) -> (r: (u8, u8))
        requires
            self.wf(),
        ensures
            r == (if n == 0 {
                self@.wait_state0
            } else if n == 1 {
                self@.wait_state1
            } else {
                self@.wait_state2
            }),
            r.0 <= 8 && r.1 <= 8,
    {
        if n == 0 {
            self.wait_state0
        } else if n == 1 {
            self.wait_state1
        } else {
            self.wait_state2
        }
    }

    /// The wait states of the cartridge SRAM
    pub fn sram_wait_states(&self) -> (r: u8)
        requires
            self.wf(),
        ensures
            r == self@.sram_wait,
            r <= 8,
    {
        self.sram_wait
    }

    /// The registers at power on (the key input registers read as released
    /// and the BG2/BG3 scaling is the identity when booting the cartridge
    /// directly)
    /// The state of the registers at power on
    pub open spec fn spec_new(direct_boot: bool) -> IoView {
        let rot = BitMapBgRotationScale {
            x: 0,
            y: 0,
            cached_x: 0,
            cached_y: 0,
            pa: if direct_boot { 0x100 } else { 0 },
            pb: 0,
            pc: 0,
            pd: if direct_boot { 0x100 } else { 0 },
        };
        IoView {
            regs: Seq::new(IO_SIZE as nat, |i: int| 0u8).update(0x130, 0xFF).update(0x131, 0x3).update(
                0x88,
                0,
            ).update(0x89, 0x2),
            dma_enabled: seq![false, false, false, false],
            dma_triggered: seq![false, false, false, false],
            dma_just_enabled: seq![false, false, false, false],
            dma_delay: seq![0u8, 0u8, 0u8, 0u8],
            dma_source: seq![0u32, 0u32, 0u32, 0u32],
            dma_dest: seq![0u32, 0u32, 0u32, 0u32],
            dma_count: seq![0u16, 0u16, 0u16, 0u16],
            timers: seq![0u16, 0u16, 0u16, 0u16],
            bg2_rotation: rot,
            bg3_rotation: rot,
            apu: Apu::new_view(),
            sound_a_timer1: false,
            sound_b_timer1: false,
            sram_wait: 4,
            wait_state0: (4u8, 2u8),
            wait_state1: (4u8, 4u8),
            wait_state2: (4u8, 8u8),
        }
    }

    pub fn new(direct_boot: bool) -> (io: IoRegisters)
        ensures
            io.wf(),
            io@ == IoRegisters::spec_new(direct_boot),
    {
        let mut io_registers = vec![0u8; IO_SIZE];
        io_registers.set(0x130, 0xFF);
        io_registers.set(0x131, 0x3);
        io_registers.set(0x88, 0);
        io_registers.set(0x89, 0x2);
        let rot = BitMapBgRotationScale {
            x: 0,
            y: 0,
            cached_x: 0,
            cached_y: 0,
            pa: if direct_boot { 0x100 } else { 0 },
            pb: 0,
            pc: 0,
            pd: if direct_boot { 0x100 } else { 0 },
        };
        let io = IoRegisters {
            io_registers,
            dma0_enabled: false,
            dma1_enabled: false,
            dma2_enabled: false,
            dma3_enabled: false,
            dma_triggered: [false; 4],
            dma_just_enabled: [false; 4],
            dma0_delay_counter: 0,
            dma1_delay_counter: 0,
            dma2_delay_counter: 0,
            dma3_delay_counter: 0,
            dma_source: [0; 4],
            dma_dest: [0; 4],
            dma_count: [0; 4],
            timer0: 0,
            timer1: 0,
            timer2: 0,
            timer3: 0,
            bg2_rotation: rot,
            bg3_rotation: rot,
            apu: Apu::new(),
            sound_a_timer1: false,
            sound_b_timer1: false,
            sram_wait: 4,
            wait_state0: (4, 2),
            wait_state1: (4, 4),
            wait_state2: (4, 8),
        };
        assert(io@.regs =~= Seq::new(IO_SIZE as nat, |i: int| 0u8).update(0x130, 0xFF).update(
            0x131,
            0x3,
        ).update(0x88, 0).update(0x89, 0x2));
        assert(io@.dma_triggered =~= seq![false, false, false, false]);
        assert(io@.dma_just_enabled =~= seq![false, false, false, false]);
        assert(io@.dma_source =~= seq![0u32, 0u32, 0u32, 0u32]);
        assert(io@.dma_dest =~= seq![0u32, 0u32, 0u32, 0u32]);
        assert(io@.dma_count =~= seq![0u16, 0u16, 0u16, 0u16]);
        io
    }

    /// A raw register
    pub fn reg(&self, i: usize) -> (r: u8)
        requires
            self.wf(),
            i < IO_SIZE,
        ensures
            r == self@.regs[i as int],
    {
        self.io_registers[i]
    }

    /// Writes a raw register, bypassing the effects of a CPU write
    pub fn set_reg(&mut self, i: usize, v: u8)
        requires
            old(self).wf(),
            i < IO_SIZE,
        ensures
            final(self).wf(),
            final(self)@ == old(self)@.put(i as int, v),
    {
        self.io_registers.set(i, v);
    }

    /// Whether a DMA channel is running and triggered
    pub fn dma_waiting(&self) -> (r: bool)
        requires
            self.wf(),
        ensures
            r == exists|n: int|
                0 <= n < 4 && #[trigger] self@.dma_enabled[n] && self@.dma_triggered[n],
    {
        let r = (self.dma0_enabled && self.dma_triggered[0]) || (self.dma1_enabled
            && self.dma_triggered[1]) || (self.dma2_enabled && self.dma_triggered[2]) || (
        self.dma3_enabled && self.dma_triggered[3]);
        proof {
            if r {
                if self.dma0_enabled && self.dma_triggered[0] {
                    assert(self@.dma_enabled[0]);
                } else if self.dma1_enabled && self.dma_triggered[1] {
                    assert(self@.dma_enabled[1]);
                } else if self.dma2_enabled && self.dma_triggered[2] {
                    assert(self@.dma_enabled[2]);
                } else {
                    assert(self@.dma_enabled[3]);
                }
            }
        }
        r
    }

    /// Whether a DMA channel is ready to start: enabled, just enabled, and
    /// its start delay past 4 cycles
    pub open spec fn spec_dma_ready(v: IoView, n: int) -> bool {
        v.dma_enabled[n] && v.dma_just_enabled[n] && v.dma_delay[n] > 4
    }

    pub fn dma0_ready(&self) -> (r: bool)
        ensures
            r == Self::spec_dma_ready(self@, 0),
    {
        self.dma0_enabled && self.dma_just_enabled[0] && self.dma0_delay_counter > 4
    }

    pub fn dma1_ready(&self) -> (r: bool)
        ensures
            r == Self::spec_dma_ready(self@, 1),
    {
        self.dma1_enabled && self.dma_just_enabled[1] && self.dma1_delay_counter > 4
    }

    pub fn dma2_ready(&self) -> (r: bool)
        ensures
            r == Self::spec_dma_ready(self@, 2),
    {
        self.dma2_enabled && self.dma_just_enabled[2] && self.dma2_delay_counter > 4
    }

    pub fn dma3_ready(&self) -> (r: bool)
        ensures
            r == Self::spec_dma_ready(self@, 3),
    {
        self.dma3_enabled && self.dma_just_enabled[3] && self.dma3_delay_counter > 4
    }

    pub fn dma_ready(&self) -> (r: bool)
        ensures
            r == (Self::spec_dma_ready(self@, 0) || Self::spec_dma_ready(self@, 1)
                || Self::spec_dma_ready(self@, 2) || Self::spec_dma_ready(self@, 3)),
    {
        self.dma0_ready() || self.dma1_ready() || self.dma2_ready() || self.dma3_ready()
    }

    fn regs32_at(&self, i: usize) -> (r: u32)
        requires
            self.wf(),
            i + 3 < IO_SIZE,
        ensures
            r == regs32(self@.regs, i as int),
    {
        self.io_registers[i] as u32 | ((self.io_registers[i + 1] as u32) << 8) | ((
        self.io_registers[i + 2] as u32) << 16) | ((self.io_registers[i + 3] as u32) << 24)
    }

    fn dma0_source_addr_raw(&self) -> (r: u32)
        requires
            self.wf(),
        ensures
            r == self@.dma_source_raw(0),
    {
        self.regs32_at(0xB0)
    }

    fn dma0_dest_addr_raw(&self) -> (r: u32)
        requires
            self.wf(),
        ensures
            r == self@.dma_dest_raw(0),
    {
        self.regs32_at(0xB4)
    }

    fn dma1_source_addr_raw(&self) -> (r: u32)
        requires
            self.wf(),
        ensures
            r == self@.dma_source_raw(1),
    {
        self.regs32_at(0xBC)
    }

    fn dma1_dest_addr_raw(&self) -> (r: u32)
        requires
            self.wf(),
        ensures
            r == self@.dma_dest_raw(1),
    {
        self.regs32_at(0xC0)
    }

    fn dma2_source_addr_raw(&self) -> (r: u32)
        requires
            self.wf(),
        ensures
            r == self@.dma_source_raw(2),
    {
        self.regs32_at(0xC8)
    }

    fn dma2_dest_addr_raw(&self) -> (r: u32)
        requires
            self.wf(),
        ensures
            r == self@.dma_dest_raw(2),
    {
        self.regs32_at(0xCC)
    }

    fn dma3_source_addr_raw(&self) -> (r: u32)
        requires
            self.wf(),
        ensures
            r == self@.dma_source_raw(3),
    {
        self.regs32_at(0xD4)
    }

    fn dma3_dest_addr_raw(&self) -> (r: u32)
        requires
            self.wf(),
        ensures
            r == self@.dma_dest_raw(3),
    {
        self.regs32_at(0xD8)
    }

    fn dma0_word_count_raw(&self) -> (r: u16)
        requires
            self.wf(),
        ensures
            r == self@.dma_count_raw(0),
    {
        self.io_registers[0xB8] as u16 | (((self.io_registers[0xB9] & 0x3F) as u16) << 8)
    }

    fn dma1_word_count_raw(&self) -> (r: u16)
        requires
            self.wf(),
        ensures
            r == self@.dma_count_raw(1),
    {
        self.io_registers[0xC4] as u16 | (((self.io_registers[0xC5] & 0x3F) as u16) << 8)
    }

    fn dma2_word_count_raw(&self) -> (r: u16)
        requires
            self.wf(),
        ensures
            r == self@.dma_count_raw(2),
    {
        self.io_registers[0xD0] as u16 | (((self.io_registers[0xD1] & 0x3F) as u16) << 8)
    }

    fn dma3_word_count_raw(&self) -> (r: u16)
        requires
            self.wf(),
        ensures
            r == self@.dma_count_raw(3),
    {
        self.io_registers[0xDC] as u16 | ((self.io_registers[0xDD] as u16) << 8)
    }

    fn source_raw(&self, dma: u8) -> (r: u32)
        requires
            self.wf(),
            dma < 4,
        ensures
            r == self@.dma_source_raw(dma as int),
    {
        match dma {
            0 => self.dma0_source_addr_raw(),
            1 => self.dma1_source_addr_raw(),
            2 => self.dma2_source_addr_raw(),
            _ => self.dma3_source_addr_raw(),
        }
    }

    fn dest_raw(&self, dma: u8) -> (r: u32)
        requires
            self.wf(),
            dma < 4,
        ensures
            r == self@.dma_dest_raw(dma as int),
    {
        match dma {
            0 => self.dma0_dest_addr_raw(),
            1 => self.dma1_dest_addr_raw(),
            2 => self.dma2_dest_addr_raw(),
            _ => self.dma3_dest_addr_raw(),
        }
    }

    fn count_raw(&self, dma: u8) -> (r: u16)
        requires
            self.wf(),
            dma < 4,
        ensures
            r == self@.dma_count_raw(dma as int),
    {
        match dma {
            0 => self.dma0_word_count_raw(),
            1 => self.dma1_word_count_raw(),
            2 => self.dma2_word_count_raw(),
            _ => self.dma3_word_count_raw(),
        }
    }

    /// Caches a channel's source, destination and count from its registers
    pub fn load_internal_dma_values(&mut self, dma: u8)
        requires
            old(self).wf(),
            dma < 4,
        ensures
            final(self).wf(),
            final(self)@ == old(self)@.dma_loaded(dma as int),
    {
        reveal(IoView::dma_loaded);
        let src = self.source_raw(dma);
        let dst = self.dest_raw(dma);
        let cnt = self.count_raw(dma);
        self.dma_source.set(dma as usize, src);
        self.dma_dest.set(dma as usize, dst);
        self.dma_count.set(dma as usize, cnt);
        assert(self@.dma_source =~= old(self)@.dma_loaded(dma as int).dma_source);
        assert(self@.dma_dest =~= old(self)@.dma_loaded(dma as int).dma_dest);
        assert(self@.dma_count =~= old(self)@.dma_loaded(dma as int).dma_count);
    }

    pub fn trigger_dma(&mut self, dma: u8)
        requires
            old(self).wf(),
            dma < 4,
        ensures
            final(self).wf(),
            final(self)@ == (IoView {
                dma_triggered: old(self)@.dma_triggered.update(dma as int, true),
                ..old(self)@
            }),
    {
        self.dma_triggered.set(dma as usize, true);
    }

    /// Advances a just enabled channel's start delay
    pub fn dma_inc_delay_counter(&mut self, dma_id: u8, cycles: u8)
        requires
            old(self).wf(),
            dma_id < 4,
            old(self)@.dma_just_enabled[dma_id as int] ==> old(self)@.dma_delay[dma_id as int]
                + cycles <= 255,
        ensures
            final(self).wf(),
            final(self)@ == (if old(self)@.dma_just_enabled[dma_id as int] {
                IoView {
                    dma_delay: old(self)@.dma_delay.update(
                        dma_id as int,
                        (old(self)@.dma_delay[dma_id as int] + cycles) as u8,
                    ),
                    ..old(self)@
                }
            } else {
                old(self)@
            }),
    {
        if self.dma_just_enabled[dma_id as usize] {
            match dma_id {
                0 => self.dma0_delay_counter = self.dma0_delay_counter + cycles,
                1 => self.dma1_delay_counter = self.dma1_delay_counter + cycles,
                2 => self.dma2_delay_counter = self.dma2_delay_counter + cycles,
                _ => self.dma3_delay_counter = self.dma3_delay_counter + cycles,
            }
            assert(self@.dma_delay =~= old(self)@.dma_delay.update(
                dma_id as int,
                (old(self)@.dma_delay[dma_id as int] + cycles) as u8,
            ));
        }
    }

    fn control_at(&self, i: usize) -> (c: DmaControl)
        requires
            self.wf(),
            i + 1 < IO_SIZE,
        ensures
            c == spec_dma_control(regs16(self@.regs, i as int)),
    {
        DmaControl::from_bits(self.io_registers[i] as u16 | ((self.io_registers[i + 1] as u16) << 8))
    }

    pub fn dma0(&self) -> (c: DmaControl)
        requires
            self.wf(),
        ensures
            c == self@.dma_control(0),
    {
        self.control_at(0xBA)
    }

    pub fn dma1(&self) -> (c: DmaControl)
        requires
            self.wf(),
        ensures
            c == self@.dma_control(1),
    {
        self.control_at(0xC6)
    }

    pub fn dma2(&self) -> (c: DmaControl)
        requires
            self.wf(),
        ensures
            c == self@.dma_control(2),
    {
        self.control_at(0xD2)
    }

    pub fn dma3(&self) -> (c: DmaControl)
        requires
            self.wf(),
        ensures
            c == self@.dma_control(3),
    {
        self.control_at(0xDE)
    }

    pub fn dma1_trigger(&mut self)
        requires
            old(self).wf(),
        ensures
            final(self).wf(),
            final(self)@ == (IoView {
                dma_triggered: old(self)@.dma_triggered.update(1, true),
                ..old(self)@
            }),
    {
        self.dma_triggered.set(1, true);
    }

    pub fn dma2_trigger(&mut self)
        requires
            old(self).wf(),
        ensures
            final(self).wf(),
            final(self)@ == (IoView {
                dma_triggered: old(self)@.dma_triggered.update(2, true),
                ..old(self)@
            }),
    {
        self.dma_triggered.set(2, true);
    }

    /// Which of DMA 1 and 2 feed the sound FIFO at `fifo_addr`: running, in
    /// the special start mode, and aimed at that address
    pub open spec fn feeds(v: IoView, n: int, fifo_addr: u32) -> bool {
        v.dma_dest[n] == fifo_addr && v.dma_control(n).start_timing == DmaStartTiming::Special
            && v.dma_enabled[n]
    }

    /// The channels that feed a FIFO marked as triggered
    pub open spec fn fifo_requested(v: IoView, fifo_addr: u32) -> IoView {
        let t1 = if Self::feeds(v, 1, fifo_addr) {
            v.dma_triggered.update(1, true)
        } else {
            v.dma_triggered
        };
        let t2 = if Self::feeds(v, 2, fifo_addr) {
            t1.update(2, true)
        } else {
            t1
        };
        IoView { dma_triggered: t2, ..v }
    }

    fn trigger_fifo_dma(&mut self, fifo_addr: u32)
        requires
            old(self).wf(),
        ensures
            final(self).wf(),
            final(self)@ == Self::fifo_requested(old(self)@, fifo_addr),
    {
        let dma1 = self.dma1();
        let dma2 = self.dma2();
        let dma1_dest = self.dma1_dest_addr();
        let dma2_dest = self.dma2_dest_addr();
        if dma1_dest == fifo_addr && dma1.start_timing == DmaStartTiming::Special
            && self.dma1_enabled {
            self.dma1_trigger();
        }
        if dma2_dest == fifo_addr && dma2.start_timing == DmaStartTiming::Special
            && self.dma2_enabled {
            self.dma2_trigger();
        }
        assert(self@.dma_triggered =~= Self::fifo_requested(old(self)@, fifo_addr).dma_triggered);
    }

    /// Sound FIFO A wants data: the DMA channels that feed it are triggered
    pub fn trigger_sound_a_dma(&mut self)
        requires
            old(self).wf(),
        ensures
            final(self).wf(),
            final(self)@ == Self::fifo_requested(old(self)@, 0x40000A0),
    {
        self.trigger_fifo_dma(0x40000A0);
    }

    /// Sound FIFO B wants data: the DMA channels that feed it are triggered
    pub fn trigger_sound_b_dma(&mut self)
        requires
            old(self).wf(),
        ensures
            final(self).wf(),
            final(self)@ == Self::fifo_requested(old(self)@, 0x40000A4),
    {
        self.trigger_fifo_dma(0x40000A4);
    }

    pub fn dma0_source_addr(&self) -> (r: u32)
        requires
            self.wf(),
        ensures
            r == self@.dma_source[0],
    {
        self.dma_source[0]
    }

    pub fn dma0_dest_addr(&self) -> (r: u32)
        requires
            self.wf(),
        ensures
            r == self@.dma_dest[0],
    {
        self.dma_dest[0]
    }

    pub fn dma0_word_count(&self) -> (r: u16)
        requires
            self.wf(),
        ensures
            r == self@.dma_count[0],
    {
        self.dma_count[0]
    }

    pub fn dma1_source_addr(&self) -> (r: u32)
        requires
            self.wf(),
        ensures
            r == self@.dma_source[1],
    {
        self.dma_source[1]
    }

    pub fn dma1_dest_addr(&self) -> (r: u32)
        requires
            self.wf(),
        ensures
            r == self@.dma_dest[1],
    {
        self.dma_dest[1]
    }

    pub fn dma1_word_count(&self) -> (r: u16)
        requires
            self.wf(),
        ensures
            r == self@.dma_count[1],
    {
        self.dma_count[1]
    }

    pub fn dma2_source_addr(&self) -> (r: u32)
        requires
            self.wf(),
        ensures
            r == self@.dma_source[2],
    {
        self.dma_source[2]
    }

    pub fn dma2_dest_addr(&self) -> (r: u32)
        requires
            self.wf(),
        ensures
            r == self@.dma_dest[2],
    {
        self.dma_dest[2]
    }

    pub fn dma2_word_count(&self) -> (r: u16)
        requires
            self.wf(),
        ensures
            r == self@.dma_count[2],
    {
        self.dma_count[2]
    }

    pub fn dma3_source_addr(&self) -> (r: u32)
        requires
            self.wf(),
        ensures
            r == self@.dma_source[3],
    {
        self.dma_source[3]
    }

    pub fn dma3_dest_addr(&self) -> (r: u32)
        requires
            self.wf(),
        ensures
            r == self@.dma_dest[3],
    {
        self.dma_dest[3]
    }

    pub fn dma3_word_count(&self) -> (r: u16)
        requires
            self.wf(),
        ensures
            r == self@.dma_count[3],
    {
        self.dma_count[3]
    }

    /// Whether channel `n` is running
    pub fn dma_running(&self, n: u8) -> (r: bool)
        requires
            self.wf(),
            n < 4,
        ensures
            r == self@.dma_enabled[n as int],
    {
        match n {
            0 => self.dma0_enabled,
            1 => self.dma1_enabled,
            2 => self.dma2_enabled,
            _ => self.dma3_enabled,
        }
    }

    /// Whether channel `n` waits to transfer
    pub fn dma_is_triggered(&self, n: u8) -> (r: bool)
        requires
            self.wf(),
            n < 4,
        ensures
            r == self@.dma_triggered[n as int],
    {
        self.dma_triggered[n as usize]
    }

    /// Whether channel `n` was enabled and still counts down its start delay
    pub fn dma_is_just_enabled(&self, n: u8) -> (r: bool)
        requires
            self.wf(),
            n < 4,
        ensures
            r == self@.dma_just_enabled[n as int],
    {
        self.dma_just_enabled[n as usize]
    }

    /// Marks channel `n` as no longer running
    pub fn stop_dma(&mut self, n: u8)
        requires
            old(self).wf(),
            n < 4,
        ensures
            final(self).wf(),
            final(self)@ == (IoView {
                dma_enabled: old(self)@.dma_enabled.update(n as int, false),
                ..old(self)@
            }),
    {
        match n {
            0 => self.dma0_enabled = false,
            1 => self.dma1_enabled = false,
            2 => self.dma2_enabled = false,
            _ => self.dma3_enabled = false,
        }
        assert(self@.dma_enabled =~= old(self)@.dma_enabled.update(n as int, false));
    }

    /// Sets whether channel `n` waits to transfer
    pub fn set_dma_triggered(&mut self, n: u8, value: bool)
        requires
            old(self).wf(),
            n < 4,
        ensures
            final(self).wf(),
            final(self)@ == (IoView {
                dma_triggered: old(self)@.dma_triggered.update(n as int, value),
                ..old(self)@
            }),
    {
        self.dma_triggered.set(n as usize, value);
    }

    /// Ends channel `n`'s start delay
    pub fn end_dma_delay(&mut self, n: u8)
        requires
            old(self).wf(),
            n < 4,
        ensures
            final(self).wf(),
            final(self)@ == (IoView {
                dma_just_enabled: old(self)@.dma_just_enabled.update(n as int, false),
                ..old(self)@
            }),
    {
        self.dma_just_enabled.set(n as usize, false);
    }

    /// Sets channel `n`'s cached source address
    pub fn set_dma_source(&mut self, n: u8, value: u32)
        requires
            old(self).wf(),
            n < 4,
        ensures
            final(self).wf(),
            final(self)@ == (IoView {
                dma_source: old(self)@.dma_source.update(n as int, value),
                ..old(self)@
            }),
    {
        self.dma_source.set(n as usize, value);
    }

    /// Sets channel `n`'s cached destination address
    pub fn set_dma_dest(&mut self, n: u8, value: u32)
        requires
            old(self).wf(),
            n < 4,
        ensures
            final(self).wf(),
            final(self)@ == (IoView {
                dma_dest: old(self)@.dma_dest.update(n as int, value),
                ..old(self)@
            }),
    {
        self.dma_dest.set(n as usize, value);
    }

    /// Channel `n`'s decoded control register
    pub fn dma_control_of(&self, n: u8) -> (c: DmaControl)
        requires
            self.wf(),
            n < 4,
        ensures
            c == self@.dma_control(n as int),
    {
        match n {
            0 => self.dma0(),
            1 => self.dma1(),
            2 => self.dma2(),
            _ => self.dma3(),
        }
    }

    /// Channel `n`'s cached source, destination and word count
    pub fn dma_transfer_of(&self, n: u8) -> (r: (u32, u32, u16))
        requires
            self.wf(),
            n < 4,
        ensures
            r == (self@.dma_source[n as int], self@.dma_dest[n as int], self@.dma_count[n as int]),
    {
        (self.dma_source[n as usize], self.dma_dest[n as usize], self.dma_count[n as usize])
    }

    /// Clears channel `n`'s enable bit in its control register
    pub fn disable_dma(&mut self, n: u8)
        requires
            old(self).wf(),
            n < 4,
        ensures
            final(self).wf(),
            final(self)@ == old(self)@.put(
                dma_base(n as int) + 11,
                old(self)@.regs[dma_base(n as int) + 11] & !0x80u8,
            ),
    {
        match n {
            0 => self.disable_dma0(),
            1 => self.disable_dma1(),
            2 => self.disable_dma2(),
            _ => self.disable_dma3(),
        }
    }

    /// Clears DMA 0's enable bit in its control register
    pub fn disable_dma0(&mut self)
        requires
            old(self).wf(),
        ensures
            final(self).wf(),
            final(self)@ == old(self)@.put(0xBB, old(self)@.regs[0xBB] & !0x80u8),
    {
        let v = self.io_registers[0xBB];
        self.io_registers.set(0xBB, v & !0x80);
    }

    /// Clears DMA 1's enable bit in its control register
    pub fn disable_dma1(&mut self)
        requires
            old(self).wf(),
        ensures
            final(self).wf(),
            final(self)@ == old(self)@.put(0xC7, old(self)@.regs[0xC7] & !0x80u8),
    {
        let v = self.io_registers[0xC7];
        self.io_registers.set(0xC7, v & !0x80);
    }

    /// Clears DMA 2's enable bit in its control register
    pub fn disable_dma2(&mut self)
        requires
            old(self).wf(),
        ensures
            final(self).wf(),
            final(self)@ == old(self)@.put(0xD3, old(self)@.regs[0xD3] & !0x80u8),
    {
        let v = self.io_registers[0xD3];
        self.io_registers.set(0xD3, v & !0x80);
    }

    /// Clears DMA 3's enable bit in its control register
    pub fn disable_dma3(&mut self)
        requires
            old(self).wf(),
        ensures
            final(self).wf(),
            final(self)@ == old(self)@.put(0xDF, old(self)@.regs[0xDF] & !0x80u8),
    {
        let v = self.io_registers[0xDF];
        self.io_registers.set(0xDF, v & !0x80);
    }

    pub fn timer0_running(&self) -> (r: bool)
        requires
            self.wf(),
        ensures
            r == (self@.regs[0x102] >> 7u8 == 1),
    {
        (self.io_registers[0x102] >> 7) == 1
    }

    pub fn timer0_irq_enabled(&self) -> (r: bool)
        requires
            self.wf(),
        ensures
            r == ((self@.regs[0x102] >> 6u8) & 1 == 1),
    {
        (self.io_registers[0x102] >> 6) & 1 == 1
    }

    pub fn timer0_prescaler(&self) -> (r: u16)
        requires
            self.wf(),
        ensures
            r == prescaler(self@.regs[0x102]),
    {
        match self.io_registers[0x102] & 3 {
            0b00 => 1,
            0b01 => 64,
            0b10 => 256,
            _ => 1024,
        }
    }

    pub fn timer1_running(&self) -> (r: bool)
        requires
            self.wf(),
        ensures
            r == (self@.regs[0x106] >> 7u8 == 1),
    {
        (self.io_registers[0x106] >> 7) == 1
    }

    pub fn timer1_irq_enabled(&self) -> (r: bool)
        requires
            self.wf(),
        ensures
            r == ((self@.regs[0x106] >> 6u8) & 1 == 1),
    {
        (self.io_registers[0x106] >> 6) & 1 == 1
    }

    pub fn timer1_prescaler(&self) -> (r: u16)
        requires
            self.wf(),
        ensures
            r == prescaler(self@.regs[0x106]),
    {
        match self.io_registers[0x106] & 3 {
            0b00 => 1,
            0b01 => 64,
            0b10 => 256,
            _ => 1024,
        }
    }

    pub fn timer2_running(&self) -> (r: bool)
        requires
            self.wf(),
        ensures
            r == (self@.regs[0x10A] >> 7u8 == 1),
    {
        (self.io_registers[0x10A] >> 7) == 1
    }

    pub fn timer2_irq_enabled(&self) -> (r: bool)
        requires
            self.wf(),
        ensures
            r == ((self@.regs[0x10A] >> 6u8) & 1 == 1),
    {
        (self.io_registers[0x10A] >> 6) & 1 == 1
    }

    pub fn timer2_prescaler(&self) -> (r: u16)
        requires
            self.wf(),
        ensures
            r == prescaler(self@.regs[0x10A]),
    {
        match self.io_registers[0x10A] & 3 {
            0b00 => 1,
            0b01 => 64,
            0b10 => 256,
            _ => 1024,
        }
    }

    pub fn timer3_running(&self) -> (r: bool)
        requires
            self.wf(),
        ensures
            r == (self@.regs[0x10E] >> 7u8 == 1),
    {
        (self.io_registers[0x10E] >> 7) == 1
    }

    pub fn timer3_irq_enabled(&self) -> (r: bool)
        requires
            self.wf(),
        ensures
            r == ((self@.regs[0x10E] >> 6u8) & 1 == 1),
    {
        (self.io_registers[0x10E] >> 6) & 1 == 1
    }

    pub fn timer3_prescaler(&self) -> (r: u16)
        requires
            self.wf(),
        ensures
            r == prescaler(self@.regs[0x10E]),
    {
        match self.io_registers[0x10E] & 3 {
            0b00 => 1,
            0b01 => 64,
            0b10 => 256,
            _ => 1024,
        }
    }

    pub fn reload_dma_word_count(&mut self, dma_id: u8)
        requires
            old(self).wf(),
            dma_id < 4,
        ensures
            final(self).wf(),
            final(self)@ == (IoView {
                dma_count: old(self)@.dma_count.update(dma_id as int, old(self)@.dma_count_raw(dma_id as int)),
                ..old(self)@
            }),
    {
        let c = self.count_raw(dma_id);
        self.dma_count.set(dma_id as usize, c);
    }

    pub fn reload_dma_dest(&mut self, dma_id: u8)
        requires
            old(self).wf(),
            dma_id < 4,
        ensures
            final(self).wf(),
            final(self)@ == (IoView {
                dma_dest: old(self)@.dma_dest.update(dma_id as int, old(self)@.dma_dest_raw(dma_id as int)),
                ..old(self)@
            }),
    {
        let d = self.dest_raw(dma_id);
        self.dma_dest.set(dma_id as usize, d);
    }

    /// Whether timer `timer` raises an interrupt on overflow
    pub fn timer_irq_enabled(&self, timer: u8) -> (r: bool)
        requires
            self.wf(),
            timer < 4,
        ensures
            r == ((self@.regs[timer_base(timer as int) + 2] >> 6u8) & 1 == 1),
    {
        match timer {
            0 => self.timer0_irq_enabled(),
            1 => self.timer1_irq_enabled(),
            2 => self.timer2_irq_enabled(),
            _ => self.timer3_irq_enabled(),
        }
    }

    /// Whether timer `timer` is running
    pub fn timer_enabled(&self, timer: u8) -> (r: bool)
        requires
            self.wf(),
            timer < 4,
        ensures
            r == (self@.regs[timer_base(timer as int) + 2] >> 7u8 == 1),
    {
        match timer {
            0 => self.timer0_running(),
            1 => self.timer1_running(),
            2 => self.timer2_running(),
            _ => self.timer3_running(),
        }
    }

    fn reload_value(&self, timer: u8) -> (r: u16)
        requires
            self.wf(),
            timer < 4,
        ensures
            r == regs16(self@.regs, timer_base(timer as int)),
    {
        let i: usize = 0x100 + 4 * timer as usize;
        (self.io_registers[i] as u16) | ((self.io_registers[i + 1] as u16) << 8)
    }

    /// Counts a timer up by one; on overflow it is reloaded and `true` is
    /// returned
    pub fn increment_timer(&mut self, timer: u8) -> (overflow: bool)
        requires
            old(self).wf(),
            timer < 4,
        ensures
            final(self).wf(),
            overflow == (old(self)@.timers[timer as int] == 0xFFFF),
            final(self)@ == (IoView {
                timers: old(self)@.timers.update(
                    timer as int,
                    if overflow {
                        regs16(old(self)@.regs, timer_base(timer as int))
                    } else {
                        (old(self)@.timers[timer as int] + 1) as u16
                    },
                ),
                ..old(self)@
            }),
    {
        let reload = self.reload_value(timer);
        let overflow = match timer {
            0 => match self.timer0.checked_add(1) {
                Some(v) => {
                    self.timer0 = v;
                    false
                },
                None => {
                    self.timer0 = reload;
                    true
                },
            },
            1 => match self.timer1.checked_add(1) {
                Some(v) => {
                    self.timer1 = v;
                    false
                },
                None => {
                    self.timer1 = reload;
                    true
                },
            },
            2 => match self.timer2.checked_add(1) {
                Some(v) => {
                    self.timer2 = v;
                    false
                },
                None => {
                    self.timer2 = reload;
                    true
                },
            },
            _ => match self.timer3.checked_add(1) {
                Some(v) => {
                    self.timer3 = v;
                    false
                },
                None => {
                    self.timer3 = reload;
                    true
                },
            },
        };
        assert(self@.timers =~= old(self)@.timers.update(
            timer as int,
            if overflow {
                regs16(old(self)@.regs, timer_base(timer as int))
            } else {
                (old(self)@.timers[timer as int] + 1) as u16
            },
        ));
        overflow
    }

    /// Direct sound A to the (right, left) speaker, from SOUNDCNT_H
    pub fn sound_a_enabled(&self) -> (r: (bool, bool))
        requires
            self.wf(),
        ensures
            r == ((self@.regs[0x83] >> 1u8) & 1 == 1, (self@.regs[0x83] & 1) == 1),
    {
        ((self.io_registers[0x83] >> 1) & 1 == 1, (self.io_registers[0x83] & 1) == 1)
    }

    /// Direct sound B to the (right, left) speaker, from SOUNDCNT_H
    pub fn sound_b_enabled(&self) -> (r: (bool, bool))
        requires
            self.wf(),
        ensures
            r == ((self@.regs[0x83] >> 5u8) & 1 == 1, ((self@.regs[0x83] >> 4u8) & 1) == 1),
    {
        ((self.io_registers[0x83] >> 5) & 1 == 1, ((self.io_registers[0x83] >> 4) & 1) == 1)
    }

    /// An 8-bit CPU read
    pub fn get_mem8(&self, addr: u32) -> (r: u8)
        requires
            self.wf(),
            0x4000000 <= addr <= 0x4FFFFFF,
        ensures
            r == self@.read8(addr),
    {
        let a = addr & 0x3FF;
        assert(addr & 0x3FF < 0x400) by {
            crate::bits::lemma_u32(addr);
        }
        match apu_port_of(a) {
            Some(p) => return self.apu.get_mem(p),
            None => {},
        }
        if is_apu_gap(a) || (0xA0 <= a && a <= 0xDD) || (0x209 <= a && a <= 0x20B) {
            return 0;
        }
        match a {
            0x100 => (self.timer0 & 0xFF) as u8,
            0x101 => (self.timer0 >> 8) as u8,
            0x104 => (self.timer1 & 0xFF) as u8,
            0x105 => (self.timer1 >> 8) as u8,
            0x108 => (self.timer2 & 0xFF) as u8,
            0x109 => (self.timer2 >> 8) as u8,
            0x10C => (self.timer3 & 0xFF) as u8,
            0x10D => (self.timer3 >> 8) as u8,
            0x208 => self.io_registers[0x208] & 1,
            _ => self.io_registers[a as usize],
        }
    }

    /// A 16-bit CPU read, made of the bytes at the even address and the
    /// one after it
    pub fn get_mem16(&self, addr: u32) -> (r: u16)
        requires
            self.wf(),
            0x4000000 <= addr <= 0x4FFFFFF,
        ensures
            r == self@.read16(addr),
    {
        let lo_addr = addr & !1;
        let hi_addr = addr | 1;
        assert(0x4000000 <= addr <= 0x4FFFFFF ==> 0x4000000 <= addr & !1u32 <= 0x4FFFFFF) by {
            crate::bits::lemma_u32(addr);
        }
        assert(0x4000000 <= addr <= 0x4FFFFFF ==> 0x4000000 <= addr | 1 <= 0x4FFFFFF) by {
            crate::bits::lemma_u32(addr);
        }
        (self.get_mem8(lo_addr) as u16) | ((self.get_mem8(hi_addr) as u16) << 8)
    }

    /// A 32-bit CPU read, made of two 16-bit reads
    pub fn get_mem32(&self, addr: u32) -> (r: u32)
        requires
            self.wf(),
            0x4000000 <= addr <= 0x4FFFFFF,
        ensures
            r == self@.read32(addr),
    {
        let lo_addr = addr & !3;
        let hi_addr = addr | 2;
        assert(0x4000000 <= addr <= 0x4FFFFFF ==> 0x4000000 <= addr & !3u32 <= 0x4FFFFFF) by {
            crate::bits::lemma_u32(addr);
        }
        assert(0x4000000 <= addr <= 0x4FFFFFF ==> 0x4000000 <= addr | 2 <= 0x4FFFFFF) by {
            crate::bits::lemma_u32(addr);
        }
        (self.get_mem16(lo_addr) as u32) | ((self.get_mem16(hi_addr) as u32) << 16)
    }

    fn start_dma(&mut self, n: u8)
        requires
            old(self).wf(),
            n < 4,
        ensures
            final(self).wf(),
            final(self)@ == old(self)@.dma_started(n as int),
    {
        reveal(IoView::dma_started);
        reveal(IoView::dma_loaded);
        let was_enabled = match n {
            0 => self.dma0_enabled,
            1 => self.dma1_enabled,
            2 => self.dma2_enabled,
            _ => self.dma3_enabled,
        };
        if !was_enabled {
            self.dma_just_enabled.set(n as usize, true);
        }
        match n {
            0 => {
                self.dma0_enabled = true;
                self.dma0_delay_counter = 0;
            },
            1 => {
                self.dma1_enabled = true;
                self.dma1_delay_counter = 0;
            },
            2 => {
                self.dma2_enabled = true;
                self.dma2_delay_counter = 0;
            },
            _ => {
                self.dma3_enabled = true;
                self.dma3_delay_counter = 0;
            },
        }
        assert(self@.dma_enabled =~= old(self)@.dma_enabled.update(n as int, true));
        assert(self@.dma_delay =~= old(self)@.dma_delay.update(n as int, 0));
        assert(self@.dma_just_enabled =~= (if !old(self)@.dma_enabled[n as int] {
            old(self)@.dma_just_enabled.update(n as int, true)
        } else {
            old(self)@.dma_just_enabled
        }));
        self.load_internal_dma_values(n);
    }

    fn dma_control_effect(&mut self, a: u32, val: u8)
        requires
            old(self).wf(),
        ensures
            final(self).wf(),
            final(self)@ == old(self)@.dma_effect(a as int, val),
    {
        reveal(IoView::dma_effect);
        if a == 0xBB && val & 0x80 != 0 {
            self.start_dma(0);
        } else if a == 0xC7 && val & 0x80 != 0 {
            self.start_dma(1);
        } else if a == 0xC7 {
            self.dma1_enabled = false;
            assert(self@.dma_enabled =~= old(self)@.dma_enabled.update(1, false));
        } else if a == 0xD3 && val & 0x80 != 0 {
            self.start_dma(2);
        } else if a == 0xD3 {
            self.dma2_enabled = false;
            assert(self@.dma_enabled =~= old(self)@.dma_enabled.update(2, false));
        } else if a == 0xDF && val & 0x80 != 0 {
            self.start_dma(3);
        }
    }

    fn write_dma(&mut self, a: u32, val: u8)
        requires
            old(self).wf(),
            0xB0 <= a <= 0xE0,
        ensures
            final(self).wf(),
            final(self)@ == old(self)@.dma_written(a as int, val),
    {
        self.dma_control_effect(a, val);
        self.io_registers.set(a as usize, val);
    }

    fn write_timer_control(&mut self, n: u8, val: u8)
        requires
            old(self).wf(),
            n < 4,
        ensures
            final(self).wf(),
            final(self)@ == old(self)@.timer_control_written(n as int, val),
    {
        reveal(IoView::timer_control_written);
        let a: usize = 0x102 + 4 * n as usize;
        if (self.io_registers[a] >> 7) == 0 && (val >> 7) == 1 {
            let reload = self.reload_value(n);
            match n {
                0 => self.timer0 = reload,
                1 => self.timer1 = reload,
                2 => self.timer2 = reload,
                _ => self.timer3 = reload,
            }
            assert(self@.timers =~= old(self)@.timers.update(n as int, regs16(old(self)@.regs, timer_base(n as int))));
        }
        self.io_registers.set(a, val);
    }

    fn write_soundcnt(&mut self, val: u8)
        requires
            old(self).wf(),
        ensures
            final(self).wf(),
            final(self)@ == old(self)@.soundcnt_written(val),
    {
        reveal(IoView::soundcnt_written);
        if (val >> 3) & 1 == 1 {
            self.apu.gba_fifo_a.reset();
        }
        if (val >> 7) & 1 == 1 {
            self.apu.gba_fifo_b.reset();
        }
        let sound_a_enabled = ((val >> 1) & 1 == 1, (val & 1) == 1);
        let sound_b_enabled = ((val >> 5) & 1 == 1, ((val >> 4) & 1) == 1);
        self.apu.gba_sound_a_enabled = sound_a_enabled;
        self.apu.gba_sound_b_enabled = sound_b_enabled;
        self.sound_a_timer1 = (val >> 2) & 1 == 1;
        self.sound_b_timer1 = (val >> 6) & 1 == 1;
        self.io_registers.set(0x83, val);
    }

    fn write_waitcnt(&mut self, addr: u32, a: u32, val: u8)
        requires
            old(self).wf(),
            a == addr & 0x3FF,
            a == 0x204 || a == 0x205,
        ensures
            final(self).wf(),
            final(self)@ == old(self)@.written(addr, val),
    {
        assert(val & 0x3 < 4 && (val >> 2u8) & 0x3 < 4 && (val >> 5u8) & 0x3 < 4) by {
            crate::bits::lemma_u8(val);
        }
        if a == 0x204 {
            self.sram_wait = waitstate_of(val & 0x3);
            self.wait_state0.0 = waitstate_of((val >> 2) & 0x3);
            self.wait_state0.1 = if (val >> 4) & 1 == 1 {
                1
            } else {
                2
            };
            self.wait_state1.0 = waitstate_of((val >> 5) & 0x3);
            self.wait_state1.1 = if (val >> 7) & 1 == 1 {
                1
            } else {
                4
            };
        } else {
            self.wait_state2.0 = waitstate_of(val & 0x3);
            self.wait_state2.1 = if (val >> 2) & 1 == 1 {
                1
            } else {
                8
            };
        }
        self.io_registers.set(a as usize, val);
    }

    /// An 8-bit CPU write, with the side effects of the register written
    pub fn set_mem8(&mut self, addr: u32, val: u8)
        requires
            old(self).wf(),
            0x4000000 <= addr <= 0x4FFFFFF,
            io_write_defined(addr, val),
        ensures
            final(self).wf(),
            final(self)@ == old(self)@.written(addr, val),
    {
        let a = addr & 0x3FF;
        assert(addr & 0x3FF < 0x400) by {
            crate::bits::lemma_u32(addr);
        }
        if a == 0x4 {
            let writeable_bits = val & !0x47;
            let old_v = self.io_registers[0x4];
            self.io_registers.set(0x4, (old_v & !writeable_bits) | !writeable_bits);
            return ;
        }
        if a == 0x6 || a == 0x7 {
            return ;
        }
        if 0x20 <= a && a <= 0x2F {
            self.bg2_rotation = exec_rotation_written(self.bg2_rotation, a - 0x20, val);
            return ;
        }
        if 0x30 <= a && a <= 0x3F {
            self.bg3_rotation = exec_rotation_written(self.bg3_rotation, a - 0x30, val);
            return ;
        }
        match apu_port_of(a) {
            Some(p) => {
                self.apu.set_mem(p, val);
                return ;
            },
            None => {},
        }
        if is_apu_gap(a) {
            return ;
        }
        if a == 0x83 {
            self.write_soundcnt(val);
            return ;
        }
        if a == 0x202 || a == 0x203 {
            let old_v = self.io_registers[a as usize];
            self.io_registers.set(a as usize, old_v & !val);
            return ;
        }
        if 0xB0 <= a && a <= 0xE0 {
            self.write_dma(a, val);
            return ;
        }
        if a == 0x102 || a == 0x106 || a == 0x10A || a == 0x10E {
            self.write_timer_control(((a - 0x102) / 4) as u8, val);
            return ;
        }
        if 0x100 <= a && a <= 0x11D {
            self.io_registers.set(a as usize, val);
            return ;
        }
        if a == 0x130 || a == 0x131 {
            return ;
        }
        if a == 0x204 || a == 0x205 {
            self.write_waitcnt(addr, a, val);
            return ;
        }
        if a == 0x206 || a == 0x207 {
            return ;
        }
        if a == 0x208 {
            self.io_registers.set(0x208, val & 1);
            return ;
        }
        if 0x209 <= a && a <= 0x20B {
            return ;
        }
        if 0x214 <= a && a <= 0x217 {
            let old_v = self.io_registers[a as usize];
            self.io_registers.set(a as usize, old_v & !val);
            return ;
        }
        self.io_registers.set(a as usize, val);
    }

    /// A 16-bit CPU write: the low byte to the even address, the high
    /// byte to the one after it
    pub fn set_mem16(&mut self, addr: u32, val: u16)
        requires
            old(self).wf(),
            0x4000000 <= addr <= 0x4FFFFFF,
            io_write_defined(addr & !1u32, val as u8),
            io_write_defined(addr | 1, (val >> 8u16) as u8),
        ensures
            final(self).wf(),
            final(self)@ == old(self)@.written16(addr, val),
    {
        let lo_addr = addr & !1;
        let hi_addr = addr | 1;
        assert(0x4000000 <= addr <= 0x4FFFFFF ==> 0x4000000 <= addr & !1u32 <= 0x4FFFFFF) by {
            crate::bits::lemma_u32(addr);
        }
        assert(0x4000000 <= addr <= 0x4FFFFFF ==> 0x4000000 <= addr | 1 <= 0x4FFFFFF) by {
            crate::bits::lemma_u32(addr);
        }
        let lo_byte = val as u8;
        let hi_byte = (val >> 8) as u8;
        self.set_mem8(lo_addr, lo_byte);
        self.set_mem8(hi_addr, hi_byte);
    }

    fn push_word(f: &mut crate::cpu::fifo::Fifo, val: u32)
        requires
            old(f).wf(),
        ensures
            final(f).wf(),
            final(f)@ == IoView::fifo_pushed(old(f)@, val),
    {
        f.push((val & 0xFF) as u8 as i8);
        f.push(((val >> 8) & 0xFF) as u8 as i8);
        f.push(((val >> 16) & 0xFF) as u8 as i8);
        f.push((val >> 24) as u8 as i8);
    }

    /// A 32-bit CPU write: words written to 0x40000A0 and 0x40000A4 are
    /// pushed, low byte first, into sound FIFO A and B; other words are
    /// written as two halves
    pub fn set_mem32(&mut self, addr: u32, val: u32)
        requires
            old(self).wf(),
            0x4000000 <= addr <= 0x4FFFFFF,
            addr != 0x40000A0 && addr != 0x40000A4 ==> {
                &&& io_write_defined(addr & !3u32, val as u8)
                &&& io_write_defined((addr & !3u32) | 1, (val >> 8u32) as u8)
                &&& io_write_defined((addr | 2) & !1u32, (val >> 16u32) as u8)
                &&& io_write_defined((addr | 2) | 1, (val >> 24u32) as u8)
            },
        ensures
            final(self).wf(),
            final(self)@ == old(self)@.written32(addr, val),
    {
        if addr == 0x40000A0 {
            Self::push_word(&mut self.apu.gba_fifo_a, val);
            return ;
        }
        if addr == 0x40000A4 {
            Self::push_word(&mut self.apu.gba_fifo_b, val);
            return ;
        }
        let lo_addr = addr & !3;
        let hi_addr = addr | 2;
        assert(0x4000000 <= addr <= 0x4FFFFFF ==> 0x4000000 <= addr & !3u32 <= 0x4FFFFFF) by {
            crate::bits::lemma_u32(addr);
        }
        assert(0x4000000 <= addr <= 0x4FFFFFF ==> 0x4000000 <= addr | 2 <= 0x4FFFFFF) by {
            crate::bits::lemma_u32(addr);
        }
        assert((addr & !3u32) & !1u32 == addr & !3u32) by {
            crate::bits::lemma_u32(addr);
        }
        assert(((val as u16) >> 8u16) as u8 == (val >> 8u32) as u8) by {
            crate::bits::lemma_u32_bytes(val);
        }
        assert(((val >> 16u32) as u16) as u8 == (val >> 16u32) as u8) by {
            crate::bits::lemma_u32_bytes(val);
        }
        assert((((val >> 16u32) as u16) >> 8u16) as u8 == (val >> 24u32) as u8) by {
            crate::bits::lemma_u32_bytes(val);
        }
        assert((val as u16) as u8 == val as u8) by {
            crate::bits::lemma_u32_bytes(val);
        }
        self.set_mem16(lo_addr, val as u16);
        self.set_mem16(hi_addr, (val >> 16) as u16);
    }

}

} // verus!
