//! The GBA machine: CPU registers, memories and I/O, with the register
//! bits that the PPU and the interrupt controller read and write
use vstd::prelude::*;

use super::control::{spec_bg_control, PpuBgControl};
use super::io::{io_write_defined, IoRegisters, IoView, IO_SIZE};
use super::registers::{
    bit_of, spec_cond_from_u8, spec_register_mode_to_u8, with_bit, Cond, RegisterMode, Registers,
};
use super::shifter::{asr_spec, carried, lsl_spec, lsr_spec, ror_spec, rotr, rrx_spec, BarrelShifter};

pub mod dma;

verus! {

pub const BIOS_SIZE: usize = 0x4000;
pub const IW_RAM_SIZE: usize = 0x8000;
pub const WRAM_SIZE: usize = 0x40000;
pub const PALETTE_SIZE: usize = 0x400;
pub const VRAM_SIZE: usize = 0x18000;
pub const OAM_SIZE: usize = 0x400;
pub const SRAM_SIZE: usize = 0x80000;

/// Bit `b` of a byte
pub open spec fn bit8(x: u8, b: u8) -> bool {
    (x >> b) & 1 == 1
}

/// A byte with bit `b` set to `v`
pub open spec fn set_bit8(x: u8, b: u8, v: bool) -> u8 {
    (x & !(1u8 << b)) | ((if v {
        1u8
    } else {
        0u8
    }) << b)
}

pub struct GameboyAdvance {
    r: Registers,
    entire_rom: Vec<u8>,
    bios: Vec<u8>,
    iw_ram: Vec<u8>,
    wram: Vec<u8>,
    pub io_registers: IoRegisters,
    pub obj_palette_ram: Vec<u8>,
    pub vram: Vec<u8>,
    pub oam: Vec<u8>,
    sram: Vec<u8>,
    debug_counter: usize,
}

/// The mathematical state of the machine
pub ghost struct GbaView {
    pub r: Registers,
    pub rom: Seq<u8>,
    pub bios: Seq<u8>,
    pub iw_ram: Seq<u8>,
    pub wram: Seq<u8>,
    pub io: IoView,
    pub palette: Seq<u8>,
    pub vram: Seq<u8>,
    pub oam: Seq<u8>,
    pub sram: Seq<u8>,
}

impl View for GameboyAdvance {
    type V = GbaView;

    closed spec fn view(&self) -> GbaView {
        GbaView {
            r: self.r,
            rom: self.entire_rom@,
            bios: self.bios@,
            iw_ram: self.iw_ram@,
            wram: self.wram@,
            io: self.io_registers@,
            palette: self.obj_palette_ram@,
            vram: self.vram@,
            oam: self.oam@,
            sram: self.sram@,
        }
    }
}

impl GbaView {
    /// The state with the I/O register file byte `i` replaced
    pub open spec fn with_io_reg(self, i: int, v: u8) -> GbaView {
        GbaView { io: self.io.put(i, v), ..self }
    }

    /// A bit of an I/O register
    pub open spec fn io_bit(self, i: int, b: u8) -> bool {
        bit8(self.io.regs[i], b)
    }

    /// A 16-bit value in the I/O register file
    pub open spec fn io16(self, lo: int) -> u16 {
        ((self.io.regs[lo + 1] as u16) << 8u16) | (self.io.regs[lo] as u16)
    }
}

/// Bit 0 of a byte is its lowest bit.
pub proof fn lemma_bit0(x: u8)
    ensures
        bit8(x, 0) == (x & 1 == 1),
        set_bit8(x, 0, true) == (x & !1u8) | 1,
        set_bit8(x, 0, false) == (x & !1u8) | 0,
{
    assert((x >> 0u8) & 1 == x & 1) by {
        crate::bits::lemma_u8(x);
    }
    assert(!(1u8 << 0u8) == !1u8) by {
        crate::bits::lemma_u8(x);
    }
    assert(1u8 << 0u8 == 1u8) by {
        crate::bits::lemma_u8(x);
    }
    assert(0u8 << 0u8 == 0u8) by {
        crate::bits::lemma_u8(x);
    }
}

impl GameboyAdvance {
    /// The memories have their sizes and the I/O registers are well formed
    pub closed spec fn wf(&self) -> bool {
        &&& self.bios@.len() == BIOS_SIZE
        &&& self.iw_ram@.len() == IW_RAM_SIZE
        &&& self.wram@.len() == WRAM_SIZE
        &&& self.obj_palette_ram@.len() == PALETTE_SIZE
        &&& self.vram@.len() == VRAM_SIZE
        &&& self.oam@.len() == OAM_SIZE
        &&& self.sram@.len() == SRAM_SIZE
        &&& self.io_registers.wf()
    }

    /// The sizes that well formed state gives the view
    pub proof fn lemma_wf(&self)
        requires
            self.wf(),
        ensures
            self@.bios.len() == BIOS_SIZE,
            self@.iw_ram.len() == IW_RAM_SIZE,
            self@.wram.len() == WRAM_SIZE,
            self@.palette.len() == PALETTE_SIZE,
            self@.vram.len() == VRAM_SIZE,
            self@.oam.len() == OAM_SIZE,
            self@.sram.len() == SRAM_SIZE,
            self@.io.regs.len() == IO_SIZE,
    {
        self.io_registers.lemma_wf();
    }

    /// A machine with zeroed memories and no cartridge
    pub fn new(direct_boot: bool) -> (g: GameboyAdvance)
        ensures
            g.wf(),
            g@.r == Registers::spec_new(direct_boot),
            g@.rom == Seq::<u8>::empty(),
            g@.bios == Seq::new(BIOS_SIZE as nat, |i: int| 0u8),
            g@.iw_ram == Seq::new(IW_RAM_SIZE as nat, |i: int| 0u8),
            g@.wram == Seq::new(WRAM_SIZE as nat, |i: int| 0u8),
            g@.palette == Seq::new(PALETTE_SIZE as nat, |i: int| 0u8),
            g@.vram == Seq::new(VRAM_SIZE as nat, |i: int| 0u8),
            g@.oam == Seq::new(OAM_SIZE as nat, |i: int| 0u8),
            g@.sram == Seq::new(SRAM_SIZE as nat, |i: int| 0u8),
            g@.io == IoRegisters::spec_new(direct_boot),
    {
        let g = GameboyAdvance {
            r: Registers::new(direct_boot),
            entire_rom: Vec::new(),
            bios: vec![0u8; BIOS_SIZE],
            iw_ram: vec![0u8; IW_RAM_SIZE],
            wram: vec![0u8; WRAM_SIZE],
            io_registers: IoRegisters::new(direct_boot),
            obj_palette_ram: vec![0u8; PALETTE_SIZE],
            vram: vec![0u8; VRAM_SIZE],
            oam: vec![0u8; OAM_SIZE],
            sram: vec![0u8; SRAM_SIZE],
            debug_counter: 0,
        };
        assert(g@.bios =~= Seq::new(BIOS_SIZE as nat, |i: int| 0u8));
        assert(g@.iw_ram =~= Seq::new(IW_RAM_SIZE as nat, |i: int| 0u8));
        assert(g@.wram =~= Seq::new(WRAM_SIZE as nat, |i: int| 0u8));
        assert(g@.palette =~= Seq::new(PALETTE_SIZE as nat, |i: int| 0u8));
        assert(g@.vram =~= Seq::new(VRAM_SIZE as nat, |i: int| 0u8));
        assert(g@.oam =~= Seq::new(OAM_SIZE as nat, |i: int| 0u8));
        assert(g@.sram =~= Seq::new(SRAM_SIZE as nat, |i: int| 0u8));
        g
    }

    /// Keeps a cartridge image; its header must be there
    pub fn load_rom(&mut self, bytes: Vec<u8>)
        requires
            old(self).wf(),
            bytes@.len() >= 0xB4,
        ensures
            final(self).wf(),
            final(self)@ == (GbaView { rom: bytes@, ..old(self)@ }),
    {
        self.entire_rom = bytes;
    }

    /// Copies in the BIOS image, which must be exactly 16 KiB
    pub fn load_bios(&mut self, data: &[u8])
        requires
            old(self).wf(),
            data@.len() == BIOS_SIZE,
        ensures
            final(self).wf(),
            final(self)@ == (GbaView { bios: data@, ..old(self)@ }),
    {
        let mut i: usize = 0;
        while i < BIOS_SIZE
            invariant
                i <= BIOS_SIZE,
                data@.len() == BIOS_SIZE,
                self.wf(),
                self@ == (GbaView { bios: self@.bios, ..old(self)@ }),
                forall|j: int| 0 <= j < i ==> self@.bios[j] == data@[j],
            decreases BIOS_SIZE - i,
        {
            self.bios.set(i, data[i]);
            i = i + 1;
        }
        assert(self@.bios =~= data@);
    }

    /// The CPU registers
    pub fn registers(&self) -> (r: &Registers)
        ensures
            *r == self@.r,
    {
        &self.r
    }

    /// The CPU registers, to be changed
    pub fn registers_mut(&mut self) -> (r: &mut Registers)
        ensures
            *r == old(self)@.r,
            final(self)@ == (GbaView { r: *final(r), ..old(self)@ }),
            final(self).wf() == old(self).wf(),
    {
        &mut self.r
    }

    /// Whether an ARM condition holds for the current flags
    pub fn cond_should_execute(&self, cond: Cond) -> (r: bool)
        ensures
            r == cond_holds(self@.r, cond),
    {
        let z = self.r.cpsr_zero_flag();
        let c = self.r.cpsr_carry_flag();
        let n = self.r.cpsr_sign_flag();
        let v = self.r.cpsr_overflow_flag();
        match cond {
            Cond::Eq => z,
            Cond::Ne => !z,
            Cond::CsHs => c,
            Cond::CcLo => !c,
            Cond::Mi => n,
            Cond::Pl => !n,
            Cond::Vs => v,
            Cond::Vc => !v,
            Cond::Hi => c && !z,
            Cond::Ls => !c || z,
            Cond::Ge => n == v,
            Cond::Lt => n != v,
            Cond::Gt => !z && (n == v),
            Cond::Le => z || (n != v),
            Cond::Al => true,
            Cond::Nv => false,
        }
    }

    pub fn ppu_frame_select(&self) -> (r: bool)
        requires
            self.wf(),
        ensures
            r == self@.io_bit(0x0, 4),
    {
        proof {
            self.lemma_wf();
        }
        (self.io_registers.reg(0x0) >> 4) & 1 == 1
    }

    pub fn ppu_obj_mapping_1d(&self) -> (r: bool)
        requires
            self.wf(),
        ensures
            r == self@.io_bit(0x0, 6),
    {
        proof {
            self.lemma_wf();
        }
        (self.io_registers.reg(0x0) >> 6) & 1 == 1
    }

    pub fn ppu_force_blank(&self) -> (r: bool)
        requires
            self.wf(),
        ensures
            r == self@.io_bit(0x0, 7),
    {
        proof {
            self.lemma_wf();
        }
        (self.io_registers.reg(0x0) >> 7) & 1 == 1
    }

    pub fn ppu_bg0_enabled(&self) -> (r: bool)
        requires
            self.wf(),
        ensures
            r == self@.io_bit(0x1, 0),
    {
        proof {
            self.lemma_wf();
        }
        let x = self.io_registers.reg(0x1);
        proof {
            lemma_bit0(x);
        }
        x & 1 == 1
    }

    pub fn ppu_bg1_enabled(&self) -> (r: bool)
        requires
            self.wf(),
        ensures
            r == self@.io_bit(0x1, 1),
    {
        proof {
            self.lemma_wf();
        }
        (self.io_registers.reg(0x1) >> 1) & 1 == 1
    }

    pub fn ppu_bg2_enabled(&self) -> (r: bool)
        requires
            self.wf(),
        ensures
            r == self@.io_bit(0x1, 2),
    {
        proof {
            self.lemma_wf();
        }
        (self.io_registers.reg(0x1) >> 2) & 1 == 1
    }

    pub fn ppu_bg3_enabled(&self) -> (r: bool)
        requires
            self.wf(),
        ensures
            r == self@.io_bit(0x1, 3),
    {
        proof {
            self.lemma_wf();
        }
        (self.io_registers.reg(0x1) >> 3) & 1 == 1
    }

    pub fn ppu_obj_enabled(&self) -> (r: bool)
        requires
            self.wf(),
        ensures
            r == self@.io_bit(0x1, 4),
    {
        proof {
            self.lemma_wf();
        }
        (self.io_registers.reg(0x1) >> 4) & 1 == 1
    }

    pub fn ppu_win0_enabled(&self) -> (r: bool)
        requires
            self.wf(),
        ensures
            r == self@.io_bit(0x1, 5),
    {
        proof {
            self.lemma_wf();
        }
        (self.io_registers.reg(0x1) >> 5) & 1 == 1
    }

    pub fn ppu_win1_enabled(&self) -> (r: bool)
        requires
            self.wf(),
        ensures
            r == self@.io_bit(0x1, 6),
    {
        proof {
            self.lemma_wf();
        }
        (self.io_registers.reg(0x1) >> 6) & 1 == 1
    }

    pub fn ppu_obj_win_enabled(&self) -> (r: bool)
        requires
            self.wf(),
        ensures
            r == self@.io_bit(0x1, 7),
    {
        proof {
            self.lemma_wf();
        }
        (self.io_registers.reg(0x1) >> 7) & 1 == 1
    }

    pub fn ppu_hblank_irq_enabled(&self) -> (r: bool)
        requires
            self.wf(),
        ensures
            r == self@.io_bit(0x4, 3),
    {
        proof {
            self.lemma_wf();
        }
        (self.io_registers.reg(0x4) >> 3) & 1 == 1
    }

    pub fn ppu_vblank_irq_enabled(&self) -> (r: bool)
        requires
            self.wf(),
        ensures
            r == self@.io_bit(0x4, 4),
    {
        proof {
            self.lemma_wf();
        }
        (self.io_registers.reg(0x4) >> 4) & 1 == 1
    }

    pub fn ppu_vcounter_irq_enabled(&self) -> (r: bool)
        requires
            self.wf(),
        ensures
            r == self@.io_bit(0x4, 5),
    {
        proof {
            self.lemma_wf();
        }
        (self.io_registers.reg(0x4) >> 5) & 1 == 1
    }

    pub fn master_interrupts_enabled(&self) -> (r: bool)
        requires
            self.wf(),
        ensures
            r == self@.io_bit(0x208, 0),
    {
        proof {
            self.lemma_wf();
        }
        let x = self.io_registers.reg(0x208);
        proof {
            lemma_bit0(x);
        }
        x & 1 == 1
    }

    pub fn lcdc_vblank_interrupt_enabled(&self) -> (r: bool)
        requires
            self.wf(),
        ensures
            r == self@.io_bit(0x200, 0),
    {
        proof {
            self.lemma_wf();
        }
        let x = self.io_registers.reg(0x200);
        proof {
            lemma_bit0(x);
        }
        x & 1 == 1
    }

    pub fn lcdc_hblank_interrupt_enabled(&self) -> (r: bool)
        requires
            self.wf(),
        ensures
            r == self@.io_bit(0x200, 1),
    {
        proof {
            self.lemma_wf();
        }
        (self.io_registers.reg(0x200) >> 1) & 1 == 1
    }

    pub fn lcdc_vcounter_interrupt_enabled(&self) -> (r: bool)
        requires
            self.wf(),
        ensures
            r == self@.io_bit(0x200, 2),
    {
        proof {
            self.lemma_wf();
        }
        (self.io_registers.reg(0x200) >> 2) & 1 == 1
    }

    pub fn timer0_interrupt_enabled(&self) -> (r: bool)
        requires
            self.wf(),
        ensures
            r == self@.io_bit(0x200, 3),
    {
        proof {
            self.lemma_wf();
        }
        (self.io_registers.reg(0x200) >> 3) & 1 == 1
    }

    pub fn timer1_interrupt_enabled(&self) -> (r: bool)
        requires
            self.wf(),
        ensures
            r == self@.io_bit(0x200, 4),
    {
        proof {
            self.lemma_wf();
        }
        (self.io_registers.reg(0x200) >> 4) & 1 == 1
    }

    pub fn timer2_interrupt_enabled(&self) -> (r: bool)
        requires
            self.wf(),
        ensures
            r == self@.io_bit(0x200, 5),
    {
        proof {
            self.lemma_wf();
        }
        (self.io_registers.reg(0x200) >> 5) & 1 == 1
    }

    pub fn timer3_interrupt_enabled(&self) -> (r: bool)
        requires
            self.wf(),
        ensures
            r == self@.io_bit(0x200, 6),
    {
        proof {
            self.lemma_wf();
        }
        (self.io_registers.reg(0x200) >> 6) & 1 == 1
    }

    pub fn serial_interrupt_enabled(&self) -> (r: bool)
        requires
            self.wf(),
        ensures
            r == self@.io_bit(0x200, 7),
    {
        proof {
            self.lemma_wf();
        }
        (self.io_registers.reg(0x200) >> 7) & 1 == 1
    }

    pub fn dma0_interrupt_enabled(&self) -> (r: bool)
        requires
            self.wf(),
        ensures
            r == self@.io_bit(0x201, 0),
    {
        proof {
            self.lemma_wf();
        }
        let x = self.io_registers.reg(0x201);
        proof {
            lemma_bit0(x);
        }
        x & 1 == 1
    }

    pub fn dma1_interrupt_enabled(&self) -> (r: bool)
        requires
            self.wf(),
        ensures
            r == self@.io_bit(0x201, 1),
    {
        proof {
            self.lemma_wf();
        }
        (self.io_registers.reg(0x201) >> 1) & 1 == 1
    }

    pub fn dma2_interrupt_enabled(&self) -> (r: bool)
        requires
            self.wf(),
        ensures
            r == self@.io_bit(0x201, 2),
    {
        proof {
            self.lemma_wf();
        }
        (self.io_registers.reg(0x201) >> 2) & 1 == 1
    }

    pub fn dma3_interrupt_enabled(&self) -> (r: bool)
        requires
            self.wf(),
        ensures
            r == self@.io_bit(0x201, 3),
    {
        proof {
            self.lemma_wf();
        }
        (self.io_registers.reg(0x201) >> 3) & 1 == 1
    }

    pub fn keypad_interrupt_enabled(&self) -> (r: bool)
        requires
            self.wf(),
        ensures
            r == self@.io_bit(0x201, 4),
    {
        proof {
            self.lemma_wf();
        }
        (self.io_registers.reg(0x201) >> 4) & 1 == 1
    }

    pub fn game_pak_interrupt_enabled(&self) -> (r: bool)
        requires
            self.wf(),
        ensures
            r == self@.io_bit(0x201, 5),
    {
        proof {
            self.lemma_wf();
        }
        (self.io_registers.reg(0x201) >> 5) & 1 == 1
    }

    pub fn lcdc_vblank_interrupt_requested(&self) -> (r: bool)
        requires
            self.wf(),
        ensures
            r == self@.io_bit(0x202, 0),
    {
        proof {
            self.lemma_wf();
        }
        let x = self.io_registers.reg(0x202);
        proof {
            lemma_bit0(x);
        }
        x & 1 == 1
    }

    pub fn lcdc_hblank_interrupt_requested(&self) -> (r: bool)
        requires
            self.wf(),
        ensures
            r == self@.io_bit(0x202, 1),
    {
        proof {
            self.lemma_wf();
        }
        (self.io_registers.reg(0x202) >> 1) & 1 == 1
    }

    pub fn lcdc_vcounter_interrupt_requested(&self) -> (r: bool)
        requires
            self.wf(),
        ensures
            r == self@.io_bit(0x202, 2),
    {
        proof {
            self.lemma_wf();
        }
        (self.io_registers.reg(0x202) >> 2) & 1 == 1
    }

    pub fn timer0_interrupt_requested(&self) -> (r: bool)
        requires
            self.wf(),
        ensures
            r == self@.io_bit(0x202, 3),
    {
        proof {
            self.lemma_wf();
        }
        (self.io_registers.reg(0x202) >> 3) & 1 == 1
    }

    pub fn timer1_interrupt_requested(&self) -> (r: bool)
        requires
            self.wf(),
        ensures
            r == self@.io_bit(0x202, 4),
    {
        proof {
            self.lemma_wf();
        }
        (self.io_registers.reg(0x202) >> 4) & 1 == 1
    }

    pub fn timer2_interrupt_requested(&self) -> (r: bool)
        requires
            self.wf(),
        ensures
            r == self@.io_bit(0x202, 5),
    {
        proof {
            self.lemma_wf();
        }
        (self.io_registers.reg(0x202) >> 5) & 1 == 1
    }

    pub fn timer3_interrupt_requested(&self) -> (r: bool)
        requires
            self.wf(),
        ensures
            r == self@.io_bit(0x202, 6),
    {
        proof {
            self.lemma_wf();
        }
        (self.io_registers.reg(0x202) >> 6) & 1 == 1
    }

    pub fn serial_interrupt_requested(&self) -> (r: bool)
        requires
            self.wf(),
        ensures
            r == self@.io_bit(0x202, 7),
    {
        proof {
            self.lemma_wf();
        }
        (self.io_registers.reg(0x202) >> 7) & 1 == 1
    }

    pub fn dma0_interrupt_requested(&self) -> (r: bool)
        requires
            self.wf(),
        ensures
            r == self@.io_bit(0x203, 0),
    {
        proof {
            self.lemma_wf();
        }
        let x = self.io_registers.reg(0x203);
        proof {
            lemma_bit0(x);
        }
        x & 1 == 1
    }

    pub fn dma1_interrupt_requested(&self) -> (r: bool)
        requires
            self.wf(),
        ensures
            r == self@.io_bit(0x203, 1),
    {
        proof {
            self.lemma_wf();
        }
        (self.io_registers.reg(0x203) >> 1) & 1 == 1
    }

    pub fn dma2_interrupt_requested(&self) -> (r: bool)
        requires
            self.wf(),
        ensures
            r == self@.io_bit(0x203, 2),
    {
        proof {
            self.lemma_wf();
        }
        (self.io_registers.reg(0x203) >> 2) & 1 == 1
    }

    pub fn dma3_interrupt_requested(&self) -> (r: bool)
        requires
            self.wf(),
        ensures
            r == self@.io_bit(0x203, 3),
    {
        proof {
            self.lemma_wf();
        }
        (self.io_registers.reg(0x203) >> 3) & 1 == 1
    }

    pub fn keypad_interrupt_requested(&self) -> (r: bool)
        requires
            self.wf(),
        ensures
            r == self@.io_bit(0x203, 4),
    {
        proof {
            self.lemma_wf();
        }
        (self.io_registers.reg(0x203) >> 4) & 1 == 1
    }

    pub fn game_pak_interrupt_requested(&self) -> (r: bool)
        requires
            self.wf(),
        ensures
            r == self@.io_bit(0x203, 5),
    {
        proof {
            self.lemma_wf();
        }
        (self.io_registers.reg(0x203) >> 5) & 1 == 1
    }

    pub fn ppu_set_vblank(&mut self, v: bool)
        requires
            old(self).wf(),
        ensures
            final(self).wf(),
            final(self)@ == old(self)@.with_io_reg(0x4, set_bit8(old(self)@.io.regs[0x4], 0, v)),
    {
        proof {
            self.lemma_wf();
        }
        let x = self.io_registers.reg(0x4);
        self.io_registers.set_reg(0x4, (x & !(1u8 << 0u8)) | ((if v { 1u8 } else { 0u8 }) << 0u8));
    }

    pub fn ppu_set_hblank(&mut self, v: bool)
        requires
            old(self).wf(),
        ensures
            final(self).wf(),
            final(self)@ == old(self)@.with_io_reg(0x4, set_bit8(old(self)@.io.regs[0x4], 1, v)),
    {
        proof {
            self.lemma_wf();
        }
        let x = self.io_registers.reg(0x4);
        self.io_registers.set_reg(0x4, (x & !(1u8 << 1u8)) | ((if v { 1u8 } else { 0u8 }) << 1u8));
    }

    pub fn ppu_set_vcounter(&mut self, v: bool)
        requires
            old(self).wf(),
        ensures
            final(self).wf(),
            final(self)@ == old(self)@.with_io_reg(0x4, set_bit8(old(self)@.io.regs[0x4], 2, v)),
    {
        proof {
            self.lemma_wf();
        }
        let x = self.io_registers.reg(0x4);
        self.io_registers.set_reg(0x4, (x & !(1u8 << 2u8)) | ((if v { 1u8 } else { 0u8 }) << 2u8));
    }

    pub fn set_lcdc_vblank_interrupt(&mut self, value: bool)
        requires
            old(self).wf(),
        ensures
            final(self).wf(),
            final(self)@ == old(self)@.with_io_reg(0x202, set_bit8(old(self)@.io.regs[0x202], 0, value)),
    {
        proof {
            self.lemma_wf();
        }
        let x = self.io_registers.reg(0x202);
        self.io_registers.set_reg(0x202, (x & !(1u8 << 0u8)) | ((if value { 1u8 } else { 0u8 }) << 0u8));
    }

    pub fn set_lcdc_hblank_interrupt(&mut self, value: bool)
        requires
            old(self).wf(),
        ensures
            final(self).wf(),
            final(self)@ == old(self)@.with_io_reg(0x202, set_bit8(old(self)@.io.regs[0x202], 1, value)),
    {
        proof {
            self.lemma_wf();
        }
        let x = self.io_registers.reg(0x202);
        self.io_registers.set_reg(0x202, (x & !(1u8 << 1u8)) | ((if value { 1u8 } else { 0u8 }) << 1u8));
    }

    pub fn set_lcdc_vcounter_interrupt(&mut self, value: bool)
        requires
            old(self).wf(),
        ensures
            final(self).wf(),
            final(self)@ == old(self)@.with_io_reg(0x202, set_bit8(old(self)@.io.regs[0x202], 2, value)),
    {
        proof {
            self.lemma_wf();
        }
        let x = self.io_registers.reg(0x202);
        self.io_registers.set_reg(0x202, (x & !(1u8 << 2u8)) | ((if value { 1u8 } else { 0u8 }) << 2u8));
    }

    pub fn set_timer0_interrupt(&mut self, value: bool)
        requires
            old(self).wf(),
        ensures
            final(self).wf(),
            final(self)@ == old(self)@.with_io_reg(0x202, set_bit8(old(self)@.io.regs[0x202], 3, value)),
    {
        proof {
            self.lemma_wf();
        }
        let x = self.io_registers.reg(0x202);
        self.io_registers.set_reg(0x202, (x & !(1u8 << 3u8)) | ((if value { 1u8 } else { 0u8 }) << 3u8));
    }

    pub fn set_timer1_interrupt(&mut self, value: bool)
        requires
            old(self).wf(),
        ensures
            final(self).wf(),
            final(self)@ == old(self)@.with_io_reg(0x202, set_bit8(old(self)@.io.regs[0x202], 4, value)),
    {
        proof {
            self.lemma_wf();
        }
        let x = self.io_registers.reg(0x202);
        self.io_registers.set_reg(0x202, (x & !(1u8 << 4u8)) | ((if value { 1u8 } else { 0u8 }) << 4u8));
    }

    pub fn set_timer2_interrupt(&mut self, value: bool)
        requires
            old(self).wf(),
        ensures
            final(self).wf(),
            final(self)@ == old(self)@.with_io_reg(0x202, set_bit8(old(self)@.io.regs[0x202], 5, value)),
    {
        proof {
            self.lemma_wf();
        }
        let x = self.io_registers.reg(0x202);
        self.io_registers.set_reg(0x202, (x & !(1u8 << 5u8)) | ((if value { 1u8 } else { 0u8 }) << 5u8));
    }

    pub fn set_timer3_interrupt(&mut self, value: bool)
        requires
            old(self).wf(),
        ensures
            final(self).wf(),
            final(self)@ == old(self)@.with_io_reg(0x202, set_bit8(old(self)@.io.regs[0x202], 6, value)),
    {
        proof {
            self.lemma_wf();
        }
        let x = self.io_registers.reg(0x202);
        self.io_registers.set_reg(0x202, (x & !(1u8 << 6u8)) | ((if value { 1u8 } else { 0u8 }) << 6u8));
    }

    pub fn set_serial_interrupt(&mut self, value: bool)
        requires
            old(self).wf(),
        ensures
            final(self).wf(),
            final(self)@ == old(self)@.with_io_reg(0x202, set_bit8(old(self)@.io.regs[0x202], 7, value)),
    {
        proof {
            self.lemma_wf();
        }
        let x = self.io_registers.reg(0x202);
        self.io_registers.set_reg(0x202, (x & !(1u8 << 7u8)) | ((if value { 1u8 } else { 0u8 }) << 7u8));
    }

    pub fn set_dma0_interrupt(&mut self, value: bool)
        requires
            old(self).wf(),
        ensures
            final(self).wf(),
            final(self)@ == old(self)@.with_io_reg(0x203, set_bit8(old(self)@.io.regs[0x203], 0, value)),
    {
        proof {
            self.lemma_wf();
        }
        let x = self.io_registers.reg(0x203);
        self.io_registers.set_reg(0x203, (x & !(1u8 << 0u8)) | ((if value { 1u8 } else { 0u8 }) << 0u8));
    }

    pub fn set_dma1_interrupt(&mut self, value: bool)
        requires
            old(self).wf(),
        ensures
            final(self).wf(),
            final(self)@ == old(self)@.with_io_reg(0x203, set_bit8(old(self)@.io.regs[0x203], 1, value)),
    {
        proof {
            self.lemma_wf();
        }
        let x = self.io_registers.reg(0x203);
        self.io_registers.set_reg(0x203, (x & !(1u8 << 1u8)) | ((if value { 1u8 } else { 0u8 }) << 1u8));
    }

    pub fn set_dma2_interrupt(&mut self, value: bool)
        requires
            old(self).wf(),
        ensures
            final(self).wf(),
            final(self)@ == old(self)@.with_io_reg(0x203, set_bit8(old(self)@.io.regs[0x203], 2, value)),
    {
        proof {
            self.lemma_wf();
        }
        let x = self.io_registers.reg(0x203);
        self.io_registers.set_reg(0x203, (x & !(1u8 << 2u8)) | ((if value { 1u8 } else { 0u8 }) << 2u8));
    }

    pub fn set_dma3_interrupt(&mut self, value: bool)
        requires
            old(self).wf(),
        ensures
            final(self).wf(),
            final(self)@ == old(self)@.with_io_reg(0x203, set_bit8(old(self)@.io.regs[0x203], 3, value)),
    {
        proof {
            self.lemma_wf();
        }
        let x = self.io_registers.reg(0x203);
        self.io_registers.set_reg(0x203, (x & !(1u8 << 3u8)) | ((if value { 1u8 } else { 0u8 }) << 3u8));
    }

    pub fn set_keypad_interrupt(&mut self, value: bool)
        requires
            old(self).wf(),
        ensures
            final(self).wf(),
            final(self)@ == old(self)@.with_io_reg(0x203, set_bit8(old(self)@.io.regs[0x203], 4, value)),
    {
        proof {
            self.lemma_wf();
        }
        let x = self.io_registers.reg(0x203);
        self.io_registers.set_reg(0x203, (x & !(1u8 << 4u8)) | ((if value { 1u8 } else { 0u8 }) << 4u8));
    }

    pub fn set_game_pak_interrupt(&mut self, value: bool)
        requires
            old(self).wf(),
        ensures
            final(self).wf(),
            final(self)@ == old(self)@.with_io_reg(0x203, set_bit8(old(self)@.io.regs[0x203], 5, value)),
    {
        proof {
            self.lemma_wf();
        }
        let x = self.io_registers.reg(0x203);
        self.io_registers.set_reg(0x203, (x & !(1u8 << 5u8)) | ((if value { 1u8 } else { 0u8 }) << 5u8));
    }

    pub fn ppu_bg0_x_scroll(&self) -> (r: u16)
        requires
            self.wf(),
        ensures
            r == self@.io16(0x10) & 0x1FF,
    {
        proof {
            self.lemma_wf();
        }
        (((self.io_registers.reg(0x11) as u16) << 8) | (self.io_registers.reg(0x10) as u16)) & 0x1FF
    }

    pub fn ppu_bg0_y_scroll(&self) -> (r: u16)
        requires
            self.wf(),
        ensures
            r == self@.io16(0x12) & 0x1FF,
    {
        proof {
            self.lemma_wf();
        }
        (((self.io_registers.reg(0x13) as u16) << 8) | (self.io_registers.reg(0x12) as u16)) & 0x1FF
    }

    pub fn ppu_bg1_x_scroll(&self) -> (r: u16)
        requires
            self.wf(),
        ensures
            r == self@.io16(0x14) & 0x1FF,
    {
        proof {
            self.lemma_wf();
        }
        (((self.io_registers.reg(0x15) as u16) << 8) | (self.io_registers.reg(0x14) as u16)) & 0x1FF
    }

    pub fn ppu_bg1_y_scroll(&self) -> (r: u16)
        requires
            self.wf(),
        ensures
            r == self@.io16(0x16) & 0x1FF,
    {
        proof {
            self.lemma_wf();
        }
        (((self.io_registers.reg(0x17) as u16) << 8) | (self.io_registers.reg(0x16) as u16)) & 0x1FF
    }

    pub fn ppu_bg2_x_scroll(&self) -> (r: u16)
        requires
            self.wf(),
        ensures
            r == self@.io16(0x18) & 0x1FF,
    {
        proof {
            self.lemma_wf();
        }
        (((self.io_registers.reg(0x19) as u16) << 8) | (self.io_registers.reg(0x18) as u16)) & 0x1FF
    }

    pub fn ppu_bg2_y_scroll(&self) -> (r: u16)
        requires
            self.wf(),
        ensures
            r == self@.io16(0x1a) & 0x1FF,
    {
        proof {
            self.lemma_wf();
        }
        (((self.io_registers.reg(0x1b) as u16) << 8) | (self.io_registers.reg(0x1a) as u16)) & 0x1FF
    }

    pub fn ppu_bg3_x_scroll(&self) -> (r: u16)
        requires
            self.wf(),
        ensures
            r == self@.io16(0x1c) & 0x1FF,
    {
        proof {
            self.lemma_wf();
        }
        (((self.io_registers.reg(0x1d) as u16) << 8) | (self.io_registers.reg(0x1c) as u16)) & 0x1FF
    }

    pub fn ppu_bg3_y_scroll(&self) -> (r: u16)
        requires
            self.wf(),
        ensures
            r == self@.io16(0x1e) & 0x1FF,
    {
        proof {
            self.lemma_wf();
        }
        (((self.io_registers.reg(0x1f) as u16) << 8) | (self.io_registers.reg(0x1e) as u16)) & 0x1FF
    }

    pub fn ppu_bg0_control(&self) -> (c: PpuBgControl)
        requires
            self.wf(),
        ensures
            c == spec_bg_control(self@.io16(0x8)),
    {
        proof {
            self.lemma_wf();
        }
        let bits = ((self.io_registers.reg(0x9) as u16) << 8) | (self.io_registers.reg(0x8) as u16);
        PpuBgControl::from_bits(bits)
    }

    pub fn ppu_bg1_control(&self) -> (c: PpuBgControl)
        requires
            self.wf(),
        ensures
            c == spec_bg_control(self@.io16(0xa)),
    {
        proof {
            self.lemma_wf();
        }
        let bits = ((self.io_registers.reg(0xb) as u16) << 8) | (self.io_registers.reg(0xa) as u16);
        PpuBgControl::from_bits(bits)
    }

    pub fn ppu_bg2_control(&self) -> (c: PpuBgControl)
        requires
            self.wf(),
        ensures
            c == spec_bg_control(self@.io16(0xc)),
    {
        proof {
            self.lemma_wf();
        }
        let bits = ((self.io_registers.reg(0xd) as u16) << 8) | (self.io_registers.reg(0xc) as u16);
        PpuBgControl::from_bits(bits)
    }

    pub fn ppu_bg3_control(&self) -> (c: PpuBgControl)
        requires
            self.wf(),
        ensures
            c == spec_bg_control(self@.io16(0xe)),
    {
        proof {
            self.lemma_wf();
        }
        let bits = ((self.io_registers.reg(0xf) as u16) << 8) | (self.io_registers.reg(0xe) as u16);
        PpuBgControl::from_bits(bits)
    }

    /// The (x, y) scroll of background `bg`
    pub fn ppu_bg_scroll(&self, bg: u8) -> (r: (u16, u16))
        requires
            self.wf(),
            bg < 4,
        ensures
            r == (self@.io16(0x10 + 4 * bg) & 0x1FF, self@.io16(0x12 + 4 * bg) & 0x1FF),
    {
        match bg {
            0 => (self.ppu_bg0_x_scroll(), self.ppu_bg0_y_scroll()),
            1 => (self.ppu_bg1_x_scroll(), self.ppu_bg1_y_scroll()),
            2 => (self.ppu_bg2_x_scroll(), self.ppu_bg2_y_scroll()),
            _ => (self.ppu_bg3_x_scroll(), self.ppu_bg3_y_scroll()),
        }
    }

    pub fn ppu_bg_mode(&self) -> (r: u8)
        requires
            self.wf(),
        ensures
            r == self@.io.regs[0] & 0x7,
    {
        proof {
            self.lemma_wf();
        }
        self.io_registers.reg(0) & 0x7
    }

    /// The mosaic sizes, 1 to 16
    pub fn ppu_bg_mosaic_h(&self) -> (r: u8)
        requires
            self.wf(),
        ensures
            r == (self@.io.regs[0x4C] & 0xF) + 1,
    {
        proof {
            self.lemma_wf();
        }
        let x = self.io_registers.reg(0x4C);
        assert(x & 0xF <= 0xF) by {
            crate::bits::lemma_u8(x);
        }
        (x & 0xF) + 1
    }

    pub fn ppu_bg_mosaic_v(&self) -> (r: u8)
        requires
            self.wf(),
        ensures
            r == ((self@.io.regs[0x4C] >> 4u8) & 0xF) + 1,
    {
        proof {
            self.lemma_wf();
        }
        let x = self.io_registers.reg(0x4C);
        assert((x >> 4u8) & 0xF <= 0xF) by {
            crate::bits::lemma_u8(x);
        }
        ((x >> 4) & 0xF) + 1
    }

    pub fn ppu_obj_mosaic_h(&self) -> (r: u8)
        requires
            self.wf(),
        ensures
            r == (self@.io.regs[0x4D] & 0xF) + 1,
    {
        proof {
            self.lemma_wf();
        }
        let x = self.io_registers.reg(0x4D);
        assert(x & 0xF <= 0xF) by {
            crate::bits::lemma_u8(x);
        }
        (x & 0xF) + 1
    }

    pub fn ppu_obj_mosaic_v(&self) -> (r: u8)
        requires
            self.wf(),
        ensures
            r == ((self@.io.regs[0x4D] >> 4u8) & 0xF) + 1,
    {
        proof {
            self.lemma_wf();
        }
        let x = self.io_registers.reg(0x4D);
        assert((x >> 4u8) & 0xF <= 0xF) by {
            crate::bits::lemma_u8(x);
        }
        ((x >> 4) & 0xF) + 1
    }

    /// The scanline that raises the V-counter match
    pub fn ppu_vcounter_setting(&self) -> (r: u8)
        requires
            self.wf(),
        ensures
            r == self@.io.regs[0x5],
    {
        proof {
            self.lemma_wf();
        }
        self.io_registers.reg(0x5)
    }

    /// Stores the current scanline in VCOUNT
    pub fn ppu_set_readonly_vcounter(&mut self, ly: u8)
        requires
            old(self).wf(),
        ensures
            final(self).wf(),
            final(self)@ == old(self)@.with_io_reg(0x6, ly),
    {
        proof {
            self.lemma_wf();
        }
        self.io_registers.set_reg(0x6, ly);
    }

    /// Sets a timer's interrupt request bit
    pub fn set_timer_interrupt(&mut self, timer: u8, value: bool)
        requires
            old(self).wf(),
            timer < 4,
        ensures
            final(self).wf(),
            final(self)@ == old(self)@.with_io_reg(0x202, set_bit8(old(self)@.io.regs[0x202], (timer + 3) as u8, value)),
    {
        match timer {
            0 => self.set_timer0_interrupt(value),
            1 => self.set_timer1_interrupt(value),
            2 => self.set_timer2_interrupt(value),
            _ => self.set_timer3_interrupt(value),
        }
    }
}

/// Whether an ARM condition holds for the flags of the CPSR
pub open spec fn cond_holds(r: Registers, cond: Cond) -> bool {
    let z = bit_of(r.cpsr, 30);
    let c = bit_of(r.cpsr, 29);
    let n = bit_of(r.cpsr, 31);
    let v = bit_of(r.cpsr, 28);
    match cond {
        Cond::Eq => z,
        Cond::Ne => !z,
        Cond::CsHs => c,
        Cond::CcLo => !c,
        Cond::Mi => n,
        Cond::Pl => !n,
        Cond::Vs => v,
        Cond::Vc => !v,
        Cond::Hi => c && !z,
        Cond::Ls => !c || z,
        Cond::Ge => n == v,
        Cond::Lt => n != v,
        Cond::Gt => !z && (n == v),
        Cond::Le => z || (n != v),
        Cond::Al => true,
        Cond::Nv => false,
    }
}

/// Whether an address lies between the BIOS and the work RAM, where
/// nothing is mapped and a read gives what the bus fetched last
pub open spec fn is_open_bus(a: u32) -> bool {
    0x4000 <= a <= 0x01FF_FFFF
}

/// Whether an address is in one of the three cartridge ROM mirrors
pub open spec fn in_rom(a: u32) -> bool {
    0x0800_0000 <= a <= 0x0DFF_FFFF
}

/// Whether an address is in the cartridge SRAM area
pub open spec fn in_sram(a: u32) -> bool {
    0x0E00_0000 <= a <= 0x0FFF_FFFF
}

/// Whether an address is one of the I/O registers
pub open spec fn in_io(a: u32) -> bool {
    0x0400_0000 <= a <= 0x0400_03FF
}

/// The VRAM byte that an address selects: the top 32 KiB of each 128 KiB
/// mirror the 32 KiB below them
pub open spec fn vram_index(a: u32) -> int {
    let i = a & 0x1FFFF;
    if i > 0x17FFF {
        (i & !0x8000u32) as int
    } else {
        i as int
    }
}

/// A halfword from its two bytes, low byte first
pub open spec fn join16(lo: u8, hi: u8) -> u16 {
    ((hi as u16) << 8u16) | (lo as u16)
}

/// A word from its four bytes, lowest first
pub open spec fn join32(b1: u32, b2: u32, b3: u32, b4: u32) -> u32 {
    (b4 << 24u32) | (b3 << 16u32) | (b2 << 8u32) | b1
}

impl GbaView {
    /// The address that an unmapped read fetches from: the instruction
    /// after the next one
    pub open spec fn open_bus_addr(self) -> int {
        self.r.pc + if bit_of(self.r.cpsr, 5) {
            2int
        } else {
            4int
        }
    }

    /// The wait states (first, sequential) of a cartridge ROM mirror
    pub open spec fn rom_wait(self, a: u32) -> (u8, u8) {
        if a <= 0x09FF_FFFF {
            self.io.wait_state0
        } else if a <= 0x0BFF_FFFF {
            self.io.wait_state1
        } else {
            self.io.wait_state2
        }
    }

    /// A byte of the cartridge image, 0 past its end
    pub open spec fn rom_byte(self, off: u32) -> u8 {
        if off > (self.rom.len() as u32) {
            0
        } else {
            self.rom[off as int]
        }
    }

    /// Whether a cartridge offset is in the image or past its end (the
    /// offset equal to the image's length is neither)
    pub open spec fn rom_byte_ok(self, off: u32) -> bool {
        off > (self.rom.len() as u32) || off < self.rom.len()
    }

    /// An 8-bit read of an address outside the open bus, with its cycles
    pub open spec fn read8_at(self, a: u32) -> (u8, u8) {
        if a <= 0x3FFF {
            if self.r.pc < 0x4000 {
                (self.bios[a as int], 3)
            } else {
                (self.bios[0xE4], 1)
            }
        } else if 0x0200_0000 <= a <= 0x02FF_FFFF {
            (self.wram[(a & 0x3FFFF) as int], 3)
        } else if 0x0300_0000 <= a <= 0x03FF_FFFF {
            (self.iw_ram[(a & 0x7FFF) as int], 1)
        } else if in_io(a) {
            (self.io.read8(a), 1)
        } else if 0x0500_0000 <= a <= 0x05FF_FFFF {
            (self.palette[(a & 0x3FF) as int], 1)
        } else if 0x0600_0000 <= a <= 0x06FF_FFFF {
            (self.vram[vram_index(a)], 1)
        } else if 0x0700_0000 <= a <= 0x07FF_FFFF {
            (self.oam[(a & 0x3FF) as int], 1)
        } else if in_rom(a) {
            (self.rom_byte(a & 0x1FFFFFF), (self.rom_wait(a).0 + 1) as u8)
        } else if in_sram(a) {
            (self.sram[(a & 0x7FFFF) as int], (self.io.sram_wait + 1) as u8)
        } else {
            (0, 1)
        }
    }

    /// What an 8-bit read gives, and its cycles
    pub open spec fn read8(self, a: u32) -> (u8, u8) {
        if is_open_bus(a) {
            self.read8_at(self.open_bus_addr() as u32)
        } else {
            self.read8_at(a)
        }
    }

    /// Whether an 8-bit read returns: an unmapped read must land on mapped
    /// memory, and no cartridge read on the offset equal to the image's
    /// length
    pub open spec fn read8_ok(self, a: u32) -> bool {
        let b = if is_open_bus(a) {
            self.open_bus_addr()
        } else {
            a as int
        };
        &&& b <= u32::MAX
        &&& !is_open_bus(b as u32)
        &&& in_rom(b as u32) ==> self.rom_byte_ok((b as u32) & 0x1FFFFFF)
    }

    /// A 16-bit read of an address outside the open bus, with its cycles
    pub open spec fn read16_at(self, a: u32, sequential: bool) -> (u16, u8) {
        let lo = a & !1u32;
        let hi = a | 1u32;
        if a <= 0x3FFF {
            (join16(self.bios[(lo & 0x3FFF) as int], self.bios[(hi & 0x3FFF) as int]), 1)
        } else if 0x0200_0000 <= a <= 0x02FF_FFFF {
            (join16(self.wram[(lo & 0x3FFFF) as int], self.wram[(hi & 0x3FFFF) as int]), 3)
        } else if 0x0300_0000 <= a <= 0x03FF_FFFF {
            (join16(self.iw_ram[(lo & 0x7FFF) as int], self.iw_ram[(hi & 0x7FFF) as int]), 1)
        } else if in_io(a) {
            (self.io.read16(a), 1)
        } else if 0x0500_0000 <= a <= 0x05FF_FFFF {
            (join16(self.palette[(lo & 0x3FF) as int], self.palette[(hi & 0x3FF) as int]), 1)
        } else if 0x0600_0000 <= a <= 0x06FF_FFFF {
            (join16(self.vram[vram_index(lo)], self.vram[vram_index(hi)]), 1)
        } else if 0x0700_0000 <= a <= 0x07FF_FFFF {
            (join16(self.oam[(lo & 0x3FF) as int], self.oam[(hi & 0x3FF) as int]), 1)
        } else if in_rom(a) {
            let w = self.rom_wait(a);
            let t = if sequential {
                (w.1 + 1) as u8
            } else {
                (w.0 + 1) as u8
            };
            if (hi & 0x1FFFFFF) > (self.rom.len() as u32) {
                (((a >> 1u32) & 0xFFFF) as u16, t)
            } else {
                (
                    join16(
                        self.rom[(lo & 0x1FFFFFF) as int],
                        self.rom[(hi & 0x1FFFFFF) as int],
                    ),
                    t,
                )
            }
        } else {
            (0, 1)
        }
    }

    /// What a 16-bit read gives, and its cycles
    pub open spec fn read16(self, a: u32, sequential: bool) -> (u16, u8) {
        if is_open_bus(a) {
            self.read16_at(self.open_bus_addr() as u32, true)
        } else {
            self.read16_at(a, sequential)
        }
    }

    /// Whether a 16-bit read returns: as for bytes, and never in the SRAM
    /// area, which takes no 16-bit reads
    pub open spec fn read16_ok(self, a: u32) -> bool {
        let b = if is_open_bus(a) {
            self.open_bus_addr()
        } else {
            a as int
        };
        let hi = ((b as u32) | 1u32) & 0x1FFFFFF;
        &&& b <= u32::MAX
        &&& !is_open_bus(b as u32)
        &&& !in_sram(b as u32)
        &&& in_rom(b as u32) ==> self.rom_byte_ok(hi)
    }

    /// A 32-bit read of an aligned address outside the open bus
    pub open spec fn read32_at(self, a: u32, sequential: bool) -> (u32, u8) {
        let b1 = a & !3u32;
        let b2 = b1 | 1u32;
        let b3 = b1 | 2u32;
        let b4 = b1 | 3u32;
        if a <= 0x3FFF {
            (
                join32(
                    self.bios[(b1 & 0x3FFF) as int] as u32,
                    self.bios[(b2 & 0x3FFF) as int] as u32,
                    self.bios[(b3 & 0x3FFF) as int] as u32,
                    self.bios[(b4 & 0x3FFF) as int] as u32,
                ),
                1,
            )
        } else if 0x0200_0000 <= a <= 0x02FF_FFFF {
            (
                join32(
                    self.wram[(b1 & 0x3FFFF) as int] as u32,
                    self.wram[(b2 & 0x3FFFF) as int] as u32,
                    self.wram[(b3 & 0x3FFFF) as int] as u32,
                    self.wram[(b4 & 0x3FFFF) as int] as u32,
                ),
                6,
            )
        } else if 0x0300_0000 <= a <= 0x03FF_FFFF {
            (
                join32(
                    self.iw_ram[(b1 & 0x7FFF) as int] as u32,
                    self.iw_ram[(b2 & 0x7FFF) as int] as u32,
                    self.iw_ram[(b3 & 0x7FFF) as int] as u32,
                    self.iw_ram[(b4 & 0x7FFF) as int] as u32,
                ),
                1,
            )
        } else if in_io(a) {
            (self.io.read32(a), 1)
        } else if 0x0500_0000 <= a <= 0x05FF_FFFF {
            (
                join32(
                    self.palette[(b1 & 0x3FF) as int] as u32,
                    self.palette[(b2 & 0x3FF) as int] as u32,
                    self.palette[(b3 & 0x3FF) as int] as u32,
                    self.palette[(b4 & 0x3FF) as int] as u32,
                ),
                2,
            )
        } else if 0x0600_0000 <= a <= 0x06FF_FFFF {
            (
                join32(
                    self.vram[vram_index(b1)] as u32,
                    self.vram[vram_index(b2)] as u32,
                    self.vram[vram_index(b3)] as u32,
                    self.vram[vram_index(b4)] as u32,
                ),
                2,
            )
        } else if 0x0700_0000 <= a <= 0x07FF_FFFF {
            (
                join32(
                    self.oam[(b1 & 0x3FF) as int] as u32,
                    self.oam[(b2 & 0x3FF) as int] as u32,
                    self.oam[(b3 & 0x3FF) as int] as u32,
                    self.oam[(b4 & 0x3FF) as int] as u32,
                ),
                1,
            )
        } else if in_rom(a) {
            let w = self.rom_wait(a);
            let t = if sequential {
                (w.1 * 2 + 2) as u8
            } else {
                (w.0 + 1 + w.1 + 1) as u8
            };
            if b1 & 0x1FFFFFF >= (self.rom.len() as u32) {
                ((a >> 1u32) & 0xFFFF, t)
            } else {
                (
                    join32(
                        self.rom[(b1 & 0x1FFFFFF) as int] as u32,
                        self.rom[(b2 & 0x1FFFFFF) as int] as u32,
                        self.rom[(b3 & 0x1FFFFFF) as int] as u32,
                        self.rom[(b4 & 0x1FFFFFF) as int] as u32,
                    ),
                    t,
                )
            }
        } else {
            (0, 1)
        }
    }

    /// Whether an aligned 32-bit read outside the open bus returns
    pub open spec fn read32_at_ok(self, a: u32) -> bool {
        let b1 = (a & !3u32) & 0x1FFFFFF;
        let b4 = ((a & !3u32) | 3u32) & 0x1FFFFFF;
        &&& !is_open_bus(a)
        &&& !in_sram(a)
        &&& in_rom(a) ==> (b1 >= (self.rom.len() as u32) || b4 < self.rom.len())
    }

    /// A misaligned 32-bit read: the halfword at the address, with the
    /// halfword two bytes below it as its upper half
    pub open spec fn read32_split(self, a: u32, sequential: bool) -> (u32, u8) {
        let lo = self.read16(a, sequential);
        let hi = self.read16((a - 2) as u32, true);
        (((hi.0 as u32) << 16u32) | (lo.0 as u32), lo.1)
    }

    pub open spec fn read32_split_ok(self, a: u32) -> bool {
        &&& a >= 2
        &&& self.read16_ok(a)
        &&& self.read16_ok((a - 2) as u32)
    }

    /// What a 32-bit read gives, and its cycles
    pub open spec fn read32(self, a: u32, sequential: bool) -> (u32, u8) {
        let ob = self.open_bus_addr() as u32;
        if a & 3 != 0 {
            self.read32_split(a, sequential)
        } else if is_open_bus(a) {
            if ob & 3 != 0 {
                self.read32_split(ob, true)
            } else {
                self.read32_at(ob, true)
            }
        } else {
            self.read32_at(a, sequential)
        }
    }

    /// Whether a 32-bit read returns
    pub open spec fn read32_ok(self, a: u32) -> bool {
        let ob = self.open_bus_addr() as u32;
        if a & 3 != 0 {
            self.read32_split_ok(a)
        } else if is_open_bus(a) {
            &&& self.open_bus_addr() <= u32::MAX
            &&& if ob & 3 != 0 {
                self.read32_split_ok(ob)
            } else {
                self.read32_at_ok(ob)
            }
        } else {
            self.read32_at_ok(a)
        }
    }

    /// What an 8-bit write does
    pub open spec fn write8(self, a: u32, v: u8) -> GbaView {
        if 0x0200_0000 <= a <= 0x02FF_FFFF {
            GbaView { wram: self.wram.update((a & 0x3FFFF) as int, v), ..self }
        } else if 0x0300_0000 <= a <= 0x03FF_FFFF {
            GbaView { iw_ram: self.iw_ram.update((a & 0x7FFF) as int, v), ..self }
        } else if in_io(a) {
            GbaView { io: self.io.written(a, v), ..self }
        } else if 0x0600_0000 <= a <= 0x06FF_FFFF {
            GbaView { vram: self.vram.update(vram_index(a), v), ..self }
        } else if in_sram(a) {
            GbaView { sram: self.sram.update((a & 0x7FFFF) as int, v), ..self }
        } else {
            self
        }
    }

    /// The cycles of an 8-bit write
    pub open spec fn write8_cycles(a: u32) -> u8 {
        if 0x0200_0000 <= a <= 0x02FF_FFFF {
            3
        } else if in_sram(a) {
            5
        } else {
            1
        }
    }

    /// Whether an 8-bit write returns: not to the BIOS, the palette or the
    /// cartridge ROM
    pub open spec fn write8_ok(a: u32, v: u8) -> bool {
        &&& a > 0x3FFF
        &&& !(0x0500_0000 <= a <= 0x0500_03FF)
        &&& !in_rom(a)
        &&& in_io(a) ==> io_write_defined(a, v)
    }

    /// What a 16-bit write does
    pub open spec fn write16(self, a: u32, v: u16) -> GbaView {
        let lo = a & !1u32;
        let hi = a | 1u32;
        let lv = (v & 0xFF) as u8;
        let hv = ((v >> 8u16) & 0xFF) as u8;
        if 0x0200_0000 <= a <= 0x02FF_FFFF {
            GbaView {
                wram: self.wram.update((lo & 0x3FFFF) as int, lv).update((hi & 0x3FFFF) as int, hv),
                ..self
            }
        } else if 0x0300_0000 <= a <= 0x03FF_FFFF {
            GbaView {
                iw_ram: self.iw_ram.update((lo & 0x7FFF) as int, lv).update((hi & 0x7FFF) as int, hv),
                ..self
            }
        } else if in_io(a) {
            GbaView { io: self.io.written16(a, v), ..self }
        } else if 0x0500_0000 <= a <= 0x05FF_FFFF {
            GbaView {
                palette: self.palette.update((lo & 0x3FF) as int, lv).update(
                    (hi & 0x3FF) as int,
                    hv,
                ),
                ..self
            }
        } else if 0x0600_0000 <= a <= 0x06FF_FFFF {
            GbaView { vram: self.vram.update(vram_index(lo), lv).update(vram_index(hi), hv), ..self }
        } else if 0x0700_0000 <= a <= 0x07FF_FFFF {
            GbaView {
                oam: self.oam.update((lo & 0x3FF) as int, lv).update((hi & 0x3FF) as int, hv),
                ..self
            }
        } else if 0x0C00_0000 <= a <= 0x0DFF_FFFF {
            GbaView {
                rom: self.rom.update((lo & 0x1FFFFF) as int, lv).update((hi & 0x1FFFFF) as int, hv),
                ..self
            }
        } else {
            self
        }
    }

    /// The cycles of a 16-bit write
    pub open spec fn write16_cycles(a: u32) -> u8 {
        if 0x0200_0000 <= a <= 0x02FF_FFFF {
            3
        } else if 0x0800_0000 <= a <= 0x09FF_FFFF {
            0
        } else if 0x0C00_0000 <= a <= 0x0DFF_FFFF {
            5
        } else {
            1
        }
    }

    /// Whether a 16-bit write returns: not to the second ROM mirror or the
    /// SRAM area, and into the image through the third mirror
    pub open spec fn write16_ok(self, a: u32, v: u16) -> bool {
        &&& !(0x0A00_0000 <= a <= 0x0BFF_FFFF)
        &&& !in_sram(a)
        &&& 0x0C00_0000 <= a <= 0x0DFF_FFFF ==> ((a & !1u32) & 0x1FFFFF) < self.rom.len() && ((a
            | 1u32) & 0x1FFFFF) < self.rom.len()
        &&& in_io(a) ==> io_write_defined(a & !1u32, v as u8) && io_write_defined(
            a | 1,
            (v >> 8u16) as u8,
        )
    }

    /// What a 32-bit write does
    pub open spec fn write32(self, a: u32, v: u32) -> GbaView {
        let b1 = a & !3u32;
        let b2 = b1 | 1u32;
        let b3 = b1 | 2u32;
        let b4 = b1 | 3u32;
        let v1 = (v & 0xFF) as u8;
        let v2 = ((v >> 8u32) & 0xFF) as u8;
        let v3 = ((v >> 16u32) & 0xFF) as u8;
        let v4 = ((v >> 24u32) & 0xFF) as u8;
        if 0x0200_0000 <= a <= 0x02FF_FFFF {
            GbaView {
                wram: self.wram.update((b1 & 0x3FFFF) as int, v1).update((b2 & 0x3FFFF) as int, v2).update(
                    (b3 & 0x3FFFF) as int,
                    v3,
                ).update((b4 & 0x3FFFF) as int, v4),
                ..self
            }
        } else if 0x0300_0000 <= a <= 0x03FF_FFFF {
            GbaView {
                iw_ram: self.iw_ram.update((b1 & 0x7FFF) as int, v1).update((b2 & 0x7FFF) as int, v2).update(
                    (b3 & 0x7FFF) as int,
                    v3,
                ).update((b4 & 0x7FFF) as int, v4),
                ..self
            }
        } else if in_io(a) {
            GbaView { io: self.io.written32(a, v), ..self }
        } else if 0x0500_0000 <= a <= 0x05FF_FFFF {
            GbaView {
                palette: self.palette.update((b1 & 0x3FF) as int, v1).update((b2 & 0x3FF) as int, v2).update(
                    (b3 & 0x3FF) as int,
                    v3,
                ).update((b4 & 0x3FF) as int, v4),
                ..self
            }
        } else if 0x0600_0000 <= a <= 0x06FF_FFFF {
            GbaView {
                vram: self.vram.update(vram_index(b1), v1).update(vram_index(b2), v2).update(
                    vram_index(b3),
                    v3,
                ).update(vram_index(b4), v4),
                ..self
            }
        } else if 0x0700_0000 <= a <= 0x07FF_FFFF {
            GbaView {
                oam: self.oam.update((b1 & 0x3FF) as int, v1).update((b2 & 0x3FF) as int, v2).update(
                    (b3 & 0x3FF) as int,
                    v3,
                ).update((b4 & 0x3FF) as int, v4),
                ..self
            }
        } else if in_sram(a) {
            GbaView {
                sram: self.sram.update((b1 & 0xFFFF) as int, v1).update((b2 & 0xFFFF) as int, v2).update(
                    (b3 & 0xFFFF) as int,
                    v3,
                ).update((b4 & 0xFFFF) as int, v4),
                ..self
            }
        } else {
            self
        }
    }

    /// The cycles of a 32-bit write
    pub open spec fn write32_cycles(a: u32) -> u8 {
        if 0x0200_0000 <= a <= 0x02FF_FFFF {
            6
        } else if 0x0500_0000 <= a <= 0x06FF_FFFF {
            2
        } else if 0x0800_0000 <= a <= 0x09FF_FFFF {
            0
        } else if in_sram(a) {
            5
        } else {
            1
        }
    }

    /// Whether a 32-bit write returns: not to the BIOS or the second and
    /// third ROM mirrors
    pub open spec fn write32_ok(a: u32, v: u32) -> bool {
        &&& a > 0x3FFF
        &&& !(0x0A00_0000 <= a <= 0x0DFF_FFFF)
        &&& in_io(a) && a != 0x40000A0 && a != 0x40000A4 ==> {
            &&& io_write_defined(a & !3u32, v as u8)
            &&& io_write_defined((a & !3u32) | 1, (v >> 8u32) as u8)
            &&& io_write_defined((a | 2) & !1u32, (v >> 16u32) as u8)
            &&& io_write_defined((a | 2) | 1, (v >> 24u32) as u8)
        }
    }
}

fn sub_overflows_exec(a: u32, b: u32) -> (r: bool)
    ensures
        r == sub_overflows(a, b),
{
    let d: i64 = (a as i32) as i64 - (b as i32) as i64;
    d < -0x8000_0000 || d > 0x7FFF_FFFF
}

fn add_overflows_exec(a: u32, b: u32) -> (r: bool)
    ensures
        r == add_overflows(a, b),
{
    let d: i64 = (a as i32) as i64 + (b as i32) as i64;
    d < -0x8000_0000 || d > 0x7FFF_FFFF
}

/// Setting a flag or state bit above the mode field keeps the mode
proof fn lemma_with_bit_mode(c: u32, b: u32, v: bool)
    by (bit_vector)
    requires
        5 <= b < 32,
    ensures
        with_bit(c, b, v) & 0x1F == c & 0x1F,
{
}

fn msr_mask_exec(opcode: u32) -> (m: u32)
    ensures
        m == msr_mask(opcode),
{
    (if (opcode >> 19) & 1 == 1 {
        0xFF00_0000u32
    } else {
        0
    }) | (if (opcode >> 18) & 1 == 1 {
        0x00FF_0000u32
    } else {
        0
    }) | (if (opcode >> 17) & 1 == 1 {
        0x0000_FF00u32
    } else {
        0
    }) | (if (opcode >> 16) & 1 == 1 {
        0x0000_00FFu32
    } else {
        0
    })
}

fn shifted_offset_exec(r: &Registers, opcode: u32) -> (o: u32)
    ensures
        o == shifted_offset(*r, opcode),
{
    proof {
        crate::bits::lemma_u32(opcode);
    }
    let v = r.get_reg((opcode & 0xF) as u8);
    let amt = (opcode >> 7) & 0x1F;
    let t = (opcode >> 5) & 0x3;
    if t == 0 {
        BarrelShifter::lsl(v, amt, None)
    } else if t == 1 {
        BarrelShifter::lsr(v, amt, None)
    } else if t == 2 {
        BarrelShifter::asr(v, amt, None)
    } else if amt == 0 {
        BarrelShifter::rrx(v, None, r.cpsr_carry_flag())
    } else {
        BarrelShifter::ror(v, amt, None)
    }
}

fn popcount16(x: u32) -> (n: u32)
    ensures
        n == popcount(x, 16),
        n <= 16,
{
    let mut n: u32 = 0;
    let mut i: u32 = 0;
    while i < 16
        invariant
            i <= 16,
            n == popcount(x, i as int),
            n <= i,
        decreases 16 - i,
    {
        if (x >> i) & 1 == 1 {
            n = n + 1;
        }
        i = i + 1;
    }
    n
}

/// The VRAM index of an address
fn vram_idx(a: u32) -> (r: usize)
    ensures
        r == vram_index(a),
        r < VRAM_SIZE,
{
    proof {
        crate::bits::lemma_u32(a);
    }
    let i = a & 0x1FFFF;
    if i > 0x17FFF {
        (i & !0x8000u32) as usize
    } else {
        i as usize
    }
}

impl GameboyAdvance {
    /// The address of the instruction after the next, which an unmapped
    /// read fetches from
    fn open_bus_addr(&self) -> (r: u32)
        requires
            self@.open_bus_addr() <= u32::MAX,
        ensures
            r == self@.open_bus_addr(),
    {
        if self.r.thumb_enabled() {
            self.r.pc + 2
        } else {
            self.r.pc + 4
        }
    }

    fn rom_wait(&self, a: u32) -> (r: (u8, u8))
        requires
            self.wf(),
        ensures
            r == self@.rom_wait(a),
            r.0 <= 8 && r.1 <= 8,
    {
        if a <= 0x09FF_FFFF {
            self.io_registers.rom_wait_states(0)
        } else if a <= 0x0BFF_FFFF {
            self.io_registers.rom_wait_states(1)
        } else {
            self.io_registers.rom_wait_states(2)
        }
    }

    fn read8_at(&self, a: u32) -> (r: (u8, u8))
        requires
            self.wf(),
            in_rom(a) ==> self@.rom_byte_ok(a & 0x1FFFFFF),
        ensures
            r == self@.read8_at(a),
            r.1 <= 18,
    {
        proof {
            self.lemma_wf();
            self.io_registers.lemma_wf();
            crate::bits::lemma_u32(a);
        }
        if a <= 0x3FFF {
            if self.r.pc < 0x4000 {
                (self.bios[a as usize], 3)
            } else {
                (self.bios[0xE4], 1)
            }
        } else if 0x0200_0000 <= a && a <= 0x02FF_FFFF {
            (self.wram[(a & 0x3FFFF) as usize], 3)
        } else if 0x0300_0000 <= a && a <= 0x03FF_FFFF {
            (self.iw_ram[(a & 0x7FFF) as usize], 1)
        } else if 0x0400_0000 <= a && a <= 0x0400_03FF {
            (self.io_registers.get_mem8(a), 1)
        } else if 0x0500_0000 <= a && a <= 0x05FF_FFFF {
            (self.obj_palette_ram[(a & 0x3FF) as usize], 1)
        } else if 0x0600_0000 <= a && a <= 0x06FF_FFFF {
            (self.vram[vram_idx(a)], 1)
        } else if 0x0700_0000 <= a && a <= 0x07FF_FFFF {
            (self.oam[(a & 0x3FF) as usize], 1)
        } else if 0x0800_0000 <= a && a <= 0x0DFF_FFFF {
            let timing = self.rom_wait(a).0 + 1;
            let off = a & 0x1FFFFFF;
            if off > self.entire_rom.len() as u32 {
                (0, timing)
            } else {
                (self.entire_rom[off as usize], timing)
            }
        } else if 0x0E00_0000 <= a && a <= 0x0FFF_FFFF {
            (self.sram[(a & 0x7FFFF) as usize], self.io_registers.sram_wait_states() + 1)
        } else {
            (0, 1)
        }
    }

    /// An 8-bit read and its cycles
    pub fn get_mem8(&self, address: u32) -> (r: (u8, u8))
        requires
            self.wf(),
            self@.read8_ok(address),
        ensures
            r == self@.read8(address),
            r.1 <= 18,
    {
        if 0x4000 <= address && address <= 0x01FF_FFFF {
            let b = self.open_bus_addr();
            self.read8_at(b)
        } else {
            self.read8_at(address)
        }
    }

    fn read16_at(&self, a: u32, sequential: bool) -> (r: (u16, u8))
        requires
            self.wf(),
            !in_sram(a),
            in_rom(a) ==> self@.rom_byte_ok((a | 1u32) & 0x1FFFFFF),
        ensures
            r == self@.read16_at(a, sequential),
            r.1 <= 18,
    {
        let lo = a & !1;
        let hi = a | 1;
        proof {
            self.lemma_wf();
            self.io_registers.lemma_wf();
            crate::bits::lemma_u32(a);
            crate::bits::lemma_u32(lo);
            crate::bits::lemma_u32(hi);
        }
        if a <= 0x3FFF {
            let l = self.bios[(lo & 0x3FFF) as usize] as u16;
            let h = self.bios[(hi & 0x3FFF) as usize] as u16;
            ((h << 8) | l, 1)
        } else if 0x0200_0000 <= a && a <= 0x02FF_FFFF {
            let l = self.wram[(lo & 0x3FFFF) as usize] as u16;
            let h = self.wram[(hi & 0x3FFFF) as usize] as u16;
            ((h << 8) | l, 3)
        } else if 0x0300_0000 <= a && a <= 0x03FF_FFFF {
            let l = self.iw_ram[(lo & 0x7FFF) as usize] as u16;
            let h = self.iw_ram[(hi & 0x7FFF) as usize] as u16;
            ((h << 8) | l, 1)
        } else if 0x0400_0000 <= a && a <= 0x0400_03FF {
            (self.io_registers.get_mem16(a), 1)
        } else if 0x0500_0000 <= a && a <= 0x05FF_FFFF {
            let l = self.obj_palette_ram[(lo & 0x3FF) as usize] as u16;
            let h = self.obj_palette_ram[(hi & 0x3FF) as usize] as u16;
            ((h << 8) | l, 1)
        } else if 0x0600_0000 <= a && a <= 0x06FF_FFFF {
            let l = self.vram[vram_idx(lo)] as u16;
            let h = self.vram[vram_idx(hi)] as u16;
            ((h << 8) | l, 1)
        } else if 0x0700_0000 <= a && a <= 0x07FF_FFFF {
            let l = self.oam[(lo & 0x3FF) as usize] as u16;
            let h = self.oam[(hi & 0x3FF) as usize] as u16;
            ((h << 8) | l, 1)
        } else if 0x0800_0000 <= a && a <= 0x0DFF_FFFF {
            let w = self.rom_wait(a);
            let timing = if sequential {
                w.1 + 1
            } else {
                w.0 + 1
            };
            if (hi & 0x1FFFFFF) > self.entire_rom.len() as u32 {
                (((a >> 1) & 0xFFFF) as u16, timing)
            } else {
                let l = self.entire_rom[(lo & 0x1FFFFFF) as usize] as u16;
                let h = self.entire_rom[(hi & 0x1FFFFFF) as usize] as u16;
                ((h << 8) | l, timing)
            }
        } else {
            (0, 1)
        }
    }

    /// A 16-bit read and its cycles
    pub fn get_mem16(&self, address: u32, sequential: bool) -> (r: (u16, u8))
        requires
            self.wf(),
            self@.read16_ok(address),
        ensures
            r == self@.read16(address, sequential),
            r.1 <= 18,
    {
        if 0x4000 <= address && address <= 0x01FF_FFFF {
            let b = self.open_bus_addr();
            self.read16_at(b, true)
        } else {
            self.read16_at(address, sequential)
        }
    }

    fn read32_at(&self, a: u32, sequential: bool) -> (r: (u32, u8))
        requires
            self.wf(),
            self@.read32_at_ok(a),
        ensures
            r == self@.read32_at(a, sequential),
            r.1 <= 18,
    {
        let b1 = a & !3;
        let b2 = b1 | 1;
        let b3 = b1 | 2;
        let b4 = b1 | 3;
        proof {
            self.lemma_wf();
            self.io_registers.lemma_wf();
            crate::bits::lemma_u32(a);
            crate::bits::lemma_u32(b1);
            crate::bits::lemma_u32(b2);
            crate::bits::lemma_u32(b3);
            crate::bits::lemma_u32(b4);
        }
        if a <= 0x3FFF {
            let x1 = self.bios[(b1 & 0x3FFF) as usize] as u32;
            let x2 = self.bios[(b2 & 0x3FFF) as usize] as u32;
            let x3 = self.bios[(b3 & 0x3FFF) as usize] as u32;
            let x4 = self.bios[(b4 & 0x3FFF) as usize] as u32;
            ((x4 << 24) | (x3 << 16) | (x2 << 8) | x1, 1)
        } else if 0x0200_0000 <= a && a <= 0x02FF_FFFF {
            let x1 = self.wram[(b1 & 0x3FFFF) as usize] as u32;
            let x2 = self.wram[(b2 & 0x3FFFF) as usize] as u32;
            let x3 = self.wram[(b3 & 0x3FFFF) as usize] as u32;
            let x4 = self.wram[(b4 & 0x3FFFF) as usize] as u32;
            ((x4 << 24) | (x3 << 16) | (x2 << 8) | x1, 6)
        } else if 0x0300_0000 <= a && a <= 0x03FF_FFFF {
            let x1 = self.iw_ram[(b1 & 0x7FFF) as usize] as u32;
            let x2 = self.iw_ram[(b2 & 0x7FFF) as usize] as u32;
            let x3 = self.iw_ram[(b3 & 0x7FFF) as usize] as u32;
            let x4 = self.iw_ram[(b4 & 0x7FFF) as usize] as u32;
            ((x4 << 24) | (x3 << 16) | (x2 << 8) | x1, 1)
        } else if 0x0400_0000 <= a && a <= 0x0400_03FF {
            (self.io_registers.get_mem32(a), 1)
        } else if 0x0500_0000 <= a && a <= 0x05FF_FFFF {
            let x1 = self.obj_palette_ram[(b1 & 0x3FF) as usize] as u32;
            let x2 = self.obj_palette_ram[(b2 & 0x3FF) as usize] as u32;
            let x3 = self.obj_palette_ram[(b3 & 0x3FF) as usize] as u32;
            let x4 = self.obj_palette_ram[(b4 & 0x3FF) as usize] as u32;
            ((x4 << 24) | (x3 << 16) | (x2 << 8) | x1, 2)
        } else if 0x0600_0000 <= a && a <= 0x06FF_FFFF {
            let x1 = self.vram[vram_idx(b1)] as u32;
            let x2 = self.vram[vram_idx(b2)] as u32;
            let x3 = self.vram[vram_idx(b3)] as u32;
            let x4 = self.vram[vram_idx(b4)] as u32;
            ((x4 << 24) | (x3 << 16) | (x2 << 8) | x1, 2)
        } else if 0x0700_0000 <= a && a <= 0x07FF_FFFF {
            let x1 = self.oam[(b1 & 0x3FF) as usize] as u32;
            let x2 = self.oam[(b2 & 0x3FF) as usize] as u32;
            let x3 = self.oam[(b3 & 0x3FF) as usize] as u32;
            let x4 = self.oam[(b4 & 0x3FF) as usize] as u32;
            ((x4 << 24) | (x3 << 16) | (x2 << 8) | x1, 1)
        } else if 0x0800_0000 <= a && a <= 0x0DFF_FFFF {
            let w = self.rom_wait(a);
            let timing = if sequential {
                w.1 * 2 + 2
            } else {
                w.0 + 1 + w.1 + 1
            };
            if b1 & 0x1FFFFFF >= self.entire_rom.len() as u32 {
                ((a >> 1) & 0xFFFF, timing)
            } else {
                let x1 = self.entire_rom[(b1 & 0x1FFFFFF) as usize] as u32;
                let x2 = self.entire_rom[(b2 & 0x1FFFFFF) as usize] as u32;
                let x3 = self.entire_rom[(b3 & 0x1FFFFFF) as usize] as u32;
                let x4 = self.entire_rom[(b4 & 0x1FFFFFF) as usize] as u32;
                ((x4 << 24) | (x3 << 16) | (x2 << 8) | x1, timing)
            }
        } else {
            (0, 1)
        }
    }

    fn read32_split(&self, a: u32, sequential: bool) -> (r: (u32, u8))
        requires
            self.wf(),
            self@.read32_split_ok(a),
        ensures
            r == self@.read32_split(a, sequential),
            r.1 <= 18,
    {
        let lo = self.get_mem16(a, sequential);
        let hi = self.get_mem16(a - 2, true);
        (((hi.0 as u32) << 16) | (lo.0 as u32), lo.1)
    }

    /// A 32-bit read and its cycles
    pub fn get_mem32(&self, address: u32, sequential: bool) -> (r: (u32, u8))
        requires
            self.wf(),
            self@.read32_ok(address),
        ensures
            r == self@.read32(address, sequential),
            r.1 <= 18,
    {
        if address & 3 != 0 {
            self.read32_split(address, sequential)
        } else if 0x4000 <= address && address <= 0x01FF_FFFF {
            let b = self.open_bus_addr();
            if b & 3 != 0 {
                self.read32_split(b, true)
            } else {
                self.read32_at(b, true)
            }
        } else {
            self.read32_at(address, sequential)
        }
    }

    /// An 8-bit write; its cycles
    pub fn set_mem8(&mut self, address: u32, val: u8) -> (r: u8)
        requires
            old(self).wf(),
            GbaView::write8_ok(address, val),
        ensures
            final(self).wf(),
            final(self)@ == old(self)@.write8(address, val),
            r == GbaView::write8_cycles(address),
    {
        proof {
            self.lemma_wf();
            crate::bits::lemma_u32(address);
        }
        if 0x0200_0000 <= address && address <= 0x02FF_FFFF {
            self.wram.set((address & 0x3FFFF) as usize, val);
            3
        } else if 0x0300_0000 <= address && address <= 0x03FF_FFFF {
            self.iw_ram.set((address & 0x7FFF) as usize, val);
            1
        } else if 0x0400_0000 <= address && address <= 0x0400_03FF {
            self.io_registers.set_mem8(address, val);
            1
        } else if 0x0600_0000 <= address && address <= 0x06FF_FFFF {
            let i = vram_idx(address);
            self.vram.set(i, val);
            1
        } else if 0x0E00_0000 <= address && address <= 0x0FFF_FFFF {
            self.sram.set((address & 0x7FFFF) as usize, val);
            5
        } else {
            1
        }
    }

    /// A 16-bit write; its cycles
    pub fn set_mem16(&mut self, address: u32, val: u16) -> (r: u8)
        requires
            old(self).wf(),
            old(self)@.write16_ok(address, val),
        ensures
            final(self).wf(),
            final(self)@ == old(self)@.write16(address, val),
            r == GbaView::write16_cycles(address),
    {
        let lo = address & !1;
        let hi = address | 1;
        let lo_val = (val & 0xFF) as u8;
        let hi_val = ((val >> 8) & 0xFF) as u8;
        proof {
            self.lemma_wf();
            crate::bits::lemma_u32(address);
            crate::bits::lemma_u32(lo);
            crate::bits::lemma_u32(hi);
            crate::bits::lemma_u16(val);
        }
        if 0x0200_0000 <= address && address <= 0x02FF_FFFF {
            self.wram.set((lo & 0x3FFFF) as usize, lo_val);
            self.wram.set((hi & 0x3FFFF) as usize, hi_val);
            3
        } else if 0x0300_0000 <= address && address <= 0x03FF_FFFF {
            self.iw_ram.set((lo & 0x7FFF) as usize, lo_val);
            self.iw_ram.set((hi & 0x7FFF) as usize, hi_val);
            1
        } else if 0x0400_0000 <= address && address <= 0x0400_03FF {
            self.io_registers.set_mem16(address, val);
            1
        } else if 0x0500_0000 <= address && address <= 0x05FF_FFFF {
            self.obj_palette_ram.set((lo & 0x3FF) as usize, lo_val);
            self.obj_palette_ram.set((hi & 0x3FF) as usize, hi_val);
            1
        } else if 0x0600_0000 <= address && address <= 0x06FF_FFFF {
            let i1 = vram_idx(lo);
            let i2 = vram_idx(hi);
            self.vram.set(i1, lo_val);
            self.vram.set(i2, hi_val);
            1
        } else if 0x0700_0000 <= address && address <= 0x07FF_FFFF {
            self.oam.set((lo & 0x3FF) as usize, lo_val);
            self.oam.set((hi & 0x3FF) as usize, hi_val);
            1
        } else if 0x0800_0000 <= address && address <= 0x09FF_FFFF {
            0
        } else if 0x0C00_0000 <= address && address <= 0x0DFF_FFFF {
            self.entire_rom.set((lo & 0x1FFFFF) as usize, lo_val);
            self.entire_rom.set((hi & 0x1FFFFF) as usize, hi_val);
            5
        } else {
            1
        }
    }

    /// A 32-bit write; its cycles
    pub fn set_mem32(&mut self, address: u32, val: u32) -> (r: u8)
        requires
            old(self).wf(),
            GbaView::write32_ok(address, val),
        ensures
            final(self).wf(),
            final(self)@ == old(self)@.write32(address, val),
            r == GbaView::write32_cycles(address),
    {
        let b1 = address & !3;
        let b2 = b1 | 1;
        let b3 = b1 | 2;
        let b4 = b1 | 3;
        let v1 = (val & 0xFF) as u8;
        let v2 = ((val >> 8) & 0xFF) as u8;
        let v3 = ((val >> 16) & 0xFF) as u8;
        let v4 = ((val >> 24) & 0xFF) as u8;
        proof {
            self.lemma_wf();
            crate::bits::lemma_u32(b1);
            crate::bits::lemma_u32(b2);
            crate::bits::lemma_u32(b3);
            crate::bits::lemma_u32(b4);
        }
        if 0x0200_0000 <= address && address <= 0x02FF_FFFF {
            self.wram.set((b1 & 0x3FFFF) as usize, v1);
            self.wram.set((b2 & 0x3FFFF) as usize, v2);
            self.wram.set((b3 & 0x3FFFF) as usize, v3);
            self.wram.set((b4 & 0x3FFFF) as usize, v4);
            6
        } else if 0x0300_0000 <= address && address <= 0x03FF_FFFF {
            self.iw_ram.set((b1 & 0x7FFF) as usize, v1);
            self.iw_ram.set((b2 & 0x7FFF) as usize, v2);
            self.iw_ram.set((b3 & 0x7FFF) as usize, v3);
            self.iw_ram.set((b4 & 0x7FFF) as usize, v4);
            1
        } else if 0x0400_0000 <= address && address <= 0x0400_03FF {
            self.io_registers.set_mem32(address, val);
            1
        } else if 0x0500_0000 <= address && address <= 0x05FF_FFFF {
            self.obj_palette_ram.set((b1 & 0x3FF) as usize, v1);
            self.obj_palette_ram.set((b2 & 0x3FF) as usize, v2);
            self.obj_palette_ram.set((b3 & 0x3FF) as usize, v3);
            self.obj_palette_ram.set((b4 & 0x3FF) as usize, v4);
            2
        } else if 0x0600_0000 <= address && address <= 0x06FF_FFFF {
            let i1 = vram_idx(b1);
            let i2 = vram_idx(b2);
            let i3 = vram_idx(b3);
            let i4 = vram_idx(b4);
            self.vram.set(i1, v1);
            self.vram.set(i2, v2);
            self.vram.set(i3, v3);
            self.vram.set(i4, v4);
            2
        } else if 0x0700_0000 <= address && address <= 0x07FF_FFFF {
            self.oam.set((b1 & 0x3FF) as usize, v1);
            self.oam.set((b2 & 0x3FF) as usize, v2);
            self.oam.set((b3 & 0x3FF) as usize, v3);
            self.oam.set((b4 & 0x3FF) as usize, v4);
            1
        } else if 0x0800_0000 <= address && address <= 0x09FF_FFFF {
            0
        } else if 0x0E00_0000 <= address && address <= 0x0FFF_FFFF {
            self.sram.set((b1 & 0xFFFF) as usize, v1);
            self.sram.set((b2 & 0xFFFF) as usize, v2);
            self.sram.set((b3 & 0xFFFF) as usize, v3);
            self.sram.set((b4 & 0xFFFF) as usize, v4);
            5
        } else {
            1
        }
    }

    fn irq_interrupt(&mut self)
        requires
            old(self)@.r.pc <= u32::MAX - 4,
        ensures
            final(self).wf() == old(self).wf(),
            final(self)@ == (GbaView { r: irq_entered(old(self)@.r), ..old(self)@ }),
    {
        self.r.set_irq_mode();
        let pc = self.r.pc;
        self.r.set_reg(14, pc + 4);
        self.r.set_thumb(false);
        self.r.cpsr_disable_irq();
        self.r.pc = 0x18;
    }

    /// Takes an IRQ when one is pending and IRQs are not masked
    pub fn maybe_handle_interrupts(&mut self)
        requires
            old(self).wf(),
            !bit_of(old(self)@.r.cpsr, 7) && old(self)@.irq_pending() ==> old(self)@.r.pc <= u32::MAX
                - 4,
        ensures
            final(self).wf(),
            final(self)@ == old(self)@.interrupts_handled(),
    {
        if self.r.irq_disabled() {
            return ;
        }
        if (self.lcdc_vblank_interrupt_requested() && self.lcdc_vblank_interrupt_enabled()) || (
        self.lcdc_hblank_interrupt_requested() && self.lcdc_hblank_interrupt_enabled()) || (
        self.lcdc_vcounter_interrupt_requested() && self.lcdc_vcounter_interrupt_enabled()) || (
        self.timer0_interrupt_requested() && self.timer0_interrupt_enabled()) || (
        self.timer1_interrupt_requested() && self.timer1_interrupt_enabled()) || (
        self.timer2_interrupt_requested() && self.timer2_interrupt_enabled()) || (
        self.timer3_interrupt_requested() && self.timer3_interrupt_enabled()) || (
        self.serial_interrupt_requested() && self.serial_interrupt_enabled()) || (
        self.dma0_interrupt_requested() && self.dma0_interrupt_enabled()) || (
        self.dma1_interrupt_requested() && self.dma1_interrupt_enabled()) || (
        self.dma2_interrupt_requested() && self.dma2_interrupt_enabled()) || (
        self.dma3_interrupt_requested() && self.dma3_interrupt_enabled()) || (
        self.keypad_interrupt_requested() && self.keypad_interrupt_enabled()) || (
        self.game_pak_interrupt_requested() && self.game_pak_interrupt_enabled()) {
            self.irq_interrupt();
        }
    }

    /// A Thumb ALU operation (format 4)
    #[verifier::rlimit(60)]
    pub fn dispatch_thumb_alu(&mut self, opcode: u16) -> (c: u8)
        ensures
            (final(self)@.r, c) == thumb_alu(old(self)@.r, opcode),
            c <= 4,
            final(self)@ == (GbaView { r: final(self)@.r, ..old(self)@ }),
            final(self).wf() == old(self).wf(),
    {
        proof {
            crate::bits::lemma_u16(opcode);
        }
        let op = (opcode >> 6) & 0xF;
        let rs = ((opcode >> 3) & 0x7) as u8;
        let rd = (opcode & 0x7) as u8;
        let x = self.r.get_reg(rs);
        let y = self.r.get_reg(rd);
        let c = self.r.cpsr_carry_flag();
        let cbit: u32 = if c {
            1
        } else {
            0
        };
        let mut flags = true;
        let cycles: u8 = if op == 0 {
            self.r.set_reg(rd, x & y);
            1
        } else if op == 1 {
            self.r.set_reg(rd, x ^ y);
            1
        } else if op == 2 {
            let res = BarrelShifter::lsl(y, x & 0xFF, Some(&mut self.r));
            self.r.set_reg(rd, res);
            2
        } else if op == 3 {
            if x & 0xFF != 0 {
                let res = BarrelShifter::lsr(y, x & 0xFF, Some(&mut self.r));
                self.r.set_reg(rd, res);
            }
            2
        } else if op == 4 {
            if x & 0xFF != 0 {
                let res = BarrelShifter::asr(y, x & 0xFF, Some(&mut self.r));
                self.r.set_reg(rd, res);
            }
            2
        } else if op == 5 {
            let res = x.wrapping_add(y).wrapping_add(cbit);
            self.r.set_reg(rd, res);
            let x1 = self.r.get_reg(rs);
            self.r.cpsr_set_overflow_flag((!(x1 ^ y) & (y ^ res)) >> 31 == 1);
            self.r.cpsr_set_carry_flag((x1 as u64) + (y as u64) + (cbit as u64) > 0xFFFF_FFFF);
            1
        } else if op == 6 {
            let res = y.wrapping_sub(x.wrapping_add(1 - cbit));
            self.r.set_reg(rd, res);
            let b = !x;
            self.r.cpsr_set_overflow_flag((!(y ^ b) & (b ^ res)) >> 31 == 1);
            self.r.cpsr_set_carry_flag((y as u64) + (b as u64) + (cbit as u64) > 0xFFFF_FFFF);
            1
        } else if op == 7 {
            let res = BarrelShifter::ror(y, x & 0xFF, None);
            self.r.set_reg(rd, res);
            let x1 = self.r.get_reg(rs);
            if x1 & 0xFF != 0 {
                self.r.cpsr_set_carry_flag(res >> 31 == 1);
            }
            2
        } else if op == 8 {
            let res = x & y;
            self.r.cpsr_set_zero_flag(res == 0);
            self.r.cpsr_set_sign_flag(res & 0x8000_0000 != 0);
            flags = false;
            1
        } else if op == 9 {
            let res = 0u32.wrapping_sub(x);
            self.r.set_reg(rd, res);
            self.r.cpsr_set_overflow_flag(y & 0x8000_0000 == 0 && res & 0x8000_0000 != 0);
            self.r.cpsr_set_carry_flag(false);
            1
        } else if op == 10 {
            let res = y.wrapping_sub(x);
            self.r.cpsr_set_zero_flag(res == 0);
            self.r.cpsr_set_sign_flag(res >> 31 == 1);
            self.r.cpsr_set_overflow_flag(sub_overflows_exec(y, x));
            self.r.cpsr_set_carry_flag(x <= y);
            flags = false;
            1
        } else if op == 11 {
            let res = y.wrapping_add(x);
            self.r.cpsr_set_zero_flag(res == 0);
            self.r.cpsr_set_sign_flag(res & 0x8000_0000 != 0);
            self.r.cpsr_set_overflow_flag(
                ((y ^ x) & 0x8000_0000 == 0) && ((y ^ res) & 0x8000_0000 != 0),
            );
            self.r.cpsr_set_carry_flag((y as u64) + (x as u64) > 0xFFFF_FFFF);
            flags = false;
            1
        } else if op == 12 {
            self.r.set_reg(rd, y | x);
            1
        } else if op == 13 {
            self.r.set_reg(rd, y.wrapping_mul(x));
            4
        } else if op == 14 {
            self.r.set_reg(rd, y & !x);
            1
        } else {
            self.r.set_reg(rd, !x);
            1
        };
        if flags {
            let z = self.r.get_reg(rd);
            self.r.cpsr_set_zero_flag(z == 0);
            self.r.cpsr_set_sign_flag((z >> 31) & 1 == 1);
        }
        cycles
    }

    /// MOV, CMP, ADD or SUB with an 8-bit immediate (format 3)
    pub fn dispatch_thumb_imm(&mut self, opcode: u16) -> (c: u8)
        ensures
            final(self)@ == (GbaView { r: thumb_imm(old(self)@.r, opcode), ..old(self)@ }),
            final(self).wf() == old(self).wf(),
            c == 1,
    {
        proof {
            crate::bits::lemma_u16(opcode);
        }
        let op = (opcode >> 11) & 0x3;
        let rd = ((opcode >> 8) & 0x7) as u8;
        let imm = (opcode & 0xFF) as u32;
        let y = self.r.get_reg(rd);
        if op == 0 {
            self.r.set_reg(rd, imm);
            self.r.cpsr_set_zero_flag(imm == 0);
            self.r.cpsr_set_sign_flag(imm & 0x8000_0000 != 0);
        } else if op == 1 {
            let res = y.wrapping_sub(imm);
            self.r.cpsr_set_zero_flag(res == 0);
            self.r.cpsr_set_sign_flag(res & 0x8000_0000 != 0);
            self.r.cpsr_set_overflow_flag(sub_overflows_exec(y, imm));
            self.r.cpsr_set_carry_flag(imm <= y);
        } else if op == 2 {
            let res = y.wrapping_add(imm);
            self.r.cpsr_set_zero_flag(res == 0);
            self.r.cpsr_set_sign_flag(res & 0x8000_0000 != 0);
            self.r.cpsr_set_overflow_flag(add_overflows_exec(y, imm));
            self.r.cpsr_set_carry_flag((y as u64) + (imm as u64) > 0xFFFF_FFFF);
            self.r.set_reg(rd, res);
        } else {
            let res = y.wrapping_sub(imm);
            self.r.cpsr_set_zero_flag(res == 0);
            self.r.cpsr_set_sign_flag(res & 0x8000_0000 != 0);
            self.r.cpsr_set_overflow_flag(sub_overflows_exec(y, imm));
            self.r.cpsr_set_carry_flag(imm <= y);
            self.r.set_reg(rd, res);
        }
        1
    }

    /// A shift by an immediate, or a three-operand ADD or SUB (formats 1
    /// and 2)
    pub fn dispatch_thumb_shift_add_sub(&mut self, opcode: u16) -> (c: u8)
        ensures
            final(self)@ == (GbaView {
                r: thumb_shift_add_sub(old(self)@.r, opcode),
                ..old(self)@
            }),
            final(self).wf() == old(self).wf(),
            c == 1,
    {
        proof {
            crate::bits::lemma_u16(opcode);
        }
        let op = (opcode >> 11) & 0x3;
        let offset = ((opcode >> 6) & 0x1F) as u32;
        let rs = ((opcode >> 3) & 0x7) as u8;
        let rd = (opcode & 0x7) as u8;
        let val = self.r.get_reg(rs);
        let amt: u32 = if offset == 0 {
            32
        } else {
            offset
        };
        if op <= 2 {
            let res = if op == 0 {
                BarrelShifter::lsl(val, offset, Some(&mut self.r))
            } else if op == 1 {
                BarrelShifter::lsr(val, amt, Some(&mut self.r))
            } else {
                BarrelShifter::asr(val, amt, Some(&mut self.r))
            };
            self.r.set_reg(rd, res);
            self.r.cpsr_set_sign_flag(res & 0x8000_0000 != 0);
            self.r.cpsr_set_zero_flag(res == 0);
        } else {
            let sub = (opcode >> 9) & 0x3;
            let roi = ((opcode >> 6) & 0x7) as u32;
            let op2 = if sub <= 1 {
                self.r.get_reg(roi as u8)
            } else {
                roi
            };
            let res = if sub == 0 || sub == 2 {
                self.r.cpsr_set_overflow_flag(add_overflows_exec(val, op2));
                self.r.cpsr_set_carry_flag((val as u64) + (op2 as u64) > 0xFFFF_FFFF);
                val.wrapping_add(op2)
            } else {
                self.r.cpsr_set_overflow_flag(sub_overflows_exec(val, op2));
                self.r.cpsr_set_carry_flag(op2 <= val);
                val.wrapping_sub(op2)
            };
            self.r.set_reg(rd, res);
            self.r.cpsr_set_zero_flag(res == 0);
            self.r.cpsr_set_sign_flag(res & 0x8000_0000 != 0);
        }
        1
    }

    fn enter_swi(&mut self)
        ensures
            final(self)@ == (GbaView { r: swi_entered(old(self)@.r), ..old(self)@ }),
            final(self).wf() == old(self).wf(),
    {
        let cpsr = self.r.cpsr;
        proof {
            crate::bits::lemma_u32(cpsr);
        }
        self.r.set_svc_mode();
        let pc = self.r.pc;
        *self.r.lr_mut() = pc;
        self.r.set_thumb(false);
        self.r.cpsr_disable_irq();
        self.r.pc = 0x08;
    }

    /// SWI in ARM state: enters the supervisor when interrupts are enabled
    pub fn dispatch_software_interrupt(&mut self, _opcode: u32) -> (c: u8)
        requires
            old(self).wf(),
        ensures
            final(self).wf(),
            final(self)@ == (if old(self)@.io_bit(0x208, 0) {
                GbaView { r: swi_entered(old(self)@.r), ..old(self)@ }
            } else {
                old(self)@
            }),
            c == 3,
    {
        if self.master_interrupts_enabled() {
            self.enter_swi();
        }
        3
    }

    /// SWI in Thumb state (format 17)
    pub fn dispatch_thumb_software_interrupt(&mut self, _opcode: u16) -> (c: u8)
        requires
            old(self).wf(),
        ensures
            final(self).wf(),
            final(self)@ == (if old(self)@.io_bit(0x208, 0) {
                GbaView { r: swi_entered(old(self)@.r), ..old(self)@ }
            } else {
                old(self)@
            }),
            c == 3,
    {
        if self.master_interrupts_enabled() {
            self.enter_swi();
        }
        3
    }

    /// A conditional branch (format 16)
    pub fn dispatch_thumb_conditional_branch(&mut self, opcode: u16) -> (c: u8)
        requires
            thumb_cond_branch_ok(old(self)@.r, opcode),
        ensures
            (final(self)@.r, c) == thumb_cond_branch(old(self)@.r, opcode),
            c <= 4,
            final(self)@ == (GbaView { r: final(self)@.r, ..old(self)@ }),
            final(self).wf() == old(self).wf(),
    {
        proof {
            crate::bits::lemma_u16(opcode);
        }
        let cond = Cond::from_u8(((opcode >> 8) & 0xF) as u8);
        let nn = (((opcode & 0xFF) as u8) as i8) as i32 * 2;
        if self.cond_should_execute(cond) {
            let pc = self.r.pc as i32;
            self.r.pc = (pc + 2 + nn) as u32;
            3
        } else {
            1
        }
    }

    /// An unconditional branch or a half of a long branch with link
    /// (formats 18 and 19)
    pub fn dispatch_thumb_branch(&mut self, opcode: u16) -> (c: u8)
        requires
            thumb_branch_ok(old(self)@.r, opcode),
        ensures
            (final(self)@.r, c) == thumb_branch(old(self)@.r, opcode),
            c <= 4,
            final(self)@ == (GbaView { r: final(self)@.r, ..old(self)@ }),
            final(self).wf() == old(self).wf(),
    {
        proof {
            crate::bits::lemma_u16(opcode);
        }
        let op = (opcode >> 11) & 0x3;
        let n = (opcode & 0x7FF) as u32;
        let sn: i32 = if n >= 0x400 {
            n as i32 - 0x800
        } else {
            n as i32
        };
        if op == 0 {
            let pc = self.r.pc as i32;
            self.r.pc = (pc + 2 + sn * 2) as u32;
            3
        } else if op == 2 {
            let pc = self.r.pc as i32;
            *self.r.lr_mut() = (pc + 2 + sn * 4096) as u32;
            1
        } else {
            let old_pc = self.r.pc;
            let new_pc = self.r.lr().wrapping_add(n << 1);
            self.r.pc = new_pc;
            *self.r.lr_mut() = old_pc | 1;
            3
        }
    }

    /// ADD rd, SP or PC, #nn*4 (format 12)
    pub fn dispatch_thumb_get_relative_address(&mut self, opcode: u16) -> (c: u8)
        requires
            thumb_relative_address_ok(old(self)@.r, opcode),
        ensures
            final(self)@ == (GbaView { r: thumb_relative_address(old(self)@.r, opcode), ..old(self)@ }),
            final(self).wf() == old(self).wf(),
            c == 1,
    {
        proof {
            crate::bits::lemma_u16(opcode);
        }
        let rd = ((opcode >> 8) & 0x7) as u8;
        let nn = (opcode & 0xFF) as u32;
        if (opcode >> 11) & 0x1 == 1 {
            let v = self.r.sp() + nn * 4;
            self.r.set_reg(rd, v);
        } else {
            let v = ((self.r.pc + 2) & !2) + nn * 4;
            self.r.set_reg(rd, v);
        }
        1
    }

    /// ADD SP, #±nn*4 (format 13)
    pub fn dispatch_thumb_add_offset_to_sp(&mut self, opcode: u16) -> (c: u8)
        requires
            thumb_sp_offset_ok(old(self)@.r, opcode),
        ensures
            final(self)@ == (GbaView { r: thumb_sp_offset(old(self)@.r, opcode), ..old(self)@ }),
            final(self).wf() == old(self).wf(),
            c == 1,
    {
        proof {
            crate::bits::lemma_u16(opcode);
        }
        let nn = (opcode & 0x7F) as u32;
        if (opcode >> 7) & 0x1 == 1 {
            *self.r.sp_mut() -= nn * 4;
        } else {
            *self.r.sp_mut() += nn * 4;
        }
        1
    }

    /// ADD, CMP or MOV with a high register, or BX/BLX (format 5)
    pub fn dispatch_thumb_hi_reg_branch(&mut self, opcode: u16) -> (c: u8)
        requires
            thumb_hi_reg_ok(old(self)@.r, opcode),
        ensures
            final(self)@ == (GbaView { r: thumb_hi_reg(old(self)@.r, opcode), ..old(self)@ }),
            final(self).wf() == old(self).wf(),
            c == (if (opcode >> 8u16) & 0x3 == 3 {
                3u8
            } else {
                1u8
            }),
    {
        proof {
            crate::bits::lemma_u16(opcode);
        }
        let subop = (opcode >> 8) & 0x3;
        let rs = ((opcode >> 3) & 0xF) as u8;
        let mut rd = (opcode & 0x7) as u8;
        if subop != 3 && (opcode >> 7) & 1 == 1 {
            rd = rd + 8;
        }
        let mut op2 = self.r.get_reg(rs);
        if rs == 15 {
            op2 = op2 + 2;
        }
        if subop == 0 {
            let v = self.r.get_reg(rd).wrapping_add(op2);
            self.r.set_reg(rd, v);
            1
        } else if subop == 1 {
            let op1 = self.r.get_reg(rd);
            let res = op1.wrapping_sub(op2);
            self.r.cpsr_set_zero_flag(res == 0);
            self.r.cpsr_set_sign_flag(res & 0x8000_0000 != 0);
            self.r.cpsr_set_overflow_flag(sub_overflows_exec(op1, op2));
            self.r.cpsr_set_carry_flag(op2 <= op1);
            1
        } else if subop == 2 {
            self.r.set_reg(rd, op2);
            1
        } else {
            let thumb = rs != 15 && op2 & 1 == 1;
            let addr = if thumb {
                self.r.get_reg(rs) & !1
            } else {
                (self.r.get_reg(rs) + 2) & !3
            };
            self.r.set_thumb(thumb);
            if (opcode >> 7) & 1 == 1 {
                let old_pc = self.r.pc + 4;
                self.r.pc = addr;
                *self.r.lr_mut() = old_pc + 1;
            } else {
                self.r.pc = addr;
            }
            3
        }
    }

    /// LDR rd, [PC, #nn] (format 6)
    pub fn dispatch_thumb_load_pc_relative(&mut self, opcode: u16) -> (c: u8)
        requires
            old(self).wf(),
            old(self)@.thumb_pc_load_ok(opcode),
        ensures
            final(self).wf(),
            (final(self)@, c) == old(self)@.thumb_pc_load(opcode),
            c <= 20,
    {
        proof {
            crate::bits::lemma_u16(opcode);
        }
        let rd = ((opcode >> 8) & 0x7) as u8;
        let nn = (opcode & 0xFF) << 2;
        let pc = (self.r.pc + 2) & !2;
        let addr = pc + nn as u32;
        let o = self.get_mem32(addr, false);
        self.r.set_reg(rd, o.0);
        2 + o.1
    }

    /// STR, STRB, LDR or LDRB with a register offset (format 7)
    pub fn dispatch_thumb_load_store_reg(&mut self, opcode: u16) -> (c: u8)
        requires
            old(self).wf(),
            old(self)@.thumb_ldst_reg_ok(opcode),
        ensures
            final(self).wf(),
            (final(self)@, c) == old(self)@.thumb_ldst_reg(opcode),
            c <= 20,
    {
        proof {
            crate::bits::lemma_u16(opcode);
        }
        let op = (opcode >> 10) & 0x3;
        let ro = ((opcode >> 6) & 0x7) as u8;
        let rb = ((opcode >> 3) & 0x7) as u8;
        let rd = (opcode & 0x7) as u8;
        let addr = self.r.get_reg(rb).wrapping_add(self.r.get_reg(ro));
        if op == 0 {
            let v = self.r.get_reg(rd);
            let o = self.set_mem32(addr, v);
            1 + o
        } else if op == 1 {
            let v = self.r.get_reg(rd);
            let o = self.set_mem8(addr, v as u8);
            1 + o
        } else if op == 2 {
            let o = self.get_mem32(addr, false);
            self.r.set_reg(rd, o.0);
            2 + o.1
        } else {
            let o = self.get_mem8(addr);
            self.r.set_reg(rd, o.0 as u32);
            2 + o.1
        }
    }

    /// STRH, LDSB, LDRH or LDSH with a register offset (format 8)
    pub fn dispatch_thumb_load_store_halfword_sign_extend(&mut self, opcode: u16) -> (c: u8)
        requires
            old(self).wf(),
            old(self)@.thumb_ldst_sign_ok(opcode),
        ensures
            final(self).wf(),
            (final(self)@, c) == old(self)@.thumb_ldst_sign(opcode),
            c <= 20,
    {
        proof {
            crate::bits::lemma_u16(opcode);
        }
        let op = (opcode >> 10) & 0x3;
        let ro = ((opcode >> 6) & 0x7) as u8;
        let rb = ((opcode >> 3) & 0x7) as u8;
        let rd = (opcode & 0x7) as u8;
        let addr = self.r.get_reg(rb).wrapping_add(self.r.get_reg(ro));
        if op == 0 {
            let v = self.r.get_reg(rd);
            let o = self.set_mem16(addr, v as u16);
            1 + o
        } else if op == 1 {
            let o = self.get_mem8(addr);
            self.r.set_reg(rd, ((o.0 as i8) as i32) as u32);
            2 + o.1
        } else if op == 2 {
            let o = self.get_mem16(addr, false);
            self.r.set_reg(rd, o.0 as u32);
            2 + o.1
        } else {
            let o = self.get_mem16(addr, false);
            self.r.set_reg(rd, ((o.0 as i16) as i32) as u32);
            2 + o.1
        }
    }

    /// LDRH or STRH with an immediate offset (format 10)
    pub fn dispatch_thumb_load_store_halfword(&mut self, opcode: u16) -> (c: u8)
        requires
            old(self).wf(),
            old(self)@.thumb_ldst_half_ok(opcode),
        ensures
            final(self).wf(),
            (final(self)@, c) == old(self)@.thumb_ldst_half(opcode),
            c <= 20,
    {
        proof {
            crate::bits::lemma_u16(opcode);
        }
        let offset = ((opcode >> 6) & 0x1F) as u32;
        let rb = ((opcode >> 3) & 0x7) as u8;
        let rd = (opcode & 0x7) as u8;
        let addr = self.r.get_reg(rb) + offset * 2;
        if (opcode >> 11) & 0x1 == 1 {
            let o = self.get_mem16(addr, false);
            self.r.set_reg(rd, o.0 as u32);
            2 + o.1
        } else {
            let v = self.r.get_reg(rd);
            let o = self.set_mem16(addr, v as u16);
            1 + o
        }
    }

    /// STR, LDR, STRB or LDRB with an immediate offset (format 9)
    pub fn dispatch_thumb_load_store_imm(&mut self, opcode: u16) -> (c: u8)
        requires
            old(self).wf(),
            old(self)@.thumb_ldst_imm_ok(opcode),
        ensures
            final(self).wf(),
            (final(self)@, c) == old(self)@.thumb_ldst_imm(opcode),
            c <= 20,
    {
        proof {
            crate::bits::lemma_u16(opcode);
        }
        let op = (opcode >> 11) & 0x3;
        let offset = ((opcode >> 6) & 0x1F) as u32;
        let rb = ((opcode >> 3) & 0x7) as u8;
        let rd = (opcode & 0x7) as u8;
        let base = self.r.get_reg(rb);
        if op == 0 {
            let v = self.r.get_reg(rd);
            let o = self.set_mem32(base.wrapping_add(offset * 4), v);
            1 + o
        } else if op == 1 {
            let o = self.get_mem32(base.wrapping_add(offset * 4), false);
            self.r.set_reg(rd, o.0);
            2 + o.1
        } else if op == 2 {
            let v = self.r.get_reg(rd);
            let o = self.set_mem8(base.wrapping_add(offset), v as u8);
            1 + o
        } else {
            let o = self.get_mem8(base.wrapping_add(offset));
            self.r.set_reg(rd, o.0 as u32);
            2 + o.1
        }
    }

    /// LDR or STR relative to SP (format 11)
    pub fn dispatch_thumb_load_store_sp_relative(&mut self, opcode: u16) -> (c: u8)
        requires
            old(self).wf(),
            old(self)@.thumb_ldst_sp_ok(opcode),
        ensures
            final(self).wf(),
            (final(self)@, c) == old(self)@.thumb_ldst_sp(opcode),
            c <= 20,
    {
        proof {
            crate::bits::lemma_u16(opcode);
        }
        let rd = ((opcode >> 8) & 0x7) as u8;
        let nn = (opcode & 0xFF) as u32;
        let addr = self.r.sp() + nn * 4;
        if (opcode >> 11) & 0x1 == 1 {
            let o = self.get_mem32(addr, false);
            self.r.set_reg(rd, o.0);
            o.1 + 2
        } else {
            let v = self.r.get_reg(rd);
            let o = self.set_mem32(addr, v);
            o * 2
        }
    }

    /// The ARM instruction at the PC, and the cycles of fetching it
    pub fn get_opcode(&self) -> (r: (u32, u8))
        requires
            self.wf(),
            self@.read32_ok(self@.r.pc),
        ensures
            r == self@.read32(self@.r.pc, true),
            r.1 <= 18,
    {
        self.get_mem32(self.r.pc, true)
    }

    /// The Thumb instruction at the PC, and the cycles of fetching it
    pub fn get_thumb_opcode(&self) -> (r: (u16, u8))
        requires
            self.wf(),
            self@.read16_ok(self@.r.pc),
        ensures
            r == self@.read16(self@.r.pc, true),
            r.1 <= 18,
    {
        self.get_mem16(self.r.pc, true)
    }

    /// LDMIA or STMIA (format 15)
    pub fn dispatch_thumb_load_store_multiple(&mut self, opcode: u16) -> (c: u8)
        requires
            old(self).wf(),
            old(self)@.thumb_ldst_multiple_ok(opcode),
        ensures
            final(self).wf(),
            (final(self)@, c) == old(self)@.thumb_ldst_multiple(opcode),
            c <= 160,
    {
        proof {
            crate::bits::lemma_u16(opcode);
        }
        let rb = ((opcode >> 8) & 0x7) as u8;
        let list = opcode & 0xFF;
        let mut cycles: u8 = 0;
        let mut i: u16 = 0;
        if (opcode >> 11) & 0x1 == 1 {
            while i < 8
                invariant
                    i <= 8,
                    rb < 8,
                    self.wf(),
                    self@.ldm_ok_from(rb, list, i as int),
                    old(self)@.ldm_from(rb, list, 0, 0) == self@.ldm_from(
                        rb,
                        list,
                        i as int,
                        cycles as int,
                    ),
                    cycles <= 20 * i,
                decreases 8 - i,
            {
                if list & (1u16 << i) != 0 {
                    let a = self.r.get_reg(rb);
                    let o = self.get_mem32(a, true);
                    self.r.set_reg(rb, a.wrapping_add(4));
                    self.r.set_reg(i as u8, o.0);
                    cycles = cycles + 2 + o.1;
                }
                i = i + 1;
            }
        } else {
            while i < 8
                invariant
                    i <= 8,
                    rb < 8,
                    self.wf(),
                    self@.stm_ok_from(rb, list, i as int),
                    old(self)@.stm_from(rb, list, 0, 0) == self@.stm_from(
                        rb,
                        list,
                        i as int,
                        cycles as int,
                    ),
                    cycles <= 7 * i,
                decreases 8 - i,
            {
                if list & (1u16 << i) != 0 {
                    let a = self.r.get_reg(rb);
                    let val = self.r.get_reg(i as u8);
                    let o = self.set_mem32(a, val);
                    cycles = cycles + 1 + o;
                    self.r.set_reg(rb, a.wrapping_add(4));
                }
                i = i + 1;
            }
        }
        cycles
    }

    /// PUSH {list, LR} or POP {list, PC} (format 14)
    pub fn dispatch_thumb_push_pop(&mut self, opcode: u16) -> (c: u8)
        requires
            old(self).wf(),
            old(self)@.thumb_push_pop_ok(opcode),
        ensures
            final(self).wf(),
            (final(self)@, c) == old(self)@.thumb_push_pop(opcode),
            c <= 180,
    {
        proof {
            crate::bits::lemma_u16(opcode);
        }
        let list = opcode & 0xFF;
        let pc_lr = (opcode >> 8) & 0x1 == 1;
        let mut cycles: u8 = 0;
        if (opcode >> 11) & 0x1 == 1 {
            let mut i: u16 = 0;
            while i < 8
                invariant
                    i <= 8,
                    self.wf(),
                    self@.r.mode() is Some,
                    self@.pop_ok_from(list, i as int),
                    old(self)@.pop_from(list, 0, 0) == self@.pop_from(list, i as int, cycles as int),
                    cycles <= 20 * i,
                decreases 8 - i,
            {
                if list & (1u16 << i) != 0 {
                    let a = self.r.sp();
                    let o = self.get_mem32(a, true);
                    *self.r.sp_mut() = a + 4;
                    self.r.set_reg(i as u8, o.0);
                    cycles = cycles + o.1 + 2;
                }
                i = i + 1;
            }
            if pc_lr {
                let a = self.r.sp();
                let o = self.get_mem32(a, true);
                *self.r.sp_mut() = a + 4;
                self.r.pc = o.0 & !1;
                cycles = cycles + o.1 + 2;
            }
        } else {
            if pc_lr {
                let a = self.r.sp() - 4;
                let lr = self.r.lr();
                *self.r.sp_mut() = a;
                let o = self.set_mem32(a, lr);
                cycles = 1 + o;
            }
            let ghost target = self@.push_from(list, 7, cycles as int);
            let mut k: u16 = 8;
            while k > 0
                invariant
                    k <= 8,
                    self.wf(),
                    self@.r.mode() is Some,
                    self@.push_ok_from(list, k - 1),
                    target == self@.push_from(list, k - 1, cycles as int),
                    cycles <= 7 + 7 * (8 - k),
                decreases k,
            {
                let i = k - 1;
                if list & (1u16 << i) != 0 {
                    let a = self.r.sp() - 4;
                    *self.r.sp_mut() = a;
                    let val = self.r.get_reg(i as u8);
                    let o = self.set_mem32(a, val);
                    cycles = cycles + 1 + o;
                }
                k = i;
            }
        }
        cycles
    }

    /// Runs one Thumb instruction; its cycles
    #[verifier::rlimit(50)]
    pub fn dispatch_thumb(&mut self) -> (c: u8)
        requires
            old(self).wf(),
            old(self)@.thumb_step_ok(),
        ensures
            final(self).wf(),
            (final(self)@, c) == old(self)@.thumb_step(),
    {
        let (opcode, cycles) = self.get_thumb_opcode();
        proof {
            crate::bits::lemma_u16(opcode);
        }
        let idx = (opcode >> 13) & 0x7;
        self.r.pc = self.r.pc + 2;
        if opcode == 0 {
            return 4;
        }
        let b12 = (opcode >> 12) & 0x1 == 1;
        let c = if idx == 0 {
            self.dispatch_thumb_shift_add_sub(opcode)
        } else if idx == 1 {
            self.dispatch_thumb_imm(opcode)
        } else if idx == 2 {
            if b12 {
                if (opcode >> 9) & 1 == 1 {
                    self.dispatch_thumb_load_store_halfword_sign_extend(opcode)
                } else {
                    self.dispatch_thumb_load_store_reg(opcode)
                }
            } else {
                let sub = (opcode >> 10) & 0x3;
                if sub == 0 {
                    self.dispatch_thumb_alu(opcode)
                } else if sub == 1 {
                    self.dispatch_thumb_hi_reg_branch(opcode)
                } else {
                    self.dispatch_thumb_load_pc_relative(opcode)
                }
            }
        } else if idx == 3 {
            self.dispatch_thumb_load_store_imm(opcode)
        } else if idx == 4 {
            if b12 {
                self.dispatch_thumb_load_store_sp_relative(opcode)
            } else {
                self.dispatch_thumb_load_store_halfword(opcode)
            }
        } else if idx == 5 {
            if !b12 {
                self.dispatch_thumb_get_relative_address(opcode)
            } else if (opcode >> 9) & 0x3 == 2 {
                self.dispatch_thumb_push_pop(opcode)
            } else {
                self.dispatch_thumb_add_offset_to_sp(opcode)
            }
        } else if idx == 6 {
            if b12 {
                if (opcode >> 8) & 0xF == 0xF {
                    self.dispatch_thumb_software_interrupt(opcode)
                } else {
                    self.dispatch_thumb_conditional_branch(opcode)
                }
            } else {
                self.dispatch_thumb_load_store_multiple(opcode)
            }
        } else {
            self.dispatch_thumb_branch(opcode)
        };
        cycles + c
    }

    /// The second operand of a data-processing instruction
    fn arm_alu_operand2(&mut self, opcode: u32) -> (op2: u32)
        requires
            !((opcode >> 25u32) & 1 == 1) && (opcode & 0xF) == 15 ==> old(self)@.r.pc + 8 <= u32::MAX,
        ensures
            (op2, final(self)@.r) == arm_alu_op2(old(self)@.r, opcode),
            final(self)@ == (GbaView { r: final(self)@.r, ..old(self)@ }),
            final(self).wf() == old(self).wf(),
    {
        proof {
            crate::bits::lemma_u32(opcode);
        }
        let s = (opcode >> 20) & 1 == 1;
        if (opcode >> 25) & 1 == 1 {
            let amt = ((opcode >> 8) & 0xF) * 2;
            if s {
                BarrelShifter::ror(opcode & 0xFF, amt, Some(&mut self.r))
            } else {
                BarrelShifter::ror(opcode & 0xFF, amt, None)
            }
        } else {
            let sbr = (opcode >> 4) & 1 == 1;
            let rm = (opcode & 0xF) as u8;
            let amt: u32 = if sbr {
                self.r.get_reg(((opcode >> 8) & 0xF) as u8) & 0xFF
            } else {
                (opcode >> 7) & 0x1F
            };
            let mut v = self.r.get_reg(rm);
            if rm == 15 {
                if sbr {
                    v = v + 8;
                } else {
                    v = v + 4;
                }
            }
            let t = (opcode >> 5) & 0x3;
            if amt == 0 && sbr {
                v
            } else {
                let carry = self.r.cpsr_carry_flag();
                if s {
                    if t == 0 {
                        BarrelShifter::lsl(v, amt, Some(&mut self.r))
                    } else if t == 1 {
                        BarrelShifter::lsr(v, amt, Some(&mut self.r))
                    } else if t == 2 {
                        BarrelShifter::asr(v, amt, Some(&mut self.r))
                    } else if amt == 0 {
                        BarrelShifter::rrx(v, Some(&mut self.r), carry)
                    } else {
                        BarrelShifter::ror(v, amt, Some(&mut self.r))
                    }
                } else {
                    if t == 0 {
                        BarrelShifter::lsl(v, amt, None)
                    } else if t == 1 {
                        BarrelShifter::lsr(v, amt, None)
                    } else if t == 2 {
                        BarrelShifter::asr(v, amt, None)
                    } else if amt == 0 {
                        BarrelShifter::rrx(v, None, carry)
                    } else {
                        BarrelShifter::ror(v, amt, None)
                    }
                }
            }
        }
    }

    /// A data-processing instruction
    #[verifier::rlimit(50)]
    pub fn dispatch_alu(&mut self, opcode: u32) -> (c: u8)
        requires
            arm_alu_ok(old(self)@.r, opcode),
        ensures
            final(self)@ == (GbaView { r: arm_alu(old(self)@.r, opcode), ..old(self)@ }),
            final(self).wf() == old(self).wf(),
            c == 4,
    {
        proof {
            crate::bits::lemma_u32(opcode);
        }
        let op = (opcode >> 21) & 0xF;
        let s = (opcode >> 20) & 1 == 1;
        let rn = ((opcode >> 16) & 0xF) as u8;
        let rd = ((opcode >> 12) & 0xF) as u8;
        let mut op1 = self.r.get_reg(rn);
        if rn == 15 {
            if (opcode >> 25) & 1 == 0 && (opcode >> 4) & 1 == 1 {
                op1 = op1 + 8;
            } else {
                op1 = op1 + 4;
            }
        }
        let op2 = self.arm_alu_operand2(opcode);
        let cbit: u32 = if self.r.cpsr_carry_flag() {
            1
        } else {
            0
        };
        if op == 0 || op == 1 || op == 0xC || op == 0xE || op == 0xF || op == 0xD {
            let res = if op == 0 {
                op1 & op2
            } else if op == 1 {
                op1 ^ op2
            } else if op == 0xC {
                op1 | op2
            } else if op == 0xE {
                op1 & !op2
            } else if op == 0xF {
                !op2
            } else {
                op2
            };
            self.r.set_reg(rd, res);
            if s {
                self.r.cpsr_set_zero_flag(res == 0);
                self.r.cpsr_set_sign_flag((res >> 31) == 1);
            }
        } else if op == 8 || op == 9 {
            let res = if op == 8 {
                op1 & op2
            } else {
                op1 ^ op2
            };
            if s {
                self.r.cpsr_set_zero_flag(res == 0);
                self.r.cpsr_set_sign_flag((res >> 31) == 1);
            }
        } else if op == 2 || op == 3 || op == 0xA {
            let (a, b) = if op == 3 {
                (op2, op1)
            } else {
                (op1, op2)
            };
            let res = a.wrapping_sub(b);
            if op != 0xA {
                self.r.set_reg(rd, res);
            }
            if s {
                self.r.cpsr_set_zero_flag(res == 0);
                self.r.cpsr_set_sign_flag(res & 0x8000_0000 != 0);
                self.r.cpsr_set_overflow_flag(sub_overflows_exec(a, b));
                self.r.cpsr_set_carry_flag(b <= a);
            }
        } else if op == 4 || op == 0xB {
            let res = op1.wrapping_add(op2);
            if op != 0xB {
                self.r.set_reg(rd, res);
            }
            if s {
                self.r.cpsr_set_zero_flag(res == 0);
                self.r.cpsr_set_sign_flag((res >> 31) == 1);
                self.r.cpsr_set_overflow_flag(add_overflows_exec(op1, op2));
                self.r.cpsr_set_carry_flag((op1 as u64) + (op2 as u64) > 0xFFFF_FFFF);
            }
        } else if op == 5 {
            let res = op1.wrapping_add(op2).wrapping_add(cbit);
            self.r.set_reg(rd, res);
            if s {
                self.r.cpsr_set_zero_flag(res == 0);
                self.r.cpsr_set_sign_flag((res >> 31) == 1);
                self.r.cpsr_set_overflow_flag((!(op1 ^ op2) & (op2 ^ res)) >> 31 == 1);
                self.r.cpsr_set_carry_flag(
                    (op1 as u64) + (op2 as u64) + (cbit as u64) > 0xFFFF_FFFF,
                );
            }
        } else {
            let (a, b0) = if op == 6 {
                (op1, op2)
            } else {
                (op2, op1)
            };
            let res = a.wrapping_sub(b0.wrapping_add(1 - cbit));
            let b = !b0;
            self.r.set_reg(rd, res);
            if s {
                self.r.cpsr_set_zero_flag(res == 0);
                self.r.cpsr_set_sign_flag((res >> 31) == 1);
                self.r.cpsr_set_overflow_flag((!(a ^ b) & (b ^ res)) >> 31 == 1);
                self.r.cpsr_set_carry_flag((a as u64) + (b as u64) + (cbit as u64) > 0xFFFF_FFFF);
            }
        }
        if s && rd == 15 {
            let spsr = self.r.get_spsr();
            self.r.cpsr = spsr;
        }
        4
    }

    /// B or BL
    pub fn dispatch_branch(&mut self, opcode: u32) -> (c: u8)
        requires
            arm_branch_ok(old(self)@.r, opcode),
        ensures
            final(self)@ == (GbaView { r: arm_branch(old(self)@.r, opcode), ..old(self)@ }),
            final(self).wf() == old(self).wf(),
            c == 3,
    {
        proof {
            crate::bits::lemma_u32(opcode);
        }
        let v = (opcode & 0xFF_FFFF) as i32;
        let off: i32 = if v >= 0x80_0000 {
            v - 0x100_0000
        } else {
            v
        };
        if (opcode >> 24) & 1 == 1 {
            let pc = self.r.pc;
            *self.r.lr_mut() = pc;
        }
        let new_pc = self.r.pc as i32 + 4 + off * 4;
        self.r.pc = new_pc as u32;
        3
    }

    /// BX or BLX to a register
    pub fn dispatch_branch_and_exchange(&mut self, opcode: u32) -> (c: u8)
        requires
            arm_bx_ok(old(self)@.r, opcode),
        ensures
            final(self)@ == (GbaView { r: arm_bx(old(self)@.r, opcode), ..old(self)@ }),
            final(self).wf() == old(self).wf(),
            c == 3,
    {
        proof {
            crate::bits::lemma_u32(opcode);
        }
        let sub = (opcode >> 4) & 0xF;
        let op_reg = (opcode & 0xF) as u8;
        let mut op = self.r.get_reg(op_reg);
        if op_reg == 15 {
            op = op + 4;
        }
        let thumb = op & 1 == 1;
        let old_pc = self.r.pc;
        let new_pc = if thumb {
            op & !1
        } else {
            op & !3
        };
        if sub == 1 {
            self.r.pc = new_pc;
            self.r.set_thumb(thumb);
        } else {
            self.r.set_thumb(thumb);
            self.r.pc = new_pc;
            *self.r.lr_mut() = old_pc;
        }
        3
    }

    /// MUL, MLA, UMULL, UMLAL, SMULL or SMLAL
    pub fn dispatch_multiply(&mut self, opcode: u32) -> (c: u8)
        requires
            arm_multiply_ok(opcode),
        ensures
            final(self)@ == (GbaView { r: arm_multiply(old(self)@.r, opcode), ..old(self)@ }),
            final(self).wf() == old(self).wf(),
            c == 3,
    {
        proof {
            crate::bits::lemma_u32(opcode);
        }
        let sub = (opcode >> 21) & 0xF;
        let s = (opcode >> 20) & 1 == 1;
        let rd = ((opcode >> 16) & 0xF) as u8;
        let rn = ((opcode >> 12) & 0xF) as u8;
        let rs = ((opcode >> 8) & 0xF) as u8;
        let rm = (opcode & 0xF) as u8;
        if sub == 0 || sub == 1 {
            let res = if sub == 0 {
                self.r.get_reg(rm).wrapping_mul(self.r.get_reg(rs))
            } else {
                self.r.get_reg(rm).wrapping_mul(self.r.get_reg(rs)).wrapping_add(self.r.get_reg(rn))
            };
            self.r.set_reg(rd, res);
            if s {
                self.r.cpsr_set_zero_flag(res == 0);
                self.r.cpsr_set_sign_flag((res >> 31) == 1);
            }
        } else if sub == 4 || sub == 5 {
            let prod = (self.r.get_reg(rs) as u64).wrapping_mul(self.r.get_reg(rm) as u64);
            let res = if sub == 4 {
                prod
            } else {
                let add_val = ((self.r.get_reg(rd) as u64) << 32) | (self.r.get_reg(rn) as u64);
                prod.wrapping_add(add_val)
            };
            self.r.set_reg(rd, (res >> 32) as u32);
            self.r.set_reg(rn, (res & 0xFFFF_FFFF) as u32);
            if s {
                self.r.cpsr_set_zero_flag(res == 0);
                self.r.cpsr_set_sign_flag((res >> 63) == 1);
            }
        } else if sub == 6 {
            let res = ((self.r.get_reg(rs) as i32) as i64).wrapping_mul(
                (self.r.get_reg(rm) as i32) as i64,
            );
            self.r.set_reg(rd, (res >> 32) as u32);
            self.r.set_reg(rn, (res & 0xFFFF_FFFF) as u32);
            if s {
                self.r.cpsr_set_zero_flag(res == 0);
                self.r.cpsr_set_sign_flag((res >> 63) & 1 == 1);
            }
        } else {
            let add_val = ((self.r.get_reg(rd) as u64) << 32) | (self.r.get_reg(rn) as u64);
            let prod = ((self.r.get_reg(rs) as i32) as i64).wrapping_mul(
                (self.r.get_reg(rm) as i32) as i64,
            );
            let res = (prod as u64).wrapping_add(add_val);
            self.r.set_reg(rd, (res >> 32) as u32);
            self.r.set_reg(rn, (res & 0xFFFF_FFFF) as u32);
            if s {
                self.r.cpsr_set_zero_flag(res == 0);
                self.r.cpsr_set_sign_flag((res >> 63) == 1);
            }
        }
        self.r.cpsr_set_carry_flag(false);
        3
    }

    /// SWP or SWPB
    pub fn dispatch_swap(&mut self, opcode: u32) -> (c: u8)
        requires
            old(self).wf(),
            old(self)@.arm_swap_ok(opcode),
        ensures
            final(self).wf(),
            (final(self)@, c) == old(self)@.arm_swap(opcode),
    {
        proof {
            crate::bits::lemma_u32(opcode);
        }
        let rn = ((opcode >> 16) & 0xF) as u8;
        let rd = ((opcode >> 12) & 0xF) as u8;
        let rm = (opcode & 0xF) as u8;
        let addr = self.r.get_reg(rn);
        let rm_val = self.r.get_reg(rm);
        if (opcode >> 22) & 1 == 1 {
            let o = self.get_mem8(addr);
            self.r.set_reg(rd, o.0 as u32);
            let w = self.set_mem8(addr, rm_val as u8);
            o.1 + w + 1
        } else {
            let o = self.get_mem32(addr, false);
            self.r.set_reg(rd, o.0);
            let w = self.set_mem32(addr, rm_val);
            o.1 + w + 1
        }
    }

    /// MRS or MSR
    pub fn dispatch_psr(&mut self, opcode: u32) -> (c: u8)
        requires
            arm_psr_ok(old(self)@.r, opcode),
        ensures
            final(self)@ == (GbaView { r: arm_psr(old(self)@.r, opcode), ..old(self)@ }),
            final(self).wf() == old(self).wf(),
            c == 1,
    {
        proof {
            crate::bits::lemma_u32(opcode);
        }
        let spsr_target = (opcode >> 22) & 1 == 1;
        if (opcode >> 21) & 1 == 1 {
            let mask = msr_mask_exec(opcode);
            let val = if (opcode >> 25) & 1 == 1 {
                let amt = ((opcode >> 8) & 0xF) * 2;
                let cpsr = self.r.cpsr;
                let v = BarrelShifter::ror(opcode & 0xFF, amt, Some(&mut self.r));
                proof {
                    lemma_with_bit_mode(cpsr, 29, true);
                    lemma_with_bit_mode(cpsr, 29, false);
                }
                v
            } else {
                self.r.get_reg((opcode & 0xF) as u8)
            };
            if spsr_target {
                let sp = self.r.get_spsr_mut();
                *sp = (*sp & !mask) | (val & mask);
            } else {
                self.r.cpsr = (self.r.cpsr & !mask) | (val & mask);
            }
        } else {
            let v = if spsr_target {
                self.r.get_spsr()
            } else {
                self.r.cpsr
            };
            self.r.set_reg(((opcode >> 12) & 0xF) as u8, v);
        }
        1
    }

    /// The memory access of a single transfer at `addr`, storing `wv`
    fn mem_access(&mut self, opcode: u32, addr: u32, wv: u32) -> (c: u8)
        requires
            old(self).wf(),
            old(self)@.arm_mem_access_ok(opcode, addr, wv),
        ensures
            final(self).wf(),
            c <= 18,
            (final(self)@, c) == old(self)@.arm_mem_access(opcode, addr, wv),
    {
        proof {
            crate::bits::lemma_u32(opcode);
        }
        let sd = ((opcode >> 12) & 0xF) as u8;
        let byte = (opcode >> 22) & 1 == 1;
        if (opcode >> 20) & 1 == 1 {
            if byte {
                let o = self.get_mem8(addr);
                self.r.set_reg(sd, o.0 as u32);
                o.1
            } else if addr & 3 != 0 {
                let o = self.get_mem32(addr & !3, true);
                let v = BarrelShifter::ror(o.0, (addr & 3) << 3, Some(&mut self.r));
                self.r.set_reg(sd, v);
                o.1
            } else {
                let o = self.get_mem32(addr, true);
                self.r.set_reg(sd, o.0);
                o.1
            }
        } else if byte {
            self.set_mem8(addr, wv as u8)
        } else {
            self.set_mem32(addr & !3, wv)
        }
    }

    /// LDR, STR, LDRB or STRB
    #[verifier::rlimit(80)]
    pub fn dispatch_mem(&mut self, opcode: u32) -> (c: u8)
        requires
            old(self).wf(),
            old(self)@.arm_mem_ok(opcode),
        ensures
            final(self).wf(),
            (final(self)@, c) == old(self)@.arm_mem(opcode),
            c <= 18,
    {
        proof {
            crate::bits::lemma_u32(opcode);
        }
        let p = (opcode >> 24) & 1 == 1;
        let up = (opcode >> 23) & 1 == 1;
        let byte = (opcode >> 22) & 1 == 1;
        let wb = (opcode >> 21) & 1 == 1;
        let load = (opcode >> 20) & 1 == 1;
        let b = ((opcode >> 16) & 0xF) as u8;
        let sd = ((opcode >> 12) & 0xF) as u8;
        let user = wb && !p;
        let old_mode = self.r.register_mode();
        if user {
            self.r.set_mode(RegisterMode::User);
        }
        let offset = if (opcode >> 25) & 1 == 1 {
            shifted_offset_exec(&self.r, opcode)
        } else {
            opcode & 0xFFF
        };
        let mut val = self.r.get_reg(b);
        if b == 15 {
            val = val + 4;
        }
        if p {
            val = if up {
                val.wrapping_add(offset)
            } else {
                val.wrapping_sub(offset)
            };
        }
        let wv = if !load {
            let mut w = self.r.get_reg(sd);
            if sd == 15 {
                w = w + 8;
            }
            w
        } else {
            0
        };
        let c = self.mem_access(opcode, val, wv);
        if !p {
            val = if up {
                val.wrapping_add(offset)
            } else {
                val.wrapping_sub(offset)
            };
        }
        if user {
            match old_mode {
                Some(m) => self.r.set_mode(m),
                None => {},
            }
        }
        if (!load || b != sd) && (!p || wb) {
            self.r.set_reg(b, val);
        }
        c
    }

    /// The memory access of a halfword or doubleword transfer at `a`,
    /// storing `src`
    #[verifier::rlimit(80)]
    fn half_transfer(&mut self, opcode: u32, a: u32, src: u32) -> (c: u8)
        requires
            old(self).wf(),
            (opcode >> 5u32) & 0x3 != 0,
            old(self)@.arm_half_access_ok(opcode, a, src),
        ensures
            final(self).wf(),
            c <= 38,
            (final(self)@, c) == old(self)@.arm_half_access(opcode, a, src),
    {
        proof {
            crate::bits::lemma_u32(opcode);
        }
        let rd = ((opcode >> 12) & 0xF) as u8;
        let sub = (opcode >> 5) & 0x3;
        if (opcode >> 20) & 1 == 1 {
            if sub == 1 {
                let o = self.get_mem16(a, false);
                self.r.set_reg(rd, o.0 as u32);
                2 + o.1
            } else if sub == 2 {
                let o = self.get_mem8(a);
                self.r.set_reg(rd, ((o.0 as i8) as i32) as u32);
                2 + o.1
            } else {
                let o = self.get_mem16(a, false);
                self.r.set_reg(rd, ((o.0 as i16) as i32) as u32);
                2 + o.1
            }
        } else if sub == 1 {
            let o = self.set_mem16(a, src as u16);
            2 + o
        } else if sub == 2 {
            let o1 = self.get_mem32(a, false);
            let o2 = self.get_mem32(a + 4, true);
            self.r.set_reg(rd, o1.0);
            self.r.set_reg(rd + 1, o2.0);
            2 + o1.1 + o2.1
        } else {
            let o1 = self.set_mem32(a, src);
            let mut src2 = self.r.get_reg(rd + 1);
            if rd + 1 == 15 {
                src2 = src2 + 8;
            }
            let o2 = self.set_mem32(a + 4, src2);
            2 + o1 + o2
        }
    }

    /// LDRH, LDRSB, LDRSH, STRH, LDRD or STRD
    pub fn dispatch_data_trans(&mut self, opcode: u32) -> (c: u8)
        requires
            old(self).wf(),
            old(self)@.arm_half_ok(opcode),
        ensures
            final(self).wf(),
            (final(self)@, c) == old(self)@.arm_half(opcode),
            c <= 38,
    {
        proof {
            crate::bits::lemma_u32(opcode);
        }
        let p = (opcode >> 24) & 1 == 1;
        let up = (opcode >> 23) & 1 == 1;
        let wb = (opcode >> 21) & 1 == 1;
        let rn = ((opcode >> 16) & 0xF) as u8;
        let rd = ((opcode >> 12) & 0xF) as u8;
        let mut base = self.r.get_reg(rn);
        if rn == 15 {
            base = base + 4;
        }
        let mut src = self.r.get_reg(rd);
        if rd == 15 {
            src = src + 8;
        }
        let offset = if (opcode >> 22) & 1 == 1 {
            (((opcode >> 8) & 0xF) << 4) | (opcode & 0xF)
        } else {
            self.r.get_reg((opcode & 0xF) as u8)
        };
        if p {
            if up {
                base = base + offset;
            } else {
                base = base - offset;
            }
            if wb {
                self.r.set_reg(rn, base);
            }
        }
        let c = self.half_transfer(opcode, base, src);
        if !p {
            base = if up {
                base.wrapping_add(offset)
            } else {
                base.wrapping_sub(offset)
            };
            if rn != rd {
                self.r.set_reg(rn, base);
            }
        }
        c
    }

    /// LDM or STM
    #[verifier::rlimit(80)]
    pub fn dispatch_block_data(&mut self, opcode: u32) -> (c: u8)
        requires
            old(self).wf(),
            old(self)@.arm_block_ok(opcode),
        ensures
            final(self).wf(),
            (final(self)@, c) == old(self)@.arm_block(opcode),
    {
        proof {
            crate::bits::lemma_u32(opcode);
        }
        let p0 = (opcode >> 24) & 1 == 1;
        let up = (opcode >> 23) & 1 == 1;
        let wb0 = (opcode >> 21) & 1 == 1;
        let load = (opcode >> 20) & 1 == 1;
        let rn = ((opcode >> 16) & 0xF) as u8;
        let list = opcode & 0xFFFF;
        let base0 = self.r.get_reg(rn);
        let user = (opcode >> 22) & 1 == 1 && load && !((opcode >> 15) & 1 == 1);
        let load_psr = (opcode >> 22) & 1 == 1 && load && (opcode >> 15) & 1 == 1;
        let old_mode = self.r.register_mode();
        if user {
            self.r.set_mode(RegisterMode::User);
        }
        let count = popcount16(list);
        let mut base = base0;
        let mut wb = wb0;
        let mut p = p0;
        if !up {
            base = base0.wrapping_sub(4 * count);
            if wb0 {
                self.r.set_reg(rn, base);
                wb = false;
            }
            p = !p0;
        }
        assert((self@, base, wb, p) == old(self)@.arm_block_pre(opcode));
        let mut cycles: u32 = 0;
        let mut i: u8 = 0;
        if load {
            let ghost target = self@.ldm_arm_from(rn, list, 0, base, p, wb, load_psr, 0);
            while i < 16
                invariant
                    i <= 16,
                    rn < 16,
                    self.wf(),
                    target == self@.ldm_arm_from(
                        rn,
                        list,
                        i as int,
                        base,
                        p,
                        wb,
                        load_psr,
                        cycles as int,
                    ),
                    self@.ldm_arm_ok_from(rn, list, i as int, base, p, wb, load_psr),
                    cycles <= 20 * i,
                decreases 16 - i,
            {
                if list & (1u32 << i) != 0 {
                    if i == rn {
                        wb = false;
                    }
                    if p {
                        base = base.wrapping_add(4);
                    }
                    let o = self.get_mem32(base, true);
                    self.r.set_reg(i, o.0);
                    if i == 15 && load_psr {
                        let sp = self.r.get_spsr();
                        self.r.cpsr = sp;
                    }
                    cycles = cycles + o.1 as u32 + 2;
                    if !p {
                        base = base.wrapping_add(4);
                    }
                }
                i = i + 1;
            }
        } else {
            let mut first = true;
            let ghost target = self@.stm_arm_from(rn, list, 0, base, p, up, base0, count, true, 0);
            while i < 16
                invariant
                    i <= 16,
                    rn < 16,
                    count <= 16,
                    self.wf(),
                    target == self@.stm_arm_from(
                        rn,
                        list,
                        i as int,
                        base,
                        p,
                        up,
                        base0,
                        count,
                        first,
                        cycles as int,
                    ),
                    self@.stm_arm_ok_from(rn, list, i as int, base, p, up, base0, count, first),
                    cycles <= 7 * i,
                decreases 16 - i,
            {
                if list & (1u32 << i) != 0 {
                    let val = if i == rn {
                        if first {
                            base0
                        } else if up {
                            base0.wrapping_add(4 * count)
                        } else {
                            base0.wrapping_sub(4 * count)
                        }
                    } else if i == 15 {
                        self.r.get_reg(15) + 8
                    } else {
                        self.r.get_reg(i)
                    };
                    first = false;
                    if p {
                        base = base.wrapping_add(4);
                    }
                    let w = self.set_mem32(base, val);
                    cycles = cycles + w as u32 + 1;
                    if !p {
                        base = base.wrapping_add(4);
                    }
                }
                i = i + 1;
            }
        }
        if user {
            match old_mode {
                Some(m) => self.r.set_mode(m),
                None => {},
            }
        }
        if wb {
            self.r.set_reg(rn, base);
        }
        cycles as u8
    }

    /// An ARM instruction whose condition holds, the PC already past it
    #[verifier::rlimit(80)]
    fn arm_execute(&mut self, opcode: u32) -> (c: u8)
        requires
            old(self).wf(),
            old(self)@.arm_exec_ok(opcode),
        ensures
            final(self).wf(),
            (final(self)@, c) == old(self)@.arm_exec(opcode),
    {
        proof {
            crate::bits::lemma_u32(opcode);
        }
        let idx = (opcode >> 25) & 0x7;
        let me = (opcode >> 4) & 0xF == 0b1001;
        let b811 = (opcode >> 8) & 0xF;
        let n3 = (opcode >> 22) & 0x7;
        let n2 = n3 >> 1;
        if idx == 5 {
            self.dispatch_branch(opcode)
        } else if idx == 0 {
            if (n2 == 0 && n3 == 0 && me) || (n2 == 1 && me) {
                self.dispatch_multiply(opcode)
            } else if n2 == 2 && me && b811 == 0 && (opcode >> 20) & 0x3 == 0 {
                self.dispatch_swap(opcode)
            } else if n2 == 2 && (opcode >> 20) & 1 == 0 && (opcode >> 4) & 0xFF == 0 {
                self.dispatch_psr(opcode)
            } else if (opcode >> 4) & 1 == 1 && (opcode >> 7) & 1 == 1 {
                self.dispatch_data_trans(opcode)
            } else {
                self.dispatch_alu(opcode)
            }
        } else if idx == 1 {
            if (opcode >> 23) & 0x3 == 2 && (opcode >> 20) & 1 == 0 {
                self.dispatch_psr(opcode)
            } else {
                self.dispatch_alu(opcode)
            }
        } else if idx == 2 || idx == 3 {
            self.dispatch_mem(opcode)
        } else if idx == 4 {
            self.dispatch_block_data(opcode)
        } else {
            self.dispatch_software_interrupt(opcode)
        }
    }

    /// A coprocessor data operation. Only the form with bit 24 set is
    /// handled: a software interrupt that enters supervisor mode with the
    /// program counter at 4, so that the step after it runs from 8; its
    /// cycles
    pub fn dispatch_codata_op(&mut self, opcode: u32) -> (c: u8)
        requires
            old(self).wf(),
            (opcode >> 24u32) & 1 == 1,
        ensures
            final(self).wf(),
            c == 5,
            final(self)@ == (GbaView {
                r: Registers {
                    pc: 4,
                    spsr_svc: old(self)@.r.cpsr,
                    cpsr: (old(self)@.r.cpsr & !0x1Fu32) | 0b10011,
                    ..old(self)@.r
                },
                ..old(self)@
            }),
    {
        self.r.pc = 0x8 - 4;
        self.r.set_svc_mode();
        5
    }

    /// Runs one ARM instruction; its cycles
    pub fn dispatch_arm(&mut self) -> (c: u8)
        requires
            old(self).wf(),
            old(self)@.arm_step_ok(),
        ensures
            final(self).wf(),
            (final(self)@, c) == old(self)@.arm_step(),
    {
        let (opcode, cycles) = self.get_opcode();
        self.r.pc = self.r.pc.wrapping_add(4);
        if opcode == 0 {
            return 4 + cycles;
        }
        proof {
            crate::bits::lemma_u32(opcode);
        }
        let cond = Cond::from_u8(((opcode >> 28) & 0xF) as u8);
        if !self.cond_should_execute(cond) {
            return 1 + cycles;
        }
        if (opcode >> 8) & 0xF_FFFF == 0b0001_0010_1111_1111_1111 {
            return cycles + self.dispatch_branch_and_exchange(opcode);
        }
        let c = self.arm_execute(opcode);
        cycles + c
    }
}

/// The registers after the CPU takes an IRQ: IRQ mode with the CPSR saved,
/// the address to return to (the next instruction plus four) in the IRQ
/// link register, ARM state, IRQs masked, and the IRQ vector in the PC
pub open spec fn irq_entered(r: Registers) -> Registers {
    let r1 = Registers { spsr_irq: r.cpsr, cpsr: (r.cpsr & !0x1Fu32) | 0b10010, ..r };
    let r2 = r1.spec_set_reg(14, (r.pc + 4) as u32);
    let r3 = Registers { cpsr: with_bit(r2.cpsr, 5, false), ..r2 };
    Registers { cpsr: r3.cpsr | 0x80, pc: 0x18, ..r3 }
}

impl GbaView {
    /// Whether interrupt source `k` (0 to 13, in the order of the IE and IF
    /// bits) is both enabled and requested
    pub open spec fn irq_source(self, k: int) -> bool {
        self.io_bit(0x200 + k / 8, (k % 8) as u8) && self.io_bit(0x202 + k / 8, (k % 8) as u8)
    }

    /// Whether some interrupt source is both enabled and requested
    pub open spec fn irq_pending(self) -> bool {
        self.irq_source(0) || self.irq_source(1) || self.irq_source(2) || self.irq_source(3)
            || self.irq_source(4) || self.irq_source(5) || self.irq_source(6) || self.irq_source(7)
            || self.irq_source(8) || self.irq_source(9) || self.irq_source(10) || self.irq_source(
            11,
        ) || self.irq_source(12) || self.irq_source(13)
    }

    /// The state after the CPU looks at the interrupt lines: unless IRQs
    /// are masked in the CPSR, a pending interrupt enters the IRQ handler
    pub open spec fn interrupts_handled(self) -> GbaView {
        if !bit_of(self.r.cpsr, 7) && self.irq_pending() {
            GbaView { r: irq_entered(self.r), ..self }
        } else {
            self
        }
    }
}

/// The registers with CPSR flag bit `b` (28: V, 29: C, 30: Z, 31: N) set
/// to `v`
pub open spec fn setf(r: Registers, b: u32, v: bool) -> Registers {
    Registers { cpsr: with_bit(r.cpsr, b, v), ..r }
}

/// Whether `a - b` overflows as a subtraction of signed words
pub open spec fn sub_overflows(a: u32, b: u32) -> bool {
    let d = (a as i32) - (b as i32);
    d < i32::MIN || d > i32::MAX
}

/// Whether `a + b` overflows as an addition of signed words
pub open spec fn add_overflows(a: u32, b: u32) -> bool {
    let d = (a as i32) + (b as i32);
    d < i32::MIN || d > i32::MAX
}

/// A Thumb ALU operation (format 4) on `rd` and `rs`: the registers after
/// it, and its cycles. Where `rd` and `rs` are one register, the flags
/// computed after the write see the new value.
pub open spec fn thumb_alu(r: Registers, opcode: u16) -> (Registers, u8) {
    let op = (opcode >> 6u16) & 0xF;
    let rs = ((opcode >> 3u16) & 0x7) as u8;
    let rd = (opcode & 0x7) as u8;
    let x = r.spec_reg(rs);
    let y = r.spec_reg(rd);
    let c = bit_of(r.cpsr, 29);
    let cbit: u32 = if c {
        1
    } else {
        0
    };
    let (r1, cycles, flags) = if op == 0 {
        (r.spec_set_reg(rd, x & y), 1u8, true)
    } else if op == 1 {
        (r.spec_set_reg(rd, x ^ y), 1u8, true)
    } else if op == 2 {
        let s = lsl_spec(y, x & 0xFF);
        (carried(r, s.1).spec_set_reg(rd, s.0), 2u8, true)
    } else if op == 3 {
        let s = lsr_spec(y, x & 0xFF);
        (if x & 0xFF != 0 {
            carried(r, s.1).spec_set_reg(rd, s.0)
        } else {
            r
        }, 2u8, true)
    } else if op == 4 {
        let s = asr_spec(y, x & 0xFF);
        (if x & 0xFF != 0 {
            carried(r, s.1).spec_set_reg(rd, s.0)
        } else {
            r
        }, 2u8, true)
    } else if op == 5 {
        let res = x.wrapping_add(y).wrapping_add(cbit);
        let x1 = if rs == rd {
            res
        } else {
            x
        };
        let v = (!(x1 ^ y) & (y ^ res)) >> 31u32 == 1;
        let cy = (x1 as int) + (y as int) + (cbit as int) > 0xFFFF_FFFF;
        (setf(setf(r.spec_set_reg(rd, res), 28, v), 29, cy), 1u8, true)
    } else if op == 6 {
        let res = y.wrapping_sub(x.wrapping_add((1 - cbit) as u32));
        let b = !x;
        let v = (!(y ^ b) & (b ^ res)) >> 31u32 == 1;
        let cy = (y as int) + (b as int) + (cbit as int) > 0xFFFF_FFFF;
        (setf(setf(r.spec_set_reg(rd, res), 28, v), 29, cy), 1u8, true)
    } else if op == 7 {
        let res = rotr(y, x & 0xFF);
        let x1 = if rs == rd {
            res
        } else {
            x
        };
        let r2 = r.spec_set_reg(rd, res);
        (if x1 & 0xFF != 0 {
            setf(r2, 29, res >> 31u32 == 1)
        } else {
            r2
        }, 2u8, true)
    } else if op == 8 {
        let res = x & y;
        (setf(setf(r, 30, res == 0), 31, res & 0x8000_0000 != 0), 1u8, false)
    } else if op == 9 {
        let res = 0u32.wrapping_sub(x);
        let v = y & 0x8000_0000 == 0 && res & 0x8000_0000 != 0;
        (setf(setf(r.spec_set_reg(rd, res), 28, v), 29, false), 1u8, true)
    } else if op == 10 {
        let res = y.wrapping_sub(x);
        (
            setf(
                setf(setf(setf(r, 30, res == 0), 31, res >> 31u32 == 1), 28, sub_overflows(y, x)),
                29,
                x <= y,
            ),
            1u8,
            false,
        )
    } else if op == 11 {
        let res = y.wrapping_add(x);
        let v = ((y ^ x) & 0x8000_0000 == 0) && ((y ^ res) & 0x8000_0000 != 0);
        (
            setf(
                setf(setf(setf(r, 30, res == 0), 31, res & 0x8000_0000 != 0), 28, v),
                29,
                (y as int) + (x as int) > u32::MAX,
            ),
            1u8,
            false,
        )
    } else if op == 12 {
        (r.spec_set_reg(rd, y | x), 1u8, true)
    } else if op == 13 {
        (r.spec_set_reg(rd, y.wrapping_mul(x)), 4u8, true)
    } else if op == 14 {
        (r.spec_set_reg(rd, y & !x), 1u8, true)
    } else {
        (r.spec_set_reg(rd, !x), 1u8, true)
    };
    let z = r1.spec_reg(rd);
    (if flags {
        setf(setf(r1, 30, z == 0), 31, (z >> 31u32) & 1 == 1)
    } else {
        r1
    }, cycles)
}

/// A Thumb move, compare, add or subtract with an 8-bit immediate
/// (format 3)
pub open spec fn thumb_imm(r: Registers, opcode: u16) -> Registers {
    let op = (opcode >> 11u16) & 0x3;
    let rd = ((opcode >> 8u16) & 0x7) as u8;
    let imm = (opcode & 0xFF) as u32;
    let y = r.spec_reg(rd);
    if op == 0 {
        setf(setf(r.spec_set_reg(rd, imm), 30, imm == 0), 31, imm & 0x8000_0000 != 0)
    } else if op == 1 {
        let res = y.wrapping_sub(imm);
        setf(
            setf(setf(setf(r, 30, res == 0), 31, res & 0x8000_0000 != 0), 28, sub_overflows(y, imm)),
            29,
            imm <= y,
        )
    } else if op == 2 {
        let res = y.wrapping_add(imm);
        setf(
            setf(setf(setf(r, 30, res == 0), 31, res & 0x8000_0000 != 0), 28, add_overflows(y, imm)),
            29,
            (y as int) + (imm as int) > 0xFFFF_FFFF,
        ).spec_set_reg(rd, res)
    } else {
        let res = y.wrapping_sub(imm);
        setf(
            setf(setf(setf(r, 30, res == 0), 31, res & 0x8000_0000 != 0), 28, sub_overflows(y, imm)),
            29,
            imm <= y,
        ).spec_set_reg(rd, res)
    }
}

/// A Thumb shift by an immediate, or a three-operand add or subtract
/// (formats 1 and 2)
pub open spec fn thumb_shift_add_sub(r: Registers, opcode: u16) -> Registers {
    let op = (opcode >> 11u16) & 0x3;
    let offset = ((opcode >> 6u16) & 0x1F) as u32;
    let rs = ((opcode >> 3u16) & 0x7) as u8;
    let rd = (opcode & 0x7) as u8;
    let val = r.spec_reg(rs);
    let amt: u32 = if offset == 0 {
        32
    } else {
        offset
    };
    if op <= 2 {
        let s = if op == 0 {
            lsl_spec(val, offset)
        } else if op == 1 {
            lsr_spec(val, amt)
        } else {
            asr_spec(val, amt)
        };
        setf(setf(carried(r, s.1).spec_set_reg(rd, s.0), 31, s.0 & 0x8000_0000 != 0), 30, s.0 == 0)
    } else {
        let sub = (opcode >> 9u16) & 0x3;
        let roi = ((opcode >> 6u16) & 0x7) as u32;
        let op2 = if sub <= 1 {
            r.spec_reg(roi as u8)
        } else {
            roi
        };
        let r2 = if sub == 0 || sub == 2 {
            setf(setf(r, 28, add_overflows(val, op2)), 29, (val as int) + (op2 as int) > 0xFFFF_FFFF)
        } else {
            setf(setf(r, 28, sub_overflows(val, op2)), 29, op2 <= val)
        };
        let res = if sub == 0 || sub == 2 {
            val.wrapping_add(op2)
        } else {
            val.wrapping_sub(op2)
        };
        setf(setf(r2.spec_set_reg(rd, res), 30, res == 0), 31, res & 0x8000_0000 != 0)
    }
}

/// The registers after a software interrupt: supervisor mode with the CPSR
/// saved, the address of the next instruction in its link register, ARM
/// state, IRQs masked, and the vector at 0x08
pub open spec fn swi_entered(r: Registers) -> Registers {
    let r1 = Registers { spsr_svc: r.cpsr, cpsr: (r.cpsr & !0x1Fu32) | 0b10011, ..r };
    let r2 = r1.with_banked_lr(r.pc);
    let r3 = Registers { cpsr: with_bit(r2.cpsr, 5, false), ..r2 };
    Registers { cpsr: r3.cpsr | 0x80, pc: 0x08, ..r3 }
}

/// The 8-bit offset of a conditional branch, sign extended and doubled
pub open spec fn cond_branch_offset(opcode: u16) -> int {
    (((opcode & 0xFF) as u8) as i8) * 2
}

/// Whether a conditional Thumb branch that is taken stays within the
/// signed arithmetic the address is computed in
pub open spec fn thumb_cond_branch_ok(r: Registers, opcode: u16) -> bool {
    cond_holds(r, spec_cond_from_u8(((opcode >> 8u16) & 0xF) as u8)) ==> {
        &&& (r.pc as i32) + 2 <= i32::MAX
        &&& i32::MIN <= (r.pc as i32) + 2 + cond_branch_offset(opcode) <= i32::MAX
    }
}

/// A conditional Thumb branch (format 16): the registers and the cycles
pub open spec fn thumb_cond_branch(r: Registers, opcode: u16) -> (Registers, u8) {
    if cond_holds(r, spec_cond_from_u8(((opcode >> 8u16) & 0xF) as u8)) {
        (
            Registers {
                pc: (((r.pc as i32) + 2 + cond_branch_offset(opcode)) as i32) as u32,
                ..r
            },
            3,
        )
    } else {
        (r, 1)
    }
}

/// An 11-bit field, sign extended
pub open spec fn sext11(v: int) -> int {
    if v >= 0x400 {
        v - 0x800
    } else {
        v
    }
}

/// Whether a Thumb unconditional branch or long branch half can be
/// computed: the signed arithmetic of its target stays in range, and a
/// long branch has a link register to use
pub open spec fn thumb_branch_ok(r: Registers, opcode: u16) -> bool {
    let op = (opcode >> 11u16) & 0x3;
    let n = (opcode & 0x7FF) as int;
    if op == 0 {
        &&& (r.pc as i32) + 2 <= i32::MAX
        &&& i32::MIN <= (r.pc as i32) + 2 + sext11(n) * 2 <= i32::MAX
    } else if op == 2 {
        &&& r.mode() is Some
        &&& (r.pc as i32) + 2 <= i32::MAX
        &&& i32::MIN <= (r.pc as i32) + 2 + sext11(n) * 4096 <= i32::MAX
    } else {
        r.mode() is Some
    }
}

/// A Thumb branch (formats 18 and 19): an unconditional branch, the first
/// half of a long branch with link (the upper offset into LR), or its
/// second half (the jump, with the return address in LR)
pub open spec fn thumb_branch(r: Registers, opcode: u16) -> (Registers, u8) {
    let op = (opcode >> 11u16) & 0x3;
    let n = (opcode & 0x7FF) as u32;
    if op == 0 {
        (Registers { pc: (((r.pc as i32) + 2 + sext11(n as int) * 2) as i32) as u32, ..r }, 3)
    } else if op == 2 {
        (r.with_banked_lr((((r.pc as i32) + 2 + sext11(n as int) * 4096) as i32) as u32), 1)
    } else {
        (
            Registers { pc: r.banked_lr().wrapping_add(n << 1u32), ..r }.with_banked_lr(r.pc | 1),
            3,
        )
    }
}

/// Whether the Thumb address computation (format 12) stays in range
pub open spec fn thumb_relative_address_ok(r: Registers, opcode: u16) -> bool {
    let nn = (opcode & 0xFF) as u32;
    if (opcode >> 11u16) & 0x1 == 1 {
        r.mode() is Some && r.banked_sp() + nn * 4 <= u32::MAX
    } else {
        r.pc + 2 <= u32::MAX && ((r.pc + 2) as u32 & !2u32) + nn * 4 <= u32::MAX
    }
}

/// ADD rd, SP or PC, #nn*4 (format 12)
pub open spec fn thumb_relative_address(r: Registers, opcode: u16) -> Registers {
    let rd = ((opcode >> 8u16) & 0x7) as u8;
    let nn = (opcode & 0xFF) as u32;
    if (opcode >> 11u16) & 0x1 == 1 {
        r.spec_set_reg(rd, (r.banked_sp() + nn * 4) as u32)
    } else {
        r.spec_set_reg(rd, ((((r.pc + 2) as u32) & !2u32) + nn * 4) as u32)
    }
}

/// Whether the stack pointer adjustment (format 13) stays in range
pub open spec fn thumb_sp_offset_ok(r: Registers, opcode: u16) -> bool {
    let nn = (opcode & 0x7F) as u32;
    &&& r.mode() is Some
    &&& if (opcode >> 7u16) & 0x1 == 1 {
        r.banked_sp() >= nn * 4
    } else {
        r.banked_sp() + nn * 4 <= u32::MAX
    }
}

/// ADD SP, #±nn*4 (format 13)
pub open spec fn thumb_sp_offset(r: Registers, opcode: u16) -> Registers {
    let nn = (opcode & 0x7F) as u32;
    if (opcode >> 7u16) & 0x1 == 1 {
        r.with_banked_sp((r.banked_sp() - nn * 4) as u32)
    } else {
        r.with_banked_sp((r.banked_sp() + nn * 4) as u32)
    }
}

/// Which registers of the high bank a Thumb format 5 operation uses, and
/// the operand it reads (PC reads two bytes ahead)
pub open spec fn hi_reg_rd(opcode: u16) -> u8 {
    let rd0 = (opcode & 0x7) as u8;
    if (opcode >> 8u16) & 0x3 != 3 && (opcode >> 7u16) & 1 == 1 {
        (rd0 + 8) as u8
    } else {
        rd0
    }
}

pub open spec fn hi_reg_op2(r: Registers, opcode: u16) -> int {
    let rs = ((opcode >> 3u16) & 0xF) as u8;
    r.spec_reg(rs) + if rs == 15 {
        2int
    } else {
        0int
    }
}

/// Whether a Thumb format 5 operation stays in range: the PC operand and
/// the branch target arithmetic, and a link register for BLX
pub open spec fn thumb_hi_reg_ok(r: Registers, opcode: u16) -> bool {
    let subop = (opcode >> 8u16) & 0x3;
    let rs = ((opcode >> 3u16) & 0xF) as u8;
    let op2 = hi_reg_op2(r, opcode);
    let thumb = rs != 15 && (op2 as u32) & 1 == 1;
    &&& op2 <= u32::MAX
    &&& subop == 3 ==> {
        &&& !thumb ==> r.spec_reg(rs) + 2 <= u32::MAX
        &&& (opcode >> 7u16) & 1 == 1 ==> r.pc + 5 <= u32::MAX && (Registers {
            cpsr: with_bit(r.cpsr, 5, thumb),
            ..r
        }).mode() is Some
    }
}

/// ADD, CMP or MOV with a high register, or BX/BLX (format 5)
pub open spec fn thumb_hi_reg(r: Registers, opcode: u16) -> Registers {
    let subop = (opcode >> 8u16) & 0x3;
    let rs = ((opcode >> 3u16) & 0xF) as u8;
    let rd = hi_reg_rd(opcode);
    let op2 = hi_reg_op2(r, opcode) as u32;
    if subop == 0 {
        r.spec_set_reg(rd, r.spec_reg(rd).wrapping_add(op2))
    } else if subop == 1 {
        let op1 = r.spec_reg(rd);
        let res = op1.wrapping_sub(op2);
        setf(
            setf(setf(setf(r, 30, res == 0), 31, res & 0x8000_0000 != 0), 28, sub_overflows(op1, op2)),
            29,
            op2 <= op1,
        )
    } else if subop == 2 {
        r.spec_set_reg(rd, op2)
    } else {
        let thumb = rs != 15 && op2 & 1 == 1;
        let addr = if thumb {
            r.spec_reg(rs) & !1u32
        } else {
            ((r.spec_reg(rs) + 2) as u32) & !3u32
        };
        let r1 = Registers { cpsr: with_bit(r.cpsr, 5, thumb), ..r };
        if (opcode >> 7u16) & 1 == 1 {
            Registers { pc: addr, ..r1 }.with_banked_lr((r.pc + 5) as u32)
        } else {
            Registers { pc: addr, ..r1 }
        }
    }
}

impl GbaView {
    /// The state with register `i` replaced
    pub open spec fn with_reg(self, i: u8, v: u32) -> GbaView {
        GbaView { r: self.r.spec_set_reg(i, v), ..self }
    }

    /// The address of a PC-relative load (format 6)
    pub open spec fn pc_load_addr(self, opcode: u16) -> int {
        (((self.r.pc + 2) as u32) & !2u32) + ((opcode & 0xFF) << 2u16)
    }

    /// Whether LDR rd, [PC, #nn] returns
    pub open spec fn thumb_pc_load_ok(self, opcode: u16) -> bool {
        &&& self.r.pc + 2 <= u32::MAX
        &&& self.pc_load_addr(opcode) <= u32::MAX
        &&& self.read32_ok(self.pc_load_addr(opcode) as u32)
    }

    /// LDR rd, [PC, #nn] (format 6)
    pub open spec fn thumb_pc_load(self, opcode: u16) -> (GbaView, u8) {
        let rd = ((opcode >> 8u16) & 0x7) as u8;
        let o = self.read32(self.pc_load_addr(opcode) as u32, false);
        (self.with_reg(rd, o.0), (2 + o.1) as u8)
    }

    /// The address of a load or store with a register offset
    pub open spec fn reg_offset_addr(self, opcode: u16) -> u32 {
        let ro = ((opcode >> 6u16) & 0x7) as u8;
        let rb = ((opcode >> 3u16) & 0x7) as u8;
        self.r.spec_reg(rb).wrapping_add(self.r.spec_reg(ro))
    }

    /// Whether a load or store with a register offset (format 7) returns
    pub open spec fn thumb_ldst_reg_ok(self, opcode: u16) -> bool {
        let op = (opcode >> 10u16) & 0x3;
        let a = self.reg_offset_addr(opcode);
        let v = self.r.spec_reg((opcode & 0x7) as u8);
        if op == 0 {
            GbaView::write32_ok(a, v)
        } else if op == 1 {
            GbaView::write8_ok(a, v as u8)
        } else if op == 2 {
            self.read32_ok(a)
        } else {
            self.read8_ok(a)
        }
    }

    /// STR, STRB, LDR or LDRB with a register offset (format 7)
    pub open spec fn thumb_ldst_reg(self, opcode: u16) -> (GbaView, u8) {
        let op = (opcode >> 10u16) & 0x3;
        let rd = (opcode & 0x7) as u8;
        let a = self.reg_offset_addr(opcode);
        let v = self.r.spec_reg(rd);
        if op == 0 {
            (self.write32(a, v), (1 + GbaView::write32_cycles(a)) as u8)
        } else if op == 1 {
            (self.write8(a, v as u8), (1 + GbaView::write8_cycles(a)) as u8)
        } else if op == 2 {
            let o = self.read32(a, false);
            (self.with_reg(rd, o.0), (2 + o.1) as u8)
        } else {
            let o = self.read8(a);
            (self.with_reg(rd, o.0 as u32), (2 + o.1) as u8)
        }
    }

    /// Whether a halfword or signed load or store with a register offset
    /// (format 8) returns
    pub open spec fn thumb_ldst_sign_ok(self, opcode: u16) -> bool {
        let op = (opcode >> 10u16) & 0x3;
        let a = self.reg_offset_addr(opcode);
        let v = self.r.spec_reg((opcode & 0x7) as u8);
        if op == 0 {
            self.write16_ok(a, v as u16)
        } else if op == 1 {
            self.read8_ok(a)
        } else {
            self.read16_ok(a)
        }
    }

    /// STRH, LDSB, LDRH or LDSH with a register offset (format 8)
    pub open spec fn thumb_ldst_sign(self, opcode: u16) -> (GbaView, u8) {
        let op = (opcode >> 10u16) & 0x3;
        let rd = (opcode & 0x7) as u8;
        let a = self.reg_offset_addr(opcode);
        if op == 0 {
            (self.write16(a, self.r.spec_reg(rd) as u16), (1 + GbaView::write16_cycles(a)) as u8)
        } else if op == 1 {
            let o = self.read8(a);
            (self.with_reg(rd, ((o.0 as i8) as i32) as u32), (2 + o.1) as u8)
        } else if op == 2 {
            let o = self.read16(a, false);
            (self.with_reg(rd, o.0 as u32), (2 + o.1) as u8)
        } else {
            let o = self.read16(a, false);
            (self.with_reg(rd, ((o.0 as i16) as i32) as u32), (2 + o.1) as u8)
        }
    }

    /// The address of a halfword load or store with an immediate offset
    pub open spec fn half_imm_addr(self, opcode: u16) -> int {
        let offset = ((opcode >> 6u16) & 0x1F) as u32;
        self.r.spec_reg(((opcode >> 3u16) & 0x7) as u8) + offset * 2
    }

    /// Whether LDRH or STRH with an immediate offset (format 10) returns
    pub open spec fn thumb_ldst_half_ok(self, opcode: u16) -> bool {
        let a = self.half_imm_addr(opcode);
        &&& a <= u32::MAX
        &&& if (opcode >> 11u16) & 1 == 1 {
            self.read16_ok(a as u32)
        } else {
            self.write16_ok(a as u32, self.r.spec_reg((opcode & 0x7) as u8) as u16)
        }
    }

    /// LDRH or STRH with an immediate offset (format 10)
    pub open spec fn thumb_ldst_half(self, opcode: u16) -> (GbaView, u8) {
        let rd = (opcode & 0x7) as u8;
        let a = self.half_imm_addr(opcode) as u32;
        if (opcode >> 11u16) & 1 == 1 {
            let o = self.read16(a, false);
            (self.with_reg(rd, o.0 as u32), (2 + o.1) as u8)
        } else {
            (self.write16(a, self.r.spec_reg(rd) as u16), (1 + GbaView::write16_cycles(a)) as u8)
        }
    }

    /// The address of a word or byte load or store with an immediate offset
    pub open spec fn word_imm_addr(self, opcode: u16) -> u32 {
        let op = (opcode >> 11u16) & 0x3;
        let offset = ((opcode >> 6u16) & 0x1F) as u32;
        let base = self.r.spec_reg(((opcode >> 3u16) & 0x7) as u8);
        if op <= 1 {
            base.wrapping_add((offset * 4) as u32)
        } else {
            base.wrapping_add(offset)
        }
    }

    /// Whether a load or store with an immediate offset (format 9) returns
    pub open spec fn thumb_ldst_imm_ok(self, opcode: u16) -> bool {
        let op = (opcode >> 11u16) & 0x3;
        let a = self.word_imm_addr(opcode);
        let v = self.r.spec_reg((opcode & 0x7) as u8);
        if op == 0 {
            GbaView::write32_ok(a, v)
        } else if op == 1 {
            self.read32_ok(a)
        } else if op == 2 {
            GbaView::write8_ok(a, v as u8)
        } else {
            self.read8_ok(a)
        }
    }

    /// STR, LDR, STRB or LDRB with an immediate offset (format 9)
    pub open spec fn thumb_ldst_imm(self, opcode: u16) -> (GbaView, u8) {
        let op = (opcode >> 11u16) & 0x3;
        let rd = (opcode & 0x7) as u8;
        let a = self.word_imm_addr(opcode);
        let v = self.r.spec_reg(rd);
        if op == 0 {
            (self.write32(a, v), (1 + GbaView::write32_cycles(a)) as u8)
        } else if op == 1 {
            let o = self.read32(a, false);
            (self.with_reg(rd, o.0), (2 + o.1) as u8)
        } else if op == 2 {
            (self.write8(a, v as u8), (1 + GbaView::write8_cycles(a)) as u8)
        } else {
            let o = self.read8(a);
            (self.with_reg(rd, o.0 as u32), (2 + o.1) as u8)
        }
    }

    /// The address of an SP-relative load or store
    pub open spec fn sp_rel_addr(self, opcode: u16) -> int {
        self.r.banked_sp() + ((opcode & 0xFF) as u32) * 4
    }

    /// Whether an SP-relative load or store (format 11) returns
    pub open spec fn thumb_ldst_sp_ok(self, opcode: u16) -> bool {
        let a = self.sp_rel_addr(opcode);
        &&& self.r.mode() is Some
        &&& a <= u32::MAX
        &&& if (opcode >> 11u16) & 1 == 1 {
            self.read32_ok(a as u32)
        } else {
            GbaView::write32_ok(a as u32, self.r.spec_reg(((opcode >> 8u16) & 0x7) as u8))
        }
    }

    /// LDR or STR relative to SP (format 11)
    pub open spec fn thumb_ldst_sp(self, opcode: u16) -> (GbaView, u8) {
        let rd = ((opcode >> 8u16) & 0x7) as u8;
        let a = self.sp_rel_addr(opcode) as u32;
        if (opcode >> 11u16) & 1 == 1 {
            let o = self.read32(a, false);
            (self.with_reg(rd, o.0), (o.1 + 2) as u8)
        } else {
            (self.write32(a, self.r.spec_reg(rd)), (GbaView::write32_cycles(a) * 2) as u8)
        }
    }
}

/// Whether bit `i` of a register list is set
pub open spec fn in_list(list: u16, i: int) -> bool {
    list & (1u16 << (i as u16)) != 0
}

impl GbaView {
    /// LDMIA rb!, {list} from register `i` on: the state and the cycles
    pub open spec fn ldm_from(self, rb: u8, list: u16, i: int, cycles: int) -> (GbaView, int)
        decreases 8 - i,
    {
        if i < 0 || i >= 8 {
            (self, cycles)
        } else if in_list(list, i) {
            let a = self.r.spec_reg(rb);
            let o = self.read32(a, true);
            self.with_reg(rb, a.wrapping_add(4)).with_reg(i as u8, o.0).ldm_from(
                rb,
                list,
                i + 1,
                cycles + 2 + o.1,
            )
        } else {
            self.ldm_from(rb, list, i + 1, cycles)
        }
    }

    /// Whether the reads of LDMIA from register `i` on return
    pub open spec fn ldm_ok_from(self, rb: u8, list: u16, i: int) -> bool
        decreases 8 - i,
    {
        if i < 0 || i >= 8 {
            true
        } else if in_list(list, i) {
            let a = self.r.spec_reg(rb);
            &&& self.read32_ok(a)
            &&& self.with_reg(rb, a.wrapping_add(4)).with_reg(i as u8, self.read32(a, true).0).ldm_ok_from(
                rb,
                list,
                i + 1,
            )
        } else {
            self.ldm_ok_from(rb, list, i + 1)
        }
    }

    /// STMIA rb!, {list} from register `i` on: the state and the cycles
    pub open spec fn stm_from(self, rb: u8, list: u16, i: int, cycles: int) -> (GbaView, int)
        decreases 8 - i,
    {
        if i < 0 || i >= 8 {
            (self, cycles)
        } else if in_list(list, i) {
            let a = self.r.spec_reg(rb);
            self.write32(a, self.r.spec_reg(i as u8)).with_reg(rb, a.wrapping_add(4)).stm_from(
                rb,
                list,
                i + 1,
                cycles + 1 + GbaView::write32_cycles(a),
            )
        } else {
            self.stm_from(rb, list, i + 1, cycles)
        }
    }

    /// Whether the writes of STMIA from register `i` on return
    pub open spec fn stm_ok_from(self, rb: u8, list: u16, i: int) -> bool
        decreases 8 - i,
    {
        if i < 0 || i >= 8 {
            true
        } else if in_list(list, i) {
            let a = self.r.spec_reg(rb);
            &&& GbaView::write32_ok(a, self.r.spec_reg(i as u8))
            &&& self.write32(a, self.r.spec_reg(i as u8)).with_reg(rb, a.wrapping_add(4)).stm_ok_from(
                rb,
                list,
                i + 1,
            )
        } else {
            self.stm_ok_from(rb, list, i + 1)
        }
    }

    /// Whether LDMIA or STMIA (format 15) returns
    pub open spec fn thumb_ldst_multiple_ok(self, opcode: u16) -> bool {
        let rb = ((opcode >> 8u16) & 0x7) as u8;
        let list = opcode & 0xFF;
        if (opcode >> 11u16) & 1 == 1 {
            self.ldm_ok_from(rb, list, 0)
        } else {
            self.stm_ok_from(rb, list, 0)
        }
    }

    /// LDMIA or STMIA (format 15)
    pub open spec fn thumb_ldst_multiple(self, opcode: u16) -> (GbaView, u8) {
        let rb = ((opcode >> 8u16) & 0x7) as u8;
        let list = opcode & 0xFF;
        let res = if (opcode >> 11u16) & 1 == 1 {
            self.ldm_from(rb, list, 0, 0)
        } else {
            self.stm_from(rb, list, 0, 0)
        };
        (res.0, res.1 as u8)
    }

    /// The state with the current mode's stack pointer replaced
    pub open spec fn with_sp(self, v: u32) -> GbaView {
        GbaView { r: self.r.with_banked_sp(v), ..self }
    }

    /// POP {list} from register `i` on: the state and the cycles
    pub open spec fn pop_from(self, list: u16, i: int, cycles: int) -> (GbaView, int)
        decreases 8 - i,
    {
        if i < 0 || i >= 8 {
            (self, cycles)
        } else if in_list(list, i) {
            let a = self.r.banked_sp();
            let o = self.read32(a, true);
            self.with_sp((a + 4) as u32).with_reg(i as u8, o.0).pop_from(
                list,
                i + 1,
                cycles + o.1 + 2,
            )
        } else {
            self.pop_from(list, i + 1, cycles)
        }
    }

    /// Whether POP from register `i` on returns: each read, and a stack
    /// pointer that does not wrap
    pub open spec fn pop_ok_from(self, list: u16, i: int) -> bool
        decreases 8 - i,
    {
        if i < 0 || i >= 8 {
            true
        } else if in_list(list, i) {
            let a = self.r.banked_sp();
            &&& self.read32_ok(a)
            &&& a + 4 <= u32::MAX
            &&& self.with_sp((a + 4) as u32).with_reg(i as u8, self.read32(a, true).0).pop_ok_from(
                list,
                i + 1,
            )
        } else {
            self.pop_ok_from(list, i + 1)
        }
    }

    /// PUSH {list} from register `i` down: the state and the cycles
    pub open spec fn push_from(self, list: u16, i: int, cycles: int) -> (GbaView, int)
        decreases i + 1,
    {
        if i < 0 || i >= 8 {
            (self, cycles)
        } else if in_list(list, i) {
            let a = (self.r.banked_sp() - 4) as u32;
            let v1 = self.with_sp(a);
            v1.write32(a, v1.r.spec_reg(i as u8)).push_from(
                list,
                i - 1,
                cycles + 1 + GbaView::write32_cycles(a),
            )
        } else {
            self.push_from(list, i - 1, cycles)
        }
    }

    /// Whether PUSH from register `i` down returns
    pub open spec fn push_ok_from(self, list: u16, i: int) -> bool
        decreases i + 1,
    {
        if i < 0 || i >= 8 {
            true
        } else if in_list(list, i) {
            let a = (self.r.banked_sp() - 4) as u32;
            let v1 = self.with_sp(a);
            &&& self.r.banked_sp() >= 4
            &&& GbaView::write32_ok(a, v1.r.spec_reg(i as u8))
            &&& v1.write32(a, v1.r.spec_reg(i as u8)).push_ok_from(list, i - 1)
        } else {
            self.push_ok_from(list, i - 1)
        }
    }

    /// Whether PUSH or POP (format 14) returns
    pub open spec fn thumb_push_pop_ok(self, opcode: u16) -> bool {
        let list = opcode & 0xFF;
        let pc_lr = (opcode >> 8u16) & 1 == 1;
        &&& self.r.mode() is Some
        &&& if (opcode >> 11u16) & 1 == 1 {
            let p = self.pop_from(list, 0, 0).0;
            &&& self.pop_ok_from(list, 0)
            &&& pc_lr ==> p.read32_ok(p.r.banked_sp()) && p.r.banked_sp() + 4 <= u32::MAX
        } else {
            let a = (self.r.banked_sp() - 4) as u32;
            let v1 = if pc_lr {
                self.with_sp(a).write32(a, self.r.banked_lr())
            } else {
                self
            };
            &&& pc_lr ==> self.r.banked_sp() >= 4 && GbaView::write32_ok(a, self.r.banked_lr())
            &&& v1.push_ok_from(list, 7)
        }
    }

    /// PUSH {list, LR} or POP {list, PC} (format 14)
    pub open spec fn thumb_push_pop(self, opcode: u16) -> (GbaView, u8) {
        let list = opcode & 0xFF;
        let pc_lr = (opcode >> 8u16) & 1 == 1;
        if (opcode >> 11u16) & 1 == 1 {
            let (p, c) = self.pop_from(list, 0, 0);
            if pc_lr {
                let a = p.r.banked_sp();
                let o = p.read32(a, true);
                let p1 = p.with_sp((a + 4) as u32);
                (GbaView { r: Registers { pc: o.0 & !1u32, ..p1.r }, ..p1 }, (c + o.1 + 2) as u8)
            } else {
                (p, c as u8)
            }
        } else {
            let a = (self.r.banked_sp() - 4) as u32;
            let (v1, c1) = if pc_lr {
                (self.with_sp(a).write32(a, self.r.banked_lr()), 1 + GbaView::write32_cycles(a))
            } else {
                (self, 0int)
            };
            let (v2, c2) = v1.push_from(list, 7, c1);
            (v2, c2 as u8)
        }
    }
}

impl GbaView {
    /// Whether a Thumb instruction returns, the PC already past it
    pub open spec fn thumb_exec_ok(self, opcode: u16) -> bool {
        let idx = (opcode >> 13u16) & 0x7;
        let b12 = (opcode >> 12u16) & 1 == 1;
        if idx == 0 || idx == 1 {
            true
        } else if idx == 2 {
            if b12 {
                if (opcode >> 9u16) & 1 == 1 {
                    self.thumb_ldst_sign_ok(opcode)
                } else {
                    self.thumb_ldst_reg_ok(opcode)
                }
            } else {
                let sub = (opcode >> 10u16) & 0x3;
                if sub == 0 {
                    true
                } else if sub == 1 {
                    thumb_hi_reg_ok(self.r, opcode)
                } else {
                    self.thumb_pc_load_ok(opcode)
                }
            }
        } else if idx == 3 {
            self.thumb_ldst_imm_ok(opcode)
        } else if idx == 4 {
            if b12 {
                self.thumb_ldst_sp_ok(opcode)
            } else {
                self.thumb_ldst_half_ok(opcode)
            }
        } else if idx == 5 {
            if !b12 {
                thumb_relative_address_ok(self.r, opcode)
            } else if (opcode >> 9u16) & 0x3 == 2 {
                self.thumb_push_pop_ok(opcode)
            } else {
                thumb_sp_offset_ok(self.r, opcode)
            }
        } else if idx == 6 {
            if b12 {
                (opcode >> 8u16) & 0xF == 0xF || thumb_cond_branch_ok(self.r, opcode)
            } else {
                self.thumb_ldst_multiple_ok(opcode)
            }
        } else {
            thumb_branch_ok(self.r, opcode)
        }
    }

    /// A Thumb instruction, the PC already past it: the state and the cycles
    pub open spec fn thumb_exec(self, opcode: u16) -> (GbaView, u8) {
        let idx = (opcode >> 13u16) & 0x7;
        let b12 = (opcode >> 12u16) & 1 == 1;
        if idx == 0 {
            (GbaView { r: thumb_shift_add_sub(self.r, opcode), ..self }, 1)
        } else if idx == 1 {
            (GbaView { r: thumb_imm(self.r, opcode), ..self }, 1)
        } else if idx == 2 {
            if b12 {
                if (opcode >> 9u16) & 1 == 1 {
                    self.thumb_ldst_sign(opcode)
                } else {
                    self.thumb_ldst_reg(opcode)
                }
            } else {
                let sub = (opcode >> 10u16) & 0x3;
                if sub == 0 {
                    let (r, c) = thumb_alu(self.r, opcode);
                    (GbaView { r, ..self }, c)
                } else if sub == 1 {
                    (
                        GbaView { r: thumb_hi_reg(self.r, opcode), ..self },
                        if (opcode >> 8u16) & 0x3 == 3 {
                            3u8
                        } else {
                            1u8
                        },
                    )
                } else {
                    self.thumb_pc_load(opcode)
                }
            }
        } else if idx == 3 {
            self.thumb_ldst_imm(opcode)
        } else if idx == 4 {
            if b12 {
                self.thumb_ldst_sp(opcode)
            } else {
                self.thumb_ldst_half(opcode)
            }
        } else if idx == 5 {
            if !b12 {
                (GbaView { r: thumb_relative_address(self.r, opcode), ..self }, 1)
            } else if (opcode >> 9u16) & 0x3 == 2 {
                self.thumb_push_pop(opcode)
            } else {
                (GbaView { r: thumb_sp_offset(self.r, opcode), ..self }, 1)
            }
        } else if idx == 6 {
            if b12 {
                if (opcode >> 8u16) & 0xF == 0xF {
                    (
                        if self.io_bit(0x208, 0) {
                            GbaView { r: swi_entered(self.r), ..self }
                        } else {
                            self
                        },
                        3,
                    )
                } else {
                    let (r, c) = thumb_cond_branch(self.r, opcode);
                    (GbaView { r, ..self }, c)
                }
            } else {
                self.thumb_ldst_multiple(opcode)
            }
        } else {
            let (r, c) = thumb_branch(self.r, opcode);
            (GbaView { r, ..self }, c)
        }
    }

    /// The state with the PC advanced past a Thumb instruction
    pub open spec fn thumb_fetched(self) -> GbaView {
        GbaView { r: Registers { pc: (self.r.pc + 2) as u32, ..self.r }, ..self }
    }

    /// Whether a Thumb step returns: the fetch, the PC increment and the
    /// instruction
    pub open spec fn thumb_step_ok(self) -> bool {
        let op = self.read16(self.r.pc, true).0;
        &&& self.read16_ok(self.r.pc)
        &&& self.r.pc + 2 <= u32::MAX
        &&& op != 0 ==> self.thumb_fetched().thumb_exec_ok(op)
    }

    /// One Thumb step: fetch the halfword at the PC, move the PC past it and
    /// execute it (a zero halfword takes four cycles and does nothing more);
    /// the state and the cycles
    pub open spec fn thumb_step(self) -> (GbaView, u8) {
        let o = self.read16(self.r.pc, true);
        if o.0 == 0 {
            (self.thumb_fetched(), 4)
        } else {
            let (v, c) = self.thumb_fetched().thumb_exec(o.0);
            (v, (o.1 + c) as u8)
        }
    }
}

/// The second operand of an ARM data-processing instruction (an immediate
/// rotated, or a register shifted by an immediate or by a register), and
/// the registers after the shifter set the carry when S is set
pub open spec fn arm_alu_op2(r: Registers, opcode: u32) -> (u32, Registers) {
    let s = (opcode >> 20u32) & 1 == 1;
    if (opcode >> 25u32) & 1 == 1 {
        let x = ror_spec(opcode & 0xFF, (((opcode >> 8u32) & 0xF) * 2) as u32);
        (x.0, if s {
            carried(r, x.1)
        } else {
            r
        })
    } else {
        let sbr = (opcode >> 4u32) & 1 == 1;
        let rm = (opcode & 0xF) as u8;
        let amt: u32 = if sbr {
            r.spec_reg(((opcode >> 8u32) & 0xF) as u8) & 0xFF
        } else {
            (opcode >> 7u32) & 0x1F
        };
        let v = (r.spec_reg(rm) + if rm == 15 {
            if sbr {
                8int
            } else {
                4int
            }
        } else {
            0int
        }) as u32;
        let t = (opcode >> 5u32) & 0x3;
        if amt == 0 && sbr {
            (v, r)
        } else {
            let x = if t == 0 {
                lsl_spec(v, amt)
            } else if t == 1 {
                lsr_spec(v, amt)
            } else if t == 2 {
                asr_spec(v, amt)
            } else if amt == 0 {
                rrx_spec(v, bit_of(r.cpsr, 29))
            } else {
                ror_spec(v, amt)
            };
            (x.0, if s {
                carried(r, x.1)
            } else {
                r
            })
        }
    }
}

/// The first operand of an ARM data-processing instruction; PC reads ahead
pub open spec fn arm_alu_op1(r: Registers, opcode: u32) -> int {
    let rn = ((opcode >> 16u32) & 0xF) as u8;
    r.spec_reg(rn) + if rn == 15 {
        if (opcode >> 25u32) & 1 == 0 && (opcode >> 4u32) & 1 == 1 {
            8int
        } else {
            4int
        }
    } else {
        0int
    }
}

/// The registers with Z and N set from `res`
pub open spec fn with_zn(r: Registers, res: u32) -> Registers {
    setf(setf(r, 30, res == 0), 31, (res >> 31u32) == 1)
}

/// An ARM data-processing instruction before a write to PC with S set
/// restores the CPSR
pub open spec fn arm_alu_core(r: Registers, opcode: u32) -> Registers {
    let op = (opcode >> 21u32) & 0xF;
    let s = (opcode >> 20u32) & 1 == 1;
    let rd = ((opcode >> 12u32) & 0xF) as u8;
    let op1 = arm_alu_op1(r, opcode) as u32;
    let (op2, r1) = arm_alu_op2(r, opcode);
    let cbit: u32 = if bit_of(r1.cpsr, 29) {
        1
    } else {
        0
    };
    if op == 0 || op == 1 || op == 0xC || op == 0xE || op == 0xF || op == 0xD {
        let res = if op == 0 {
            op1 & op2
        } else if op == 1 {
            op1 ^ op2
        } else if op == 0xC {
            op1 | op2
        } else if op == 0xE {
            op1 & !op2
        } else if op == 0xF {
            !op2
        } else {
            op2
        };
        let ra = r1.spec_set_reg(rd, res);
        if s {
            with_zn(ra, res)
        } else {
            ra
        }
    } else if op == 8 || op == 9 {
        let res = if op == 8 {
            op1 & op2
        } else {
            op1 ^ op2
        };
        if s {
            with_zn(r1, res)
        } else {
            r1
        }
    } else if op == 2 || op == 3 || op == 0xA {
        let (a, b) = if op == 3 {
            (op2, op1)
        } else {
            (op1, op2)
        };
        let res = a.wrapping_sub(b);
        let ra = if op == 0xA {
            r1
        } else {
            r1.spec_set_reg(rd, res)
        };
        if s {
            setf(
                setf(setf(setf(ra, 30, res == 0), 31, res & 0x8000_0000 != 0), 28, sub_overflows(a, b)),
                29,
                b <= a,
            )
        } else {
            ra
        }
    } else if op == 4 || op == 0xB {
        let res = op1.wrapping_add(op2);
        let ra = if op == 0xB {
            r1
        } else {
            r1.spec_set_reg(rd, res)
        };
        if s {
            setf(
                setf(with_zn(ra, res), 28, add_overflows(op1, op2)),
                29,
                (op1 as int) + (op2 as int) > 0xFFFF_FFFF,
            )
        } else {
            ra
        }
    } else if op == 5 {
        let res = op1.wrapping_add(op2).wrapping_add(cbit);
        let ra = r1.spec_set_reg(rd, res);
        if s {
            setf(
                setf(with_zn(ra, res), 28, (!(op1 ^ op2) & (op2 ^ res)) >> 31u32 == 1),
                29,
                (op1 as int) + (op2 as int) + (cbit as int) > 0xFFFF_FFFF,
            )
        } else {
            ra
        }
    } else {
        let (a, b0) = if op == 6 {
            (op1, op2)
        } else {
            (op2, op1)
        };
        let res = a.wrapping_sub(b0.wrapping_add((1 - cbit) as u32));
        let b = !b0;
        let ra = r1.spec_set_reg(rd, res);
        if s {
            setf(
                setf(with_zn(ra, res), 28, (!(a ^ b) & (b ^ res)) >> 31u32 == 1),
                29,
                (a as int) + (b as int) + (cbit as int) > 0xFFFF_FFFF,
            )
        } else {
            ra
        }
    }
}

/// Whether an ARM data-processing instruction returns: the PC operands
/// stay in range, a shift by a register has bit 7 clear, and a write to
/// PC with S set happens in a mode with a saved status register
pub open spec fn arm_alu_ok(r: Registers, opcode: u32) -> bool {
    let rm = (opcode & 0xF) as u8;
    let imm = (opcode >> 25u32) & 1 == 1;
    let sbr = (opcode >> 4u32) & 1 == 1;
    let s = (opcode >> 20u32) & 1 == 1;
    let rd = ((opcode >> 12u32) & 0xF) as u8;
    &&& arm_alu_op1(r, opcode) <= u32::MAX
    &&& !imm ==> (sbr ==> (opcode >> 7u32) & 1 == 0) && (rm == 15 ==> r.pc + 8 <= u32::MAX)
    &&& s && rd == 15 ==> arm_alu_core(r, opcode).has_spsr()
}

/// An ARM data-processing instruction: AND, EOR, SUB, RSB, ADD, ADC, SBC,
/// RSC, TST, TEQ, CMP, CMN, ORR, MOV, BIC or MVN
pub open spec fn arm_alu(r: Registers, opcode: u32) -> Registers {
    let c = arm_alu_core(r, opcode);
    if (opcode >> 20u32) & 1 == 1 && (opcode >> 12u32) & 0xF == 15 {
        Registers { cpsr: c.spsr(), ..c }
    } else {
        c
    }
}

/// The 24-bit offset of an ARM branch, sign extended
pub open spec fn sext24(v: int) -> int {
    if v >= 0x80_0000 {
        v - 0x100_0000
    } else {
        v
    }
}

/// Whether an ARM branch returns: a link register for BL, and the target
/// arithmetic in range
pub open spec fn arm_branch_ok(r: Registers, opcode: u32) -> bool {
    &&& (opcode >> 24u32) & 1 == 1 ==> r.mode() is Some
    &&& (r.pc as i32) + 4 <= i32::MAX
    &&& i32::MIN <= (r.pc as i32) + 4 + sext24((opcode & 0xFF_FFFF) as int) * 4 <= i32::MAX
}

/// B or BL
pub open spec fn arm_branch(r: Registers, opcode: u32) -> Registers {
    let r1 = if (opcode >> 24u32) & 1 == 1 {
        r.with_banked_lr(r.pc)
    } else {
        r
    };
    Registers {
        pc: (((r.pc as i32) + 4 + sext24((opcode & 0xFF_FFFF) as int) * 4) as i32) as u32,
        ..r1
    }
}

/// The register operand of BX or BLX; PC reads ahead
pub open spec fn bx_operand(r: Registers, opcode: u32) -> int {
    let op_reg = (opcode & 0xF) as u8;
    r.spec_reg(op_reg) + if op_reg == 15 {
        4int
    } else {
        0int
    }
}

/// Whether BX or BLX returns: a known form, the operand in range, and a
/// link register for BLX
pub open spec fn arm_bx_ok(r: Registers, opcode: u32) -> bool {
    let sub = (opcode >> 4u32) & 0xF;
    let thumb = (bx_operand(r, opcode) as u32) & 1 == 1;
    &&& sub == 1 || sub == 3
    &&& bx_operand(r, opcode) <= u32::MAX
    &&& sub == 3 ==> (Registers { cpsr: with_bit(r.cpsr, 5, thumb), ..r }).mode() is Some
}

/// BX or BLX to a register: bit 0 of the target selects Thumb state
pub open spec fn arm_bx(r: Registers, opcode: u32) -> Registers {
    let op = bx_operand(r, opcode) as u32;
    let thumb = op & 1 == 1;
    let new_pc = if thumb {
        op & !1u32
    } else {
        op & !3u32
    };
    let r1 = Registers { cpsr: with_bit(r.cpsr, 5, thumb), pc: new_pc, ..r };
    if (opcode >> 4u32) & 0xF == 3 {
        r1.with_banked_lr(r.pc)
    } else {
        r1
    }
}

/// Whether an ARM multiply returns: one of the six known forms
pub open spec fn arm_multiply_ok(opcode: u32) -> bool {
    let sub = (opcode >> 21u32) & 0xF;
    sub == 0 || sub == 1 || sub == 4 || sub == 5 || sub == 6 || sub == 7
}

/// The 64-bit value of the register pair rd (high) and rn (low)
pub open spec fn pair64(r: Registers, rd: u8, rn: u8) -> u64 {
    ((r.spec_reg(rd) as u64) << 32u64) | (r.spec_reg(rn) as u64)
}

/// MUL, MLA, UMULL, UMLAL, SMULL or SMLAL; the carry flag is cleared
pub open spec fn arm_multiply(r: Registers, opcode: u32) -> Registers {
    let sub = (opcode >> 21u32) & 0xF;
    let s = (opcode >> 20u32) & 1 == 1;
    let rd = ((opcode >> 16u32) & 0xF) as u8;
    let rn = ((opcode >> 12u32) & 0xF) as u8;
    let rs = ((opcode >> 8u32) & 0xF) as u8;
    let rm = (opcode & 0xF) as u8;
    let r1 = if sub == 0 || sub == 1 {
        let res = if sub == 0 {
            r.spec_reg(rm).wrapping_mul(r.spec_reg(rs))
        } else {
            r.spec_reg(rm).wrapping_mul(r.spec_reg(rs)).wrapping_add(r.spec_reg(rn))
        };
        let ra = r.spec_set_reg(rd, res);
        if s {
            with_zn(ra, res)
        } else {
            ra
        }
    } else if sub == 4 || sub == 5 {
        let prod = (r.spec_reg(rs) as u64).wrapping_mul(r.spec_reg(rm) as u64);
        let res = if sub == 4 {
            prod
        } else {
            prod.wrapping_add(pair64(r, rd, rn))
        };
        let ra = r.spec_set_reg(rd, (res >> 32u64) as u32).spec_set_reg(
            rn,
            (res & 0xFFFF_FFFF) as u32,
        );
        if s {
            setf(setf(ra, 30, res == 0), 31, (res >> 63u64) == 1)
        } else {
            ra
        }
    } else if sub == 6 {
        let res = ((r.spec_reg(rs) as i32) as i64).wrapping_mul((r.spec_reg(rm) as i32) as i64);
        let ra = r.spec_set_reg(rd, (res >> 32i64) as u32).spec_set_reg(
            rn,
            (res & 0xFFFF_FFFF) as u32,
        );
        if s {
            setf(setf(ra, 30, res == 0), 31, (res >> 63i64) & 1 == 1)
        } else {
            ra
        }
    } else {
        let prod = ((r.spec_reg(rs) as i32) as i64).wrapping_mul((r.spec_reg(rm) as i32) as i64);
        let res = (prod as u64).wrapping_add(pair64(r, rd, rn));
        let ra = r.spec_set_reg(rd, (res >> 32u64) as u32).spec_set_reg(
            rn,
            (res & 0xFFFF_FFFF) as u32,
        );
        if s {
            setf(setf(ra, 30, res == 0), 31, (res >> 63u64) == 1)
        } else {
            ra
        }
    };
    setf(r1, 29, false)
}

/// The field mask of MSR: flags, status, extension and control bytes
pub open spec fn msr_mask(opcode: u32) -> u32 {
    (if (opcode >> 19u32) & 1 == 1 {
        0xFF00_0000u32
    } else {
        0
    }) | (if (opcode >> 18u32) & 1 == 1 {
        0x00FF_0000u32
    } else {
        0
    }) | (if (opcode >> 17u32) & 1 == 1 {
        0x0000_FF00u32
    } else {
        0
    }) | (if (opcode >> 16u32) & 1 == 1 {
        0x0000_00FFu32
    } else {
        0
    })
}

/// Whether MRS or MSR returns: the saved status register they name exists
pub open spec fn arm_psr_ok(r: Registers, opcode: u32) -> bool {
    (opcode >> 22u32) & 1 == 1 ==> r.has_spsr()
}

/// MRS (a status register into rd) or MSR (fields of a register or a
/// rotated immediate into a status register)
pub open spec fn arm_psr(r: Registers, opcode: u32) -> Registers {
    let spsr_target = (opcode >> 22u32) & 1 == 1;
    if (opcode >> 21u32) & 1 == 1 {
        let mask = msr_mask(opcode);
        let (val, r1) = if (opcode >> 25u32) & 1 == 1 {
            let x = ror_spec(opcode & 0xFF, (((opcode >> 8u32) & 0xF) * 2) as u32);
            (x.0, carried(r, x.1))
        } else {
            (r.spec_reg((opcode & 0xF) as u8), r)
        };
        if spsr_target {
            r1.with_spsr((r1.spsr() & !mask) | (val & mask))
        } else {
            Registers { cpsr: (r1.cpsr & !mask) | (val & mask), ..r1 }
        }
    } else {
        r.spec_set_reg(
            ((opcode >> 12u32) & 0xF) as u8,
            if spsr_target {
                r.spsr()
            } else {
                r.cpsr
            },
        )
    }
}

impl GbaView {
    /// Whether SWP or SWPB returns
    pub open spec fn arm_swap_ok(self, opcode: u32) -> bool {
        let addr = self.r.spec_reg(((opcode >> 16u32) & 0xF) as u8);
        let v = self.r.spec_reg((opcode & 0xF) as u8);
        if (opcode >> 22u32) & 1 == 1 {
            self.read8_ok(addr) && GbaView::write8_ok(addr, v as u8)
        } else {
            self.read32_ok(addr) && GbaView::write32_ok(addr, v)
        }
    }

    /// SWP or SWPB: rd gets the memory at [rn], which gets rm
    pub open spec fn arm_swap(self, opcode: u32) -> (GbaView, u8) {
        let rd = ((opcode >> 12u32) & 0xF) as u8;
        let addr = self.r.spec_reg(((opcode >> 16u32) & 0xF) as u8);
        let v = self.r.spec_reg((opcode & 0xF) as u8);
        if (opcode >> 22u32) & 1 == 1 {
            let o = self.read8(addr);
            (
                self.with_reg(rd, o.0 as u32).write8(addr, v as u8),
                (o.1 + GbaView::write8_cycles(addr) + 1) as u8,
            )
        } else {
            let o = self.read32(addr, false);
            (
                self.with_reg(rd, o.0).write32(addr, v),
                (o.1 + GbaView::write32_cycles(addr) + 1) as u8,
            )
        }
    }
}

/// The registers after switching to mode `m`, the CPSR saved in the old
/// mode's saved status register where it has one
pub open spec fn mode_set(r: Registers, m: RegisterMode) -> Registers {
    Registers {
        cpsr: (r.cpsr & !0x1Fu32) | (spec_register_mode_to_u8(m) as u32),
        ..(if r.has_spsr() {
            r.with_spsr(r.cpsr)
        } else {
            r
        })
    }
}

/// A register shifted by an immediate, as an offset (the carry is left)
pub open spec fn shifted_offset(r: Registers, opcode: u32) -> u32 {
    let v = r.spec_reg((opcode & 0xF) as u8);
    let amt = (opcode >> 7u32) & 0x1F;
    let t = (opcode >> 5u32) & 0x3;
    if t == 0 {
        lsl_spec(v, amt).0
    } else if t == 1 {
        lsr_spec(v, amt).0
    } else if t == 2 {
        asr_spec(v, amt).0
    } else if amt == 0 {
        rrx_spec(v, bit_of(r.cpsr, 29)).0
    } else {
        ror_spec(v, amt).0
    }
}

/// The number of set bits among the low `n` bits of `x`
pub open spec fn popcount(x: u32, n: int) -> u32
    decreases n,
{
    if n <= 0 {
        0
    } else {
        (popcount(x, n - 1) + if (x >> ((n - 1) as u32)) & 1 == 1 {
            1u32
        } else {
            0u32
        }) as u32
    }
}

impl GbaView {
    /// The state an ARM single transfer works in: user mode when it forces
    /// a non-privileged access
    pub open spec fn arm_mem_entry(self, opcode: u32) -> GbaView {
        if (opcode >> 21u32) & 1 == 1 && !((opcode >> 24u32) & 1 == 1) {
            GbaView { r: mode_set(self.r, RegisterMode::User), ..self }
        } else {
            self
        }
    }

    /// The offset of an ARM single transfer
    pub open spec fn arm_mem_offset(self, opcode: u32) -> u32 {
        let v0 = self.arm_mem_entry(opcode);
        if (opcode >> 25u32) & 1 == 1 {
            shifted_offset(v0.r, opcode)
        } else {
            opcode & 0xFFF
        }
    }

    /// The base of an ARM single transfer; PC reads ahead
    pub open spec fn arm_mem_base(self, opcode: u32) -> int {
        let b = ((opcode >> 16u32) & 0xF) as u8;
        self.arm_mem_entry(opcode).r.spec_reg(b) + if b == 15 {
            4int
        } else {
            0int
        }
    }

    /// The address of an ARM single transfer: pre-indexed or not
    pub open spec fn arm_mem_addr(self, opcode: u32) -> u32 {
        let base = self.arm_mem_base(opcode) as u32;
        let off = self.arm_mem_offset(opcode);
        if (opcode >> 24u32) & 1 == 1 {
            if (opcode >> 23u32) & 1 == 1 {
                base.wrapping_add(off)
            } else {
                base.wrapping_sub(off)
            }
        } else {
            base
        }
    }

    /// The value an ARM store writes; PC reads ahead
    pub open spec fn arm_mem_store_val(self, opcode: u32) -> int {
        let sd = ((opcode >> 12u32) & 0xF) as u8;
        self.arm_mem_entry(opcode).r.spec_reg(sd) + if sd == 15 {
            8int
        } else {
            0int
        }
    }

    /// The transfer of an ARM single transfer: the state and the cycles
    pub open spec fn arm_mem_transfer(self, opcode: u32) -> (GbaView, u8) {
        self.arm_mem_entry(opcode).arm_mem_access(
            opcode,
            self.arm_mem_addr(opcode),
            self.arm_mem_store_val(opcode) as u32,
        )
    }

    /// The memory access of a single transfer at `addr`, storing `wv`
    pub open spec fn arm_mem_access(self, opcode: u32, addr: u32, wv: u32) -> (GbaView, u8) {
        let sd = ((opcode >> 12u32) & 0xF) as u8;
        let byte = (opcode >> 22u32) & 1 == 1;
        if (opcode >> 20u32) & 1 == 1 {
            if byte {
                let o = self.read8(addr);
                (self.with_reg(sd, o.0 as u32), o.1)
            } else if addr & 3 != 0 {
                let o = self.read32(addr & !3u32, true);
                let x = ror_spec(o.0, (addr & 3) << 3u32);
                (GbaView { r: carried(self.r, x.1), ..self }.with_reg(sd, x.0), o.1)
            } else {
                let o = self.read32(addr, true);
                (self.with_reg(sd, o.0), o.1)
            }
        } else if byte {
            (self.write8(addr, wv as u8), GbaView::write8_cycles(addr))
        } else {
            (self.write32(addr & !3u32, wv), GbaView::write32_cycles(addr & !3u32))
        }
    }

    /// Whether the memory access of a single transfer returns
    pub open spec fn arm_mem_access_ok(self, opcode: u32, addr: u32, wv: u32) -> bool {
        let byte = (opcode >> 22u32) & 1 == 1;
        if (opcode >> 20u32) & 1 == 1 {
            if byte {
                self.read8_ok(addr)
            } else if addr & 3 != 0 {
                self.read32_ok(addr & !3u32)
            } else {
                self.read32_ok(addr)
            }
        } else if byte {
            GbaView::write8_ok(addr, wv as u8)
        } else {
            GbaView::write32_ok(addr & !3u32, wv)
        }
    }

    /// Whether an ARM single transfer (LDR, STR, LDRB, STRB) returns
    pub open spec fn arm_mem_ok(self, opcode: u32) -> bool {
        let user = (opcode >> 21u32) & 1 == 1 && !((opcode >> 24u32) & 1 == 1);
        &&& user ==> self.r.mode() is Some
        &&& self.arm_mem_base(opcode) <= u32::MAX
        &&& !((opcode >> 20u32) & 1 == 1) ==> self.arm_mem_store_val(opcode) <= u32::MAX
        &&& self.arm_mem_entry(opcode).arm_mem_access_ok(
            opcode,
            self.arm_mem_addr(opcode),
            self.arm_mem_store_val(opcode) as u32,
        )
        &&& user ==> self.arm_mem_transfer(opcode).0.r.mode() is Some
    }

    /// LDR, STR, LDRB or STRB: the state and the cycles
    pub open spec fn arm_mem(self, opcode: u32) -> (GbaView, u8) {
        let user = (opcode >> 21u32) & 1 == 1 && !((opcode >> 24u32) & 1 == 1);
        let p = (opcode >> 24u32) & 1 == 1;
        let load = (opcode >> 20u32) & 1 == 1;
        let wb = (opcode >> 21u32) & 1 == 1;
        let b = ((opcode >> 16u32) & 0xF) as u8;
        let sd = ((opcode >> 12u32) & 0xF) as u8;
        let addr = self.arm_mem_addr(opcode);
        let off = self.arm_mem_offset(opcode);
        let (v1, c) = self.arm_mem_transfer(opcode);
        let addr2 = if !p {
            if (opcode >> 23u32) & 1 == 1 {
                addr.wrapping_add(off)
            } else {
                addr.wrapping_sub(off)
            }
        } else {
            addr
        };
        let v2 = if user {
            GbaView { r: mode_set(v1.r, self.r.mode()->0), ..v1 }
        } else {
            v1
        };
        let v3 = if (!load || b != sd) && (!p || wb) {
            v2.with_reg(b, addr2)
        } else {
            v2
        };
        (v3, c)
    }

    /// The base, pre-indexed address and source value of an ARM halfword
    /// or doubleword transfer
    pub open spec fn arm_half_base(self, opcode: u32) -> int {
        let rn = ((opcode >> 16u32) & 0xF) as u8;
        self.r.spec_reg(rn) + if rn == 15 {
            4int
        } else {
            0int
        }
    }

    pub open spec fn arm_half_offset(self, opcode: u32) -> u32 {
        if (opcode >> 22u32) & 1 == 1 {
            (((opcode >> 8u32) & 0xF) << 4u32) | (opcode & 0xF)
        } else {
            self.r.spec_reg((opcode & 0xF) as u8)
        }
    }

    pub open spec fn arm_half_addr(self, opcode: u32) -> int {
        let base = self.arm_half_base(opcode);
        let off = self.arm_half_offset(opcode);
        if (opcode >> 24u32) & 1 == 1 {
            if (opcode >> 23u32) & 1 == 1 {
                base + off
            } else {
                base - off
            }
        } else {
            base
        }
    }

    pub open spec fn arm_half_src(self, opcode: u32) -> int {
        let rd = ((opcode >> 12u32) & 0xF) as u8;
        self.r.spec_reg(rd) + if rd == 15 {
            8int
        } else {
            0int
        }
    }

    /// The state after a pre-indexed write-back
    pub open spec fn arm_half_entry(self, opcode: u32) -> GbaView {
        if (opcode >> 24u32) & 1 == 1 && (opcode >> 21u32) & 1 == 1 {
            self.with_reg(((opcode >> 16u32) & 0xF) as u8, self.arm_half_addr(opcode) as u32)
        } else {
            self
        }
    }

    /// The transfer of an ARM halfword or doubleword transfer
    pub open spec fn arm_half_transfer(self, opcode: u32) -> (GbaView, u8) {
        self.arm_half_entry(opcode).arm_half_access(
            opcode,
            self.arm_half_addr(opcode) as u32,
            self.arm_half_src(opcode) as u32,
        )
    }

    /// The memory access of a halfword or doubleword transfer at `a`,
    /// storing `src`: the state and the cycles
    pub open spec fn arm_half_access(self, opcode: u32, a: u32, src: u32) -> (GbaView, u8) {
        let rd = ((opcode >> 12u32) & 0xF) as u8;
        let sub = (opcode >> 5u32) & 0x3;
        if (opcode >> 20u32) & 1 == 1 {
            if sub == 1 {
                let o = self.read16(a, false);
                (self.with_reg(rd, o.0 as u32), (2 + o.1) as u8)
            } else if sub == 2 {
                let o = self.read8(a);
                (self.with_reg(rd, ((o.0 as i8) as i32) as u32), (2 + o.1) as u8)
            } else {
                let o = self.read16(a, false);
                (self.with_reg(rd, ((o.0 as i16) as i32) as u32), (2 + o.1) as u8)
            }
        } else if sub == 1 {
            (self.write16(a, src as u16), (2 + GbaView::write16_cycles(a)) as u8)
        } else if sub == 2 {
            let o1 = self.read32(a, false);
            let o2 = self.read32((a + 4) as u32, true);
            (self.with_reg(rd, o1.0).with_reg((rd + 1) as u8, o2.0), (2 + o1.1 + o2.1) as u8)
        } else {
            let w1 = self.write32(a, src);
            let rd1 = (rd + 1) as u8;
            let src2 = (w1.r.spec_reg(rd1) + if rd1 == 15 {
                8int
            } else {
                0int
            }) as u32;
            (
                w1.write32((a + 4) as u32, src2),
                (2 + GbaView::write32_cycles(a) + GbaView::write32_cycles((a + 4) as u32)) as u8,
            )
        }
    }

    /// Whether the memory access of a halfword or doubleword transfer
    /// returns
    pub open spec fn arm_half_access_ok(self, opcode: u32, a: u32, src: u32) -> bool {
        let rd = ((opcode >> 12u32) & 0xF) as u8;
        let sub = (opcode >> 5u32) & 0x3;
        if (opcode >> 20u32) & 1 == 1 {
            if sub == 2 {
                self.read8_ok(a)
            } else {
                self.read16_ok(a)
            }
        } else if sub == 1 {
            self.write16_ok(a, src as u16)
        } else if sub == 2 {
            &&& rd < 15
            &&& a + 4 <= u32::MAX
            &&& self.read32_ok(a)
            &&& self.read32_ok((a + 4) as u32)
        } else {
            let w1 = self.write32(a, src);
            &&& rd < 15
            &&& a + 4 <= u32::MAX
            &&& GbaView::write32_ok(a, src)
            &&& rd + 1 == 15 ==> w1.r.spec_reg(15) + 8 <= u32::MAX
            &&& GbaView::write32_ok(
                (a + 4) as u32,
                (w1.r.spec_reg((rd + 1) as u8) + if rd + 1 == 15 {
                    8int
                } else {
                    0int
                }) as u32,
            )
        }
    }

    /// Whether an ARM halfword or doubleword transfer returns
    pub open spec fn arm_half_ok(self, opcode: u32) -> bool {
        let a = self.arm_half_addr(opcode);
        &&& (opcode >> 5u32) & 0x3 != 0
        &&& self.arm_half_base(opcode) <= u32::MAX
        &&& self.arm_half_src(opcode) <= u32::MAX
        &&& 0 <= a <= u32::MAX
        &&& self.arm_half_entry(opcode).arm_half_access_ok(
            opcode,
            a as u32,
            self.arm_half_src(opcode) as u32,
        )
    }

    /// LDRH, LDRSB, LDRSH, STRH, LDRD or STRD: the state and the cycles
    pub open spec fn arm_half(self, opcode: u32) -> (GbaView, u8) {
        let rn = ((opcode >> 16u32) & 0xF) as u8;
        let rd = ((opcode >> 12u32) & 0xF) as u8;
        let a = self.arm_half_addr(opcode) as u32;
        let off = self.arm_half_offset(opcode);
        let (v2, c) = self.arm_half_transfer(opcode);
        if !((opcode >> 24u32) & 1 == 1) && rn != rd {
            let a2 = if (opcode >> 23u32) & 1 == 1 {
                a.wrapping_add(off)
            } else {
                a.wrapping_sub(off)
            };
            (v2.with_reg(rn, a2), c)
        } else {
            (v2, c)
        }
    }
}

/// Whether bit `i` of an ARM register list is set
pub open spec fn in_list32(list: u32, i: int) -> bool {
    list & (1u32 << (i as u8)) != 0
}

impl GbaView {
    /// LDM from register `i` on: the state, the address, whether the base
    /// is still to be written back, and the cycles
    pub open spec fn ldm_arm_from(
        self,
        rn: u8,
        list: u32,
        i: int,
        base: u32,
        p: bool,
        wb: bool,
        load_psr: bool,
        cycles: int,
    ) -> (GbaView, u32, bool, int)
        decreases 16 - i,
    {
        if i < 0 || i >= 16 {
            (self, base, wb, cycles)
        } else if !in_list32(list, i) {
            self.ldm_arm_from(rn, list, i + 1, base, p, wb, load_psr, cycles)
        } else {
            let wb1 = if i == rn {
                false
            } else {
                wb
            };
            let b1 = if p {
                base.wrapping_add(4)
            } else {
                base
            };
            let o = self.read32(b1, true);
            let v1 = self.with_reg(i as u8, o.0);
            let v2 = if i == 15 && load_psr {
                GbaView { r: Registers { cpsr: v1.r.spsr(), ..v1.r }, ..v1 }
            } else {
                v1
            };
            let b2 = if !p {
                b1.wrapping_add(4)
            } else {
                b1
            };
            v2.ldm_arm_from(rn, list, i + 1, b2, p, wb1, load_psr, cycles + o.1 + 2)
        }
    }

    /// Whether LDM from register `i` on returns
    pub open spec fn ldm_arm_ok_from(
        self,
        rn: u8,
        list: u32,
        i: int,
        base: u32,
        p: bool,
        wb: bool,
        load_psr: bool,
    ) -> bool
        decreases 16 - i,
    {
        if i < 0 || i >= 16 {
            true
        } else if !in_list32(list, i) {
            self.ldm_arm_ok_from(rn, list, i + 1, base, p, wb, load_psr)
        } else {
            let wb1 = if i == rn {
                false
            } else {
                wb
            };
            let b1 = if p {
                base.wrapping_add(4)
            } else {
                base
            };
            let o = self.read32(b1, true);
            let v1 = self.with_reg(i as u8, o.0);
            let v2 = if i == 15 && load_psr {
                GbaView { r: Registers { cpsr: v1.r.spsr(), ..v1.r }, ..v1 }
            } else {
                v1
            };
            let b2 = if !p {
                b1.wrapping_add(4)
            } else {
                b1
            };
            &&& self.read32_ok(b1)
            &&& i == 15 && load_psr ==> v1.r.has_spsr()
            &&& v2.ldm_arm_ok_from(rn, list, i + 1, b2, p, wb1, load_psr)
        }
    }

    /// The value STM stores for register `i`: the base register stores the
    /// original base when it is the first in the list, else the written
    /// back one; PC reads ahead
    pub open spec fn stm_arm_value(
        self,
        rn: u8,
        i: int,
        up: bool,
        orig: u32,
        count: u32,
        first: bool,
    ) -> int {
        if i == rn {
            if first {
                orig as int
            } else if up {
                orig.wrapping_add((4 * count) as u32) as int
            } else {
                orig.wrapping_sub((4 * count) as u32) as int
            }
        } else if i == 15 {
            self.r.spec_reg(15) + 8
        } else {
            self.r.spec_reg(i as u8) as int
        }
    }

    /// STM from register `i` on: the state, the address and the cycles
    pub open spec fn stm_arm_from(
        self,
        rn: u8,
        list: u32,
        i: int,
        base: u32,
        p: bool,
        up: bool,
        orig: u32,
        count: u32,
        first: bool,
        cycles: int,
    ) -> (GbaView, u32, int)
        decreases 16 - i,
    {
        if i < 0 || i >= 16 {
            (self, base, cycles)
        } else if !in_list32(list, i) {
            self.stm_arm_from(rn, list, i + 1, base, p, up, orig, count, first, cycles)
        } else {
            let val = self.stm_arm_value(rn, i, up, orig, count, first) as u32;
            let b1 = if p {
                base.wrapping_add(4)
            } else {
                base
            };
            let b2 = if !p {
                b1.wrapping_add(4)
            } else {
                b1
            };
            self.write32(b1, val).stm_arm_from(
                rn,
                list,
                i + 1,
                b2,
                p,
                up,
                orig,
                count,
                false,
                cycles + GbaView::write32_cycles(b1) + 1,
            )
        }
    }

    /// Whether STM from register `i` on returns
    pub open spec fn stm_arm_ok_from(
        self,
        rn: u8,
        list: u32,
        i: int,
        base: u32,
        p: bool,
        up: bool,
        orig: u32,
        count: u32,
        first: bool,
    ) -> bool
        decreases 16 - i,
    {
        if i < 0 || i >= 16 {
            true
        } else if !in_list32(list, i) {
            self.stm_arm_ok_from(rn, list, i + 1, base, p, up, orig, count, first)
        } else {
            let val = self.stm_arm_value(rn, i, up, orig, count, first);
            let b1 = if p {
                base.wrapping_add(4)
            } else {
                base
            };
            let b2 = if !p {
                b1.wrapping_add(4)
            } else {
                b1
            };
            &&& val <= u32::MAX
            &&& GbaView::write32_ok(b1, val as u32)
            &&& self.write32(b1, val as u32).stm_arm_ok_from(
                rn,
                list,
                i + 1,
                b2,
                p,
                up,
                orig,
                count,
                false,
            )
        }
    }

    /// Whether an ARM block transfer forces the user bank
    pub open spec fn block_user(opcode: u32) -> bool {
        (opcode >> 22u32) & 1 == 1 && (opcode >> 20u32) & 1 == 1 && !((opcode >> 15u32) & 1 == 1)
    }

    /// Whether an ARM block load also restores the CPSR
    pub open spec fn block_psr(opcode: u32) -> bool {
        (opcode >> 22u32) & 1 == 1 && (opcode >> 20u32) & 1 == 1 && (opcode >> 15u32) & 1 == 1
    }

    /// The state, start address, write-back flag and pre-increment flag of
    /// an ARM block transfer before its first register
    pub open spec fn arm_block_pre(self, opcode: u32) -> (GbaView, u32, bool, bool) {
        let rn = ((opcode >> 16u32) & 0xF) as u8;
        let p0 = (opcode >> 24u32) & 1 == 1;
        let wb0 = (opcode >> 21u32) & 1 == 1;
        let base0 = self.r.spec_reg(rn);
        let v0 = if GbaView::block_user(opcode) {
            GbaView { r: mode_set(self.r, RegisterMode::User), ..self }
        } else {
            self
        };
        let count = popcount(opcode & 0xFFFF, 16);
        if (opcode >> 23u32) & 1 == 1 {
            (v0, base0, wb0, p0)
        } else {
            let b = base0.wrapping_sub((4 * count) as u32);
            if wb0 {
                (v0.with_reg(rn, b), b, false, !p0)
            } else {
                (v0, b, wb0, !p0)
            }
        }
    }

    /// The registers' part of an ARM block transfer: the state, the final
    /// address, whether to write it back, and the cycles
    pub open spec fn arm_block_body(self, opcode: u32) -> (GbaView, u32, bool, int) {
        let rn = ((opcode >> 16u32) & 0xF) as u8;
        let list = opcode & 0xFFFF;
        let (v1, base1, wb1, p1) = self.arm_block_pre(opcode);
        if (opcode >> 20u32) & 1 == 1 {
            v1.ldm_arm_from(rn, list, 0, base1, p1, wb1, GbaView::block_psr(opcode), 0)
        } else {
            let (v, b, c) = v1.stm_arm_from(
                rn,
                list,
                0,
                base1,
                p1,
                (opcode >> 23u32) & 1 == 1,
                self.r.spec_reg(rn),
                popcount(list, 16),
                true,
                0,
            );
            (v, b, wb1, c)
        }
    }

    /// Whether an ARM block transfer (LDM or STM) returns: a non-empty
    /// list, each access, a saved status register where the CPSR is
    /// restored, and cycles that fit in a byte
    pub open spec fn arm_block_ok(self, opcode: u32) -> bool {
        let rn = ((opcode >> 16u32) & 0xF) as u8;
        let list = opcode & 0xFFFF;
        let (v1, base1, wb1, p1) = self.arm_block_pre(opcode);
        let body = self.arm_block_body(opcode);
        &&& popcount(list, 16) != 0
        &&& GbaView::block_user(opcode) ==> self.r.mode() is Some && body.0.r.mode() is Some
        &&& if (opcode >> 20u32) & 1 == 1 {
            v1.ldm_arm_ok_from(rn, list, 0, base1, p1, wb1, GbaView::block_psr(opcode))
        } else {
            v1.stm_arm_ok_from(
                rn,
                list,
                0,
                base1,
                p1,
                (opcode >> 23u32) & 1 == 1,
                self.r.spec_reg(rn),
                popcount(list, 16),
                true,
            )
        }
        &&& body.3 <= 0xFF
    }

    /// LDM or STM: the state and the cycles
    pub open spec fn arm_block(self, opcode: u32) -> (GbaView, u8) {
        let rn = ((opcode >> 16u32) & 0xF) as u8;
        let (v2, base2, wb2, c) = self.arm_block_body(opcode);
        let v3 = if GbaView::block_user(opcode) {
            GbaView { r: mode_set(v2.r, self.r.mode()->0), ..v2 }
        } else {
            v2
        };
        (if wb2 {
            v3.with_reg(rn, base2)
        } else {
            v3
        }, c as u8)
    }
}

impl GbaView {
    /// Whether an ARM instruction whose condition holds returns, the PC
    /// already past it
    pub open spec fn arm_exec_ok(self, opcode: u32) -> bool {
        let idx = (opcode >> 25u32) & 0x7;
        let me = (opcode >> 4u32) & 0xF == 0b1001;
        let b811 = (opcode >> 8u32) & 0xF;
        let n3 = (opcode >> 22u32) & 0x7;
        let n2 = n3 >> 1u32;
        if idx == 5 {
            arm_branch_ok(self.r, opcode)
        } else if idx == 0 {
            if (n2 == 0 && n3 == 0 && me) || (n2 == 1 && me) {
                arm_multiply_ok(opcode)
            } else if n2 == 2 && me && b811 == 0 && (opcode >> 20u32) & 0x3 == 0 {
                self.arm_swap_ok(opcode)
            } else if n2 == 2 && (opcode >> 20u32) & 1 == 0 && (opcode >> 4u32) & 0xFF == 0 {
                arm_psr_ok(self.r, opcode)
            } else if (opcode >> 4u32) & 1 == 1 && (opcode >> 7u32) & 1 == 1 {
                self.arm_half_ok(opcode)
            } else {
                arm_alu_ok(self.r, opcode)
            }
        } else if idx == 1 {
            if (opcode >> 23u32) & 0x3 == 2 && (opcode >> 20u32) & 1 == 0 {
                arm_psr_ok(self.r, opcode)
            } else {
                arm_alu_ok(self.r, opcode)
            }
        } else if idx == 2 || idx == 3 {
            self.arm_mem_ok(opcode)
        } else if idx == 4 {
            self.arm_block_ok(opcode)
        } else {
            idx == 7
        }
    }

    /// An ARM instruction whose condition holds, the PC already past it:
    /// the state and the cycles
    pub open spec fn arm_exec(self, opcode: u32) -> (GbaView, u8) {
        let idx = (opcode >> 25u32) & 0x7;
        let me = (opcode >> 4u32) & 0xF == 0b1001;
        let b811 = (opcode >> 8u32) & 0xF;
        let n3 = (opcode >> 22u32) & 0x7;
        let n2 = n3 >> 1u32;
        if idx == 5 {
            (GbaView { r: arm_branch(self.r, opcode), ..self }, 3)
        } else if idx == 0 {
            if (n2 == 0 && n3 == 0 && me) || (n2 == 1 && me) {
                (GbaView { r: arm_multiply(self.r, opcode), ..self }, 3)
            } else if n2 == 2 && me && b811 == 0 && (opcode >> 20u32) & 0x3 == 0 {
                self.arm_swap(opcode)
            } else if n2 == 2 && (opcode >> 20u32) & 1 == 0 && (opcode >> 4u32) & 0xFF == 0 {
                (GbaView { r: arm_psr(self.r, opcode), ..self }, 1)
            } else if (opcode >> 4u32) & 1 == 1 && (opcode >> 7u32) & 1 == 1 {
                self.arm_half(opcode)
            } else {
                (GbaView { r: arm_alu(self.r, opcode), ..self }, 4)
            }
        } else if idx == 1 {
            if (opcode >> 23u32) & 0x3 == 2 && (opcode >> 20u32) & 1 == 0 {
                (GbaView { r: arm_psr(self.r, opcode), ..self }, 1)
            } else {
                (GbaView { r: arm_alu(self.r, opcode), ..self }, 4)
            }
        } else if idx == 2 || idx == 3 {
            self.arm_mem(opcode)
        } else if idx == 4 {
            self.arm_block(opcode)
        } else {
            (
                if self.io_bit(0x208, 0) {
                    GbaView { r: swi_entered(self.r), ..self }
                } else {
                    self
                },
                3,
            )
        }
    }

    /// The state with the PC advanced past an ARM instruction
    pub open spec fn arm_fetched(self) -> GbaView {
        GbaView { r: Registers { pc: self.r.pc.wrapping_add(4), ..self.r }, ..self }
    }

    /// Whether the condition of an ARM instruction holds
    pub open spec fn arm_cond(self, opcode: u32) -> bool {
        cond_holds(self.r, spec_cond_from_u8(((opcode >> 28u32) & 0xF) as u8))
    }

    /// Whether an ARM instruction is BX or BLX to a register
    pub open spec fn is_bx(opcode: u32) -> bool {
        (opcode >> 8u32) & 0xF_FFFF == 0b0001_0010_1111_1111_1111
    }

    /// Whether an ARM step returns: the fetch, the instruction, and cycles
    /// that fit in a byte
    pub open spec fn arm_step_ok(self) -> bool {
        let o = self.read32(self.r.pc, true);
        let v1 = self.arm_fetched();
        &&& self.read32_ok(self.r.pc)
        &&& o.0 != 0 && v1.arm_cond(o.0) ==> if GbaView::is_bx(o.0) {
            arm_bx_ok(v1.r, o.0)
        } else {
            v1.arm_exec_ok(o.0) && o.1 + v1.arm_exec(o.0).1 <= 0xFF
        }
    }

    /// One ARM step: fetch the word at the PC, move the PC past it, and
    /// execute it when its condition holds (a zero word does nothing more);
    /// the state and the cycles
    pub open spec fn arm_step(self) -> (GbaView, u8) {
        let o = self.read32(self.r.pc, true);
        let v1 = self.arm_fetched();
        if o.0 == 0 {
            (v1, (4 + o.1) as u8)
        } else if !v1.arm_cond(o.0) {
            (v1, (1 + o.1) as u8)
        } else if GbaView::is_bx(o.0) {
            (GbaView { r: arm_bx(v1.r, o.0), ..v1 }, (o.1 + 3) as u8)
        } else {
            let (v2, c) = v1.arm_exec(o.0);
            (v2, (o.1 + c) as u8)
        }
    }
}

} // verus!
