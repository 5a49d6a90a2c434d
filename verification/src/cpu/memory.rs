//! The memory map of the Game Boy: the cartridge, video RAM, work RAM
//! (banked on the Game Boy Color), OAM, I/O ports and high RAM. Its
//! behavior for the cartridge areas is dictated by the cartridge.
use vstd::prelude::*;

use super::cartridge::{CartView, Cartridge};
use super::memvis::cpumemvis::{CpuEventLogger, DeqCpuEventLogger};

verus! {

pub struct Memory {
    cartridge: Box<Cartridge>,
    /// 8kb video ram, two banks on the Game Boy Color
    /// 0x8000-0x9FFF
    pub video_ram: [[u8; 0x2000]; 2],
    pub gbc_vram_bank: u8,
    /// 8kb internal ram
    /// 0xC000-0xDFFF (second half switchable on the Game Boy Color)
    internal_ram: [[u8; 0x1000]; 8],
    pub gbc_wram_bank: u8,
    /// unusable values
    /// 0xFEA0-0xFF00
    empty: [u8; 0x6F],
    /// sprite attribute memory
    /// 0xFE00-0xFE9F
    oam: [u8; 0xA0],
    /// IO ports
    /// 0xFF00-0xFF7F
    io_ports: [u8; 0x80],
    /// High RAM
    /// 0xFF80-0xFFFE
    hram: [u8; 0x80],
    /// Interrupt enable flag
    /// 0xFFFF
    interrupt_flag: u8,
    iterator_index: u16,
    pub logger: Option<DeqCpuEventLogger>,
}

/// The mathematical state of the memory map (the logger left out)
#[verifier::ext_equal]
pub ghost struct MemView {
    pub cart: CartView,
    pub vram: Seq<Seq<u8>>,
    pub vram_bank: u8,
    pub wram: Seq<Seq<u8>>,
    pub wram_bank: u8,
    pub empty: Seq<u8>,
    pub oam: Seq<u8>,
    pub io: Seq<u8>,
    pub hram: Seq<u8>,
    pub interrupt_flag: u8,
}

impl View for Memory {
    type V = MemView;

    closed spec fn view(&self) -> MemView {
        MemView {
            cart: self.cartridge@,
            vram: Seq::new(2, |i: int| self.video_ram@[i]@),
            vram_bank: self.gbc_vram_bank,
            wram: Seq::new(8, |i: int| self.internal_ram@[i]@),
            wram_bank: self.gbc_wram_bank,
            empty: self.empty@,
            oam: self.oam@,
            io: self.io_ports@,
            hram: self.hram@,
            interrupt_flag: self.interrupt_flag,
        }
    }
}

/// Whether an address belongs to the cartridge
pub open spec fn is_cart_addr(a: int) -> bool {
    0 <= a <= 0x7FFF || 0xA000 <= a <= 0xBFFF
}

impl MemView {
    /// Whether a read at `a` is answered
    pub open spec fn read_defined(self, a: u16) -> bool {
        if is_cart_addr(a as int) {
            self.cart.read_defined(a)
        } else if 0x8000 <= a <= 0x9FFF {
            self.vram_bank < 2
        } else if 0xD000 <= a <= 0xFDFF {
            self.wram_bank < 8
        } else {
            true
        }
    }

    /// What the CPU reads at `a`; the echo of work RAM at 0xE000 reads the
    /// selected bank
    pub open spec fn read(self, a: u16) -> u8 {
        let i = a as int;
        if is_cart_addr(i) {
            self.cart.read(a)
        } else if 0x8000 <= i <= 0x9FFF {
            self.vram[self.vram_bank as int][i - 0x8000]
        } else if 0xC000 <= i <= 0xCFFF {
            self.wram[0][i - 0xC000]
        } else if 0xD000 <= i <= 0xDFFF {
            self.wram[self.wram_bank as int][i - 0xD000]
        } else if 0xE000 <= i <= 0xEFFF {
            self.wram[self.wram_bank as int][i - 0xE000]
        } else if 0xF000 <= i <= 0xFDFF {
            self.wram[self.wram_bank as int][i - 0xF000]
        } else if 0xFE00 <= i <= 0xFE9F {
            self.oam[i - 0xFE00]
        } else if 0xFEA0 <= i <= 0xFEFF {
            self.empty[i - 0xFEA0]
        } else if 0xFF00 <= i <= 0xFF7F {
            self.io[i - 0xFF00]
        } else if 0xFF80 <= i <= 0xFFFE {
            self.hram[i - 0xFF80]
        } else {
            self.interrupt_flag
        }
    }

    /// Whether a write of the byte at `a` reaches storage
    pub open spec fn write_defined(self, a: u16) -> bool {
        if is_cart_addr(a as int) {
            self.cart.write_defined(a)
        } else if 0x8000 <= a <= 0x9FFF {
            self.vram_bank < 2
        } else if 0xD000 <= a <= 0xDFFF || 0xF000 <= a <= 0xFDFF {
            self.wram_bank < 8
        } else {
            true
        }
    }

    /// The memory after the byte at `a` is replaced; the echo of work RAM
    /// at 0xE000 writes bank 0
    pub open spec fn written(self, a: u16, v: u8) -> MemView {
        let i = a as int;
        let vb = self.vram_bank as int;
        let wb = self.wram_bank as int;
        if is_cart_addr(i) {
            MemView { cart: self.cart.written(a, v), ..self }
        } else if 0x8000 <= i <= 0x9FFF {
            MemView { vram: self.vram.update(vb, self.vram[vb].update(i - 0x8000, v)), ..self }
        } else if 0xC000 <= i <= 0xCFFF {
            MemView { wram: self.wram.update(0, self.wram[0].update(i - 0xC000, v)), ..self }
        } else if 0xD000 <= i <= 0xDFFF {
            MemView { wram: self.wram.update(wb, self.wram[wb].update(i - 0xD000, v)), ..self }
        } else if 0xE000 <= i <= 0xEFFF {
            MemView { wram: self.wram.update(0, self.wram[0].update(i - 0xE000, v)), ..self }
        } else if 0xF000 <= i <= 0xFDFF {
            MemView { wram: self.wram.update(wb, self.wram[wb].update(i - 0xF000, v)), ..self }
        } else if 0xFE00 <= i <= 0xFE9F {
            MemView { oam: self.oam.update(i - 0xFE00, v), ..self }
        } else if 0xFEA0 <= i <= 0xFEFF {
            MemView { empty: self.empty.update(i - 0xFEA0, v), ..self }
        } else if 0xFF00 <= i <= 0xFF7F {
            MemView { io: self.io.update(i - 0xFF00, v), ..self }
        } else if 0xFF80 <= i <= 0xFFFE {
            MemView { hram: self.hram.update(i - 0xFF80, v), ..self }
        } else {
            MemView { interrupt_flag: v, ..self }
        }
    }
}

impl Memory {
    /// The cartridge is well formed and so is the logger
    pub closed spec fn wf(&self) -> bool {
        &&& self.cartridge.wf()
        &&& self.logger matches Some(l) ==> l.wf()
    }

    /// Whether memory accesses are being logged
    pub closed spec fn has_logger(&self) -> bool {
        self.logger is Some
    }

    pub proof fn lemma_wf(&self)
        requires
            self.wf(),
        ensures
            self@.cart.wf(),
            self@.vram.len() == 2,
            self@.wram.len() == 8,
            forall|i: int| 0 <= i < 2 ==> (#[trigger] self@.vram[i]).len() == 0x2000,
            forall|i: int| 0 <= i < 8 ==> (#[trigger] self@.wram[i]).len() == 0x1000,
            self@.empty.len() == 0x6F,
            self@.oam.len() == 0xA0,
            self@.io.len() == 0x80,
            self@.hram.len() == 0x80,
    {
        self.cartridge.lemma_wf();
    }

    /// Zeroed memory with an empty cartridge; work RAM bank 1 is selected
    pub fn new() -> (m: Memory)
        ensures
            m.wf(),
            m.has_logger(),
            m@.vram == Seq::new(2, |i: int| Seq::new(0x2000, |j: int| 0u8)),
            m@.wram == Seq::new(8, |i: int| Seq::new(0x1000, |j: int| 0u8)),
            m@.vram_bank == 0,
            m@.wram_bank == 1,
            m@.empty == Seq::new(0x6F, |i: int| 0u8),
            m@.oam == Seq::new(0xA0, |i: int| 0u8),
            m@.io == Seq::new(0x80, |i: int| 0u8),
            m@.hram == Seq::new(0x80, |i: int| 0u8),
            m@.interrupt_flag == 0,
            m@.cart == Cartridge::spec_new(),
    {
        let m = Memory {
            cartridge: Box::new(Cartridge::new()),
            video_ram: [[0u8; 0x2000]; 2],
            internal_ram: [[0u8; 0x1000]; 8],
            empty: [0u8; 0x6F],
            oam: [0u8; 0xA0],
            io_ports: [0u8; 0x80],
            hram: [0u8; 0x80],
            interrupt_flag: 0,
            iterator_index: 0,
            logger: Some(DeqCpuEventLogger::new(None)),
            gbc_wram_bank: 1,
            gbc_vram_bank: 0,
        };
        assert(m@.vram =~= Seq::new(2, |i: int| Seq::new(0x2000, |j: int| 0u8))) by {
            assert(m.video_ram@[0]@ =~= Seq::new(0x2000, |j: int| 0u8));
            assert(m.video_ram@[1]@ =~= Seq::new(0x2000, |j: int| 0u8));
        }
        assert(m@.wram =~= Seq::new(8, |i: int| Seq::new(0x1000, |j: int| 0u8))) by {
            assert forall|i: int| 0 <= i < 8 implies m.internal_ram@[i]@ =~= Seq::new(
                0x1000,
                |j: int| 0u8,
            ) by {}
        }
        assert(m@.empty =~= Seq::new(0x6F, |i: int| 0u8));
        assert(m@.oam =~= Seq::new(0xA0, |i: int| 0u8));
        assert(m@.io =~= Seq::new(0x80, |i: int| 0u8));
        assert(m@.hram =~= Seq::new(0x80, |i: int| 0u8));
        m
    }

    /// Puts a cartridge in
    pub fn load(&mut self, cartridge: Cartridge)
        requires
            old(self).wf(),
            cartridge.wf(),
        ensures
            final(self).wf(),
            final(self)@ == (MemView { cart: cartridge@, ..old(self)@ }),
    {
        self.cartridge = Box::new(cartridge);
    }

    /// The cartridge RAM that is saved for the game
    pub fn saved_ram(&self) -> (r: Vec<u8>)
        requires
            self.wf(),
        ensures
            r@ == self@.cart.saved_ram(),
    {
        self.cartridge.saved_ram()
    }

    /// Reads saved cartridge RAM back
    pub fn restore_ram(&mut self, data: &[u8])
        requires
            old(self).wf(),
            old(self)@.cart.ram_restore_ok(data@),
        ensures
            final(self).wf(),
            final(self)@ == (MemView { cart: old(self)@.cart.ram_restored(data@), ..old(self)@ }),
    {
        self.cartridge.restore_ram(data);
    }

    pub fn gbc_mode(&self) -> (r: bool)
        ensures
            r == self@.cart.gbc,
    {
        self.cartridge.gbc_flag()
    }

    pub fn sgb_mode(&self) -> (r: bool)
        ensures
            r == self@.cart.sgb,
    {
        self.cartridge.sgb_flag()
    }

    /// Selects work RAM bank 0 for the switchable area, as the Game Boy
    /// Color starts
    pub fn set_gbc_mode(&mut self)
        requires
            old(self).wf(),
        ensures
            final(self).wf(),
            final(self)@ == (MemView { wram_bank: 0, ..old(self)@ }),
    {
        self.gbc_wram_bank = 0;
    }

    /// What the CPU reads at `index`
    pub fn get(&self, index: u16) -> (r: u8)
        requires
            self.wf(),
            self@.read_defined(index),
        ensures
            r == self@.read(index),
    {
        proof {
            self.lemma_wf();
        }
        let i = index as usize;
        if index <= 0x7FFF || (0xA000 <= index && index <= 0xBFFF) {
            self.cartridge.index(index)
        } else if index <= 0x9FFF {
            self.video_ram[self.gbc_vram_bank as usize][i - 0x8000]
        } else if index <= 0xCFFF {
            self.internal_ram[0][i - 0xC000]
        } else if index <= 0xDFFF {
            self.internal_ram[self.gbc_wram_bank as usize][i - 0xD000]
        } else if index <= 0xEFFF {
            self.internal_ram[self.gbc_wram_bank as usize][i - 0xE000]
        } else if index <= 0xFDFF {
            self.internal_ram[self.gbc_wram_bank as usize][i - 0xF000]
        } else if index <= 0xFE9F {
            self.oam[i - 0xFE00]
        } else if index <= 0xFEFF {
            self.empty[i - 0xFEA0]
        } else if index <= 0xFF7F {
            self.io_ports[i - 0xFF00]
        } else if index <= 0xFFFE {
            self.hram[i - 0xFF80]
        } else {
            self.interrupt_flag
        }
    }

    /// The byte that a write to `index` (taken modulo 0x10000) lands in
    pub fn index_mut(&mut self, index: usize) -> (r: &mut u8)
        requires
            old(self).wf(),
            old(self)@.write_defined((index % 0x10000) as u16),
        ensures
            final(self)@ == old(self)@.written((index % 0x10000) as u16, *final(r)),
            final(self).wf(),
            final(self).has_logger() == old(self).has_logger(),
    {
        proof {
            self.lemma_wf();
        }
        let a = index % 0x10000;
        if a <= 0x7FFF || (0xA000 <= a && a <= 0xBFFF) {
            self.cartridge.index_mut(a as u16)
        } else if a <= 0x9FFF {
            &mut self.video_ram[self.gbc_vram_bank as usize][a - 0x8000]
        } else if a <= 0xCFFF {
            &mut self.internal_ram[0][a - 0xC000]
        } else if a <= 0xDFFF {
            &mut self.internal_ram[self.gbc_wram_bank as usize][a - 0xD000]
        } else if a <= 0xEFFF {
            &mut self.internal_ram[0][a - 0xE000]
        } else if a <= 0xFDFF {
            &mut self.internal_ram[self.gbc_wram_bank as usize][a - 0xF000]
        } else if a <= 0xFE9F {
            &mut self.oam[a - 0xFE00]
        } else if a <= 0xFEFF {
            &mut self.empty[a - 0xFEA0]
        } else if a <= 0xFF7F {
            &mut self.io_ports[a - 0xFF00]
        } else if a <= 0xFFFE {
            &mut self.hram[a - 0xFF80]
        } else {
            &mut self.interrupt_flag
        }
    }
}

impl Memory {
    /// Sets the I/O registers to the values the boot ROM leaves (NR52
    /// differs on the Super Game Boy) and clears the interrupt enable flag
    pub fn reset(&mut self, sgb_mode: bool)
        requires
            old(self).wf(),
        ensures
            final(self).wf(),
            final(self).has_logger() == old(self).has_logger(),
            final(self)@ == (MemView {
                io: old(self)@.io.update(0x0, 0xCFu8).update(0x1, 0x00u8).update(0x2, 0x7Eu8).update(0x4, 0xABu8).update(0x5, 0x00u8).update(0x6, 0x00u8).update(0x7, 0xF8u8).update(0xf, 0xE1u8).update(0x10, 0x80u8).update(0x11, 0xBFu8).update(0x12, 0xF3u8).update(0x13, 0xFFu8).update(0x14, 0xBFu8).update(0x16, 0x3Fu8).update(0x17, 0x00u8).update(0x18, 0xFFu8).update(0x19, 0xBFu8).update(0x1a, 0x7Fu8).update(0x1b, 0xFFu8).update(0x1c, 0x9Fu8).update(0x1e, 0xBFu8).update(0x20, 0xFFu8).update(0x21, 0x00u8).update(0x22, 0x00u8).update(0x23, 0xBFu8).update(0x24, 0x77u8).update(0x25, 0xF3u8).update(0x26, (if sgb_mode { 0xF0u8 } else { 0xF1u8 })).update(0x40, 0x91u8).update(0x41, 0x85u8).update(0x42, 0x00u8).update(0x43, 0x00u8).update(0x44, 0x00u8).update(0x45, 0x00u8).update(0x46, 0xFFu8).update(0x47, 0xFCu8).update(0x48, 0xFFu8).update(0x49, 0xFFu8).update(0x4a, 0x00u8).update(0x4b, 0x00u8),
                interrupt_flag: 0,
                ..old(self)@
            }),
    {
        self.io_ports.set(0x0, 0xCF);
        self.io_ports.set(0x1, 0x00);
        self.io_ports.set(0x2, 0x7E);
        self.io_ports.set(0x4, 0xAB);
        self.io_ports.set(0x5, 0x00);
        self.io_ports.set(0x6, 0x00);
        self.io_ports.set(0x7, 0xF8);
        self.io_ports.set(0xf, 0xE1);
        self.io_ports.set(0x10, 0x80);
        self.io_ports.set(0x11, 0xBF);
        self.io_ports.set(0x12, 0xF3);
        self.io_ports.set(0x13, 0xFF);
        self.io_ports.set(0x14, 0xBF);
        self.io_ports.set(0x16, 0x3F);
        self.io_ports.set(0x17, 0x00);
        self.io_ports.set(0x18, 0xFF);
        self.io_ports.set(0x19, 0xBF);
        self.io_ports.set(0x1a, 0x7F);
        self.io_ports.set(0x1b, 0xFF);
        self.io_ports.set(0x1c, 0x9F);
        self.io_ports.set(0x1e, 0xBF);
        self.io_ports.set(0x20, 0xFF);
        self.io_ports.set(0x21, 0x00);
        self.io_ports.set(0x22, 0x00);
        self.io_ports.set(0x23, 0xBF);
        self.io_ports.set(0x24, 0x77);
        self.io_ports.set(0x25, 0xF3);
        self.io_ports.set(0x26, if sgb_mode { 0xF0 } else { 0xF1 });
        self.io_ports.set(0x40, 0x91);
        self.io_ports.set(0x41, 0x85);
        self.io_ports.set(0x42, 0x00);
        self.io_ports.set(0x43, 0x00);
        self.io_ports.set(0x44, 0x00);
        self.io_ports.set(0x45, 0x00);
        self.io_ports.set(0x46, 0xFF);
        self.io_ports.set(0x47, 0xFC);
        self.io_ports.set(0x48, 0xFF);
        self.io_ports.set(0x49, 0xFF);
        self.io_ports.set(0x4a, 0x00);
        self.io_ports.set(0x4b, 0x00);
        self.interrupt_flag = 0;
    }

    /// A CPU write: cartridge addresses go to the memory bank controller,
    /// others store the byte
    pub fn write_ram_value(&mut self, index: u16, value: u8)
        requires
            old(self).wf(),
            is_cart_addr(index as int) ==> old(self)@.cart.ram_write_defined(index),
            !is_cart_addr(index as int) ==> old(self)@.write_defined(index),
        ensures
            final(self).wf(),
            final(self).has_logger() == old(self).has_logger(),
            final(self)@ == (if is_cart_addr(index as int) {
                MemView { cart: old(self)@.cart.ram_value_written(index, value), ..old(self)@ }
            } else {
                old(self)@.written(index, value)
            }),
    {
        if index <= 0x7FFF || (0xA000 <= index && index <= 0xBFFF) {
            self.cartridge.write_ram_value(index, value);
        } else {
            let r = self.index_mut(index as usize);
            *r = value;
        }
    }

    /// Where reading the address space byte by byte has got to
    pub closed spec fn position(&self) -> u16 {
        self.iterator_index
    }

    /// Reads the address space byte by byte from 0: the byte at the
    /// position, which then moves on; nothing once it is at 0xFFFF
    pub fn next_byte(&mut self) -> (r: Option<u8>)
        requires
            old(self).wf(),
            old(self).position() < 0xFFFF ==> old(self)@.read_defined(old(self).position()),
        ensures
            final(self).wf(),
            final(self)@ == old(self)@,
            old(self).position() < 0xFFFF ==> r == Some(old(self)@.read(old(self).position()))
                && final(self).position() == old(self).position() + 1,
            old(self).position() == 0xFFFF ==> r is None && final(self).position() == 0xFFFF,
    {
        if self.iterator_index < 0xFFFF {
            self.iterator_index = self.iterator_index + 1;
            Some(self.get(self.iterator_index - 1))
        } else {
            None
        }
    }

    /// What the CPU reads at `index` taken modulo 0x10000
    pub fn get_wrapped(&self, index: usize) -> (r: u8)
        requires
            self.wf(),
            self@.read_defined((index % 0x10000) as u16),
        ensures
            r == self@.read((index % 0x10000) as u16),
    {
        self.get((index % 0x10000) as u16)
    }

    /// Replaces the logger with one that mirrors memory 0x0000-0xFFFE, and
    /// 0 for 0xFFFF (work RAM echoes read bank 0 here)
    pub fn initialize_logger(&mut self)
        requires
            old(self).wf(),
            forall|a: u16| #![trigger old(self)@.cart.read_defined(a)] is_cart_addr(a as int) ==> old(self)@.cart.read_defined(a),
            old(self)@.vram_bank < 2,
            old(self)@.wram_bank < 8,
        ensures
            final(self).wf(),
            final(self).has_logger(),
            final(self)@ == old(self)@,
    {
        proof {
            self.lemma_wf();
        }
        let mut mem_buffer: Vec<u8> = Vec::new();
        let mut index: usize = 0;
        while index < 0xFFFF
            invariant
                index <= 0xFFFF,
                mem_buffer@.len() == index,
                self.wf(),
                self@.vram_bank < 2,
                self@.wram_bank < 8,
                forall|a: u16| #![trigger self@.cart.read_defined(a)] is_cart_addr(a as int) ==> self@.cart.read_defined(a),
            decreases 0xFFFF - index,
        {
            proof {
                self.lemma_wf();
            }
            let b = if index <= 0x7FFF || (0xA000 <= index && index <= 0xBFFF) {
                assert(self@.cart.read_defined(index as u16));
                self.cartridge.index(index as u16)
            } else if index <= 0x9FFF {
                self.video_ram[self.gbc_vram_bank as usize][index - 0x8000]
            } else if index <= 0xCFFF {
                self.internal_ram[0][index - 0xC000]
            } else if index <= 0xDFFF {
                self.internal_ram[self.gbc_wram_bank as usize][index - 0xD000]
            } else if index <= 0xEFFF {
                self.internal_ram[0][index - 0xE000]
            } else if index <= 0xFDFF {
                self.internal_ram[self.gbc_wram_bank as usize][index - 0xF000]
            } else if index <= 0xFE9F {
                self.oam[index - 0xFE00]
            } else if index <= 0xFEFF {
                self.empty[index - 0xFEA0]
            } else if index <= 0xFF7F {
                self.io_ports[index - 0xFF00]
            } else {
                self.hram[index - 0xFF80]
            };
            mem_buffer.push(b);
            index = index + 1;
        }
        mem_buffer.push(0);
        self.logger = Some(DeqCpuEventLogger::new(Some(mem_buffer.as_slice())));
    }
}

} // verus!
