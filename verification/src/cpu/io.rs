//! Memory mapped registers of the Game Boy: interrupts, sound, LCD, timer
//! and buttons
use vstd::prelude::*;
use vstd::string::StringExecFns;

use super::constants::{CpuState, MEM_ARRAY_SIZE, STAT_ADDR};
use super::{byte_to_u16, word, wrap8, Cpu, CpuView};

verus! {

/// The bytes of `s` that are not zero, in order
pub open spec fn nonzero_bytes(s: Seq<u8>) -> Seq<u8>
    decreases s.len(),
{
    if s.len() == 0 {
        seq![]
    } else if s.last() != 0 {
        nonzero_bytes(s.drop_last()).push(s.last())
    } else {
        nonzero_bytes(s.drop_last())
    }
}

/// What `String::from_utf8` gives for `bytes`: their text when they are
/// valid UTF-8
pub uninterp spec fn utf8_text(bytes: Seq<u8>) -> Option<Seq<char>>;

/// Whether all bytes are ASCII codes
pub open spec fn all_ascii(bytes: Seq<u8>) -> bool {
    forall|i: int| 0 <= i < bytes.len() ==> #[trigger] bytes[i] < 128
}

/// The characters with the codes of `bytes`
pub open spec fn ascii_chars(bytes: Seq<u8>) -> Seq<char> {
    bytes.map_values(|b: u8| b as char)
}

/// The value at `idx` of a background tile row after the writes of the
/// first `i` groups and `k` more of group `i` (each group `i` writes bit
/// pair `m` of `v` at `i * (m + 1)`, for `m` from 0 to 3); 0 before any
pub open spec fn tile_written(v: u8, idx: int, i: nat, k: nat) -> u8
    decreases i, k,
{
    if k == 0 {
        if i == 0 {
            0
        } else {
            tile_written(v, idx, (i - 1) as nat, 4)
        }
    } else if i * k == idx {
        (v >> ((2 * (k - 1)) as u8)) & 3u8
    } else {
        tile_written(v, idx, i, (k - 1) as nat)
    }
}

/// Where the background tile map lies, by LCDC bit 3
pub open spec fn bg_map_base(lcdc: u8) -> int {
    if (lcdc >> 3u8) & 1 == 1 {
        0x8000
    } else {
        0x9000
    }
}

/// Where the background tile data lies, by LCDC bit 4
pub open spec fn bg_data_base(lcdc: u8) -> int {
    if (lcdc >> 4u8) & 1 == 1 {
        0x9C00
    } else {
        0x9800
    }
}

/// A game's name from the title bytes of its header
pub open spec fn game_name(title: Seq<u8>) -> Seq<char> {
    match utf8_text(nonzero_bytes(title)) {
        Some(t) => t,
        None => "Illegally named game"@,
    }
}

/// Decodes bytes with `String::from_utf8`. Stated: the text, or nothing,
/// is `utf8_text` of the bytes, and ASCII bytes give the characters with
/// the same codes (UTF-8 extends ASCII); how other bytes decode is left
/// to the name.
#[verifier::external_body]
pub(crate) fn utf8_decode(bytes: Vec<u8>) -> (r: Option<String>)
    ensures
        r is Some ==> utf8_text(bytes@) == Some(r->0@),
        r is None ==> utf8_text(bytes@) is None,
        all_ascii(bytes@) ==> r is Some && r->0@ == ascii_chars(bytes@),
{
    match String::from_utf8(bytes) {
        Ok(s) => Some(s),
        Err(_) => None,
    }
}

impl Cpu {
    /// Requests the vblank interruptimpl Cpu {
    /// Requests the vblank interrupt
    pub fn set_vblank_interrupt_bit(&mut self)
        requires
            old(self).wf(),
        ensures
            final(self).wf(),
            final(self)@ == old(self)@.poke(0xFF0F, (old(self)@.mem[0xFF0F] | 0x1) as u8),
            final(self).event_logger == old(self).event_logger,
    {
        let v = self.mem[0xFF0F];
        self.mem.set(0xFF0F, v | 0x1);
    }

    /// Requests the lcdc interrupt
    pub fn set_lcdc_interrupt_bit(&mut self)
        requires
            old(self).wf(),
        ensures
            final(self).wf(),
            final(self)@ == old(self)@.poke(0xFF0F, (old(self)@.mem[0xFF0F] | 0x2) as u8),
            final(self).event_logger == old(self).event_logger,
    {
        let v = self.mem[0xFF0F];
        self.mem.set(0xFF0F, v | 0x2);
    }

    /// Requests the timer interrupt
    pub fn set_timer_interrupt_bit(&mut self)
        requires
            old(self).wf(),
        ensures
            final(self).wf(),
            final(self)@ == old(self)@.poke(0xFF0F, (old(self)@.mem[0xFF0F] | 0x4) as u8),
            final(self).event_logger == old(self).event_logger,
    {
        let v = self.mem[0xFF0F];
        self.mem.set(0xFF0F, v | 0x4);
    }

    /// Requests the serial_io interrupt
    pub fn set_serial_io_interrupt_bit(&mut self)
        requires
            old(self).wf(),
        ensures
            final(self).wf(),
            final(self)@ == old(self)@.poke(0xFF0F, (old(self)@.mem[0xFF0F] | 0x8) as u8),
            final(self).event_logger == old(self).event_logger,
    {
        let v = self.mem[0xFF0F];
        self.mem.set(0xFF0F, v | 0x8);
    }

    /// Requests the input interrupt
    pub fn set_input_interrupt_bit(&mut self)
        requires
            old(self).wf(),
        ensures
            final(self).wf(),
            final(self)@ == old(self)@.poke(0xFF0F, (old(self)@.mem[0xFF0F] | 0x10) as u8),
            final(self).event_logger == old(self).event_logger,
    {
        let v = self.mem[0xFF0F];
        self.mem.set(0xFF0F, v | 0x10);
    }

    pub fn unset_vblank_interrupt_bit(&mut self)
        requires
            old(self).wf(),
        ensures
            final(self).wf(),
            final(self)@ == old(self)@.poke(0xFF0F, (old(self)@.mem[0xFF0F] & !0x1u8) as u8),
            final(self).event_logger == old(self).event_logger,
    {
        let v = self.mem[0xFF0F];
        self.mem.set(0xFF0F, v & !0x1u8);
    }

    pub fn unset_lcdc_interrupt_bit(&mut self)
        requires
            old(self).wf(),
        ensures
            final(self).wf(),
            final(self)@ == old(self)@.poke(0xFF0F, (old(self)@.mem[0xFF0F] & !0x2u8) as u8),
            final(self).event_logger == old(self).event_logger,
    {
        let v = self.mem[0xFF0F];
        self.mem.set(0xFF0F, v & !0x2u8);
    }

    pub fn unset_timer_interrupt_bit(&mut self)
        requires
            old(self).wf(),
        ensures
            final(self).wf(),
            final(self)@ == old(self)@.poke(0xFF0F, (old(self)@.mem[0xFF0F] & !0x4u8) as u8),
            final(self).event_logger == old(self).event_logger,
    {
        let v = self.mem[0xFF0F];
        self.mem.set(0xFF0F, v & !0x4u8);
    }

    pub fn unset_serial_io_interrupt_bit(&mut self)
        requires
            old(self).wf(),
        ensures
            final(self).wf(),
            final(self)@ == old(self)@.poke(0xFF0F, (old(self)@.mem[0xFF0F] & !0x8u8) as u8),
            final(self).event_logger == old(self).event_logger,
    {
        let v = self.mem[0xFF0F];
        self.mem.set(0xFF0F, v & !0x8u8);
    }

    pub fn unset_input_interrupt_bit(&mut self)
        requires
            old(self).wf(),
        ensures
            final(self).wf(),
            final(self)@ == old(self)@.poke(0xFF0F, (old(self)@.mem[0xFF0F] & !0x10u8) as u8),
            final(self).event_logger == old(self).event_logger,
    {
        let v = self.mem[0xFF0F];
        self.mem.set(0xFF0F, v & !0x10u8);
    }

    /// Whether the vblank interrupt is requested
    pub fn get_vblank_interrupt_bit(&self) -> (r: bool)
        requires
            self.wf(),
        ensures
            r == (self@.mem[0xFF0F] & 0x1 == 0x1),
    {
        self.mem[0xFF0F] & 0x1 == 0x1
    }

    /// Whether the lcdc interrupt is requested
    pub fn get_lcdc_interrupt_bit(&self) -> (r: bool)
        requires
            self.wf(),
        ensures
            r == (self@.mem[0xFF0F] & 0x2 == 0x2),
    {
        self.mem[0xFF0F] & 0x2 == 0x2
    }

    /// Whether the timer interrupt is requested
    pub fn get_timer_interrupt_bit(&self) -> (r: bool)
        requires
            self.wf(),
        ensures
            r == (self@.mem[0xFF0F] & 0x4 == 0x4),
    {
        self.mem[0xFF0F] & 0x4 == 0x4
    }

    /// Whether the serial_io interrupt is requested
    pub fn get_serial_io_interrupt_bit(&self) -> (r: bool)
        requires
            self.wf(),
        ensures
            r == (self@.mem[0xFF0F] & 0x8 == 0x8),
    {
        self.mem[0xFF0F] & 0x8 == 0x8
    }

    /// Whether the input interrupt is requested
    pub fn get_input_interrupt_bit(&self) -> (r: bool)
        requires
            self.wf(),
        ensures
            r == (self@.mem[0xFF0F] & 0x10 == 0x10),
    {
        self.mem[0xFF0F] & 0x10 == 0x10
    }

    pub fn set_sound1(&mut self)
        requires
            old(self).wf(),
        ensures
            final(self).wf(),
            final(self)@ == old(self)@.poke(0xFF26, (old(self)@.mem[0xFF26] | 0x1) as u8),
            final(self).event_logger == old(self).event_logger,
    {
        let v = self.mem[0xFF26];
        self.mem.set(0xFF26, v | 0x1);
    }

    pub fn set_sound2(&mut self)
        requires
            old(self).wf(),
        ensures
            final(self).wf(),
            final(self)@ == old(self)@.poke(0xFF26, (old(self)@.mem[0xFF26] | 0x2) as u8),
            final(self).event_logger == old(self).event_logger,
    {
        let v = self.mem[0xFF26];
        self.mem.set(0xFF26, v | 0x2);
    }

    pub fn set_sound3(&mut self)
        requires
            old(self).wf(),
        ensures
            final(self).wf(),
            final(self)@ == old(self)@.poke(0xFF26, (old(self)@.mem[0xFF26] | 0x4) as u8),
            final(self).event_logger == old(self).event_logger,
    {
        let v = self.mem[0xFF26];
        self.mem.set(0xFF26, v | 0x4);
    }

    pub fn set_sound4(&mut self)
        requires
            old(self).wf(),
        ensures
            final(self).wf(),
            final(self)@ == old(self)@.poke(0xFF26, (old(self)@.mem[0xFF26] | 0x8) as u8),
            final(self).event_logger == old(self).event_logger,
    {
        let v = self.mem[0xFF26];
        self.mem.set(0xFF26, v | 0x8);
    }

    pub fn set_sound_all(&mut self)
        requires
            old(self).wf(),
        ensures
            final(self).wf(),
            final(self)@ == old(self)@.poke(0xFF26, (old(self)@.mem[0xFF26] | 0x80) as u8),
            final(self).event_logger == old(self).event_logger,
    {
        let v = self.mem[0xFF26];
        self.mem.set(0xFF26, v | 0x80);
    }

    pub fn get_sound1(&self) -> (r: bool)
        requires
            self.wf(),
        ensures
            r == (self@.mem[0xFF26] & 0x1 == 0x1),
    {
        self.mem[0xFF26] & 0x1 == 0x1
    }

    pub fn get_sound2(&self) -> (r: bool)
        requires
            self.wf(),
        ensures
            r == (self@.mem[0xFF26] & 0x2 == 0x2),
    {
        self.mem[0xFF26] & 0x2 == 0x2
    }

    pub fn get_sound3(&self) -> (r: bool)
        requires
            self.wf(),
        ensures
            r == (self@.mem[0xFF26] & 0x4 == 0x4),
    {
        self.mem[0xFF26] & 0x4 == 0x4
    }

    pub fn get_sound4(&self) -> (r: bool)
        requires
            self.wf(),
        ensures
            r == (self@.mem[0xFF26] & 0x8 == 0x8),
    {
        self.mem[0xFF26] & 0x8 == 0x8
    }

    pub fn get_sound_all(&self) -> (r: bool)
        requires
            self.wf(),
        ensures
            r == (self@.mem[0xFF26] & 0x80 == 0x80),
    {
        self.mem[0xFF26] & 0x80 == 0x80
    }

    /// Enables the vblank interrupt
    pub fn set_vblank_interrupt_enabled(&mut self)
        requires
            old(self).wf(),
        ensures
            final(self).wf(),
            final(self)@ == old(self)@.poke(0xFFFF, (old(self)@.mem[0xFFFF] | 0x1) as u8),
            final(self).event_logger == old(self).event_logger,
    {
        let v = self.mem[0xFFFF];
        self.mem.set(0xFFFF, v | 0x1);
    }

    /// Enables the lcdc interrupt
    pub fn set_lcdc_interrupt_enabled(&mut self)
        requires
            old(self).wf(),
        ensures
            final(self).wf(),
            final(self)@ == old(self)@.poke(0xFFFF, (old(self)@.mem[0xFFFF] | 0x2) as u8),
            final(self).event_logger == old(self).event_logger,
    {
        let v = self.mem[0xFFFF];
        self.mem.set(0xFFFF, v | 0x2);
    }

    /// Enables the timer interrupt
    pub fn set_timer_interrupt_enabled(&mut self)
        requires
            old(self).wf(),
        ensures
            final(self).wf(),
            final(self)@ == old(self)@.poke(0xFFFF, (old(self)@.mem[0xFFFF] | 0x4) as u8),
            final(self).event_logger == old(self).event_logger,
    {
        let v = self.mem[0xFFFF];
        self.mem.set(0xFFFF, v | 0x4);
    }

    /// Enables the serial_io interrupt
    pub fn set_serial_io_interrupt_enabled(&mut self)
        requires
            old(self).wf(),
        ensures
            final(self).wf(),
            final(self)@ == old(self)@.poke(0xFFFF, (old(self)@.mem[0xFFFF] | 0x8) as u8),
            final(self).event_logger == old(self).event_logger,
    {
        let v = self.mem[0xFFFF];
        self.mem.set(0xFFFF, v | 0x8);
    }

    /// Enables the input interrupt
    pub fn set_input_interrupt_enabled(&mut self)
        requires
            old(self).wf(),
        ensures
            final(self).wf(),
            final(self)@ == old(self)@.poke(0xFFFF, (old(self)@.mem[0xFFFF] | 0x10) as u8),
            final(self).event_logger == old(self).event_logger,
    {
        let v = self.mem[0xFFFF];
        self.mem.set(0xFFFF, v | 0x10);
    }

    pub fn unset_vblank_interrupt_enabled(&mut self)
        requires
            old(self).wf(),
        ensures
            final(self).wf(),
            final(self)@ == old(self)@.poke(0xFFFF, (old(self)@.mem[0xFFFF] & !0x1u8) as u8),
            final(self).event_logger == old(self).event_logger,
    {
        let v = self.mem[0xFFFF];
        self.mem.set(0xFFFF, v & !0x1u8);
    }

    pub fn unset_lcdc_interrupt_enabled(&mut self)
        requires
            old(self).wf(),
        ensures
            final(self).wf(),
            final(self)@ == old(self)@.poke(0xFFFF, (old(self)@.mem[0xFFFF] & !0x2u8) as u8),
            final(self).event_logger == old(self).event_logger,
    {
        let v = self.mem[0xFFFF];
        self.mem.set(0xFFFF, v & !0x2u8);
    }

    pub fn unset_timer_interrupt_enabled(&mut self)
        requires
            old(self).wf(),
        ensures
            final(self).wf(),
            final(self)@ == old(self)@.poke(0xFFFF, (old(self)@.mem[0xFFFF] & !0x4u8) as u8),
            final(self).event_logger == old(self).event_logger,
    {
        let v = self.mem[0xFFFF];
        self.mem.set(0xFFFF, v & !0x4u8);
    }

    pub fn unset_serial_io_interrupt_enabled(&mut self)
        requires
            old(self).wf(),
        ensures
            final(self).wf(),
            final(self)@ == old(self)@.poke(0xFFFF, (old(self)@.mem[0xFFFF] & !0x8u8) as u8),
            final(self).event_logger == old(self).event_logger,
    {
        let v = self.mem[0xFFFF];
        self.mem.set(0xFFFF, v & !0x8u8);
    }

    pub fn unset_input_interrupt_enabled(&mut self)
        requires
            old(self).wf(),
        ensures
            final(self).wf(),
            final(self)@ == old(self)@.poke(0xFFFF, (old(self)@.mem[0xFFFF] & !0x10u8) as u8),
            final(self).event_logger == old(self).event_logger,
    {
        let v = self.mem[0xFFFF];
        self.mem.set(0xFFFF, v & !0x10u8);
    }

    pub fn unset_interrupts_enabled(&mut self)
        requires
            old(self).wf(),
        ensures
            final(self).wf(),
            final(self)@ == old(self)@.poke(0xFFFF, (old(self)@.mem[0xFFFF] & !0x1fu8) as u8),
            final(self).event_logger == old(self).event_logger,
    {
        let v = self.mem[0xFFFF];
        self.mem.set(0xFFFF, v & !0x1fu8);
    }

    pub fn get_vblank_interrupt_enabled(&self) -> (r: bool)
        requires
            self.wf(),
        ensures
            r == (self@.mem[0xFFFF] & 0x1 == 0x1),
    {
        self.mem[0xFFFF] & 0x1 == 0x1
    }

    pub fn get_lcdc_interrupt_enabled(&self) -> (r: bool)
        requires
            self.wf(),
        ensures
            r == (self@.mem[0xFFFF] & 0x2 == 0x2),
    {
        self.mem[0xFFFF] & 0x2 == 0x2
    }

    pub fn get_timer_interrupt_enabled(&self) -> (r: bool)
        requires
            self.wf(),
        ensures
            r == (self@.mem[0xFFFF] & 0x4 == 0x4),
    {
        self.mem[0xFFFF] & 0x4 == 0x4
    }

    pub fn get_serial_io_interrupt_enabled(&self) -> (r: bool)
        requires
            self.wf(),
        ensures
            r == (self@.mem[0xFFFF] & 0x8 == 0x8),
    {
        self.mem[0xFFFF] & 0x8 == 0x8
    }

    pub fn get_input_interrupt_enabled(&self) -> (r: bool)
        requires
            self.wf(),
        ensures
            r == (self@.mem[0xFFFF] & 0x10 == 0x10),
    {
        self.mem[0xFFFF] & 0x10 == 0x10
    }

    pub fn set_coincidence_interrupt(&mut self)
        requires
            old(self).wf(),
        ensures
            final(self).wf(),
            final(self)@ == old(self)@.poke(0xFF41, (old(self)@.mem[0xFF41] | 0x40) as u8),
            final(self).event_logger == old(self).event_logger,
    {
        let v = self.mem[0xFF41];
        self.mem.set(0xFF41, v | 0x40);
    }

    pub fn unset_coincidence_interrupt(&mut self)
        requires
            old(self).wf(),
        ensures
            final(self).wf(),
            final(self)@ == old(self)@.poke(0xFF41, (old(self)@.mem[0xFF41] & !0x40u8) as u8),
            final(self).event_logger == old(self).event_logger,
    {
        let v = self.mem[0xFF41];
        self.mem.set(0xFF41, v & !0x40u8);
    }

    pub fn get_coincidence_interrupt(&self) -> (r: bool)
        requires
            self.wf(),
        ensures
            r == (self@.mem[0xFF41] & 0x40 == 0x40),
    {
        self.mem[0xFF41] & 0x40 == 0x40
    }

    pub fn set_oam_interrupt(&mut self)
        requires
            old(self).wf(),
        ensures
            final(self).wf(),
            final(self)@ == old(self)@.poke(0xFF41, (old(self)@.mem[0xFF41] | 0x20) as u8),
            final(self).event_logger == old(self).event_logger,
    {
        let v = self.mem[0xFF41];
        self.mem.set(0xFF41, v | 0x20);
    }

    pub fn unset_oam_interrupt(&mut self)
        requires
            old(self).wf(),
        ensures
            final(self).wf(),
            final(self)@ == old(self)@.poke(0xFF41, (old(self)@.mem[0xFF41] & !0x20u8) as u8),
            final(self).event_logger == old(self).event_logger,
    {
        let v = self.mem[0xFF41];
        self.mem.set(0xFF41, v & !0x20u8);
    }

    pub fn get_oam_interrupt(&self) -> (r: bool)
        requires
            self.wf(),
        ensures
            r == (self@.mem[0xFF41] & 0x20 == 0x20),
    {
        self.mem[0xFF41] & 0x20 == 0x20
    }

    pub fn set_vblank_interrupt_stat(&mut self)
        requires
            old(self).wf(),
        ensures
            final(self).wf(),
            final(self)@ == old(self)@.poke(0xFF41, (old(self)@.mem[0xFF41] | 0x10) as u8),
            final(self).event_logger == old(self).event_logger,
    {
        let v = self.mem[0xFF41];
        self.mem.set(0xFF41, v | 0x10);
    }

    pub fn unset_vblank_interrupt_stat(&mut self)
        requires
            old(self).wf(),
        ensures
            final(self).wf(),
            final(self)@ == old(self)@.poke(0xFF41, (old(self)@.mem[0xFF41] & !0x10u8) as u8),
            final(self).event_logger == old(self).event_logger,
    {
        let v = self.mem[0xFF41];
        self.mem.set(0xFF41, v & !0x10u8);
    }

    pub fn get_vblank_interrupt_stat(&self) -> (r: bool)
        requires
            self.wf(),
        ensures
            r == (self@.mem[0xFF41] & 0x10 == 0x10),
    {
        self.mem[0xFF41] & 0x10 == 0x10
    }

    pub fn set_hblank_interrupt(&mut self)
        requires
            old(self).wf(),
        ensures
            final(self).wf(),
            final(self)@ == old(self)@.poke(0xFF41, (old(self)@.mem[0xFF41] | 0x8) as u8),
            final(self).event_logger == old(self).event_logger,
    {
        let v = self.mem[0xFF41];
        self.mem.set(0xFF41, v | 0x8);
    }

    pub fn unset_hblank_interrupt(&mut self)
        requires
            old(self).wf(),
        ensures
            final(self).wf(),
            final(self)@ == old(self)@.poke(0xFF41, (old(self)@.mem[0xFF41] & !0x8u8) as u8),
            final(self).event_logger == old(self).event_logger,
    {
        let v = self.mem[0xFF41];
        self.mem.set(0xFF41, v & !0x8u8);
    }

    pub fn get_hblank_interrupt(&self) -> (r: bool)
        requires
            self.wf(),
        ensures
            r == (self@.mem[0xFF41] & 0x8 == 0x8),
    {
        self.mem[0xFF41] & 0x8 == 0x8
    }

    pub fn set_coincidence_flag(&mut self)
        requires
            old(self).wf(),
        ensures
            final(self).wf(),
            final(self)@ == old(self)@.poke(0xFF41, (old(self)@.mem[0xFF41] | 0x4) as u8),
            final(self).event_logger == old(self).event_logger,
    {
        let v = self.mem[0xFF41];
        self.mem.set(0xFF41, v | 0x4);
    }

    pub fn unset_coincidence_flag(&mut self)
        requires
            old(self).wf(),
        ensures
            final(self).wf(),
            final(self)@ == old(self)@.poke(0xFF41, (old(self)@.mem[0xFF41] & !0x4u8) as u8),
            final(self).event_logger == old(self).event_logger,
    {
        let v = self.mem[0xFF41];
        self.mem.set(0xFF41, v & !0x4u8);
    }

    pub fn get_coincidence_flag(&self) -> (r: bool)
        requires
            self.wf(),
        ensures
            r == (self@.mem[0xFF41] & 0x4 == 0x4),
    {
        self.mem[0xFF41] & 0x4 == 0x4
    }

    /// Turns sound channel 1 off and clears its frequency low byte
    pub fn unset_sound1(&mut self)
        requires
            old(self).wf(),
        ensures
            final(self).wf(),
            final(self)@ == old(self)@.poke(0xFF26, (old(self)@.mem[0xFF26] & !1u8) as u8).poke(0xFF13, 0),
            final(self).event_logger == old(self).event_logger,
    {
        let v = self.mem[0xFF26];
        self.mem.set(0xFF26, v & !1u8);
        self.mem.set(0xFF13, 0);
    }

    /// Turns sound channel 2 off
    pub fn unset_sound2(&mut self)
        requires
            old(self).wf(),
        ensures
            final(self).wf(),
            final(self)@ == old(self)@.poke(0xFF26, (old(self)@.mem[0xFF26] & !2u8) as u8),
            final(self).event_logger == old(self).event_logger,
    {
        let v = self.mem[0xFF26];
        self.mem.set(0xFF26, v & !2u8);
    }

    /// Turns sound channel 3 off
    pub fn unset_sound3(&mut self)
        requires
            old(self).wf(),
        ensures
            final(self).wf(),
            final(self)@ == old(self)@.poke(0xFF26, (old(self)@.mem[0xFF26] & !4u8) as u8),
            final(self).event_logger == old(self).event_logger,
    {
        let v = self.mem[0xFF26];
        self.mem.set(0xFF26, v & !4u8);
    }

    /// Turns sound channel 4 off
    pub fn unset_sound4(&mut self)
        requires
            old(self).wf(),
        ensures
            final(self).wf(),
            final(self)@ == old(self)@.poke(0xFF26, (old(self)@.mem[0xFF26] & !8u8) as u8),
            final(self).event_logger == old(self).event_logger,
    {
        let v = self.mem[0xFF26];
        self.mem.set(0xFF26, v & !8u8);
    }

    pub fn lcdc_bg_win_display(&self) -> (r: bool)
        requires
            self.wf(),
        ensures
            r == ((self@.mem[0xFF40] >> 0u8) & 1 == 1),
    {
        (self.mem[0xFF40] >> 0) & 1 == 1
    }

    pub fn lcdc_sprite_display(&self) -> (r: bool)
        requires
            self.wf(),
        ensures
            r == ((self@.mem[0xFF40] >> 1u8) & 1 == 1),
    {
        (self.mem[0xFF40] >> 1) & 1 == 1
    }

    pub fn lcdc_sprite_size(&self) -> (r: bool)
        requires
            self.wf(),
        ensures
            r == ((self@.mem[0xFF40] >> 2u8) & 1 == 1),
    {
        (self.mem[0xFF40] >> 2) & 1 == 1
    }

    pub fn lcdc_bg_tile_map(&self) -> (r: bool)
        requires
            self.wf(),
        ensures
            r == ((self@.mem[0xFF40] >> 3u8) & 1 == 1),
    {
        (self.mem[0xFF40] >> 3) & 1 == 1
    }

    pub fn lcdc_bg_win_tile_data(&self) -> (r: bool)
        requires
            self.wf(),
        ensures
            r == ((self@.mem[0xFF40] >> 4u8) & 1 == 1),
    {
        (self.mem[0xFF40] >> 4) & 1 == 1
    }

    pub fn lcdc_window_on(&self) -> (r: bool)
        requires
            self.wf(),
        ensures
            r == ((self@.mem[0xFF40] >> 5u8) & 1 == 1),
    {
        (self.mem[0xFF40] >> 5) & 1 == 1
    }

    pub fn lcdc_tile_map(&self) -> (r: bool)
        requires
            self.wf(),
        ensures
            r == ((self@.mem[0xFF40] >> 6u8) & 1 == 1),
    {
        (self.mem[0xFF40] >> 6) & 1 == 1
    }

    pub fn lcdc_on(&self) -> (r: bool)
        requires
            self.wf(),
        ensures
            r == ((self@.mem[0xFF40] >> 7u8) & 1 == 1),
    {
        (self.mem[0xFF40] >> 7) & 1 == 1
    }

    pub fn scy(&self) -> (r: u8)
        requires
            self.wf(),
        ensures
            r == self@.mem[0xFF42],
    {
        self.mem[0xFF42]
    }

    pub fn scx(&self) -> (r: u8)
        requires
            self.wf(),
        ensures
            r == self@.mem[0xFF43],
    {
        self.mem[0xFF43]
    }

    pub fn ly(&self) -> (r: u8)
        requires
            self.wf(),
        ensures
            r == self@.mem[0xFF44],
    {
        self.mem[0xFF44]
    }

    pub fn lyc(&self) -> (r: u8)
        requires
            self.wf(),
        ensures
            r == self@.mem[0xFF45],
    {
        self.mem[0xFF45]
    }

    pub fn wy(&self) -> (r: u8)
        requires
            self.wf(),
        ensures
            r == self@.mem[0xFF4A],
    {
        self.mem[0xFF4A]
    }

    pub fn wx(&self) -> (r: u8)
        requires
            self.wf(),
        ensures
            r == self@.mem[0xFF4B],
    {
        self.mem[0xFF4B]
    }

    /// The game's title from the cartridge header (0x134..0x144), its zero
    /// bytes left out; "Illegally named game" when the rest is no UTF-8
    pub fn get_game_name(&self) -> (r: String)
        requires
            self.wf(),
        ensures
            r@ == game_name(self@.mem.subrange(0x134, 0x144)),
    {
        let mut name_data: Vec<u8> = Vec::new();
        let mut i: usize = 0;
        while i < 16
            invariant
                self.wf(),
                i <= 16,
                name_data@ == nonzero_bytes(self@.mem.subrange(0x134, 0x134 + i)),
            decreases 16 - i,
        {
            proof {
                assert(self@.mem.subrange(0x134, 0x134 + i + 1).drop_last() =~= self@.mem.subrange(
                    0x134,
                    0x134 + i,
                ));
            }
            if self.mem[0x134 + i] != 0 {
                name_data.push(self.mem[0x134 + i]);
            }
            i = i + 1;
        }
        match utf8_decode(name_data) {
            Some(s) => s,
            None => String::from_str("Illegally named game"),
        }
    }

    /// A row of the background tile list, from the tile's data byte `v`:
    /// sixteen groups of writes of its four bit pairs
    fn tile_row(v: u8) -> (row: [u8; 64])
        ensures
            forall|idx: int| 0 <= idx < 64 ==> #[trigger] row@[idx] == tile_written(v, idx, 15, 4),
    {
        let mut row = [0u8; 64];
        let mut i: usize = 0;
        while i < 16
            invariant
                i <= 16,
                forall|idx: int|
                    0 <= idx < 64 ==> #[trigger] row@[idx] == tile_written(v, idx, i as nat, 0),
            decreases 16 - i,
        {
            let mut k: usize = 0;
            while k < 4
                invariant
                    i < 16,
                    k <= 4,
                    forall|idx: int|
                        0 <= idx < 64 ==> #[trigger] row@[idx] == tile_written(v, idx, i as nat, k as nat),
                decreases 4 - k,
            {
                let sh: u8 = (k as u8) * 2;
                assert(i * (k + 1) < 64) by (nonlinear_arith)
                    requires
                        i < 16,
                        k < 4,
                ;
                row[i * (k + 1)] = (v >> sh) & 0x3;
                k = k + 1;
            }
            i = i + 1;
        }
        row
    }

    /// The background tiles as 2-bit values, one row for each of the 1024
    /// entries of the tile map (at 0x8000 when LCDC bit 3 is set, else at
    /// 0x9000); a row is made from the byte of tile data (at 0x9C00 when
    /// LCDC bit 4 is set, else at 0x9800) at 0x40 times the entry
    pub fn get_background_tiles(&self) -> (tiles: [[u8; 64]; 1024])
        requires
            self.wf(),
        ensures
            forall|j: int, idx: int|
                0 <= j < 1024 && 0 <= idx < 64 ==> #[trigger] tiles@[j]@[idx] == tile_written(
                    self@.mem[bg_data_base(self@.mem[0xFF40]) + self@.mem[bg_map_base(
                        self@.mem[0xFF40],
                    ) + j] * 0x40],
                    idx,
                    15,
                    4,
                ),
    {
        let mut tiles = [[0u8; 64]; 1024];
        let tile_map_base_addr: usize = if self.lcdc_bg_tile_map() {
            0x8000
        } else {
            0x9000
        };
        let tile_data_base_addr: u16 = if self.lcdc_bg_win_tile_data() {
            0x9C00
        } else {
            0x9800
        };
        let mut j: usize = 0;
        while j < 1024
            invariant
                self.wf(),
                j <= 1024,
                tile_map_base_addr == bg_map_base(self@.mem[0xFF40]),
                tile_data_base_addr == bg_data_base(self@.mem[0xFF40]),
                forall|jj: int, idx: int|
                    0 <= jj < j && 0 <= idx < 64 ==> #[trigger] tiles@[jj]@[idx] == tile_written(
                        self@.mem[bg_data_base(self@.mem[0xFF40]) + self@.mem[bg_map_base(
                            self@.mem[0xFF40],
                        ) + jj] * 0x40],
                        idx,
                        15,
                        4,
                    ),
            decreases 1024 - j,
        {
            let tile_pointer = self.mem[tile_map_base_addr + j];
            let v = self.mem[(tile_data_base_addr + (tile_pointer as u16) * 0x40) as usize];
            tiles[j] = Self::tile_row(v);
            j = j + 1;
        }
        tiles
    }

    pub fn get_cartridge_type(&self) -> (r: u8)
        requires
            self.wf(),
        ensures
            r == self@.mem[0x147],
    {
        self.mem[0x147]
    }

    /// The four two-bit shades of the palette, lowest bits first
    pub fn bgp(&self) -> (r: (u8, u8, u8, u8))
        requires
            self.wf(),
        ensures
            r == palette_shades(self@.mem[0xFF47]),
    {
        let p = self.mem[0xFF47];
        let v4 = (p >> 6) & 0x3;
        let v3 = (p >> 4) & 0x3;
        let v2 = (p >> 2) & 0x3;
        let v1 = p & 0x3;
        (v1, v2, v3, v4)
    }

    /// The four two-bit shades of the palette, lowest bits first
    pub fn obp0(&self) -> (r: (u8, u8, u8, u8))
        requires
            self.wf(),
        ensures
            r == palette_shades(self@.mem[0xFF48]),
    {
        let p = self.mem[0xFF48];
        let v4 = (p >> 6) & 0x3;
        let v3 = (p >> 4) & 0x3;
        let v2 = (p >> 2) & 0x3;
        let v1 = p & 0x3;
        (v1, v2, v3, v4)
    }

    /// The four two-bit shades of the palette, lowest bits first
    pub fn obp1(&self) -> (r: (u8, u8, u8, u8))
        requires
            self.wf(),
        ensures
            r == palette_shades(self@.mem[0xFF49]),
    {
        let p = self.mem[0xFF49];
        let v4 = (p >> 6) & 0x3;
        let v3 = (p >> 4) & 0x3;
        let v2 = (p >> 2) & 0x3;
        let v1 = p & 0x3;
        (v1, v2, v3, v4)
    }

    /// Presses the start button: its input bit goes low, a stopped CPU
    /// resumes, and the input interrupt is requested
    pub fn press_start(&mut self)
        requires
            old(self).wf(),
        ensures
            final(self).wf(),
            final(self)@ == (CpuView {
                input_state: old(self).input_state & !0x80u8,
                state: if old(self).state == CpuState::Stop { CpuState::Normal } else { old(self).state },
                ..old(self)@
            }).poke(0xFF0F, (old(self)@.mem[0xFF0F] | 0x10) as u8),
            final(self).event_logger == old(self).event_logger,
    {
        let old_val = self.input_state;
        self.input_state = old_val & !0x80u8;
        if self.state == CpuState::Stop {
            self.state = CpuState::Normal;
        }
        self.set_input_interrupt_bit();
    }

    /// Releases the start button: its input bit goes high
    pub fn unpress_start(&mut self)
        ensures
            final(self)@ == (CpuView { input_state: old(self).input_state | 0x80u8, ..old(self)@ }),
            final(self).mem == old(self).mem,
            final(self).event_logger == old(self).event_logger,
    {
        let old_val = self.input_state;
        self.input_state = old_val | 0x80u8;
    }

    /// Presses the select button: its input bit goes low, a stopped CPU
    /// resumes, and the input interrupt is requested
    pub fn press_select(&mut self)
        requires
            old(self).wf(),
        ensures
            final(self).wf(),
            final(self)@ == (CpuView {
                input_state: old(self).input_state & !0x40u8,
                state: if old(self).state == CpuState::Stop { CpuState::Normal } else { old(self).state },
                ..old(self)@
            }).poke(0xFF0F, (old(self)@.mem[0xFF0F] | 0x10) as u8),
            final(self).event_logger == old(self).event_logger,
    {
        let old_val = self.input_state;
        self.input_state = old_val & !0x40u8;
        if self.state == CpuState::Stop {
            self.state = CpuState::Normal;
        }
        self.set_input_interrupt_bit();
    }

    /// Releases the select button: its input bit goes high
    pub fn unpress_select(&mut self)
        ensures
            final(self)@ == (CpuView { input_state: old(self).input_state | 0x40u8, ..old(self)@ }),
            final(self).mem == old(self).mem,
            final(self).event_logger == old(self).event_logger,
    {
        let old_val = self.input_state;
        self.input_state = old_val | 0x40u8;
    }

    /// Presses the b button: its input bit goes low, a stopped CPU
    /// resumes, and the input interrupt is requested
    pub fn press_b(&mut self)
        requires
            old(self).wf(),
        ensures
            final(self).wf(),
            final(self)@ == (CpuView {
                input_state: old(self).input_state & !0x20u8,
                state: if old(self).state == CpuState::Stop { CpuState::Normal } else { old(self).state },
                ..old(self)@
            }).poke(0xFF0F, (old(self)@.mem[0xFF0F] | 0x10) as u8),
            final(self).event_logger == old(self).event_logger,
    {
        let old_val = self.input_state;
        self.input_state = old_val & !0x20u8;
        if self.state == CpuState::Stop {
            self.state = CpuState::Normal;
        }
        self.set_input_interrupt_bit();
    }

    /// Releases the b button: its input bit goes high
    pub fn unpress_b(&mut self)
        ensures
            final(self)@ == (CpuView { input_state: old(self).input_state | 0x20u8, ..old(self)@ }),
            final(self).mem == old(self).mem,
            final(self).event_logger == old(self).event_logger,
    {
        let old_val = self.input_state;
        self.input_state = old_val | 0x20u8;
    }

    /// Presses the a button: its input bit goes low, a stopped CPU
    /// resumes, and the input interrupt is requested
    pub fn press_a(&mut self)
        requires
            old(self).wf(),
        ensures
            final(self).wf(),
            final(self)@ == (CpuView {
                input_state: old(self).input_state & !0x10u8,
                state: if old(self).state == CpuState::Stop { CpuState::Normal } else { old(self).state },
                ..old(self)@
            }).poke(0xFF0F, (old(self)@.mem[0xFF0F] | 0x10) as u8),
            final(self).event_logger == old(self).event_logger,
    {
        let old_val = self.input_state;
        self.input_state = old_val & !0x10u8;
        if self.state == CpuState::Stop {
            self.state = CpuState::Normal;
        }
        self.set_input_interrupt_bit();
    }

    /// Releases the a button: its input bit goes high
    pub fn unpress_a(&mut self)
        ensures
            final(self)@ == (CpuView { input_state: old(self).input_state | 0x10u8, ..old(self)@ }),
            final(self).mem == old(self).mem,
            final(self).event_logger == old(self).event_logger,
    {
        let old_val = self.input_state;
        self.input_state = old_val | 0x10u8;
    }

    /// Presses the down button: its input bit goes low, a stopped CPU
    /// resumes, and the input interrupt is requested
    pub fn press_down(&mut self)
        requires
            old(self).wf(),
        ensures
            final(self).wf(),
            final(self)@ == (CpuView {
                input_state: old(self).input_state & !0x8u8,
                state: if old(self).state == CpuState::Stop { CpuState::Normal } else { old(self).state },
                ..old(self)@
            }).poke(0xFF0F, (old(self)@.mem[0xFF0F] | 0x10) as u8),
            final(self).event_logger == old(self).event_logger,
    {
        let old_val = self.input_state;
        self.input_state = old_val & !0x8u8;
        if self.state == CpuState::Stop {
            self.state = CpuState::Normal;
        }
        self.set_input_interrupt_bit();
    }

    /// Releases the down button: its input bit goes high
    pub fn unpress_down(&mut self)
        ensures
            final(self)@ == (CpuView { input_state: old(self).input_state | 0x8u8, ..old(self)@ }),
            final(self).mem == old(self).mem,
            final(self).event_logger == old(self).event_logger,
    {
        let old_val = self.input_state;
        self.input_state = old_val | 0x8u8;
    }

    /// Presses the up button: its input bit goes low, a stopped CPU
    /// resumes, and the input interrupt is requested
    pub fn press_up(&mut self)
        requires
            old(self).wf(),
        ensures
            final(self).wf(),
            final(self)@ == (CpuView {
                input_state: old(self).input_state & !0x4u8,
                state: if old(self).state == CpuState::Stop { CpuState::Normal } else { old(self).state },
                ..old(self)@
            }).poke(0xFF0F, (old(self)@.mem[0xFF0F] | 0x10) as u8),
            final(self).event_logger == old(self).event_logger,
    {
        let old_val = self.input_state;
        self.input_state = old_val & !0x4u8;
        if self.state == CpuState::Stop {
            self.state = CpuState::Normal;
        }
        self.set_input_interrupt_bit();
    }

    /// Releases the up button: its input bit goes high
    pub fn unpress_up(&mut self)
        ensures
            final(self)@ == (CpuView { input_state: old(self).input_state | 0x4u8, ..old(self)@ }),
            final(self).mem == old(self).mem,
            final(self).event_logger == old(self).event_logger,
    {
        let old_val = self.input_state;
        self.input_state = old_val | 0x4u8;
    }

    /// Presses the left button: its input bit goes low, a stopped CPU
    /// resumes, and the input interrupt is requested
    pub fn press_left(&mut self)
        requires
            old(self).wf(),
        ensures
            final(self).wf(),
            final(self)@ == (CpuView {
                input_state: old(self).input_state & !0x2u8,
                state: if old(self).state == CpuState::Stop { CpuState::Normal } else { old(self).state },
                ..old(self)@
            }).poke(0xFF0F, (old(self)@.mem[0xFF0F] | 0x10) as u8),
            final(self).event_logger == old(self).event_logger,
    {
        let old_val = self.input_state;
        self.input_state = old_val & !0x2u8;
        if self.state == CpuState::Stop {
            self.state = CpuState::Normal;
        }
        self.set_input_interrupt_bit();
    }

    /// Releases the left button: its input bit goes high
    pub fn unpress_left(&mut self)
        ensures
            final(self)@ == (CpuView { input_state: old(self).input_state | 0x2u8, ..old(self)@ }),
            final(self).mem == old(self).mem,
            final(self).event_logger == old(self).event_logger,
    {
        let old_val = self.input_state;
        self.input_state = old_val | 0x2u8;
    }

    /// Presses the right button: its input bit goes low, a stopped CPU
    /// resumes, and the input interrupt is requested
    pub fn press_right(&mut self)
        requires
            old(self).wf(),
        ensures
            final(self).wf(),
            final(self)@ == (CpuView {
                input_state: old(self).input_state & !0x1u8,
                state: if old(self).state == CpuState::Stop { CpuState::Normal } else { old(self).state },
                ..old(self)@
            }).poke(0xFF0F, (old(self)@.mem[0xFF0F] | 0x10) as u8),
            final(self).event_logger == old(self).event_logger,
    {
        let old_val = self.input_state;
        self.input_state = old_val & !0x1u8;
        if self.state == CpuState::Stop {
            self.state = CpuState::Normal;
        }
        self.set_input_interrupt_bit();
    }

    /// Releases the right button: its input bit goes high
    pub fn unpress_right(&mut self)
        ensures
            final(self)@ == (CpuView { input_state: old(self).input_state | 0x1u8, ..old(self)@ }),
            final(self).mem == old(self).mem,
            final(self).event_logger == old(self).event_logger,
    {
        let old_val = self.input_state;
        self.input_state = old_val | 0x1u8;
    }

    pub fn channel1_sweep_increase(&self) -> (r: bool)
        requires
            self.wf(),
        ensures
            r == (((self@.mem[0xFF10] >> 3u8) & 1) == 0),
    {
        ((self.mem[0xFF10] >> 3) & 1) == 0
    }

    pub fn channel1_sweep_shift(&self) -> (r: u8)
        requires
            self.wf(),
        ensures
            r == self@.mem[0xFF10] & 0x7,
    {
        self.mem[0xFF10] & 0x7
    }

    pub fn channel1_sound_length(&self) -> (r: u8)
        requires
            self.wf(),
        ensures
            r == self@.mem[0xFF11] & 0x3F,
    {
        self.mem[0xFF11] & 0x3F
    }

    pub fn channel1_envelope_initial_volume(&self) -> (r: u8)
        requires
            self.wf(),
        ensures
            r == (self@.mem[0xFF12] >> 4u8) & 0xF,
    {
        (self.mem[0xFF12] >> 4) & 0xF
    }

    pub fn channel1_envelope_increasing(&self) -> (r: bool)
        requires
            self.wf(),
        ensures
            r == (((self@.mem[0xFF12] >> 3u8) & 0x1) == 1),
    {
        ((self.mem[0xFF12] >> 3) & 0x1) == 1
    }

    pub fn channel1_envelope_sweep(&self) -> (r: u8)
        requires
            self.wf(),
        ensures
            r == self@.mem[0xFF12] & 0x7,
    {
        self.mem[0xFF12] & 0x7
    }

    pub fn channel2_envelope_initial_volume(&self) -> (r: u8)
        requires
            self.wf(),
        ensures
            r == (self@.mem[0xFF17] >> 4u8) & 0xF,
    {
        (self.mem[0xFF17] >> 4) & 0xF
    }

    pub fn channel2_envelope_increasing(&self) -> (r: bool)
        requires
            self.wf(),
        ensures
            r == (((self@.mem[0xFF17] >> 3u8) & 0x1) == 1),
    {
        ((self.mem[0xFF17] >> 3) & 0x1) == 1
    }

    pub fn channel2_envelope_sweep(&self) -> (r: u8)
        requires
            self.wf(),
        ensures
            r == self@.mem[0xFF17] & 0x7,
    {
        self.mem[0xFF17] & 0x7
    }

    /// The 11-bit frequency of sound channel 1
    pub fn channel1_frequency(&self) -> (r: u16)
        requires
            self.wf(),
        ensures
            r == word(self@.mem[0xFF13], self@.mem[0xFF14] & 0x7),
    {
        let lower = self.mem[0xFF13];
        let higher = self.mem[0xFF14] & 0x7;
        byte_to_u16(lower, higher)
    }

    /// Not emulated: always false
    pub fn channel1_counter_consecutive_selection(&self) -> (r: bool)
        ensures
            r == false,
    {
        false
    }

    pub fn channel1_restart_sound(&self) -> (r: bool)
        requires
            self.wf(),
        ensures
            r == (((self@.mem[0xFF14] >> 7u8) & 1) == 1),
    {
        ((self.mem[0xFF14] >> 7) & 1) == 1
    }

    /// The 11-bit frequency of sound channel 2
    pub fn channel2_frequency(&self) -> (r: u16)
        requires
            self.wf(),
        ensures
            r == word(self@.mem[0xFF18], self@.mem[0xFF19] & 0x7),
    {
        let lower = self.mem[0xFF18];
        let higher = self.mem[0xFF19] & 0x7;
        byte_to_u16(lower, higher)
    }

    /// Not emulated: always false
    pub fn channel2_counter_consecutive_selection(&self) -> (r: bool)
        ensures
            r == false,
    {
        false
    }

    pub fn channel2_restart_sound(&self) -> (r: bool)
        requires
            self.wf(),
        ensures
            r == (((self@.mem[0xFF19] >> 7u8) & 1) == 1),
    {
        ((self.mem[0xFF19] >> 7) & 1) == 1
    }

    /// The 11-bit frequency of sound channel 3
    pub fn channel3_frequency(&self) -> (r: u16)
        requires
            self.wf(),
        ensures
            r == word(self@.mem[0xFF1C], self@.mem[0xFF1D] & 0x7),
    {
        let lower = self.mem[0xFF1C];
        let higher = self.mem[0xFF1D] & 0x7;
        byte_to_u16(lower, higher)
    }

    /// Not emulated: always false
    pub fn channel3_counter_consecutive_selection(&self) -> (r: bool)
        ensures
            r == false,
    {
        false
    }

    pub fn channel3_restart_sound(&self) -> (r: bool)
        requires
            self.wf(),
        ensures
            r == (((self@.mem[0xFF1D] >> 7u8) & 1) == 1),
    {
        ((self.mem[0xFF1D] >> 7) & 1) == 1
    }

    pub fn channel2_wave_pattern_duty(&self) -> (r: u8)
        requires
            self.wf(),
        ensures
            r == (self@.mem[0xFF16] >> 6u8) & 0x3,
    {
        (self.mem[0xFF16] >> 6) & 0x3
    }

    pub fn channel2_sound_length(&self) -> (r: u8)
        requires
            self.wf(),
        ensures
            r == self@.mem[0xFF16] & 0x3F,
    {
        self.mem[0xFF16] & 0x3F
    }

    pub fn channel3_on(&self) -> (r: bool)
        requires
            self.wf(),
        ensures
            r == (((self@.mem[0xFF1A] >> 7u8) & 1) == 1),
    {
        ((self.mem[0xFF1A] >> 7) & 1) == 1
    }

    pub fn channel3_sound_length(&self) -> (r: u8)
        requires
            self.wf(),
        ensures
            r == self@.mem[0xFF1B],
    {
        self.mem[0xFF1B]
    }
    /// Turns all sound off: the four channel bits and the master bit go
    /// low, and channel 1's frequency low byte is cleared
    pub fn unset_sound_all(&mut self)
        requires
            old(self).wf(),
        ensures
            final(self).wf(),
            final(self)@ == old(self)@.poke(0xFF26, old(self)@.mem[0xFF26] & 0x70).poke(0xFF13, 0),
            final(self).event_logger == old(self).event_logger,
    {
        let ghost x = self.mem@[0xFF26];
        self.unset_sound1();
        self.unset_sound2();
        self.unset_sound3();
        self.unset_sound4();
        let v = self.mem[0xFF26];
        self.mem.set(0xFF26, v & !0x80u8);
        proof {
            assert(((((x & !1u8) & !2u8) & !4u8) & !8u8) & !0x80u8 == x & 0x70) by {
                crate::bits::lemma_u8(x);
            }
            assert(self@.mem =~= old(self)@.poke(0xFF26, x & 0x70).poke(0xFF13, 0).mem);
        }
    }

    /// LCD mode 0 (horizontal blank): the two mode bits of STAT go low
    pub fn set_hblank(&mut self)
        requires
            old(self).wf(),
        ensures
            final(self).wf(),
            final(self)@ == old(self)@.poke(STAT_ADDR as int, old(self)@.mem[STAT_ADDR as int] & !0x3u8),
            final(self).event_logger == old(self).event_logger,
    {
        let v = self.mem[STAT_ADDR];
        self.mem.set(STAT_ADDR, v & !0x3u8);
    }

    /// LCD mode 1 (vertical blank)
    pub fn set_vblank(&mut self)
        requires
            old(self).wf(),
        ensures
            final(self).wf(),
            final(self)@ == old(self)@.poke(STAT_ADDR as int, (old(self)@.mem[STAT_ADDR as int] | 1) & !2u8),
            final(self).event_logger == old(self).event_logger,
    {
        let old_val = self.mem[STAT_ADDR];
        self.mem.set(STAT_ADDR, (old_val | 1) & !2u8);
    }

    /// LCD mode 2 (OAM in use)
    pub fn set_oam_lock(&mut self)
        requires
            old(self).wf(),
        ensures
            final(self).wf(),
            final(self)@ == old(self)@.poke(STAT_ADDR as int, (old(self)@.mem[STAT_ADDR as int] | 2) & !1u8),
            final(self).event_logger == old(self).event_logger,
    {
        let old_val = self.mem[STAT_ADDR];
        self.mem.set(STAT_ADDR, (old_val | 2) & !1u8);
    }

    /// LCD mode 3 (OAM and display RAM in use)
    pub fn set_oam_and_display_lock(&mut self)
        requires
            old(self).wf(),
        ensures
            final(self).wf(),
            final(self)@ == old(self)@.poke(STAT_ADDR as int, old(self)@.mem[STAT_ADDR as int] | 0x3),
            final(self).event_logger == old(self).event_logger,
    {
        let v = self.mem[STAT_ADDR];
        self.mem.set(STAT_ADDR, v | 0x3);
    }

    /// Sets the coincidence flag of STAT when LY equals LYC, else clears it
    pub fn lyc_compare(&mut self)
        requires
            old(self).wf(),
        ensures
            final(self).wf(),
            final(self)@ == old(self)@.lyc_compared(),
            final(self).event_logger == old(self).event_logger,
    {
        let ly = self.ly();
        let lyc = self.lyc();
        if ly == lyc {
            self.set_coincidence_flag();
        } else {
            self.unset_coincidence_flag();
        }
    }

    /// Direct memory access: copies 0xA0 bytes from `FF46 * 0x100` to OAM
    pub fn dma(&mut self)
        requires
            old(self).wf(),
        ensures
            final(self).wf(),
            final(self)@ == old(self)@.dma_done(),
            final(self).event_logger == old(self).event_logger,
    {
        let addr: usize = (self.mem[0xFF46] as usize) * 256;
        let ghost m0 = self.mem@;
        let mut i: usize = 0;
        while i < 0xA0
            invariant
                i <= 0xA0,
                addr == m0[0xFF46] as int * 256,
                self.wf(),
                self.mem@.len() == m0.len(),
                forall|j: int|
                    0 <= j < m0.len() ==> #[trigger] self.mem@[j] == (if 0xFE00 <= j < 0xFE00 + i {
                        m0[addr + (j - 0xFE00)]
                    } else {
                        m0[j]
                    }),
                self.event_logger == old(self).event_logger,
                self@ == (CpuView { mem: self.mem@, ..old(self)@ }),
                old(self)@.mem == m0,
            decreases 0xA0 - i,
        {
            let val = self.mem[addr + i];
            self.mem.set(0xFE00 + i, val);
            i = i + 1;
        }
        proof {
            assert(self@.mem =~= old(self)@.dma_done().mem);
        }
    }

    /// Advances LY to the next of its 154 lines; the vertical blank
    /// interrupt is requested when line 144 begins (if interrupts and the
    /// vertical blank interrupt are enabled), and LY is compared with LYC
    pub fn inc_ly(&mut self)
        requires
            old(self).wf(),
        ensures
            final(self).wf(),
            final(self)@ == inc_ly_result(old(self)@),
            final(self).event_logger == old(self).event_logger,
    {
        let v = ((self.ly() as u16 + 1) % 256) as u8 % 154;
        self.mem.set(0xFF44, v);
        if v == 144 && self.get_interrupts_enabled() && self.get_vblank_interrupt_enabled() {
            self.set_vblank_interrupt_bit();
        }
        self.lyc_compare();
    }

    /// Increments the divider register FF04, wrapping
    pub fn inc_div(&mut self)
        requires
            old(self).wf(),
        ensures
            final(self).wf(),
            final(self)@ == old(self)@.poke(0xFF04, wrap8(old(self)@.mem[0xFF04] + 1)),
            final(self).event_logger == old(self).event_logger,
    {
        let old_val = self.mem[0xFF04];
        self.mem.set(0xFF04, old_val.wrapping_add(1));
    }

    /// The timer speed, set by the program in the low two bits of 0xFF07
    pub fn timer_frequency(&self) -> (r: u16)
        requires
            self.wf(),
        ensures
            r == timer_speed(self@.mem[0xFF07] & 0x3),
    {
        let sel = self.mem[0xFF07] & 0x3;
        if sel == 0 {
            4
        } else if sel == 1 {
            262
        } else if sel == 2 {
            65
        } else {
            16
        }
    }

    /// Whether the timer runs (bit 2 of 0xFF07)
    pub fn is_timer_on(&self) -> (r: bool)
        requires
            self.wf(),
        ensures
            r == ((self@.mem[0xFF07] & 0x4) >> 2u8 == 1),
    {
        (self.mem[0xFF07] & 0x4) >> 2 == 1
    }

    /// Increments the timer FF05; on overflow it reloads from FF06, the
    /// timer interrupt is requested and a halted CPU resumes
    pub fn inc_timer(&mut self)
        requires
            old(self).wf(),
        ensures
            final(self).wf(),
            final(self)@ == inc_timer_result(old(self)@),
            final(self).event_logger == old(self).event_logger,
    {
        let old_val = self.mem[0xFF05];
        let new_val = self.mem[0xFF06];
        if old_val == 0xFF {
            self.set_timer_interrupt_bit();
            if self.state == CpuState::Halt {
                self.state = CpuState::Normal;
            }
            self.mem.set(0xFF05, new_val);
        } else {
            self.mem.set(0xFF05, old_val + 1);
        }
    }

    /// Increments the timer if it is on
    pub fn timer_cycle(&mut self)
        requires
            old(self).wf(),
        ensures
            final(self).wf(),
            final(self)@ == (if (old(self)@.mem[0xFF07] & 0x4) >> 2u8 == 1 {
                inc_timer_result(old(self)@)
            } else {
                old(self)@
            }),
            final(self).event_logger == old(self).event_logger,
    {
        if self.is_timer_on() {
            self.inc_timer();
        }
    }

    /// The 16 bytes of channel 3's wave pattern RAM
    pub fn channel3_wave_pattern_ram(&self) -> (r: [u8; 16])
        requires
            self.wf(),
        ensures
            forall|i: int| 0 <= i < 16 ==> #[trigger] r@[i] == self@.mem[0xFF30 + i],
    {
        let mut ret = [0u8; 16];
        let mut i: usize = 0;
        while i < 16
            invariant
                i <= 16,
                self.wf(),
                forall|j: int| 0 <= j < i ==> #[trigger] ret@[j] == self@.mem[0xFF30 + j],
            decreases 16 - i,
        {
            ret.set(i, self.mem[0xFF30 + i]);
            i = i + 1;
        }
        ret
    }

    /// The background tile data at 0x8800..0x9800, two bits per pixel, the
    /// highest bits of each byte first
    pub fn get_bg_tiles(&self) -> (r: Vec<u8>)
        requires
            self.wf(),
        ensures
            r@.len() == 4 * 0x1000,
            forall|k: int|
                0 <= k < 4 * 0x1000 ==> #[trigger] r@[k] == (self@.mem[0x8800 + k / 4] >> ((3 - k
                    % 4) * 2) as u8) & 0x3,
    {
        let mut ret: Vec<u8> = Vec::new();
        let mut i: usize = 0x8800;
        while i < 0x9800
            invariant
                0x8800 <= i <= 0x9800,
                self.wf(),
                ret@.len() == 4 * (i - 0x8800),
                forall|k: int|
                    0 <= k < ret@.len() ==> #[trigger] ret@[k] == (self@.mem[0x8800 + k / 4] >> ((3
                        - k % 4) * 2) as u8) & 0x3,
            decreases 0x9800 - i,
        {
            let v = self.mem[i];
            let ghost base = ret@.len() as int;
            let ghost old_ret = ret@;
            ret.push((v >> 6) & 0x3);
            ret.push((v >> 4) & 0x3);
            ret.push((v >> 2) & 0x3);
            ret.push(v & 0x3);
            proof {
                assert forall|k: int| 0 <= k < ret@.len() implies #[trigger] ret@[k] == (self@.mem[0x8800 + k / 4] >> ((3 - k % 4) * 2) as u8) & 0x3 by {
                    if k < base {
                        assert(ret@[k] == old_ret[k]);
                    } else {
                        let t = k - base;
                        assert(base == 4 * (i - 0x8800));
                        assert(k / 4 == i - 0x8800 && k % 4 == t) by (nonlinear_arith)
                            requires k == 4 * (i - 0x8800) + t, 0 <= t < 4;
                        assert(v >> 0u8 == v) by {
                            crate::bits::lemma_u8(v);
                        }
                    }
                }
            }
            i = i + 1;
        }
        ret
    }

    /// Moves to the next line and gives the pixel value (always 0: pixel
    /// output is not emulated here)
    pub fn get_next_pixel(&mut self, xval: u8) -> (r: u8)
        requires
            old(self).wf(),
        ensures
            final(self).wf(),
            final(self)@ == inc_ly_result(old(self)@),
            final(self).event_logger == old(self).event_logger,
            r == 0,
    {
        self.inc_ly();
        0
    }

    pub fn enable_interrupts(&mut self)
        ensures
            final(self)@ == (CpuView { ime: true, ..old(self)@ }),
            final(self).mem == old(self).mem,
            final(self).event_logger == old(self).event_logger,
    {
        self.ime = true;
    }

    pub fn disable_interrupts(&mut self)
        ensures
            final(self)@ == (CpuView { ime: false, ..old(self)@ }),
            final(self).mem == old(self).mem,
            final(self).event_logger == old(self).event_logger,
    {
        self.ime = false;
    }

    /// The interrupt master enable flag
    pub fn get_interrupts_enabled(&self) -> (r: bool)
        ensures
            r == self.ime,
    {
        self.ime
    }

    /// Disables interrupts if a DI asked for it, and clears the request
    pub fn maybe_disable_interrupts(&mut self)
        ensures
            final(self)@ == (if old(self).interrupt_next_inst {
                CpuView { ime: false, interrupt_next_inst: false, ..old(self)@ }
            } else {
                old(self)@
            }),
            final(self).mem == old(self).mem,
            final(self).event_logger == old(self).event_logger,
    {
        if self.interrupt_next_inst {
            self.disable_interrupts();
            self.interrupt_next_inst = false;
        }
    }

    /// Stops the CPU after an illegal instruction (the message is dropped)
    pub fn crash(&mut self, info: String)
        ensures
            final(self)@ == (CpuView { state: CpuState::Crashed, ..old(self)@ }),
            final(self).mem == old(self).mem,
            final(self).event_logger == old(self).event_logger,
    {
        self.state = CpuState::Crashed;
    }

    /// Copies a ROM image into the first 0x8000 bytes of memory (bytes past
    /// the image's end read as zero, as from a zeroed buffer), then renews
    /// the logger
    pub fn load_rom_bytes(&mut self, rom: &[u8])
        requires
            old(self).wf(),
        ensures
            final(self).wf(),
            final(self).event_logger is Some,
            final(self)@ == (CpuView { mem: loaded_rom(old(self)@.mem, rom@), ..old(self)@ }),
    {
        let mut i: usize = 0;
        while i < 0x8000
            invariant
                i <= 0x8000,
                self.wf(),
                self@ == (CpuView { mem: self.mem@, ..old(self)@ }),
                forall|j: int|
                    0 <= j < MEM_ARRAY_SIZE ==> #[trigger] self.mem@[j] == (if j < i {
                        if j < rom@.len() {
                            rom@[j]
                        } else {
                            0u8
                        }
                    } else {
                        old(self)@.mem[j]
                    }),
            decreases 0x8000 - i,
        {
            let v = if i < rom.len() {
                rom[i]
            } else {
                0
            };
            self.mem.set(i, v);
            i = i + 1;
        }
        proof {
            assert(self.mem@ =~= loaded_rom(old(self)@.mem, rom@));
        }
        self.reinit_logger();
    }
}

/// The four two-bit shades of a palette byte, lowest bits first
pub open spec fn palette_shades(p: u8) -> (u8, u8, u8, u8) {
    (p & 0x3, (p >> 2u8) & 0x3, (p >> 4u8) & 0x3, (p >> 6u8) & 0x3)
}

/// The timer speed for each value of the two selector bits
pub open spec fn timer_speed(sel: u8) -> u16 {
    if sel == 0 {
        4
    } else if sel == 1 {
        262
    } else if sel == 2 {
        65
    } else {
        16
    }
}

/// The state after LY moves to the next line
pub open spec fn inc_ly_result(v: CpuView) -> CpuView {
    let ly = (wrap8(v.mem[0xFF44] + 1) % 154) as u8;
    let v1 = v.poke(0xFF44, ly);
    let v2 = if ly == 144 && v.ime && v.mem[0xFFFF] & 0x1 == 0x1 {
        v1.poke(0xFF0F, v.mem[0xFF0F] | 0x1)
    } else {
        v1
    };
    v2.lyc_compared()
}

/// The state after the timer counts once
pub open spec fn inc_timer_result(v: CpuView) -> CpuView {
    if v.mem[0xFF05] == 0xFF {
        CpuView {
            state: if v.state == CpuState::Halt {
                CpuState::Normal
            } else {
                v.state
            },
            ..v
        }.poke(0xFF0F, v.mem[0xFF0F] | 0x4).poke(0xFF05, v.mem[0xFF06])
    } else {
        v.poke(0xFF05, (v.mem[0xFF05] + 1) as u8)
    }
}

/// Memory with its first 0x8000 bytes taken from a ROM image
pub open spec fn loaded_rom(m: Seq<u8>, rom: Seq<u8>) -> Seq<u8> {
    Seq::new(
        m.len(),
        |j: int|
            if j < 0x8000 {
                if j < rom.len() {
                    rom[j]
                } else {
                    0u8
                }
            } else {
                m[j]
            },
    )
}

} // verus!
