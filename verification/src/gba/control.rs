//! Decoded views of the background and DMA control registers
use vstd::prelude::*;

verus! {

/// A background control register, decoded
#[derive(Debug, Clone, Copy, PartialEq, Eq, Structural)]
pub struct PpuBgControl {
    /// 2 bit value
    pub priority: u8,
    /// 2 bit value, in units of 16kb
    pub character_base_block: u8,
    pub mosaic: bool,
    /// false = 16/16, true = 256/1
    pub color_mode: bool,
    /// 5 bit value in units of 2kb
    pub screen_base_block: u8,
    /// only used in BG2 and Bg3
    pub display_area_overflow: bool,
    /// 2 bit value: the screen size, 256x256 up to 512x512 dots in text
    /// mode, 128x128 up to 1024x1024 in rotation and scaling mode
    pub screen_size: u8,
}

pub open spec fn spec_bg_control(bits: u16) -> PpuBgControl {
    PpuBgControl {
        priority: (bits & 0b11) as u8,
        character_base_block: ((bits >> 2u16) & 0b11) as u8,
        mosaic: (bits & 0x40) != 0,
        color_mode: (bits & 0x80) != 0,
        screen_base_block: ((bits >> 8u16) & 0b1_1111) as u8,
        display_area_overflow: (bits & 0x2000) != 0,
        screen_size: ((bits >> 14u16) & 0b11) as u8,
    }
}

impl PpuBgControl {
    pub fn from_bits(bits: u16) -> (c: PpuBgControl)
        ensures
            c == spec_bg_control(bits),
    {
        PpuBgControl {
            priority: (bits & 0b11) as u8,
            character_base_block: ((bits >> 2) & 0b11) as u8,
            mosaic: (bits & 0x40) != 0,
            color_mode: (bits & 0x80) != 0,
            screen_base_block: ((bits >> 8) & 0b1_1111) as u8,
            display_area_overflow: (bits & 0x2000) != 0,
            screen_size: ((bits >> 14) & 0b11) as u8,
        }
    }
}

/// How a DMA address moves after each unit
#[derive(Debug, Clone, Copy, PartialEq, Eq, Structural)]
pub enum DmaAddrControl {
    Increment,
    Decrement,
    Fixed,
    IncrementReload,
}

pub open spec fn spec_addr_control(v: u8) -> DmaAddrControl {
    if v == 0 {
        DmaAddrControl::Increment
    } else if v == 1 {
        DmaAddrControl::Decrement
    } else if v == 2 {
        DmaAddrControl::Fixed
    } else {
        DmaAddrControl::IncrementReload
    }
}

impl DmaAddrControl {
    pub fn from_bits(v: u8) -> (c: DmaAddrControl)
        requires
            v < 4,
        ensures
            c == spec_addr_control(v),
    {
        match v {
            0 => Self::Increment,
            1 => Self::Decrement,
            2 => Self::Fixed,
            _ => Self::IncrementReload,
        }
    }
}

/// When a DMA transfer starts
#[derive(Debug, Clone, Copy, PartialEq, Eq, Structural)]
pub enum DmaStartTiming {
    Immediately,
    VBlank,
    HBlank,
    Special,
}

pub open spec fn spec_start_timing(v: u8) -> DmaStartTiming {
    if v == 0 {
        DmaStartTiming::Immediately
    } else if v == 1 {
        DmaStartTiming::VBlank
    } else if v == 2 {
        DmaStartTiming::HBlank
    } else {
        DmaStartTiming::Special
    }
}

impl DmaStartTiming {
    pub fn from_bits(v: u8) -> (t: DmaStartTiming)
        requires
            v < 4,
        ensures
            t == spec_start_timing(v),
    {
        match v {
            0 => Self::Immediately,
            1 => Self::VBlank,
            2 => Self::HBlank,
            _ => Self::Special,
        }
    }
}

/// A DMA control register, decoded
#[derive(Debug, Clone, Copy, PartialEq, Eq, Structural)]
pub struct DmaControl {
    pub dest_addr_control: DmaAddrControl,
    pub source_addr_control: DmaAddrControl,
    pub repeat: bool,
    /// false = 16bit, true = 32bit
    pub transfer_type: bool,
    /// DMA 3 only
    pub game_pak_drq: bool,
    pub start_timing: DmaStartTiming,
    pub irq_at_end: bool,
    pub enabled: bool,
}

pub open spec fn spec_dma_control(bits: u16) -> DmaControl {
    DmaControl {
        dest_addr_control: spec_addr_control(((bits >> 5u16) & 0b11) as u8),
        source_addr_control: spec_addr_control(((bits >> 7u16) & 0b11) as u8),
        repeat: (bits >> 9u16) & 1 == 1,
        transfer_type: (bits >> 10u16) & 1 == 1,
        game_pak_drq: (bits >> 11u16) & 1 == 1,
        start_timing: spec_start_timing(((bits >> 12u16) & 0b11) as u8),
        irq_at_end: (bits >> 14u16) & 1 == 1,
        enabled: (bits >> 15u16) & 1 == 1,
    }
}

impl DmaControl {
    pub fn from_bits(bits: u16) -> (c: DmaControl)
        ensures
            c == spec_dma_control(bits),
    {
        assert((bits >> 5u16) & 0b11 < 4) by {
            crate::bits::lemma_u16(bits);
        }
        assert((bits >> 7u16) & 0b11 < 4) by {
            crate::bits::lemma_u16(bits);
        }
        assert((bits >> 12u16) & 0b11 < 4) by {
            crate::bits::lemma_u16(bits);
        }
        DmaControl {
            dest_addr_control: DmaAddrControl::from_bits(((bits >> 5) & 0b11) as u8),
            source_addr_control: DmaAddrControl::from_bits(((bits >> 7) & 0b11) as u8),
            repeat: (bits >> 9) & 1 == 1,
            transfer_type: (bits >> 10) & 1 == 1,
            game_pak_drq: (bits >> 11) & 1 == 1,
            start_timing: DmaStartTiming::from_bits(((bits >> 12) & 0b11) as u8),
            irq_at_end: (bits >> 14) & 1 == 1,
            enabled: (bits >> 15) & 1 == 1,
        }
    }
}

/// The affine parameters of a rotated and scaled bitmap background
#[derive(Debug, Clone, Copy, PartialEq, Eq, Structural)]
pub struct BitMapBgRotationScale {
    pub x: i32,
    pub y: i32,
    pub cached_x: i32,
    pub cached_y: i32,
    pub pa: i16,
    pub pb: i16,
    pub pc: i16,
    pub pd: i16,
}

} // verus!
