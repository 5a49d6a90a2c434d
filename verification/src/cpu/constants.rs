//! Constant values relating to the CPU
use vstd::prelude::*;

verus! {

/// Location of the `Z` flag in the `F` register
pub const ZL: u8 = 0x80;
/// Location of the `N` flag in the `F` register
pub const NLV: u8 = 0x40;
/// Location of the `H` flag in the `F` register
pub const HL: u8 = 0x20;
/// Location of the `C` flag in the `F` register
pub const CL: u8 = 0x10;

/// The size of the Gameboy's memory.
/// Three more bytes let the operands of an instruction at the very last
/// address be fetched without a bounds check.
pub const MEM_ARRAY_SIZE: usize = 0x10003;

/// Where the PC goes when each interrupt is handled
pub const VBLANK_INTERRUPT_ADDRESS: u16 = 0x40;
pub const LCDC_INTERRUPT_ADDRESS: u16 = 0x48;
pub const TIMER_OVERFLOW_INTERRUPT_ADDRESS: u16 = 0x50;
pub const SERIAL_TRANSFER_INTERRUPT_ADDRESS: u16 = 0x58;
pub const P1013_INTERRUPT_ADDRESS: u16 = 0x60;

/// Display RAM, which the CPU cannot write during some PPU states
pub const DISPLAY_RAM_START: usize = 0x8000;
pub const DISPLAY_RAM_END: usize = 0x9FFF;
/// OAM memory, which the CPU cannot write during some PPU states
pub const OAM_START: usize = 0xFE00;
pub const OAM_END: usize = 0xFE9F;
/// The LCD status register
pub const STAT_ADDR: usize = 0xFF41;

/// The state of the CPU's execution
#[derive(Debug, Clone, Copy, PartialEq, Eq, Structural)]
pub enum CpuState {
    /// CPU is running normally
    Normal,
    /// CPU is off and waiting for an interrupt
    Halt,
    /// CPU and screen are off and waiting for a button press
    Stop,
    /// CPU has executed an illegal instruction
    Crashed,
}

/// 8-bit registers of the CPU and an 8-bit numeric literal
#[derive(Clone, Copy, PartialEq, Eq, Debug, Structural)]
pub enum CpuRegister {
    A,
    B,
    C,
    D,
    E,
    H,
    L,
    HL,
    Num(u8),
}

/// 16-bit registers of the CPU and a 16-bit numeric literal
#[derive(Clone, Copy, PartialEq, Eq, Debug, Structural)]
pub enum CpuRegister16 {
    BC,
    DE,
    HL,
    SP,
    AF,
    Num(i16),
}

/// Condition codes used in some control flow instructions
#[derive(Clone, Copy, PartialEq, Eq, Debug, Structural)]
pub enum Cc {
    /// Not zero
    NZ,
    /// Zero
    Z,
    /// No carry
    NC,
    /// Carry
    C,
}

/// The type of cartridge, as named by byte 0x147 of a ROM
#[derive(Debug, PartialEq, Eq, Copy, Clone, Structural)]
pub enum CartridgeType {
    RomOnly,
    RomMBC1,
    RomMBC1Ram,
    RomMBC1RamBatt,
    RomMBC2,
    RomMBC2Batt,
    RomRam,
    RomRamBatt,
    RomMMM01,
    RomMMM01SRam,
    RomMMM01SRamBatt,
    RomMBC3TimerRamBatt,
    RomMBC3,
    RomMBC3Ram,
    RomMBC3RamBatt,
    RomMBC5,
    RomMBC5Ram,
    RomMBC5RamBatt,
    RomMBC5RumbleSRam,
    RomMBC5RumbleSRamBatt,
    PocketCamera,
    BandaiTAMA5,
    HudsonHuC3,
    HudsonHuC1,
}

#[derive(Debug, PartialEq, Eq, Copy, Clone, Structural)]
pub enum MBCType {
    MBC1_16_8,
    MBC1_4_32,
}

/// The byte that stands for each cartridge type in a ROM header
pub open spec fn cartridge_type_code(t: CartridgeType) -> u8 {
    match t {
        CartridgeType::RomOnly => 0,
        CartridgeType::RomMBC1 => 1,
        CartridgeType::RomMBC1Ram => 2,
        CartridgeType::RomMBC1RamBatt => 3,
        CartridgeType::RomMBC2 => 5,
        CartridgeType::RomMBC2Batt => 6,
        CartridgeType::RomRam => 8,
        CartridgeType::RomRamBatt => 9,
        CartridgeType::RomMMM01 => 0xB,
        CartridgeType::RomMMM01SRam => 0xC,
        CartridgeType::RomMMM01SRamBatt => 0xD,
        CartridgeType::RomMBC3TimerRamBatt => 0x10,
        CartridgeType::RomMBC3 => 0x11,
        CartridgeType::RomMBC3Ram => 0x12,
        CartridgeType::RomMBC3RamBatt => 0x13,
        CartridgeType::RomMBC5 => 0x19,
        CartridgeType::RomMBC5Ram => 0x1A,
        CartridgeType::RomMBC5RamBatt => 0x1B,
        CartridgeType::RomMBC5RumbleSRam => 0x1D,
        CartridgeType::RomMBC5RumbleSRamBatt => 0x1E,
        CartridgeType::PocketCamera => 0x1F,
        CartridgeType::BandaiTAMA5 => 0xFD,
        CartridgeType::HudsonHuC3 => 0xFE,
        CartridgeType::HudsonHuC1 => 0xFF,
    }
}

impl CartridgeType {
    /// The byte that stands for this cartridge type in a ROM header
    pub fn code(self) -> (r: u8)
        ensures
            r == cartridge_type_code(self),
    {
        match self {
            CartridgeType::RomOnly => 0,
            CartridgeType::RomMBC1 => 1,
            CartridgeType::RomMBC1Ram => 2,
            CartridgeType::RomMBC1RamBatt => 3,
            CartridgeType::RomMBC2 => 5,
            CartridgeType::RomMBC2Batt => 6,
            CartridgeType::RomRam => 8,
            CartridgeType::RomRamBatt => 9,
            CartridgeType::RomMMM01 => 0xB,
            CartridgeType::RomMMM01SRam => 0xC,
            CartridgeType::RomMMM01SRamBatt => 0xD,
            CartridgeType::RomMBC3TimerRamBatt => 0x10,
            CartridgeType::RomMBC3 => 0x11,
            CartridgeType::RomMBC3Ram => 0x12,
            CartridgeType::RomMBC3RamBatt => 0x13,
            CartridgeType::RomMBC5 => 0x19,
            CartridgeType::RomMBC5Ram => 0x1A,
            CartridgeType::RomMBC5RamBatt => 0x1B,
            CartridgeType::RomMBC5RumbleSRam => 0x1D,
            CartridgeType::RomMBC5RumbleSRamBatt => 0x1E,
            CartridgeType::PocketCamera => 0x1F,
            CartridgeType::BandaiTAMA5 => 0xFD,
            CartridgeType::HudsonHuC3 => 0xFE,
            CartridgeType::HudsonHuC1 => 0xFF,
        }
    }
}

/// The cartridge type that a header byte names, if any
pub open spec fn spec_to_cartridge_type(v: u8) -> Option<CartridgeType> {
    match v {
        0 => Some(CartridgeType::RomOnly),
        1 => Some(CartridgeType::RomMBC1),
        2 => Some(CartridgeType::RomMBC1Ram),
        3 => Some(CartridgeType::RomMBC1RamBatt),
        5 => Some(CartridgeType::RomMBC2),
        6 => Some(CartridgeType::RomMBC2Batt),
        8 => Some(CartridgeType::RomRam),
        9 => Some(CartridgeType::RomRamBatt),
        0xB => Some(CartridgeType::RomMMM01),
        0xC => Some(CartridgeType::RomMMM01SRam),
        0xD => Some(CartridgeType::RomMMM01SRamBatt),
        0x10 => Some(CartridgeType::RomMBC3TimerRamBatt),
        0x11 => Some(CartridgeType::RomMBC3),
        0x12 => Some(CartridgeType::RomMBC3Ram),
        0x13 => Some(CartridgeType::RomMBC3RamBatt),
        0x19 => Some(CartridgeType::RomMBC5),
        0x1A => Some(CartridgeType::RomMBC5Ram),
        0x1B => Some(CartridgeType::RomMBC5RamBatt),
        0x1D => Some(CartridgeType::RomMBC5RumbleSRam),
        0x1E => Some(CartridgeType::RomMBC5RumbleSRamBatt),
        0x1F => Some(CartridgeType::PocketCamera),
        0xFD => Some(CartridgeType::BandaiTAMA5),
        0xFE => Some(CartridgeType::HudsonHuC3),
        0xFF => Some(CartridgeType::HudsonHuC1),
        _ => None,
    }
}

/// Decodes the cartridge type byte of a ROM header
pub fn to_cartridge_type(v: u8) -> (r: Option<CartridgeType>)
    ensures
        r == spec_to_cartridge_type(v),
{
    match v {
        0 => Some(CartridgeType::RomOnly),
        1 => Some(CartridgeType::RomMBC1),
        2 => Some(CartridgeType::RomMBC1Ram),
        3 => Some(CartridgeType::RomMBC1RamBatt),
        5 => Some(CartridgeType::RomMBC2),
        6 => Some(CartridgeType::RomMBC2Batt),
        8 => Some(CartridgeType::RomRam),
        9 => Some(CartridgeType::RomRamBatt),
        0xB => Some(CartridgeType::RomMMM01),
        0xC => Some(CartridgeType::RomMMM01SRam),
        0xD => Some(CartridgeType::RomMMM01SRamBatt),
        0x10 => Some(CartridgeType::RomMBC3TimerRamBatt),
        0x11 => Some(CartridgeType::RomMBC3),
        0x12 => Some(CartridgeType::RomMBC3Ram),
        0x13 => Some(CartridgeType::RomMBC3RamBatt),
        0x19 => Some(CartridgeType::RomMBC5),
        0x1A => Some(CartridgeType::RomMBC5Ram),
        0x1B => Some(CartridgeType::RomMBC5RamBatt),
        0x1D => Some(CartridgeType::RomMBC5RumbleSRam),
        0x1E => Some(CartridgeType::RomMBC5RumbleSRamBatt),
        0x1F => Some(CartridgeType::PocketCamera),
        0xFD => Some(CartridgeType::BandaiTAMA5),
        0xFE => Some(CartridgeType::HudsonHuC3),
        0xFF => Some(CartridgeType::HudsonHuC1),
        _ => None,
    }
}

/// Decoding the code of a cartridge type gives that type back, and every
/// byte that decodes to a type is that type's code.
pub proof fn lemma_cartridge_type_code_roundtrip(t: CartridgeType, v: u8)
    ensures
        spec_to_cartridge_type(cartridge_type_code(t)) == Some(t),
        spec_to_cartridge_type(v) matches Some(u) ==> cartridge_type_code(u) == v,
{
}

/// The condition code that each number 0 to 3 stands for in an opcode
pub open spec fn spec_cc_dispatch(num: u8) -> Cc {
    if num == 0 {
        Cc::NZ
    } else if num == 1 {
        Cc::Z
    } else if num == 2 {
        Cc::NC
    } else {
        Cc::C
    }
}

/// Turns a number into a `Cc` code used in dispatching opcodes
pub fn cc_dispatch(num: u8) -> (r: Cc)
    requires
        num < 4,
    ensures
        r == spec_cc_dispatch(num),
{
    match num {
        0 => Cc::NZ,
        1 => Cc::Z,
        2 => Cc::NC,
        _ => Cc::C,
    }
}

/// The 8-bit register that each number 0 to 7 stands for in an opcode
pub open spec fn spec_cpu_dispatch(num: u8) -> CpuRegister {
    if num == 0 {
        CpuRegister::B
    } else if num == 1 {
        CpuRegister::C
    } else if num == 2 {
        CpuRegister::D
    } else if num == 3 {
        CpuRegister::E
    } else if num == 4 {
        CpuRegister::H
    } else if num == 5 {
        CpuRegister::L
    } else if num == 6 {
        CpuRegister::HL
    } else {
        CpuRegister::A
    }
}

/// Turns a number into a `CpuRegister`
pub fn cpu_dispatch(num: u8) -> (r: CpuRegister)
    requires
        num < 8,
    ensures
        r == spec_cpu_dispatch(num),
{
    match num {
        0 => CpuRegister::B,
        1 => CpuRegister::C,
        2 => CpuRegister::D,
        3 => CpuRegister::E,
        4 => CpuRegister::H,
        5 => CpuRegister::L,
        6 => CpuRegister::HL,
        _ => CpuRegister::A,
    }
}

/// The 16-bit register that each number 0 to 3 stands for in most opcodes
pub open spec fn spec_cpu16_dispatch(num: u8) -> CpuRegister16 {
    if num == 0 {
        CpuRegister16::BC
    } else if num == 1 {
        CpuRegister16::DE
    } else if num == 2 {
        CpuRegister16::HL
    } else {
        CpuRegister16::SP
    }
}

/// Turns a number into a `CpuRegister16`
pub fn cpu16_dispatch(num: u8) -> (r: CpuRegister16)
    requires
        num < 4,
    ensures
        r == spec_cpu16_dispatch(num),
{
    match num {
        0 => CpuRegister16::BC,
        1 => CpuRegister16::DE,
        2 => CpuRegister16::HL,
        _ => CpuRegister16::SP,
    }
}

/// The 16-bit register that each number 0 to 3 stands for in PUSH and POP
pub open spec fn spec_cpu16_dispatch_push_pop(num: u8) -> CpuRegister16 {
    if num == 0 {
        CpuRegister16::BC
    } else if num == 1 {
        CpuRegister16::DE
    } else if num == 2 {
        CpuRegister16::HL
    } else {
        CpuRegister16::AF
    }
}

/// Turns a number into a `CpuRegister16`, with AF in place of SP
pub fn cpu16_dispatch_push_pop(num: u8) -> (r: CpuRegister16)
    requires
        num < 4,
    ensures
        r == spec_cpu16_dispatch_push_pop(num),
{
    match num {
        0 => CpuRegister16::BC,
        1 => CpuRegister16::DE,
        2 => CpuRegister16::HL,
        _ => CpuRegister16::AF,
    }
}

} // verus!
