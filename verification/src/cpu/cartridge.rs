//! Cartridges: the ROM, the cartridge RAM banks and the memory bank
//! controller (MBC) that maps them into 0x0000-0x7FFF and 0xA000-0xBFFF
use vstd::prelude::*;
use vstd::string::StrSliceExecFns;
use vstd::string::StringExecFns;

verus! {

/// The size of a ROM bank
pub const ROM_BANK_SIZE: usize = 0x4000;

/// The size of a RAM bank
pub const RAM_BANK_SIZE: usize = 0x2000;

/// What unmapped cartridge RAM reads as
pub const NO_RAM_BUS_NOISE: u8 = 0xFF;

/// The cartridge type byte of a ROM header, decoded
#[derive(Debug, Clone, Copy, PartialEq, Eq, Structural)]
pub enum RomKind {
    RomOnly,
    Mbc1,
    Mbc1Ram,
    Mbc1RamBattery,
    Mbc2,
    Mbc2Battery,
    RomRam,
    RomRamBattery,
    Mmm01,
    Mmm01Sram,
    Mmm01SramBattery,
    Mbc3TimerBattery,
    Mbc3TimerRamBattery,
    Mbc3,
    Mbc3Ram,
    Mbc3RamBattery,
    Mbc5,
    Mbc5Ram,
    Mbc5RamBattery,
    Mbc5Rumble,
    Mbc5RumbleSram,
    Mbc5RumbleSramBattery,
    PocketCamera,
    Tama5,
    Huc3,
    Huc1,
    Other(u8),
}

/// What the cartridge needs from a parsed ROM header
#[derive(Debug, Clone, Copy, PartialEq, Eq, Structural)]
pub struct RomHeaderInfo {
    pub rom_type: RomKind,
    /// Whether the ROM declares Game Boy Color features
    pub supports_color: bool,
    pub super_gameboy: bool,
    /// How many RAM banks the cartridge has
    pub ram_banks: u8,
    /// The size of a RAM bank in bytes
    pub ram_bank_size: u16,
}

/// Why a ROM cannot be loaded
#[derive(Debug, Clone, Copy, PartialEq, Eq, Structural)]
pub enum CartridgeError {
    /// A ROM must hold at least one 16 KiB bank
    TooSmall { len: usize },
    /// The memory bank controller is not emulated
    Unsupported { rom_type: RomKind },
}

/// How an MBC1 splits its bank bits between ROM and RAM
#[derive(Debug, Clone, Copy, PartialEq, Eq, Structural)]
pub enum Mbc1Type {
    SixteenEight,
    FourThirtytwo,
}

/// The memory bank controller and the RAM of a cartridge
pub enum CartridgeSubType {
    RomOnly { ram_bank: [u8; 0x2000] },
    Mbc1 {
        memory_model: Mbc1Type,
        ram_banks: Vec<[u8; 0x2000]>,
        ram_active: bool,
        /// the ROM size in banks, cached
        num_rom_banks: u32,
        mem_bank_selector: u32,
        ram_bank_selector: u32,
    },
    Mbc3 {
        ram_banks: Vec<[u8; 0x2000]>,
        ram_active: bool,
        mem_bank_selector: u32,
        ram_bank_selector: u32,
    },
    Mbc5 {
        ram_banks: Vec<[u8; 0x2000]>,
        ram_active: bool,
        num_rom_banks: u32,
        mem_bank_selector: u32,
        ram_bank_selector: u32,
    },
}

/// A cartridge
pub struct Cartridge {
    /// at least 0x4000 bytes
    entire_rom_data: Vec<u8>,
    cart_sub: Option<CartridgeSubType>,
    /// the write target for RAM that is not there
    dummy_value: u8,
    pub gbc: bool,
    pub sgb: bool,
}

/// The mathematical state of a memory bank controller
#[verifier::ext_equal]
pub ghost enum SubView {
    RomOnly { ram: Seq<u8> },
    Mbc1 {
        four_32: bool,
        banks: Seq<Seq<u8>>,
        ram_active: bool,
        num_rom_banks: u32,
        mbs: u32,
        rbs: u32,
    },
    Mbc3 { banks: Seq<Seq<u8>>, ram_active: bool, mbs: u32, rbs: u32 },
    Mbc5 { banks: Seq<Seq<u8>>, ram_active: bool, num_rom_banks: u32, mbs: u32, rbs: u32 },
}

/// The mathematical state of a cartridge
#[verifier::ext_equal]
pub ghost struct CartView {
    pub rom: Seq<u8>,
    pub sub: Option<SubView>,
    pub dummy: u8,
    pub gbc: bool,
    pub sgb: bool,
}

/// RAM banks as sequences
pub open spec fn banks_view(b: Seq<[u8; 0x2000]>) -> Seq<Seq<u8>> {
    Seq::new(b.len(), |i: int| b[i]@)
}

pub open spec fn sub_view(s: CartridgeSubType) -> SubView {
    match s {
        CartridgeSubType::RomOnly { ram_bank } => SubView::RomOnly { ram: ram_bank@ },
        CartridgeSubType::Mbc1 {
            memory_model,
            ram_banks,
            ram_active,
            num_rom_banks,
            mem_bank_selector,
            ram_bank_selector,
        } => SubView::Mbc1 {
            four_32: memory_model == Mbc1Type::FourThirtytwo,
            banks: banks_view(ram_banks@),
            ram_active,
            num_rom_banks,
            mbs: mem_bank_selector,
            rbs: ram_bank_selector,
        },
        CartridgeSubType::Mbc3 { ram_banks, ram_active, mem_bank_selector, ram_bank_selector } =>
            SubView::Mbc3 {
            banks: banks_view(ram_banks@),
            ram_active,
            mbs: mem_bank_selector,
            rbs: ram_bank_selector,
        },
        CartridgeSubType::Mbc5 {
            ram_banks,
            ram_active,
            num_rom_banks,
            mem_bank_selector,
            ram_bank_selector,
        } => SubView::Mbc5 {
            banks: banks_view(ram_banks@),
            ram_active,
            num_rom_banks,
            mbs: mem_bank_selector,
            rbs: ram_bank_selector,
        },
    }
}

impl View for Cartridge {
    type V = CartView;

    closed spec fn view(&self) -> CartView {
        CartView {
            rom: self.entire_rom_data@,
            sub: match self.cart_sub {
                Some(s) => Some(sub_view(s)),
                None => None,
            },
            dummy: self.dummy_value,
            gbc: self.gbc,
            sgb: self.sgb,
        }
    }
}

/// Where bank `bank` (0 read as 1) maps the address `ind` of 0x4000-0x7FFF
pub open spec fn banked_offset(bank: u32, ind: u16) -> int {
    ((if bank == 0 {
        1
    } else {
        bank as int
    }) - 1) * 0x4000 + ind
}

/// A ROM offset wrapped to a ROM of `n` banks
pub open spec fn masked(x: int, n: u32) -> int {
    ((x as u64) & ((0x4000 * n - 1) as u64)) as int
}

impl CartView {
    /// Every bank-count cache matches a ROM that holds those banks
    pub open spec fn wf(self) -> bool {
        &&& self.rom.len() >= 0x4000
        &&& match self.sub {
            Some(SubView::Mbc1 { num_rom_banks, banks, .. }) => num_rom_banks >= 1 && 0x4000
                * num_rom_banks <= self.rom.len() && forall|i: int|
                0 <= i < banks.len() ==> #[trigger] banks[i].len() == 0x2000,
            Some(SubView::Mbc3 { banks, .. }) => forall|i: int|
                0 <= i < banks.len() ==> #[trigger] banks[i].len() == 0x2000,
            Some(SubView::Mbc5 { num_rom_banks, banks, .. }) => num_rom_banks >= 1 && 0x4000
                * num_rom_banks <= self.rom.len() && forall|i: int|
                0 <= i < banks.len() ==> #[trigger] banks[i].len() == 0x2000,
            Some(SubView::RomOnly { ram }) => ram.len() == 0x2000,
            None => true,
        }
    }

    /// Whether a read at `ind` is one the cartridge answers
    pub open spec fn read_defined(self, ind: u16) -> bool {
        if ind <= 0x3FFF {
            true
        } else if ind <= 0x7FFF {
            match self.sub {
                Some(SubView::RomOnly { .. }) => ind < self.rom.len(),
                Some(SubView::Mbc1 { four_32, mbs, .. }) => !four_32 || banked_offset(mbs, ind)
                    < self.rom.len(),
                Some(SubView::Mbc3 { mbs, .. }) => banked_offset(mbs, ind) < self.rom.len(),
                Some(SubView::Mbc5 { mbs, .. }) => mbs as int * 0x4000 + ind < self.rom.len(),
                None => false,
            }
        } else if 0xA000 <= ind <= 0xBFFF {
            match self.sub {
                Some(SubView::Mbc3 { banks, rbs, .. }) => rbs < banks.len(),
                Some(_) => true,
                None => false,
            }
        } else {
            false
        }
    }

    /// What a read at `ind` returns
    pub open spec fn read(self, ind: u16) -> u8 {
        let j = ind - 0xA000;
        if ind <= 0x3FFF {
            self.rom[ind as int]
        } else if ind <= 0x7FFF {
            match self.sub {
                Some(SubView::Mbc1 { four_32, mbs, num_rom_banks, .. }) => if four_32 {
                    self.rom[banked_offset(mbs, ind)]
                } else {
                    self.rom[masked(banked_offset(mbs, ind), num_rom_banks)]
                },
                Some(SubView::Mbc3 { mbs, .. }) => self.rom[banked_offset(mbs, ind)],
                Some(SubView::Mbc5 { mbs, .. }) => self.rom[mbs as int * 0x4000 + ind],
                _ => self.rom[ind as int],
            }
        } else {
            match self.sub {
                Some(SubView::RomOnly { ram }) => ram[j],
                Some(SubView::Mbc1 { banks, ram_active, rbs, .. }) => if ram_active && rbs
                    < banks.len() {
                    banks[rbs as int][j]
                } else {
                    NO_RAM_BUS_NOISE
                },
                Some(SubView::Mbc3 { banks, rbs, .. }) => banks[rbs as int][j],
                Some(SubView::Mbc5 { banks, ram_active, rbs, .. }) => if ram_active && rbs
                    < banks.len() {
                    banks[rbs as int][j]
                } else {
                    NO_RAM_BUS_NOISE
                },
                None => 0,
            }
        }
    }

    /// Whether a write to the byte at `ind` reaches storage
    pub open spec fn write_defined(self, ind: u16) -> bool {
        if ind <= 0x3FFF {
            true
        } else if ind <= 0x7FFF {
            match self.sub {
                Some(SubView::RomOnly { .. }) => ind < self.rom.len(),
                Some(SubView::Mbc1 { four_32, .. }) => !four_32,
                Some(SubView::Mbc5 { .. }) => true,
                _ => false,
            }
        } else if 0xA000 <= ind <= 0xBFFF {
            match self.sub {
                Some(SubView::RomOnly { .. }) => true,
                Some(SubView::Mbc1 { .. }) => true,
                Some(SubView::Mbc5 { .. }) => true,
                _ => false,
            }
        } else {
            false
        }
    }

    /// The byte that a write at `ind` replaces
    pub open spec fn write_target(self, ind: u16) -> u8 {
        let j = ind - 0xA000;
        if ind <= 0x3FFF {
            self.rom[ind as int]
        } else if ind <= 0x7FFF {
            match self.sub {
                Some(SubView::Mbc1 { mbs, num_rom_banks, .. }) => self.rom[masked(
                    banked_offset(mbs, ind),
                    num_rom_banks,
                )],
                Some(SubView::Mbc5 { mbs, num_rom_banks, .. }) => self.rom[masked(
                    mbs as int * 0x4000 + ind,
                    num_rom_banks,
                )],
                _ => self.rom[ind as int],
            }
        } else {
            match self.sub {
                Some(SubView::RomOnly { ram }) => ram[j],
                Some(SubView::Mbc1 { banks, ram_active, rbs, .. }) => if ram_active && rbs
                    < banks.len() {
                    banks[rbs as int][j]
                } else {
                    self.dummy
                },
                Some(SubView::Mbc5 { banks, ram_active, rbs, .. }) => if ram_active && rbs
                    < banks.len() {
                    banks[rbs as int][j]
                } else {
                    self.dummy
                },
                _ => self.dummy,
            }
        }
    }

    /// The cartridge after the byte at `ind` is replaced by `val`
    pub open spec fn written(self, ind: u16, val: u8) -> CartView {
        let j = ind - 0xA000;
        if ind <= 0x3FFF {
            CartView { rom: self.rom.update(ind as int, val), ..self }
        } else if ind <= 0x7FFF {
            match self.sub {
                Some(SubView::Mbc1 { mbs, num_rom_banks, .. }) => CartView {
                    rom: self.rom.update(masked(banked_offset(mbs, ind), num_rom_banks), val),
                    ..self
                },
                Some(SubView::Mbc5 { mbs, num_rom_banks, .. }) => CartView {
                    rom: self.rom.update(masked(mbs as int * 0x4000 + ind, num_rom_banks), val),
                    ..self
                },
                _ => CartView { rom: self.rom.update(ind as int, val), ..self },
            }
        } else {
            match self.sub {
                Some(SubView::RomOnly { ram }) => CartView {
                    sub: Some(SubView::RomOnly { ram: ram.update(j, val) }),
                    ..self
                },
                Some(SubView::Mbc1 { four_32, banks, ram_active, num_rom_banks, mbs, rbs }) =>
                    if ram_active && rbs < banks.len() {
                    CartView {
                        sub: Some(
                            SubView::Mbc1 {
                                four_32,
                                banks: banks.update(rbs as int, banks[rbs as int].update(j, val)),
                                ram_active,
                                num_rom_banks,
                                mbs,
                                rbs,
                            },
                        ),
                        ..self
                    }
                } else {
                    CartView { dummy: val, ..self }
                },
                Some(SubView::Mbc5 { banks, ram_active, num_rom_banks, mbs, rbs }) =>
                    if ram_active && rbs < banks.len() {
                    CartView {
                        sub: Some(
                            SubView::Mbc5 {
                                banks: banks.update(rbs as int, banks[rbs as int].update(j, val)),
                                ram_active,
                                num_rom_banks,
                                mbs,
                                rbs,
                            },
                        ),
                        ..self
                    }
                } else {
                    CartView { dummy: val, ..self }
                },
                _ => CartView { dummy: val, ..self },
            }
        }
    }
    /// What a CPU write to the MBC's control area does, and elsewhere a
    /// write of the byte
    pub open spec fn ram_value_written(self, index: u16, value: u8) -> CartView {
        match self.sub {
            Some(SubView::Mbc1 { four_32, banks, ram_active, num_rom_banks, mbs, rbs }) => {
                if index > 0x7FFF {
                    self.written(index, value)
                } else {
                    let s = if index <= 0x1FFF {
                        SubView::Mbc1 {
                            four_32,
                            banks,
                            ram_active: value & 0xF == 0b1010,
                            num_rom_banks,
                            mbs,
                            rbs,
                        }
                    } else if index <= 0x3FFF {
                        SubView::Mbc1 {
                            four_32,
                            banks,
                            ram_active,
                            num_rom_banks,
                            mbs: if value & 0x1F == 0 {
                                1
                            } else {
                                (value & 0x1F) as u32
                            },
                            rbs,
                        }
                    } else if index <= 0x5FFF {
                        SubView::Mbc1 {
                            four_32,
                            banks,
                            ram_active,
                            num_rom_banks,
                            mbs,
                            rbs: (value & 0x3) as u32,
                        }
                    } else {
                        SubView::Mbc1 {
                            four_32: index & 1 == 1,
                            banks,
                            ram_active,
                            num_rom_banks,
                            mbs,
                            rbs,
                        }
                    };
                    CartView { sub: Some(s), ..self }
                }
            },
            Some(SubView::Mbc3 { banks, ram_active, mbs, rbs }) => {
                if index <= 0x1FFF {
                    CartView {
                        sub: Some(SubView::Mbc3 { banks, ram_active: value & 0xA == 0xA, mbs, rbs }),
                        ..self
                    }
                } else if index <= 0x3FFF {
                    CartView {
                        sub: Some(
                            SubView::Mbc3 {
                                banks,
                                ram_active,
                                mbs: if value & 0x7F == 0 {
                                    1
                                } else {
                                    (value & 0x7F) as u32
                                },
                                rbs,
                            },
                        ),
                        ..self
                    }
                } else {
                    self
                }
            },
            Some(SubView::Mbc5 { banks, ram_active, num_rom_banks, mbs, rbs }) => {
                if index <= 0x1FFF {
                    CartView {
                        sub: Some(
                            SubView::Mbc5 {
                                banks,
                                ram_active: value & 0xA == 0xA,
                                num_rom_banks,
                                mbs,
                                rbs,
                            },
                        ),
                        ..self
                    }
                } else if index <= 0x2FFF {
                    CartView {
                        sub: Some(
                            SubView::Mbc5 {
                                banks,
                                ram_active,
                                num_rom_banks,
                                mbs: (mbs & !0xFFu32) | (value as u32),
                                rbs,
                            },
                        ),
                        ..self
                    }
                } else if index <= 0x3FFF {
                    CartView {
                        sub: Some(
                            SubView::Mbc5 {
                                banks,
                                ram_active,
                                num_rom_banks,
                                mbs: (mbs & !0x100u32) | (((value as u32) & 1) << 8u32),
                                rbs,
                            },
                        ),
                        ..self
                    }
                } else if index <= 0x5FFF {
                    CartView {
                        sub: Some(
                            SubView::Mbc5 {
                                banks,
                                ram_active,
                                num_rom_banks,
                                mbs,
                                rbs: (value as u32) & 0xF,
                            },
                        ),
                        ..self
                    }
                } else if index <= 0x7FFF {
                    self
                } else {
                    self.written(index, value)
                }
            },
            _ => self.written(index, value),
        }
    }

    /// Whether `ram_value_written` stores a byte the cartridge can hold
    pub open spec fn ram_write_defined(self, index: u16) -> bool {
        match self.sub {
            Some(SubView::Mbc1 { .. }) => index <= 0x7FFF || self.write_defined(index),
            Some(SubView::Mbc3 { .. }) => true,
            Some(SubView::Mbc5 { .. }) => index <= 0x7FFF || self.write_defined(index),
            _ => self.write_defined(index),
        }
    }
}

/// A bank offset wrapped below `0x4000 * n`
proof fn lemma_masked(x: u64, n: u32)
    requires
        n >= 1,
    ensures
        (x & ((0x4000 * n - 1) as u64)) < 0x4000 * n,
{
    let m: u64 = (0x4000 * n - 1) as u64;
    assert(x & m <= m) by (bit_vector);
}

fn zero_banks(n: u8) -> (v: Vec<[u8; 0x2000]>)
    ensures
        v@.len() == n,
        forall|i: int| 0 <= i < n ==> (#[trigger] v@[i])@ == Seq::new(0x2000, |j: int| 0u8),
{
    let mut v: Vec<[u8; 0x2000]> = Vec::new();
    let mut i: u8 = 0;
    while i < n
        invariant
            i <= n,
            v@.len() == i,
            forall|k: int| 0 <= k < i ==> (#[trigger] v@[k])@ == Seq::new(0x2000, |j: int| 0u8),
        decreases n - i,
    {
        let b = [0u8; 0x2000];
        assert(b@ =~= Seq::new(0x2000, |j: int| 0u8));
        v.push(b);
        i = i + 1;
    }
    v
}

/// What `gameboy_rom`'s header parse gives for a ROM image: the `Debug` name
/// of its cartridge type, whether it supports the Game Boy Color, whether
/// it supports the Super Game Boy, its number of RAM banks and their size;
/// or the text of the parse's error
pub uninterp spec fn parsed_header(rom: Seq<u8>) -> Result<(Seq<char>, bool, bool, u8, u16), Seq<char>>;

/// The header fields with their texts taken by view
pub open spec fn header_fields(r: Result<(String, bool, bool, u8, u16), String>) -> Result<
    (Seq<char>, bool, bool, u8, u16),
    Seq<char>,
> {
    match r {
        Ok(h) => Ok((h.0@, h.1, h.2, h.3, h.4)),
        Err(e) => Err(e@),
    }
}

/// Parses a ROM image's header with `gameboy_rom::GameBoyRom::parse_header`.
/// Stated: the result is `parsed_header` of the image. It fails on an image
/// shorter than the header (0x150 bytes), and on a ROM size byte (0x148) or
/// RAM size byte (0x149) that the parser does not know; it succeeds when
/// both are known and the title (0x134 to 0x142) is ASCII. On success the
/// type's name is the `Debug` name of the type that byte 0x147 stands for,
/// the RAM banks and their size are those that byte 0x149 declares, the
/// color flag is byte 0x143 being 0x80 or 0xC0 and the Super Game Boy flag
/// is byte 0x146 being 3. Whether a title that is not ASCII is valid UTF-8,
/// and the error's text, are left to the name.
#[verifier::external_body]
fn parse_rom_header(rom: &Vec<u8>) -> (r: Result<(String, bool, bool, u8, u16), String>)
    ensures
        header_fields(r) == parsed_header(rom@),
        rom@.len() < 0x150 ==> r is Err,
        rom@.len() >= 0x150 && !(rom_size_known(rom@[0x148]) && ram_size_of_byte(rom@[0x149]) is Some)
            ==> r is Err,
        rom@.len() >= 0x150 && rom_size_known(rom@[0x148]) && ram_size_of_byte(rom@[0x149]) is Some
            && title_ascii(rom@) ==> r is Ok,
        r is Ok ==> rom@.len() >= 0x150 && r->Ok_0.0@ == type_name_of_byte(rom@[0x147])
            && ram_size_of_byte(rom@[0x149]) == Some((r->Ok_0.3, r->Ok_0.4)) && r->Ok_0.1 == (rom@[0x143]
            == 0x80 || rom@[0x143] == 0xC0) && r->Ok_0.2 == (rom@[0x146] == 3),
{
    let image = gameboy_rom::GameBoyRom::new(rom.as_slice());
    let h = image.parse_header()?;
    let color = h.gameboy_color.supports_color();
    Ok((format!("{:?}", h.rom_type), color, h.super_gameboy, h.ram_banks, h.ram_bank_size))
}

/// The name of the cartridge type at place `i` of `RomKind`, as `Debug`
/// writes it
pub open spec fn kind_name(i: int) -> Seq<char> {
    if i == 0 {
        "RomOnly"@
    } else if i == 1 {
        "Mbc1"@
    } else if i == 2 {
        "Mbc1Ram"@
    } else if i == 3 {
        "Mbc1RamBattery"@
    } else if i == 4 {
        "Mbc2"@
    } else if i == 5 {
        "Mbc2Battery"@
    } else if i == 6 {
        "RomRam"@
    } else if i == 7 {
        "RomRamBattery"@
    } else if i == 8 {
        "Mmm01"@
    } else if i == 9 {
        "Mmm01Sram"@
    } else if i == 10 {
        "Mmm01SramBattery"@
    } else if i == 11 {
        "Mbc3TimerBattery"@
    } else if i == 12 {
        "Mbc3TimerRamBattery"@
    } else if i == 13 {
        "Mbc3"@
    } else if i == 14 {
        "Mbc3Ram"@
    } else if i == 15 {
        "Mbc3RamBattery"@
    } else if i == 16 {
        "Mbc5"@
    } else if i == 17 {
        "Mbc5Ram"@
    } else if i == 18 {
        "Mbc5RamBattery"@
    } else if i == 19 {
        "Mbc5Rumble"@
    } else if i == 20 {
        "Mbc5RumbleSram"@
    } else if i == 21 {
        "Mbc5RumbleSramBattery"@
    } else if i == 22 {
        "PocketCamera"@
    } else if i == 23 {
        "Tama5"@
    } else if i == 24 {
        "Huc3"@
    } else {
        "Huc1"@
    }
}

/// The cartridge type at place `i` of `RomKind`
pub open spec fn kind_at(i: int) -> RomKind {
    if i == 0 { RomKind::RomOnly }
    else if i == 1 { RomKind::Mbc1 }
    else if i == 2 { RomKind::Mbc1Ram }
    else if i == 3 { RomKind::Mbc1RamBattery }
    else if i == 4 { RomKind::Mbc2 }
    else if i == 5 { RomKind::Mbc2Battery }
    else if i == 6 { RomKind::RomRam }
    else if i == 7 { RomKind::RomRamBattery }
    else if i == 8 { RomKind::Mmm01 }
    else if i == 9 { RomKind::Mmm01Sram }
    else if i == 10 { RomKind::Mmm01SramBattery }
    else if i == 11 { RomKind::Mbc3TimerBattery }
    else if i == 12 { RomKind::Mbc3TimerRamBattery }
    else if i == 13 { RomKind::Mbc3 }
    else if i == 14 { RomKind::Mbc3Ram }
    else if i == 15 { RomKind::Mbc3RamBattery }
    else if i == 16 { RomKind::Mbc5 }
    else if i == 17 { RomKind::Mbc5Ram }
    else if i == 18 { RomKind::Mbc5RamBattery }
    else if i == 19 { RomKind::Mbc5Rumble }
    else if i == 20 { RomKind::Mbc5RumbleSram }
    else if i == 21 { RomKind::Mbc5RumbleSramBattery }
    else if i == 22 { RomKind::PocketCamera }
    else if i == 23 { RomKind::Tama5 }
    else if i == 24 { RomKind::Huc3 }
    else { RomKind::Huc1 }
}

/// The value of a decimal numeral
pub open spec fn decimal_value(s: Seq<char>) -> int
    decreases s.len(),
{
    if s.len() == 0 {
        0
    } else {
        decimal_value(s.drop_last()) * 10 + (s.last() as int - '0' as int)
    }
}

/// Whether `s` is a nonempty decimal numeral
pub open spec fn is_numeral(s: Seq<char>) -> bool {
    s.len() > 0 && forall|i: int| 0 <= i < s.len() ==> '0' <= #[trigger] s[i] <= '9'
}

/// The cartridge type named `name` among the places from `i` on
pub open spec fn kind_search(name: Seq<char>, i: int) -> Option<RomKind>
    decreases 26 - i,
{
    if i < 0 || i >= 26 {
        None
    } else if kind_name(i) == name {
        Some(kind_at(i))
    } else {
        kind_search(name, i + 1)
    }
}

/// The cartridge type that a `Debug` name stands for: one of the names, or
/// `Other(n)` with `n` a byte in decimal
pub open spec fn kind_named(name: Seq<char>) -> Option<RomKind> {
    if kind_search(name, 0) is Some {
        kind_search(name, 0)
    } else if name.len() > 7 && name.subrange(0, 6) == "Other("@ && name.last() == ')' && is_numeral(
        name.subrange(6, name.len() - 1),
    ) && decimal_value(name.subrange(6, name.len() - 1)) <= 255 {
        Some(RomKind::Other(decimal_value(name.subrange(6, name.len() - 1)) as u8))
    } else {
        None
    }
}

/// The place in `RomKind` of the cartridge type that header byte `b`
/// names, or -1 for a byte with no name
pub open spec fn type_byte_place(b: u8) -> int {
    if b == 0x00 { 0 }
    else if b == 0x01 { 1 }
    else if b == 0x02 { 2 }
    else if b == 0x03 { 3 }
    else if b == 0x05 { 4 }
    else if b == 0x06 { 5 }
    else if b == 0x08 { 6 }
    else if b == 0x09 { 7 }
    else if b == 0x0B { 8 }
    else if b == 0x0C { 9 }
    else if b == 0x0D { 10 }
    else if b == 0x0F { 11 }
    else if b == 0x10 { 12 }
    else if b == 0x11 { 13 }
    else if b == 0x12 { 14 }
    else if b == 0x13 { 15 }
    else if b == 0x19 { 16 }
    else if b == 0x1A { 17 }
    else if b == 0x1B { 18 }
    else if b == 0x1C { 19 }
    else if b == 0x1D { 20 }
    else if b == 0x1E { 21 }
    else if b == 0x1F { 22 }
    else if b == 0xFD { 23 }
    else if b == 0xFE { 24 }
    else if b == 0xFF { 25 }
    else { -1 }
}

/// The cartridge type that header byte `b` stands for
pub open spec fn type_of_byte(b: u8) -> RomKind {
    if type_byte_place(b) >= 0 {
        kind_at(type_byte_place(b))
    } else {
        RomKind::Other(b)
    }
}

/// The character of a decimal digit
pub open spec fn digit_char(d: int) -> char {
    if d == 0 { '0' }
    else if d == 1 { '1' }
    else if d == 2 { '2' }
    else if d == 3 { '3' }
    else if d == 4 { '4' }
    else if d == 5 { '5' }
    else if d == 6 { '6' }
    else if d == 7 { '7' }
    else if d == 8 { '8' }
    else { '9' }
}

/// A natural number written in decimal, without leading zeros
pub open spec fn decimal_text(n: nat) -> Seq<char>
    decreases n,
{
    if n < 10 {
        seq![digit_char(n as int)]
    } else {
        decimal_text(n / 10).push(digit_char((n % 10) as int))
    }
}

/// The `Debug` name of the cartridge type that header byte `b` stands for
pub open spec fn type_name_of_byte(b: u8) -> Seq<char> {
    if type_byte_place(b) >= 0 {
        kind_name(type_byte_place(b))
    } else {
        "Other("@ + decimal_text(b as nat) + ")"@
    }
}

/// The RAM banks and bank size that header byte `b` declares, if any
pub open spec fn ram_size_of_byte(b: u8) -> Option<(u8, u16)> {
    if b == 0 {
        Some((0u8, 0u16))
    } else if b == 1 {
        Some((1u8, 0x800u16))
    } else if b == 2 {
        Some((1u8, 0x2000u16))
    } else if b == 3 {
        Some((4u8, 0x2000u16))
    } else if b == 4 {
        Some((16u8, 0x2000u16))
    } else if b == 5 {
        Some((8u8, 0x2000u16))
    } else {
        None
    }
}

/// Whether header byte `b` declares a known number of ROM banks
pub open spec fn rom_size_known(b: u8) -> bool {
    b <= 8 || b == 0x52 || b == 0x53 || b == 0x54
}

/// Whether the title bytes of a header (0x134 to 0x142) are all ASCII
pub open spec fn title_ascii(rom: Seq<u8>) -> bool {
    forall|i: int| 0x134 <= i < 0x143 ==> #[trigger] rom[i] < 0x80
}

/// A number written in decimal reads back as that number
proof fn lemma_decimal_text(n: nat)
    ensures
        is_numeral(decimal_text(n)),
        decimal_value(decimal_text(n)) == n,
    decreases n,
{
    if n < 10 {
        assert(decimal_text(n).drop_last() =~= Seq::<char>::empty());
        assert(decimal_text(n).last() as int - '0' as int == n);
        assert(decimal_value(Seq::<char>::empty()) == 0);
        assert(decimal_value(decimal_text(n)) == decimal_value(decimal_text(n).drop_last()) * 10 + (
        decimal_text(n).last() as int - '0' as int));
    } else {
        lemma_decimal_text(n / 10);
        let s = decimal_text(n / 10);
        let t = decimal_text(n);
        assert(t.drop_last() =~= s);
        assert(t.last() == digit_char((n % 10) as int));
        assert((n / 10) * 10 + n % 10 == n) by (nonlinear_arith);
        assert(t.last() as int - '0' as int == n % 10);
        assert(decimal_value(t) == decimal_value(t.drop_last()) * 10 + (t.last() as int - '0' as int));
    }
}

/// The place of a cartridge type name, told by its length, its first,
/// fourth and last characters
spec fn name_place(s: Seq<char>) -> int {
    if s.len() == 7 && s[0] == 'R' && s[3] == 'O' && s.last() == 'y' {
        0
    } else if s.len() == 4 && s[0] == 'M' && s[3] == '1' && s.last() == '1' {
        1
    } else if s.len() == 7 && s[0] == 'M' && s[3] == '1' && s.last() == 'm' {
        2
    } else if s.len() == 14 && s[0] == 'M' && s[3] == '1' && s.last() == 'y' {
        3
    } else if s.len() == 4 && s[0] == 'M' && s[3] == '2' && s.last() == '2' {
        4
    } else if s.len() == 11 && s[0] == 'M' && s[3] == '2' && s.last() == 'y' {
        5
    } else if s.len() == 6 && s[0] == 'R' && s[3] == 'R' && s.last() == 'm' {
        6
    } else if s.len() == 13 && s[0] == 'R' && s[3] == 'R' && s.last() == 'y' {
        7
    } else if s.len() == 5 && s[0] == 'M' && s[3] == '0' && s.last() == '1' {
        8
    } else if s.len() == 9 && s[0] == 'M' && s[3] == '0' && s.last() == 'm' {
        9
    } else if s.len() == 16 && s[0] == 'M' && s[3] == '0' && s.last() == 'y' {
        10
    } else if s.len() == 16 && s[0] == 'M' && s[3] == '3' && s.last() == 'y' {
        11
    } else if s.len() == 19 && s[0] == 'M' && s[3] == '3' && s.last() == 'y' {
        12
    } else if s.len() == 4 && s[0] == 'M' && s[3] == '3' && s.last() == '3' {
        13
    } else if s.len() == 7 && s[0] == 'M' && s[3] == '3' && s.last() == 'm' {
        14
    } else if s.len() == 14 && s[0] == 'M' && s[3] == '3' && s.last() == 'y' {
        15
    } else if s.len() == 4 && s[0] == 'M' && s[3] == '5' && s.last() == '5' {
        16
    } else if s.len() == 7 && s[0] == 'M' && s[3] == '5' && s.last() == 'm' {
        17
    } else if s.len() == 14 && s[0] == 'M' && s[3] == '5' && s.last() == 'y' {
        18
    } else if s.len() == 10 && s[0] == 'M' && s[3] == '5' && s.last() == 'e' {
        19
    } else if s.len() == 14 && s[0] == 'M' && s[3] == '5' && s.last() == 'm' {
        20
    } else if s.len() == 21 && s[0] == 'M' && s[3] == '5' && s.last() == 'y' {
        21
    } else if s.len() == 12 && s[0] == 'P' && s[3] == 'k' && s.last() == 'a' {
        22
    } else if s.len() == 5 && s[0] == 'T' && s[3] == 'a' && s.last() == '5' {
        23
    } else if s.len() == 4 && s[0] == 'H' && s[3] == '3' && s.last() == '3' {
        24
    } else if s.len() == 4 && s[0] == 'H' && s[3] == '1' && s.last() == '1' {
        25
    } else {
        -1
    }
}

/// No two cartridge type names are the same, and none starts with 'O'
proof fn lemma_kind_names()
    ensures
        forall|i: int, j: int| 0 <= i < 26 && 0 <= j < 26 && i != j ==> kind_name(i) != kind_name(j),
        forall|i: int| 0 <= i < 26 ==> kind_name(i).len() > 0 && kind_name(i)[0] != 'O',
{
    reveal_strlit("RomOnly");
    reveal_strlit("Mbc1");
    reveal_strlit("Mbc1Ram");
    reveal_strlit("Mbc1RamBattery");
    reveal_strlit("Mbc2");
    reveal_strlit("Mbc2Battery");
    reveal_strlit("RomRam");
    reveal_strlit("RomRamBattery");
    reveal_strlit("Mmm01");
    reveal_strlit("Mmm01Sram");
    reveal_strlit("Mmm01SramBattery");
    reveal_strlit("Mbc3TimerBattery");
    reveal_strlit("Mbc3TimerRamBattery");
    reveal_strlit("Mbc3");
    reveal_strlit("Mbc3Ram");
    reveal_strlit("Mbc3RamBattery");
    reveal_strlit("Mbc5");
    reveal_strlit("Mbc5Ram");
    reveal_strlit("Mbc5RamBattery");
    reveal_strlit("Mbc5Rumble");
    reveal_strlit("Mbc5RumbleSram");
    reveal_strlit("Mbc5RumbleSramBattery");
    reveal_strlit("PocketCamera");
    reveal_strlit("Tama5");
    reveal_strlit("Huc3");
    reveal_strlit("Huc1");
    assert forall|i: int| 0 <= i < 26 implies name_place(#[trigger] kind_name(i)) == i by {}
}

/// A search from place `i` on finds the type whose name is at place `p`
proof fn lemma_search_finds(p: int, i: int)
    requires
        0 <= i <= p < 26,
    ensures
        kind_search(kind_name(p), i) == Some(kind_at(p)),
    decreases p - i,
{
    lemma_kind_names();
    if i < p {
        lemma_search_finds(p, i + 1);
    }
}

/// A search from place `i` on for a name that no place from `i` on has
/// finds nothing
proof fn lemma_search_misses(name: Seq<char>, i: int)
    requires
        0 <= i <= 26,
        forall|j: int| i <= j < 26 ==> kind_name(j) != name,
    ensures
        kind_search(name, i) is None,
    decreases 26 - i,
{
    if i < 26 {
        lemma_search_misses(name, i + 1);
    }
}

/// The name that the header parser gives the type byte `b` stands for
/// the type of that byte
pub proof fn lemma_type_name_of_byte(b: u8)
    ensures
        kind_named(type_name_of_byte(b)) == Some(type_of_byte(b)),
{
    lemma_kind_names();
    let p = type_byte_place(b);
    if p >= 0 {
        lemma_search_finds(p, 0);
    } else {
        reveal_strlit("Other(");
        reveal_strlit(")");
        let d = decimal_text(b as nat);
        let name = type_name_of_byte(b);
        lemma_decimal_text(b as nat);
        assert(name[0] == 'O');
        assert forall|j: int| 0 <= j < 26 implies kind_name(j) != name by {
            assert(kind_name(j)[0] != name[0]);
        }
        lemma_search_misses(name, 0);
        assert(name.subrange(0, 6) =~= "Other("@);
        assert(name.subrange(6, name.len() - 1) =~= d);
    }
}

/// The header that the cartridge uses, from the parsed fields
pub open spec fn header_info(k: RomKind, f: (Seq<char>, bool, bool, u8, u16)) -> RomHeaderInfo {
    RomHeaderInfo {
        rom_type: k,
        supports_color: f.1,
        super_gameboy: f.2,
        ram_banks: f.3,
        ram_bank_size: f.4,
    }
}

/// Why a ROM image cannot be loaded
#[derive(Debug)]
pub enum LoadError {
    /// The header does not parse; the parser's text
    Header(String),
    /// The parser named a cartridge type that is not known
    UnknownType(String),
    /// The cartridge cannot be built
    Cartridge(CartridgeError),
}

/// RAM banks one after the other
pub open spec fn concat_banks(b: Seq<Seq<u8>>) -> Seq<u8>
    decreases b.len(),
{
    if b.len() == 0 {
        seq![]
    } else {
        concat_banks(b.drop_last()) + b.last()
    }
}

impl CartView {
    /// The RAM that is saved for a game: the banks of an MBC1 cartridge,
    /// nothing for the others
    pub open spec fn saved_ram(self) -> Seq<u8> {
        match self.sub {
            Some(SubView::Mbc1 { banks, .. }) => concat_banks(banks),
            _ => seq![],
        }
    }

    /// The cartridge with saved RAM read back: each MBC1 bank in turn takes
    /// the next 0x2000 bytes of `data`; other cartridges are unchanged
    pub open spec fn ram_restored(self, data: Seq<u8>) -> CartView {
        match self.sub {
            Some(SubView::Mbc1 { four_32, banks, ram_active, num_rom_banks, mbs, rbs }) => CartView {
                sub: Some(
                    SubView::Mbc1 {
                        four_32,
                        banks: Seq::new(
                            banks.len(),
                            |i: int| data.subrange(i * 0x2000, i * 0x2000 + 0x2000),
                        ),
                        ram_active,
                        num_rom_banks,
                        mbs,
                        rbs,
                    },
                ),
                ..self
            },
            _ => self,
        }
    }

    /// Whether saved RAM can be read back: it holds all MBC1 banks
    pub open spec fn ram_restore_ok(self, data: Seq<u8>) -> bool {
        match self.sub {
            Some(SubView::Mbc1 { banks, .. }) => data.len() >= banks.len() * 0x2000,
            _ => true,
        }
    }
}

/// The bank layout of a new cartridge of a supported type
pub open spec fn loaded_sub(rom_len: nat, h: RomHeaderInfo) -> Option<SubView> {
    let zero_bank = Seq::new(0x2000, |j: int| 0u8);
    let banks = Seq::new(h.ram_banks as nat, |i: int| zero_bank);
    let nrb = (rom_len / 0x4000) as u32;
    match h.rom_type {
        RomKind::RomOnly | RomKind::RomRam | RomKind::RomRamBattery => Some(
            SubView::RomOnly { ram: zero_bank },
        ),
        RomKind::Mbc1 | RomKind::Mbc1Ram | RomKind::Mbc1RamBattery => Some(
            SubView::Mbc1 {
                four_32: false,
                banks,
                ram_active: false,
                num_rom_banks: nrb,
                mbs: 1,
                rbs: 0,
            },
        ),
        RomKind::Mbc3 | RomKind::Mbc3Ram | RomKind::Mbc3RamBattery
        | RomKind::Mbc3TimerRamBattery => Some(
            SubView::Mbc3 { banks, ram_active: false, mbs: 1, rbs: 0 },
        ),
        RomKind::Mbc5 | RomKind::Mbc5Ram | RomKind::Mbc5RamBattery | RomKind::Mbc5Rumble
        | RomKind::Mbc5RumbleSram | RomKind::Mbc5RumbleSramBattery => Some(
            SubView::Mbc5 { banks, ram_active: false, num_rom_banks: nrb, mbs: 1, rbs: 0 },
        ),
        _ => None,
    }
}

/// Whether the header asks for the MBC3 layout (whose RAM banks must be
/// 8 KiB)
pub open spec fn is_mbc3(k: RomKind) -> bool {
    k == RomKind::Mbc3 || k == RomKind::Mbc3Ram || k == RomKind::Mbc3RamBattery || k
        == RomKind::Mbc3TimerRamBattery
}

impl Cartridge {
    /// The ROM holds at least one bank, and the cached bank counts fit it
    pub closed spec fn wf(&self) -> bool {
        self@.wf()
    }

    pub proof fn lemma_wf(&self)
        requires
            self.wf(),
        ensures
            self@.wf(),
    {
    }

    /// The state of an empty cartridge
    pub open spec fn spec_new() -> CartView {
        CartView { rom: Seq::new(0x4000, |i: int| 0u8), sub: None, dummy: 0, gbc: false, sgb: false }
    }

    /// An empty cartridge: one zeroed ROM bank and no controller
    pub fn new() -> (c: Cartridge)
        ensures
            c.wf(),
            c@ == Cartridge::spec_new(),
    {
        let c = Cartridge {
            entire_rom_data: vec![0u8; ROM_BANK_SIZE],
            cart_sub: None,
            gbc: false,
            sgb: false,
            dummy_value: 0,
        };
        assert(c@.rom =~= Seq::new(0x4000, |i: int| 0u8));
        c
    }

    /// Builds a cartridge from a ROM image and its parsed header: the
    /// controller follows the header's cartridge type, RAM banks start
    /// zeroed, and MBC1 and MBC5 cache the ROM size in banks
    pub fn from_rom(rom_buffer: Vec<u8>, header: RomHeaderInfo) -> (r: Result<Cartridge, CartridgeError>)
        requires
            rom_buffer@.len() / 0x4000 <= u32::MAX,
        ensures
            rom_buffer@.len() < 0x4000 ==> r == Err::<Cartridge, CartridgeError>(
                CartridgeError::TooSmall { len: rom_buffer@.len() as usize },
            ),
            rom_buffer@.len() >= 0x4000 && loaded_sub(rom_buffer@.len(), header) is None ==> r == Err::<
                Cartridge,
                CartridgeError,
            >(CartridgeError::Unsupported { rom_type: header.rom_type }),
            r matches Ok(c) ==> rom_buffer@.len() >= 0x4000 && c.wf() && c@ == (CartView {
                rom: rom_buffer@,
                sub: loaded_sub(rom_buffer@.len(), header),
                dummy: 0,
                gbc: header.supports_color,
                sgb: header.super_gameboy,
            }),
            rom_buffer@.len() >= 0x4000 && loaded_sub(rom_buffer@.len(), header) is Some ==> r is Ok,
    {
        let len = rom_buffer.len();
        if len < ROM_BANK_SIZE {
            return Err(CartridgeError::TooSmall { len });
        }
        let nrb = (len / ROM_BANK_SIZE) as u32;
        let sub = match header.rom_type {
            RomKind::RomOnly | RomKind::RomRam | RomKind::RomRamBattery => {
                let b = [0u8; 0x2000];
                assert(b@ =~= Seq::new(0x2000, |j: int| 0u8));
                CartridgeSubType::RomOnly { ram_bank: b }
            },
            RomKind::Mbc1 | RomKind::Mbc1Ram | RomKind::Mbc1RamBattery => CartridgeSubType::Mbc1 {
                memory_model: Mbc1Type::SixteenEight,
                ram_banks: zero_banks(header.ram_banks),
                ram_active: false,
                mem_bank_selector: 1,
                ram_bank_selector: 0,
                num_rom_banks: nrb,
            },
            RomKind::Mbc3 | RomKind::Mbc3Ram | RomKind::Mbc3RamBattery
            | RomKind::Mbc3TimerRamBattery => CartridgeSubType::Mbc3 {
                ram_banks: zero_banks(header.ram_banks),
                ram_active: false,
                mem_bank_selector: 1,
                ram_bank_selector: 0,
            },
            RomKind::Mbc5 | RomKind::Mbc5Ram | RomKind::Mbc5RamBattery | RomKind::Mbc5Rumble
            | RomKind::Mbc5RumbleSram | RomKind::Mbc5RumbleSramBattery => CartridgeSubType::Mbc5 {
                ram_banks: zero_banks(header.ram_banks),
                ram_active: false,
                mem_bank_selector: 1,
                ram_bank_selector: 0,
                num_rom_banks: nrb,
            },
            otherwise => {
                return Err(CartridgeError::Unsupported { rom_type: otherwise });
            },
        };
        let c = Cartridge {
            gbc: header.supports_color,
            sgb: header.super_gameboy,
            entire_rom_data: rom_buffer,
            cart_sub: Some(sub),
            dummy_value: 0,
        };
        proof {
            let zero_bank = Seq::new(0x2000, |j: int| 0u8);
            match c@.sub {
                Some(SubView::Mbc1 { banks, .. }) => {
                    assert(banks =~= Seq::new(header.ram_banks as nat, |i: int| zero_bank));
                },
                Some(SubView::Mbc3 { banks, .. }) => {
                    assert(banks =~= Seq::new(header.ram_banks as nat, |i: int| zero_bank));
                },
                Some(SubView::Mbc5 { banks, .. }) => {
                    assert(banks =~= Seq::new(header.ram_banks as nat, |i: int| zero_bank));
                },
                _ => {},
            }
        }
        Ok(c)
    }
}

/// The name of the cartridge type at place `i` of `RomKind`
fn kind_name_text(i: usize) -> (r: &'static str)
    ensures
        r@ == kind_name(i as int),
{
    if i == 0 {
        "RomOnly"
    } else if i == 1 {
        "Mbc1"
    } else if i == 2 {
        "Mbc1Ram"
    } else if i == 3 {
        "Mbc1RamBattery"
    } else if i == 4 {
        "Mbc2"
    } else if i == 5 {
        "Mbc2Battery"
    } else if i == 6 {
        "RomRam"
    } else if i == 7 {
        "RomRamBattery"
    } else if i == 8 {
        "Mmm01"
    } else if i == 9 {
        "Mmm01Sram"
    } else if i == 10 {
        "Mmm01SramBattery"
    } else if i == 11 {
        "Mbc3TimerBattery"
    } else if i == 12 {
        "Mbc3TimerRamBattery"
    } else if i == 13 {
        "Mbc3"
    } else if i == 14 {
        "Mbc3Ram"
    } else if i == 15 {
        "Mbc3RamBattery"
    } else if i == 16 {
        "Mbc5"
    } else if i == 17 {
        "Mbc5Ram"
    } else if i == 18 {
        "Mbc5RamBattery"
    } else if i == 19 {
        "Mbc5Rumble"
    } else if i == 20 {
        "Mbc5RumbleSram"
    } else if i == 21 {
        "Mbc5RumbleSramBattery"
    } else if i == 22 {
        "PocketCamera"
    } else if i == 23 {
        "Tama5"
    } else if i == 24 {
        "Huc3"
    } else {
        "Huc1"
    }
}

/// The cartridge type at place `i` of `RomKind`
fn kind_at_place(i: usize) -> (k: RomKind)
    ensures
        k == kind_at(i as int),
{
    if i == 0 {
        RomKind::RomOnly
    } else if i == 1 {
        RomKind::Mbc1
    } else if i == 2 {
        RomKind::Mbc1Ram
    } else if i == 3 {
        RomKind::Mbc1RamBattery
    } else if i == 4 {
        RomKind::Mbc2
    } else if i == 5 {
        RomKind::Mbc2Battery
    } else if i == 6 {
        RomKind::RomRam
    } else if i == 7 {
        RomKind::RomRamBattery
    } else if i == 8 {
        RomKind::Mmm01
    } else if i == 9 {
        RomKind::Mmm01Sram
    } else if i == 10 {
        RomKind::Mmm01SramBattery
    } else if i == 11 {
        RomKind::Mbc3TimerBattery
    } else if i == 12 {
        RomKind::Mbc3TimerRamBattery
    } else if i == 13 {
        RomKind::Mbc3
    } else if i == 14 {
        RomKind::Mbc3Ram
    } else if i == 15 {
        RomKind::Mbc3RamBattery
    } else if i == 16 {
        RomKind::Mbc5
    } else if i == 17 {
        RomKind::Mbc5Ram
    } else if i == 18 {
        RomKind::Mbc5RamBattery
    } else if i == 19 {
        RomKind::Mbc5Rumble
    } else if i == 20 {
        RomKind::Mbc5RumbleSram
    } else if i == 21 {
        RomKind::Mbc5RumbleSramBattery
    } else if i == 22 {
        RomKind::PocketCamera
    } else if i == 23 {
        RomKind::Tama5
    } else if i == 24 {
        RomKind::Huc3
    } else {
        RomKind::Huc1
    }
}

/// Whether two texts are the same
fn text_eq(a: &str, b: &str) -> (r: bool)
    ensures
        r == (a@ == b@),
{
    let n = a.unicode_len();
    if n != b.unicode_len() {
        return false;
    }
    let mut i: usize = 0;
    while i < n
        invariant
            n == a@.len(),
            n == b@.len(),
            i <= n,
            forall|j: int| 0 <= j < i ==> a@[j] == b@[j],
        decreases n - i,
    {
        if a.get_char(i) != b.get_char(i) {
            return false;
        }
        i = i + 1;
    }
    assert(a@ =~= b@);
    true
}

/// A numeral's value grows with each digit
proof fn lemma_numeral_prefix(s: Seq<char>, k: int)
    requires
        0 <= k <= s.len(),
        forall|i: int| 0 <= i < s.len() ==> '0' <= #[trigger] s[i] <= '9',
    ensures
        decimal_value(s.subrange(0, k)) <= decimal_value(s),
        decimal_value(s) >= 0,
    decreases s.len(),
{
    if s.len() > 0 {
        assert(s.subrange(0, s.len() as int) =~= s);
        if k < s.len() {
            lemma_numeral_prefix(s.drop_last(), k);
            assert(s.drop_last().subrange(0, k) =~= s.subrange(0, k));
        }
        lemma_numeral_prefix(s.drop_last(), s.len() - 1);
    }
}

/// The byte `n` of a name `Other(n)`
fn other_kind_byte(name: &str) -> (r: Option<u8>)
    ensures
        r matches Some(b) ==> name@.len() > 7 && name@.subrange(0, 6) == "Other("@ && name@.last()
            == ')' && is_numeral(name@.subrange(6, name@.len() - 1)) && decimal_value(
            name@.subrange(6, name@.len() - 1),
        ) == b,
        r is None ==> !(name@.len() > 7 && name@.subrange(0, 6) == "Other("@ && name@.last() == ')'
            && is_numeral(name@.subrange(6, name@.len() - 1)) && decimal_value(
            name@.subrange(6, name@.len() - 1),
        ) <= 255),
{
    proof {
        reveal_strlit("Other(");
    }
    let n = name.unicode_len();
    if n <= 7 {
        return None;
    }
    if !(name.get_char(0) == 'O' && name.get_char(1) == 't' && name.get_char(2) == 'h'
        && name.get_char(3) == 'e' && name.get_char(4) == 'r' && name.get_char(5) == '('
        && name.get_char(n - 1) == ')') {
        proof {
            if name@.subrange(0, 6) == "Other("@ {
                assert(name@[0] == name@.subrange(0, 6)[0]);
                assert(name@[1] == name@.subrange(0, 6)[1]);
                assert(name@[2] == name@.subrange(0, 6)[2]);
                assert(name@[3] == name@.subrange(0, 6)[3]);
                assert(name@[4] == name@.subrange(0, 6)[4]);
                assert(name@[5] == name@.subrange(0, 6)[5]);
            }
        }
        return None;
    }
    assert(name@.subrange(0, 6) =~= "Other("@);
    let ghost digits = name@.subrange(6, n - 1);
    let mut v: u32 = 0;
    let mut j: usize = 6;
    while j < n - 1
        invariant
            n == name@.len(),
            n > 7,
            6 <= j <= n - 1,
            digits == name@.subrange(6, n - 1),
            forall|i: int| 0 <= i < j - 6 ==> '0' <= #[trigger] digits[i] <= '9',
            v == decimal_value(digits.subrange(0, j - 6)),
            v <= 255,
        decreases n - 1 - j,
    {
        let c = name.get_char(j);
        if !('0' <= c && c <= '9') {
            assert(digits[j - 6] == c);
            return None;
        }
        let d = (c as u32) - ('0' as u32);
        proof {
            assert(digits.subrange(0, j + 1 - 6).drop_last() =~= digits.subrange(0, j - 6));
        }
        let w = v * 10 + d;
        if w > 255 {
            proof {
                if is_numeral(digits) {
                    lemma_numeral_prefix(digits, j + 1 - 6);
                }
            }
            return None;
        }
        v = w;
        j = j + 1;
    }
    assert(digits.subrange(0, j - 6) =~= digits);
    Some(v as u8)
}

/// The cartridge type that a `Debug` name stands for
fn kind_from_name(name: &str) -> (r: Option<RomKind>)
    ensures
        r == kind_named(name@),
{
    let mut i: usize = 0;
    while i < 26
        invariant
            i <= 26,
            kind_search(name@, 0) == kind_search(name@, i as int),
        decreases 26 - i,
    {
        if text_eq(name, kind_name_text(i)) {
            return Some(kind_at_place(i));
        }
        i = i + 1;
    }
    match other_kind_byte(name) {
        Some(b) => Some(RomKind::Other(b)),
        None => None,
    }
}

/// What loading a ROM image comes to
pub ghost enum LoadOutcome {
    HeaderError(Seq<char>),
    UnknownType(Seq<char>),
    CartridgeError(CartridgeError),
    Loaded(CartView),
}

/// What loading a ROM image comes to, by its parsed header
pub open spec fn image_outcome(rom: Seq<u8>, p: Result<(Seq<char>, bool, bool, u8, u16), Seq<char>>) -> LoadOutcome {
    match p {
        Err(e) => LoadOutcome::HeaderError(e),
        Ok(f) => match kind_named(f.0) {
            None => LoadOutcome::UnknownType(f.0),
            Some(k) => built_outcome(rom, header_info(k, f)),
        },
    }
}

/// What building a cartridge for `rom` with header `h` comes to
pub open spec fn built_outcome(rom: Seq<u8>, h: RomHeaderInfo) -> LoadOutcome {
    if rom.len() < 0x4000 {
        LoadOutcome::CartridgeError(CartridgeError::TooSmall { len: rom.len() as usize })
    } else if loaded_sub(rom.len(), h) is None {
        LoadOutcome::CartridgeError(CartridgeError::Unsupported { rom_type: h.rom_type })
    } else {
        LoadOutcome::Loaded(
            CartView {
                rom,
                sub: loaded_sub(rom.len(), h),
                dummy: 0,
                gbc: h.supports_color,
                sgb: h.super_gameboy,
            },
        )
    }
}

/// The header of a ROM image as its bytes give it: the type byte (0x147),
/// the color byte (0x143), the Super Game Boy byte (0x146) and the RAM size
/// byte (0x149)
pub open spec fn header_of_image(rom: Seq<u8>) -> RomHeaderInfo {
    let (banks, size) = match ram_size_of_byte(rom[0x149]) {
        Some(x) => x,
        None => (0u8, 0u16),
    };
    RomHeaderInfo {
        rom_type: type_of_byte(rom[0x147]),
        supports_color: rom[0x143] == 0x80 || rom[0x143] == 0xC0,
        super_gameboy: rom[0x146] == 3,
        ram_banks: banks,
        ram_bank_size: size,
    }
}

/// Whether the header parser accepts the image on grounds that its bytes
/// show: the header is whole, its ROM and RAM size bytes are known and its
/// title is ASCII
pub open spec fn header_readable(rom: Seq<u8>) -> bool {
    rom.len() >= 0x150 && rom_size_known(rom[0x148]) && ram_size_of_byte(rom[0x149]) is Some
        && title_ascii(rom)
}

/// What a loading result comes to
pub open spec fn load_outcome(r: Result<Cartridge, LoadError>) -> LoadOutcome {
    match r {
        Ok(c) => LoadOutcome::Loaded(c@),
        Err(LoadError::Header(t)) => LoadOutcome::HeaderError(t@),
        Err(LoadError::UnknownType(t)) => LoadOutcome::UnknownType(t@),
        Err(LoadError::Cartridge(e)) => LoadOutcome::CartridgeError(e),
    }
}

impl Cartridge {
    /// Loads a cartridge from a ROM image: its header parsed by
    /// `gameboy_rom`, then the cartridge built for its type. The parser's
    /// error, an unknown type name, or the cartridge's error is given back.
    pub fn load_image(rom_buffer: Vec<u8>) -> (r: Result<Cartridge, LoadError>)
        requires
            rom_buffer@.len() / 0x4000 <= u32::MAX,
        ensures
            load_outcome(r) == image_outcome(rom_buffer@, parsed_header(rom_buffer@)),
            r is Ok ==> r->Ok_0.wf(),
            !(load_outcome(r) is UnknownType),
            load_outcome(r) is HeaderError <==> parsed_header(rom_buffer@) is Err,
            parsed_header(rom_buffer@) is Ok ==> load_outcome(r) == built_outcome(
                rom_buffer@,
                header_of_image(rom_buffer@),
            ),
            rom_buffer@.len() < 0x150 || !(rom_size_known(rom_buffer@[0x148]) && ram_size_of_byte(
                rom_buffer@[0x149],
            ) is Some) ==> load_outcome(r) is HeaderError,
            header_readable(rom_buffer@) ==> !(load_outcome(r) is HeaderError),
    {
        let fields = match parse_rom_header(&rom_buffer) {
            Ok(f) => f,
            Err(e) => {
                return Err(LoadError::Header(e));
            },
        };
        proof {
            lemma_type_name_of_byte(rom_buffer@[0x147]);
        }
        let kind = match kind_from_name(fields.0.as_str()) {
            Some(k) => k,
            None => {
                return Err(LoadError::UnknownType(fields.0));
            },
        };
        let header = RomHeaderInfo {
            rom_type: kind,
            supports_color: fields.1,
            super_gameboy: fields.2,
            ram_banks: fields.3,
            ram_bank_size: fields.4,
        };
        match Cartridge::from_rom(rom_buffer, header) {
            Ok(c) => Ok(c),
            Err(e) => Err(LoadError::Cartridge(e)),
        }
    }
}

/// RAM banks read from `data`, each from the next 0x2000 bytes
fn banks_from(data: &[u8], n: usize) -> (v: Vec<[u8; 0x2000]>)
    requires
        data@.len() >= n * 0x2000,
    ensures
        banks_view(v@) == Seq::new(n as nat, |i: int| data@.subrange(i * 0x2000, i * 0x2000 + 0x2000)),
{
    let mut v: Vec<[u8; 0x2000]> = Vec::new();
    let dl = data.len();
    let mut i: usize = 0;
    while i < n
        invariant
            i <= n,
            dl == data@.len(),
            data@.len() >= n * 0x2000,
            v@.len() == i,
            forall|k: int|
                0 <= k < i ==> (#[trigger] v@[k])@ == data@.subrange(k * 0x2000, k * 0x2000 + 0x2000),
        decreases n - i,
    {
        assert((i + 1) * 0x2000 <= n * 0x2000) by (nonlinear_arith)
            requires
                i < n,
        ;
        let base = i * 0x2000;
        let mut b = [0u8; 0x2000];
        let mut j: usize = 0;
        while j < 0x2000
            invariant
                j <= 0x2000,
                base == i * 0x2000,
                base + 0x2000 <= data@.len(),
                forall|m: int| 0 <= m < j ==> b@[m] == data@[base + m],
            decreases 0x2000 - j,
        {
            b[j] = data[base + j];
            j = j + 1;
        }
        assert(b@ =~= data@.subrange(i * 0x2000, i * 0x2000 + 0x2000));
        v.push(b);
        i = i + 1;
    }
    assert(banks_view(v@) =~= Seq::new(
        n as nat,
        |i: int| data@.subrange(i * 0x2000, i * 0x2000 + 0x2000),
    ));
    v
}

impl Cartridge {
    /// The RAM that is saved for the game: the banks of an MBC1 cartridge
    /// one after the other, nothing for the others
    pub fn saved_ram(&self) -> (r: Vec<u8>)
        requires
            self.wf(),
        ensures
            r@ == self@.saved_ram(),
    {
        let mut out: Vec<u8> = Vec::new();
        match &self.cart_sub {
            Some(CartridgeSubType::Mbc1 { ram_banks, .. }) => {
                let mut i: usize = 0;
                while i < ram_banks.len()
                    invariant
                        i <= ram_banks@.len(),
                        out@ == concat_banks(banks_view(ram_banks@).take(i as int)),
                    decreases ram_banks@.len() - i,
                {
                    let ghost before = out@;
                    let mut j: usize = 0;
                    while j < 0x2000
                        invariant
                            i < ram_banks@.len(),
                            j <= 0x2000,
                            out@ == before + ram_banks@[i as int]@.take(j as int),
                        decreases 0x2000 - j,
                    {
                        out.push(ram_banks[i][j]);
                        j = j + 1;
                        assert(out@ =~= before + ram_banks@[i as int]@.take(j as int));
                    }
                    assert(banks_view(ram_banks@).take(i + 1).drop_last() =~= banks_view(
                        ram_banks@,
                    ).take(i as int));
                    assert(ram_banks@[i as int]@.take(0x2000) =~= ram_banks@[i as int]@);
                    i = i + 1;
                }
                assert(banks_view(ram_banks@).take(i as int) =~= banks_view(ram_banks@));
            },
            _ => {},
        }
        out
    }

    /// Reads saved RAM back: each MBC1 bank in turn takes the next 0x2000
    /// bytes of `data`; other cartridges keep their RAM
    pub fn restore_ram(&mut self, data: &[u8])
        requires
            old(self).wf(),
            old(self)@.ram_restore_ok(data@),
        ensures
            final(self).wf(),
            final(self)@ == old(self)@.ram_restored(data@),
    {
        let sub = self.cart_sub.take();
        self.cart_sub = match sub {
            Some(
                CartridgeSubType::Mbc1 {
                    memory_model,
                    ram_banks,
                    ram_active,
                    num_rom_banks,
                    mem_bank_selector,
                    ram_bank_selector,
                },
            ) => {
                let banks = banks_from(data, ram_banks.len());
                Some(
                    CartridgeSubType::Mbc1 {
                        memory_model,
                        ram_banks: banks,
                        ram_active,
                        num_rom_banks,
                        mem_bank_selector,
                        ram_bank_selector,
                    },
                )
            },
            other => other,
        };
    }
}

impl Cartridge {
    fn rom_at(&self, off: u64) -> (r: u8)
        requires
            off < self.entire_rom_data@.len(),
        ensures
            r == self.entire_rom_data@[off as int],
    {
        let len = self.entire_rom_data.len();
        assert(off < len);
        self.entire_rom_data[off as usize]
    }

    /// What the CPU reads from the cartridge at `ind`: the fixed ROM bank,
    /// the switchable ROM bank, or cartridge RAM
    pub fn index(&self, ind: u16) -> (r: u8)
        requires
            self.wf(),
            self@.read_defined(ind),
        ensures
            r == self@.read(ind),
    {
        if ind <= 0x3FFF {
            return self.entire_rom_data[ind as usize];
        }
        if ind <= 0x7FFF {
            return match &self.cart_sub {
                Some(CartridgeSubType::Mbc1 {
                    memory_model,
                    mem_bank_selector,
                    num_rom_banks,
                    ..
                }) => {
                    let bank: u64 = if *mem_bank_selector == 0 {
                        1
                    } else {
                        *mem_bank_selector as u64
                    };
                    let off: u64 = (bank - 1) * 0x4000 + ind as u64;
                    match memory_model {
                        Mbc1Type::SixteenEight => {
                            let m: u64 = 0x4000 * (*num_rom_banks as u64) - 1;
                            proof {
                                lemma_masked(off, *num_rom_banks);
                                assert(off == banked_offset(*mem_bank_selector, ind));
                                assert((off & m) as int == masked(banked_offset(*mem_bank_selector, ind), *num_rom_banks));
                                assert((off & m) < self@.rom.len());
                            }
                            self.rom_at(off & m)
                        },
                        Mbc1Type::FourThirtytwo => {
                            assert(off == banked_offset(*mem_bank_selector, ind));
                            self.rom_at(off)
                        },
                    }
                },
                Some(CartridgeSubType::Mbc3 { mem_bank_selector, .. }) => {
                    assert(self@.sub matches Some(SubView::Mbc3 { .. }));
                    assert(self@.sub->0->Mbc3_mbs == *mem_bank_selector);
                    assert(self@.read(ind) == self@.rom[banked_offset(*mem_bank_selector, ind)]);
                    let bank: u64 = if *mem_bank_selector == 0 {
                        1
                    } else {
                        *mem_bank_selector as u64
                    };
                    let off: u64 = (bank - 1) * 0x4000 + ind as u64;
                    assert(off == banked_offset(*mem_bank_selector, ind));
                    assert(off < self@.rom.len());
                    let v = self.rom_at(off);
                    assert(v == self@.rom[off as int]);
                    assert(v == self@.read(ind));
                    v
                },
                Some(CartridgeSubType::Mbc5 { mem_bank_selector, .. }) => {
                    let off: u64 = *mem_bank_selector as u64 * 0x4000 + ind as u64;
                    assert(off < self@.rom.len());
                    let v = self.rom_at(off);
                    assert(v == self@.read(ind));
                    v
                },
                _ => {
                    let v = self.entire_rom_data[ind as usize];
                    assert(v == self@.read(ind));
                    v
                },
            };
        }
        let j = (ind - 0xA000) as usize;
        match &self.cart_sub {
            Some(CartridgeSubType::RomOnly { ram_bank }) => ram_bank[j],
            Some(CartridgeSubType::Mbc1 { ram_banks, ram_active, ram_bank_selector, .. }) => {
                if *ram_active && (*ram_bank_selector as usize) < ram_banks.len() {
                    ram_banks[*ram_bank_selector as usize][j]
                } else {
                    NO_RAM_BUS_NOISE
                }
            },
            Some(CartridgeSubType::Mbc3 { ram_banks, ram_bank_selector, .. }) => {
                ram_banks[*ram_bank_selector as usize][j]
            },
            Some(CartridgeSubType::Mbc5 { ram_banks, ram_active, ram_bank_selector, .. }) => {
                if *ram_active && (*ram_bank_selector as usize) < ram_banks.len() {
                    ram_banks[*ram_bank_selector as usize][j]
                } else {
                    NO_RAM_BUS_NOISE
                }
            },
            None => 0,
        }
    }
}

impl Cartridge {
    /// The byte that a CPU write to `ind` lands in: ROM (the switchable
    /// bank wrapped to the ROM's size), the selected RAM bank, or a dummy
    /// byte when that RAM is off or missing
    pub fn index_mut(&mut self, ind: u16) -> (r: &mut u8)
        requires
            old(self).wf(),
            old(self)@.write_defined(ind),
        ensures
            *r == old(self)@.write_target(ind),
            final(self)@ == old(self)@.written(ind, *final(r)),
            final(self).wf(),
    {
        if ind <= 0x3FFF {
            return &mut self.entire_rom_data[ind as usize];
        }
        if ind <= 0x7FFF {
            let len = self.entire_rom_data.len();
            return match &mut self.cart_sub {
                Some(CartridgeSubType::Mbc1 { mem_bank_selector, num_rom_banks, .. }) => {
                    let bank: u64 = if *mem_bank_selector == 0 {
                        1
                    } else {
                        *mem_bank_selector as u64
                    };
                    let off: u64 = (bank - 1) * 0x4000 + ind as u64;
                    let m: u64 = 0x4000 * (*num_rom_banks as u64) - 1;
                    proof {
                        lemma_masked(off, *num_rom_banks);
                    }
                    assert((off & m) < len);
                    &mut self.entire_rom_data[(off & m) as usize]
                },
                Some(CartridgeSubType::Mbc5 { mem_bank_selector, num_rom_banks, .. }) => {
                    let off: u64 = *mem_bank_selector as u64 * 0x4000 + ind as u64;
                    let m: u64 = 0x4000 * (*num_rom_banks as u64) - 1;
                    proof {
                        lemma_masked(off, *num_rom_banks);
                    }
                    assert((off & m) < len);
                    &mut self.entire_rom_data[(off & m) as usize]
                },
                _ => &mut self.entire_rom_data[ind as usize],
            };
        }
        let j = (ind - 0xA000) as usize;
        match &mut self.cart_sub {
            Some(CartridgeSubType::RomOnly { ram_bank }) => &mut ram_bank[j],
            Some(CartridgeSubType::Mbc1 { ram_banks, ram_active, ram_bank_selector, .. }) => {
                if *ram_active && (*ram_bank_selector as usize) < ram_banks.len() {
                    &mut ram_banks[*ram_bank_selector as usize][j]
                } else {
                    &mut self.dummy_value
                }
            },
            Some(CartridgeSubType::Mbc5 { ram_banks, ram_active, ram_bank_selector, .. }) => {
                if *ram_active && (*ram_bank_selector as usize) < ram_banks.len() {
                    &mut ram_banks[*ram_bank_selector as usize][j]
                } else {
                    &mut self.dummy_value
                }
            },
            _ => &mut self.dummy_value,
        }
    }
}

impl Cartridge {
    /// A CPU write to the cartridge area: writes below 0x8000 program the
    /// memory bank controller (RAM enable, ROM bank, RAM bank, banking
    /// mode); other writes store the byte
    pub fn write_ram_value(&mut self, index: u16, value: u8)
        requires
            old(self).wf(),
            old(self)@.ram_write_defined(index),
        ensures
            final(self).wf(),
            final(self)@ == old(self)@.ram_value_written(index, value),
    {
        let is_mbc1 = matches!(self.cart_sub, Some(CartridgeSubType::Mbc1 { .. }));
        let is_mbc3 = matches!(self.cart_sub, Some(CartridgeSubType::Mbc3 { .. }));
        let is_mbc5 = matches!(self.cart_sub, Some(CartridgeSubType::Mbc5 { .. }));
        if (is_mbc1 && index <= 0x7FFF) || is_mbc3 || (is_mbc5 && index <= 0x7FFF) {
            match &mut self.cart_sub {
                Some(CartridgeSubType::Mbc1 {
                    memory_model,
                    mem_bank_selector,
                    ram_bank_selector,
                    ram_active,
                    ..
                }) => {
                    if index <= 0x1FFF {
                        *ram_active = (value & 0xF) == 0b1010;
                    } else if index <= 0x3FFF {
                        *mem_bank_selector = if (value & 0x1F) == 0 {
                            1
                        } else {
                            (value & 0x1F) as u32
                        };
                    } else if index <= 0x5FFF {
                        *ram_bank_selector = (value & 0x3) as u32;
                    } else {
                        *memory_model = if (index & 1) == 1 {
                            Mbc1Type::FourThirtytwo
                        } else {
                            Mbc1Type::SixteenEight
                        };
                    }
                },
                Some(CartridgeSubType::Mbc3 { mem_bank_selector, ram_active, .. }) => {
                    if index <= 0x1FFF {
                        *ram_active = (value & 0xA) == 0xA;
                    } else if index <= 0x3FFF {
                        *mem_bank_selector = if (value & 0x7F) == 0 {
                            1
                        } else {
                            (value & 0x7F) as u32
                        };
                    }
                },
                Some(CartridgeSubType::Mbc5 {
                    mem_bank_selector,
                    ram_bank_selector,
                    ram_active,
                    ..
                }) => {
                    if index <= 0x1FFF {
                        *ram_active = (value & 0xA) == 0xA;
                    } else if index <= 0x2FFF {
                        *mem_bank_selector = (*mem_bank_selector & !0xFF) | (value as u32);
                    } else if index <= 0x3FFF {
                        *mem_bank_selector = (*mem_bank_selector & !0x100) | (((value as u32)
                            & 1) << 8);
                    } else if index <= 0x5FFF {
                        *ram_bank_selector = (value as u32) & 0xF;
                    }
                },
                _ => {},
            }
        } else {
            let r = self.index_mut(index);
            *r = value;
        }
    }
}

impl Cartridge {
    /// Whether the ROM declares Game Boy Color features
    pub fn gbc_flag(&self) -> (r: bool)
        ensures
            r == self@.gbc,
    {
        self.gbc
    }

    /// Whether the ROM declares Super Game Boy features
    pub fn sgb_flag(&self) -> (r: bool)
        ensures
            r == self@.sgb,
    {
        self.sgb
    }
}

} // verus!
