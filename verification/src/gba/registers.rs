//! The ARM7TDMI register file with its banked registers and status words
use vstd::prelude::*;

verus! {

/// The mode field of a packed PC word
#[derive(Debug, Clone, Copy, PartialEq, Eq, Structural)]
pub enum Mode {
    User,
    FIQ,
    IRQ,
    Supervisor,
}

pub open spec fn spec_mode_from_u8(val: u8) -> Mode {
    if val == 0 {
        Mode::User
    } else if val == 1 {
        Mode::FIQ
    } else if val == 2 {
        Mode::IRQ
    } else {
        Mode::Supervisor
    }
}

impl Mode {
    pub fn from_u8(val: u8) -> (m: Mode)
        requires
            val < 4,
        ensures
            m == spec_mode_from_u8(val),
    {
        match val {
            0b00 => Mode::User,
            0b01 => Mode::FIQ,
            0b10 => Mode::IRQ,
            _ => Mode::Supervisor,
        }
    }
}

/// The processor modes, each with its own banked registers
#[derive(Debug, Clone, Copy, PartialEq, Eq, Structural)]
pub enum RegisterMode {
    User,
    FIQ,
    IRQ,
    Supervisor,
    Abort,
    Undefined,
    /// A privileged mode that shares the user registers
    System,
}

/// The mode that the low five bits of the CPSR encode, if any
pub open spec fn spec_register_mode_from_u8(val: u8) -> Option<RegisterMode> {
    if val == 0b10000 {
        Some(RegisterMode::User)
    } else if val == 0b10001 {
        Some(RegisterMode::FIQ)
    } else if val == 0b10010 {
        Some(RegisterMode::IRQ)
    } else if val == 0b10011 {
        Some(RegisterMode::Supervisor)
    } else if val == 0b10111 {
        Some(RegisterMode::Abort)
    } else if val == 0b11011 {
        Some(RegisterMode::Undefined)
    } else if val == 0b11111 {
        Some(RegisterMode::System)
    } else {
        None
    }
}

/// The five-bit encoding of a mode
pub open spec fn spec_register_mode_to_u8(m: RegisterMode) -> u8 {
    match m {
        RegisterMode::User => 0b10000,
        RegisterMode::FIQ => 0b10001,
        RegisterMode::IRQ => 0b10010,
        RegisterMode::Supervisor => 0b10011,
        RegisterMode::Abort => 0b10111,
        RegisterMode::Undefined => 0b11011,
        RegisterMode::System => 0b11111,
    }
}

impl RegisterMode {
    pub fn from_u8(val: u8) -> (r: Option<RegisterMode>)
        ensures
            r == spec_register_mode_from_u8(val),
    {
        match val {
            0b10000 => Some(Self::User),
            0b10001 => Some(Self::FIQ),
            0b10010 => Some(Self::IRQ),
            0b10011 => Some(Self::Supervisor),
            0b10111 => Some(Self::Abort),
            0b11011 => Some(Self::Undefined),
            0b11111 => Some(Self::System),
            _ => None,
        }
    }

    pub fn to_u8(self) -> (r: u8)
        ensures
            r == spec_register_mode_to_u8(self),
    {
        match self {
            Self::User => 0b10000,
            Self::FIQ => 0b10001,
            Self::IRQ => 0b10010,
            Self::Supervisor => 0b10011,
            Self::Abort => 0b10111,
            Self::Undefined => 0b11011,
            Self::System => 0b11111,
        }
    }
}

/// Decoding a mode's encoding gives the mode back.
pub proof fn lemma_register_mode_roundtrip(m: RegisterMode)
    ensures
        spec_register_mode_from_u8(spec_register_mode_to_u8(m)) == Some(m),
{
}

/// The condition field of an ARM instruction
#[derive(Debug, Clone, Copy, PartialEq, Eq, Structural)]
pub enum Cond {
    Eq,
    Ne,
    CsHs,
    CcLo,
    Mi,
    Pl,
    Vs,
    Vc,
    Hi,
    Ls,
    Ge,
    Lt,
    Gt,
    Le,
    Al,
    Nv,
}

pub open spec fn spec_cond_from_u8(val: u8) -> Cond {
    if val == 0 {
        Cond::Eq
    } else if val == 1 {
        Cond::Ne
    } else if val == 2 {
        Cond::CsHs
    } else if val == 3 {
        Cond::CcLo
    } else if val == 4 {
        Cond::Mi
    } else if val == 5 {
        Cond::Pl
    } else if val == 6 {
        Cond::Vs
    } else if val == 7 {
        Cond::Vc
    } else if val == 8 {
        Cond::Hi
    } else if val == 9 {
        Cond::Ls
    } else if val == 10 {
        Cond::Ge
    } else if val == 11 {
        Cond::Lt
    } else if val == 12 {
        Cond::Gt
    } else if val == 13 {
        Cond::Le
    } else if val == 14 {
        Cond::Al
    } else {
        Cond::Nv
    }
}

impl Cond {
    pub fn from_u8(val: u8) -> (c: Cond)
        requires
            val < 16,
        ensures
            c == spec_cond_from_u8(val),
    {
        match val {
            0b0000 => Cond::Eq,
            0b0001 => Cond::Ne,
            0b0010 => Cond::CsHs,
            0b0011 => Cond::CcLo,
            0b0100 => Cond::Mi,
            0b0101 => Cond::Pl,
            0b0110 => Cond::Vs,
            0b0111 => Cond::Vc,
            0b1000 => Cond::Hi,
            0b1001 => Cond::Ls,
            0b1010 => Cond::Ge,
            0b1011 => Cond::Lt,
            0b1100 => Cond::Gt,
            0b1101 => Cond::Le,
            0b1110 => Cond::Al,
            _ => Cond::Nv,
        }
    }
}

/// Bit `b` of `x`
pub open spec fn bit_of(x: u32, b: u32) -> bool {
    (x >> b) & 1 != 0
}

/// `x` with bit `b` set to `v`
pub open spec fn with_bit(x: u32, b: u32, v: bool) -> u32 {
    (x & !(1u32 << b)) | ((if v {
        1u32
    } else {
        0u32
    }) << b)
}

/// The 37 registers of the ARM7TDMI
pub struct Registers {
    pub r0: u32,
    pub r1: u32,
    pub r2: u32,
    pub r3: u32,
    pub r4: u32,
    pub r5: u32,
    pub r6: u32,
    pub r7: u32,
    pub r8: u32,
    pub r9: u32,
    pub r10: u32,
    pub r11: u32,
    pub r12: u32,
    /// r13
    pub sp: u32,
    /// r14
    pub lr: u32,
    /// r15
    pub pc: u32,
    pub r8_fiq: u32,
    pub r9_fiq: u32,
    pub r10_fiq: u32,
    pub r11_fiq: u32,
    pub r12_fiq: u32,
    /// fiq stack pointer
    pub r13_fiq: u32,
    pub r14_fiq: u32,
    /// svc stack pointer
    pub r13_svc: u32,
    pub r14_svc: u32,
    /// abt stack pointer
    pub r13_abt: u32,
    pub r14_abt: u32,
    /// irq stack pointer
    pub r13_irq: u32,
    pub r14_irq: u32,
    /// und stack pointer
    pub r13_und: u32,
    pub r14_und: u32,
    /// Flags, etc
    pub cpsr: u32,
    pub spsr_fiq: u32,
    pub spsr_svc: u32,
    pub spsr_abt: u32,
    pub spsr_irq: u32,
    pub spsr_und: u32,
}

impl Registers {
    /// The current mode, if the CPSR encodes one
    pub open spec fn mode(&self) -> Option<RegisterMode> {
        spec_register_mode_from_u8((self.cpsr & 0x1F) as u8)
    }

    /// Whether the current mode has a saved status register
    pub open spec fn has_spsr(&self) -> bool {
        self.mode() matches Some(m) && m != RegisterMode::User && m != RegisterMode::System
    }

    /// The saved status register of the current mode
    pub open spec fn spsr(&self) -> u32 {
        match self.mode() {
            Some(RegisterMode::FIQ) => self.spsr_fiq,
            Some(RegisterMode::Supervisor) => self.spsr_svc,
            Some(RegisterMode::Abort) => self.spsr_abt,
            Some(RegisterMode::IRQ) => self.spsr_irq,
            _ => self.spsr_und,
        }
    }

    /// The registers with the current mode's saved status register replaced
    pub open spec fn with_spsr(self, v: u32) -> Registers {
        match self.mode() {
            Some(RegisterMode::FIQ) => Registers { spsr_fiq: v, ..self },
            Some(RegisterMode::Supervisor) => Registers { spsr_svc: v, ..self },
            Some(RegisterMode::Abort) => Registers { spsr_abt: v, ..self },
            Some(RegisterMode::IRQ) => Registers { spsr_irq: v, ..self },
            _ => Registers { spsr_und: v, ..self },
        }
    }

    /// The link register of the current mode
    pub open spec fn banked_lr(&self) -> u32 {
        match self.mode() {
            Some(RegisterMode::FIQ) => self.r14_fiq,
            Some(RegisterMode::Supervisor) => self.r14_svc,
            Some(RegisterMode::Abort) => self.r14_abt,
            Some(RegisterMode::IRQ) => self.r14_irq,
            Some(RegisterMode::Undefined) => self.r14_und,
            _ => self.lr,
        }
    }

    pub open spec fn with_banked_lr(self, v: u32) -> Registers {
        match self.mode() {
            Some(RegisterMode::FIQ) => Registers { r14_fiq: v, ..self },
            Some(RegisterMode::Supervisor) => Registers { r14_svc: v, ..self },
            Some(RegisterMode::Abort) => Registers { r14_abt: v, ..self },
            Some(RegisterMode::IRQ) => Registers { r14_irq: v, ..self },
            Some(RegisterMode::Undefined) => Registers { r14_und: v, ..self },
            _ => Registers { lr: v, ..self },
        }
    }

    /// The stack pointer of the current mode
    pub open spec fn banked_sp(&self) -> u32 {
        match self.mode() {
            Some(RegisterMode::FIQ) => self.r13_fiq,
            Some(RegisterMode::Supervisor) => self.r13_svc,
            Some(RegisterMode::Abort) => self.r13_abt,
            Some(RegisterMode::IRQ) => self.r13_irq,
            Some(RegisterMode::Undefined) => self.r13_und,
            _ => self.sp,
        }
    }

    pub open spec fn with_banked_sp(self, v: u32) -> Registers {
        match self.mode() {
            Some(RegisterMode::FIQ) => Registers { r13_fiq: v, ..self },
            Some(RegisterMode::Supervisor) => Registers { r13_svc: v, ..self },
            Some(RegisterMode::Abort) => Registers { r13_abt: v, ..self },
            Some(RegisterMode::IRQ) => Registers { r13_irq: v, ..self },
            Some(RegisterMode::Undefined) => Registers { r13_und: v, ..self },
            _ => Registers { sp: v, ..self },
        }
    }

    /// Register `i` as an instruction sees it: r8 to r14 are banked, and an
    /// invalid mode reads the undefined mode's bank
    pub open spec fn spec_reg(&self, i: u8) -> u32 {
        let fiq = self.mode() == Some(RegisterMode::FIQ);
        let m = match self.mode() {
            Some(m) => m,
            None => RegisterMode::Undefined,
        };
        if i == 0 {
            self.r0
        } else if i == 1 {
            self.r1
        } else if i == 2 {
            self.r2
        } else if i == 3 {
            self.r3
        } else if i == 4 {
            self.r4
        } else if i == 5 {
            self.r5
        } else if i == 6 {
            self.r6
        } else if i == 7 {
            self.r7
        } else if i == 8 {
            if fiq {
                self.r8_fiq
            } else {
                self.r8
            }
        } else if i == 9 {
            if fiq {
                self.r9_fiq
            } else {
                self.r9
            }
        } else if i == 10 {
            if fiq {
                self.r10_fiq
            } else {
                self.r10
            }
        } else if i == 11 {
            if fiq {
                self.r11_fiq
            } else {
                self.r11
            }
        } else if i == 12 {
            if fiq {
                self.r12_fiq
            } else {
                self.r12
            }
        } else if i == 13 {
            match m {
                RegisterMode::FIQ => self.r13_fiq,
                RegisterMode::Supervisor => self.r13_svc,
                RegisterMode::Abort => self.r13_abt,
                RegisterMode::IRQ => self.r13_irq,
                RegisterMode::Undefined => self.r13_und,
                _ => self.sp,
            }
        } else if i == 14 {
            match m {
                RegisterMode::FIQ => self.r14_fiq,
                RegisterMode::Supervisor => self.r14_svc,
                RegisterMode::Abort => self.r14_abt,
                RegisterMode::IRQ => self.r14_irq,
                RegisterMode::Undefined => self.r14_und,
                _ => self.lr,
            }
        } else {
            self.pc
        }
    }

    /// The registers with register `i`, as an instruction sees it, replaced
    pub open spec fn spec_set_reg(self, i: u8, v: u32) -> Registers {
        let fiq = self.mode() == Some(RegisterMode::FIQ);
        let m = match self.mode() {
            Some(m) => m,
            None => RegisterMode::Undefined,
        };
        if i == 0 {
            Registers { r0: v, ..self }
        } else if i == 1 {
            Registers { r1: v, ..self }
        } else if i == 2 {
            Registers { r2: v, ..self }
        } else if i == 3 {
            Registers { r3: v, ..self }
        } else if i == 4 {
            Registers { r4: v, ..self }
        } else if i == 5 {
            Registers { r5: v, ..self }
        } else if i == 6 {
            Registers { r6: v, ..self }
        } else if i == 7 {
            Registers { r7: v, ..self }
        } else if i == 8 {
            if fiq {
                Registers { r8_fiq: v, ..self }
            } else {
                Registers { r8: v, ..self }
            }
        } else if i == 9 {
            if fiq {
                Registers { r9_fiq: v, ..self }
            } else {
                Registers { r9: v, ..self }
            }
        } else if i == 10 {
            if fiq {
                Registers { r10_fiq: v, ..self }
            } else {
                Registers { r10: v, ..self }
            }
        } else if i == 11 {
            if fiq {
                Registers { r11_fiq: v, ..self }
            } else {
                Registers { r11: v, ..self }
            }
        } else if i == 12 {
            if fiq {
                Registers { r12_fiq: v, ..self }
            } else {
                Registers { r12: v, ..self }
            }
        } else if i == 13 {
            match m {
                RegisterMode::FIQ => Registers { r13_fiq: v, ..self },
                RegisterMode::Supervisor => Registers { r13_svc: v, ..self },
                RegisterMode::Abort => Registers { r13_abt: v, ..self },
                RegisterMode::IRQ => Registers { r13_irq: v, ..self },
                RegisterMode::Undefined => Registers { r13_und: v, ..self },
                _ => Registers { sp: v, ..self },
            }
        } else if i == 14 {
            match m {
                RegisterMode::FIQ => Registers { r14_fiq: v, ..self },
                RegisterMode::Supervisor => Registers { r14_svc: v, ..self },
                RegisterMode::Abort => Registers { r14_abt: v, ..self },
                RegisterMode::IRQ => Registers { r14_irq: v, ..self },
                RegisterMode::Undefined => Registers { r14_und: v, ..self },
                _ => Registers { lr: v, ..self },
            }
        } else {
            Registers { pc: v, ..self }
        }
    }
}

impl Registers {
    /// The registers at power on; with `direct_boot` the state the BIOS
    /// leaves when it hands over to the cartridge
    /// The register values at power on
    pub open spec fn spec_new(direct_boot: bool) -> Registers {
        Registers {
            r0: 0,
            r1: 0,
            r2: 0,
            r3: 0,
            r4: 0,
            r5: 0,
            r6: 0,
            r7: 0,
            r8: 0,
            r9: 0,
            r10: 0,
            r11: 0,
            r12: 0,
            sp: if direct_boot { 0x03007F00 } else { 0 },
            lr: 0,
            pc: if direct_boot { 0x08000000 } else { 0 },
            r8_fiq: 0,
            r9_fiq: 0,
            r10_fiq: 0,
            r11_fiq: 0,
            r12_fiq: 0,
            r13_fiq: if direct_boot { 0x03007F00 } else { 0 },
            r14_fiq: 0,
            r13_svc: if direct_boot { 0x03007FE0 } else { 0 },
            r14_svc: 0,
            r13_abt: if direct_boot { 0x03007F00 } else { 0 },
            r14_abt: 0,
            r13_irq: if direct_boot { 0x03007FA0 } else { 0 },
            r14_irq: 0,
            r13_und: if direct_boot { 0x03007F00 } else { 0 },
            r14_und: 0,
            cpsr: if direct_boot { 0x5F } else { 0b11010011 },
            spsr_fiq: 0,
            spsr_svc: 0,
            spsr_abt: 0,
            spsr_irq: 0,
            spsr_und: 0,
        }
    }

    pub fn new(direct_boot: bool) -> (r: Registers)
        ensures
            r == Registers::spec_new(direct_boot),
    {
        Registers {
            r0: 0,
            r1: 0,
            r2: 0,
            r3: 0,
            r4: 0,
            r5: 0,
            r6: 0,
            r7: 0,
            r8: 0,
            r9: 0,
            r10: 0,
            r11: 0,
            r12: 0,
            sp: if direct_boot { 0x03007F00 } else { 0 },
            lr: 0,
            pc: if direct_boot { 0x08000000 } else { 0 },
            r8_fiq: 0,
            r9_fiq: 0,
            r10_fiq: 0,
            r11_fiq: 0,
            r12_fiq: 0,
            r13_fiq: if direct_boot { 0x03007F00 } else { 0 },
            r14_fiq: 0,
            r13_svc: if direct_boot { 0x03007FE0 } else { 0 },
            r14_svc: 0,
            r13_abt: if direct_boot { 0x03007F00 } else { 0 },
            r14_abt: 0,
            r13_irq: if direct_boot { 0x03007FA0 } else { 0 },
            r14_irq: 0,
            r13_und: if direct_boot { 0x03007F00 } else { 0 },
            r14_und: 0,
            // IRQ and FIQ disabled, supervisor mode
            cpsr: if direct_boot { 0x5F } else { 0b11010011 },
            spsr_fiq: 0,
            spsr_svc: 0,
            spsr_abt: 0,
            spsr_irq: 0,
            spsr_und: 0,
        }
    }

    /// N: bit 31
    pub fn cpsr_sign_flag(&self) -> (r: bool)
        ensures
            r == bit_of(self.cpsr, 31),
    {
        (self.cpsr >> 31) & 1 != 0
    }

    pub fn cpsr_set_sign_flag(&mut self, v: bool)
        ensures
            *final(self) == (Registers { cpsr: with_bit(old(self).cpsr, 31, v), ..*old(self) }),
    {
        self.cpsr = (self.cpsr & !(1u32 << 31u32)) | ((if v { 1u32 } else { 0u32 }) << 31u32);
    }

    /// Z: bit 30
    pub fn cpsr_zero_flag(&self) -> (r: bool)
        ensures
            r == bit_of(self.cpsr, 30),
    {
        (self.cpsr >> 30) & 1 != 0
    }

    pub fn cpsr_set_zero_flag(&mut self, v: bool)
        ensures
            *final(self) == (Registers { cpsr: with_bit(old(self).cpsr, 30, v), ..*old(self) }),
    {
        self.cpsr = (self.cpsr & !(1u32 << 30u32)) | ((if v { 1u32 } else { 0u32 }) << 30u32);
    }

    /// C: bit 29
    pub fn cpsr_carry_flag(&self) -> (r: bool)
        ensures
            r == bit_of(self.cpsr, 29),
    {
        (self.cpsr >> 29) & 1 != 0
    }

    pub fn cpsr_set_carry_flag(&mut self, v: bool)
        ensures
            *final(self) == (Registers { cpsr: with_bit(old(self).cpsr, 29, v), ..*old(self) }),
    {
        self.cpsr = (self.cpsr & !(1u32 << 29u32)) | ((if v { 1u32 } else { 0u32 }) << 29u32);
    }

    /// V: bit 28
    pub fn cpsr_overflow_flag(&self) -> (r: bool)
        ensures
            r == bit_of(self.cpsr, 28),
    {
        (self.cpsr >> 28) & 1 != 0
    }

    pub fn cpsr_set_overflow_flag(&mut self, v: bool)
        ensures
            *final(self) == (Registers { cpsr: with_bit(old(self).cpsr, 28, v), ..*old(self) }),
    {
        self.cpsr = (self.cpsr & !(1u32 << 28u32)) | ((if v { 1u32 } else { 0u32 }) << 28u32);
    }

    pub fn irq_disabled(&self) -> (r: bool)
        ensures
            r == bit_of(self.cpsr, 7),
    {
        (self.cpsr >> 7) & 1 != 0
    }

    pub fn fiq_disabled(&self) -> (r: bool)
        ensures
            r == bit_of(self.cpsr, 6),
    {
        (self.cpsr >> 6) & 1 != 0
    }

    pub fn thumb_enabled(&self) -> (r: bool)
        ensures
            r == bit_of(self.cpsr, 5),
    {
        (self.cpsr >> 5) & 1 != 0
    }

    pub fn set_thumb(&mut self, enabled: bool)
        ensures
            *final(self) == (Registers { cpsr: with_bit(old(self).cpsr, 5, enabled), ..*old(self) }),
    {
        self.cpsr = (self.cpsr & !(1u32 << 5u32)) | ((if enabled { 1u32 } else { 0u32 }) << 5u32);
    }

    pub fn cpsr_disable_irq(&mut self)
        ensures
            *final(self) == (Registers { cpsr: old(self).cpsr | 0x80, ..*old(self) }),
    {
        self.cpsr = self.cpsr | 0x80;
    }

    /// The mode field, the low five bits of the CPSR
    pub fn mode_bits(&self) -> (r: u8)
        ensures
            r == (self.cpsr & 0x1F) as u8,
    {
        (self.cpsr & 0x1F) as u8
    }

    pub fn register_mode(&self) -> (r: Option<RegisterMode>)
        ensures
            r == self.mode(),
    {
        RegisterMode::from_u8(self.mode_bits())
    }

    /// The saved status register of the current mode
    pub fn get_spsr(&self) -> (r: u32)
        requires
            self.has_spsr(),
        ensures
            r == self.spsr(),
    {
        match self.register_mode() {
            Some(RegisterMode::FIQ) => self.spsr_fiq,
            Some(RegisterMode::Supervisor) => self.spsr_svc,
            Some(RegisterMode::Abort) => self.spsr_abt,
            Some(RegisterMode::IRQ) => self.spsr_irq,
            _ => self.spsr_und,
        }
    }

    /// The current mode's saved status register, to be written
    pub fn get_spsr_mut(&mut self) -> (r: &mut u32)
        requires
            old(self).has_spsr(),
        ensures
            *r == old(self).spsr(),
            *final(self) == old(self).with_spsr(*final(r)),
    {
        match self.register_mode() {
            Some(RegisterMode::FIQ) => &mut self.spsr_fiq,
            Some(RegisterMode::Supervisor) => &mut self.spsr_svc,
            Some(RegisterMode::Abort) => &mut self.spsr_abt,
            Some(RegisterMode::IRQ) => &mut self.spsr_irq,
            _ => &mut self.spsr_und,
        }
    }

    /// Switches to `mode`, saving the CPSR in the old mode's saved status
    /// register where it has one
    pub fn set_mode(&mut self, mode: RegisterMode)
        requires
            old(self).mode() is Some,
        ensures
            *final(self) == (Registers {
                cpsr: (old(self).cpsr & !0x1Fu32) | (spec_register_mode_to_u8(mode) as u32),
                ..(if old(self).has_spsr() {
                    old(self).with_spsr(old(self).cpsr)
                } else {
                    *old(self)
                })
            }),
    {
        let m = self.register_mode();
        if !matches!(m, Some(RegisterMode::User) | Some(RegisterMode::System)) {
            let c = self.cpsr;
            *self.get_spsr_mut() = c;
        }
        self.cpsr = self.cpsr & !0x1F;
        self.cpsr = self.cpsr | mode.to_u8() as u32;
    }

    /// Enters supervisor mode, saving the CPSR
    pub fn set_svc_mode(&mut self)
        ensures
            *final(self) == (Registers {
                spsr_svc: old(self).cpsr,
                cpsr: (old(self).cpsr & !0x1Fu32) | 0b10011,
                ..*old(self)
            }),
    {
        self.spsr_svc = self.cpsr;
        self.cpsr = self.cpsr & !0x1F;
        self.cpsr = self.cpsr | 0b10011;
    }

    /// Enters IRQ mode, saving the CPSR
    pub fn set_irq_mode(&mut self)
        ensures
            *final(self) == (Registers {
                spsr_irq: old(self).cpsr,
                cpsr: (old(self).cpsr & !0x1Fu32) | 0b10010,
                ..*old(self)
            }),
    {
        self.spsr_irq = self.cpsr;
        self.cpsr = self.cpsr & !0x1F;
        self.cpsr = self.cpsr | 0b10010;
    }

    /// The link register of the current mode
    pub fn lr(&self) -> (r: u32)
        requires
            self.mode() is Some,
        ensures
            r == self.banked_lr(),
    {
        match self.register_mode() {
            Some(RegisterMode::FIQ) => self.r14_fiq,
            Some(RegisterMode::Supervisor) => self.r14_svc,
            Some(RegisterMode::Abort) => self.r14_abt,
            Some(RegisterMode::IRQ) => self.r14_irq,
            Some(RegisterMode::Undefined) => self.r14_und,
            _ => self.lr,
        }
    }

    pub fn lr_mut(&mut self) -> (r: &mut u32)
        requires
            old(self).mode() is Some,
        ensures
            *r == old(self).banked_lr(),
            *final(self) == old(self).with_banked_lr(*final(r)),
    {
        match self.register_mode() {
            Some(RegisterMode::FIQ) => &mut self.r14_fiq,
            Some(RegisterMode::Supervisor) => &mut self.r14_svc,
            Some(RegisterMode::Abort) => &mut self.r14_abt,
            Some(RegisterMode::IRQ) => &mut self.r14_irq,
            Some(RegisterMode::Undefined) => &mut self.r14_und,
            _ => &mut self.lr,
        }
    }

    /// The stack pointer of the current mode
    pub fn sp(&self) -> (r: u32)
        requires
            self.mode() is Some,
        ensures
            r == self.banked_sp(),
    {
        match self.register_mode() {
            Some(RegisterMode::FIQ) => self.r13_fiq,
            Some(RegisterMode::Supervisor) => self.r13_svc,
            Some(RegisterMode::Abort) => self.r13_abt,
            Some(RegisterMode::IRQ) => self.r13_irq,
            Some(RegisterMode::Undefined) => self.r13_und,
            _ => self.sp,
        }
    }

    pub fn sp_mut(&mut self) -> (r: &mut u32)
        requires
            old(self).mode() is Some,
        ensures
            *r == old(self).banked_sp(),
            *final(self) == old(self).with_banked_sp(*final(r)),
    {
        match self.register_mode() {
            Some(RegisterMode::FIQ) => &mut self.r13_fiq,
            Some(RegisterMode::Supervisor) => &mut self.r13_svc,
            Some(RegisterMode::Abort) => &mut self.r13_abt,
            Some(RegisterMode::IRQ) => &mut self.r13_irq,
            Some(RegisterMode::Undefined) => &mut self.r13_und,
            _ => &mut self.sp,
        }
    }

    /// Unpacks a 26-bit-style PC word: (flags, (irq disabled, fiq disabled),
    /// word address, mode)
    pub fn split_pc(&self) -> (r: (u8, (bool, bool), u32, Mode))
        ensures
            r == (
                ((self.pc >> 28u32) & 0xF) as u8,
                ((self.pc >> 27u32) & 1 == 1, (self.pc >> 26u32) & 1 == 1),
                (self.pc >> 2u32) & 0xFF_FFFF,
                spec_mode_from_u8((self.pc & 0x3) as u8),
            ),
    {
        let pcv = self.pc;
        assert(pcv & 0x3 < 4) by {
            crate::bits::lemma_u32(pcv);
        }
        let mode = Mode::from_u8((self.pc & 0x3) as u8);
        let pc = (self.pc >> 2) & 0xFF_FFFF;
        let flags = (self.pc >> 28) & 0xF;
        let irq_disabled = (self.pc >> 27) & 1 == 1;
        let fiq_disabled = (self.pc >> 26) & 1 == 1;
        (flags as u8, (irq_disabled, fiq_disabled), pc, mode)
    }

    /// Register `i` (0 to 15) as an instruction sees it
    pub fn get_reg(&self, i: u8) -> (r: u32)
        requires
            i < 16,
        ensures
            r == self.spec_reg(i),
    {
        let fiq = matches!(self.register_mode(), Some(RegisterMode::FIQ));
        let m = match self.register_mode() {
            Some(m) => m,
            None => RegisterMode::Undefined,
        };
        match i {
            0 => self.r0,
            1 => self.r1,
            2 => self.r2,
            3 => self.r3,
            4 => self.r4,
            5 => self.r5,
            6 => self.r6,
            7 => self.r7,
            8 => if fiq { self.r8_fiq } else { self.r8 },
            9 => if fiq { self.r9_fiq } else { self.r9 },
            10 => if fiq { self.r10_fiq } else { self.r10 },
            11 => if fiq { self.r11_fiq } else { self.r11 },
            12 => if fiq { self.r12_fiq } else { self.r12 },
            13 => match m {
                RegisterMode::FIQ => self.r13_fiq,
                RegisterMode::Supervisor => self.r13_svc,
                RegisterMode::Abort => self.r13_abt,
                RegisterMode::IRQ => self.r13_irq,
                RegisterMode::Undefined => self.r13_und,
                _ => self.sp,
            },
            14 => match m {
                RegisterMode::FIQ => self.r14_fiq,
                RegisterMode::Supervisor => self.r14_svc,
                RegisterMode::Abort => self.r14_abt,
                RegisterMode::IRQ => self.r14_irq,
                RegisterMode::Undefined => self.r14_und,
                _ => self.lr,
            },
            _ => self.pc,
        }
    }

    /// Writes register `i` (0 to 15) as an instruction sees it
    pub fn set_reg(&mut self, i: u8, v: u32)
        requires
            i < 16,
        ensures
            *final(self) == old(self).spec_set_reg(i, v),
    {
        let fiq = matches!(self.register_mode(), Some(RegisterMode::FIQ));
        let m = match self.register_mode() {
            Some(m) => m,
            None => RegisterMode::Undefined,
        };
        match i {
            0 => self.r0 = v,
            1 => self.r1 = v,
            2 => self.r2 = v,
            3 => self.r3 = v,
            4 => self.r4 = v,
            5 => self.r5 = v,
            6 => self.r6 = v,
            7 => self.r7 = v,
            8 => if fiq { self.r8_fiq = v } else { self.r8 = v },
            9 => if fiq { self.r9_fiq = v } else { self.r9 = v },
            10 => if fiq { self.r10_fiq = v } else { self.r10 = v },
            11 => if fiq { self.r11_fiq = v } else { self.r11 = v },
            12 => if fiq { self.r12_fiq = v } else { self.r12 = v },
            13 => match m {
                RegisterMode::FIQ => self.r13_fiq = v,
                RegisterMode::Supervisor => self.r13_svc = v,
                RegisterMode::Abort => self.r13_abt = v,
                RegisterMode::IRQ => self.r13_irq = v,
                RegisterMode::Undefined => self.r13_und = v,
                _ => self.sp = v,
            },
            14 => match m {
                RegisterMode::FIQ => self.r14_fiq = v,
                RegisterMode::Supervisor => self.r14_svc = v,
                RegisterMode::Abort => self.r14_abt = v,
                RegisterMode::IRQ => self.r14_irq = v,
                RegisterMode::Undefined => self.r14_und = v,
                _ => self.lr = v,
            },
            _ => self.pc = v,
        }
    }
}

/// A flag written is read back, and the other status bits are kept.
pub proof fn lemma_flag_roundtrip(x: u32, b: u32, v: bool, other: u32)
    by (bit_vector)
    requires
        b < 32,
        other < 32,
        other != b,
    ensures
        bit_of(with_bit(x, b, v), b) == v,
        bit_of(with_bit(x, b, v), other) == bit_of(x, other),
{
}

} // verus!
