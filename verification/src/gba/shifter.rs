//! The barrel shifter of the ARM7 CPU. In ARM mode it is bundled into some
//! instructions; in Thumb mode it has instructions of its own. Each shift
//! may set the carry flag to the last bit shifted out.
use vstd::prelude::*;

use super::registers::{with_bit, Registers};

verus! {

/// Bit 31 of a word
pub open spec fn top_bit(val: u32) -> bool {
    (val >> 31u32) & 1 == 1
}

/// Logical shift left: the result and the carry out (`None`: carry kept)
pub open spec fn lsl_spec(val: u32, amt: u32) -> (u32, Option<bool>) {
    if amt == 0 {
        (val, None)
    } else if amt > 32 {
        (0, Some(false))
    } else if amt == 32 {
        (0, Some(val & 1 == 1))
    } else {
        (val << amt, Some((val >> ((32 - amt) as u32)) & 1 == 1))
    }
}

/// Logical shift right; an amount of 0 stands for 32
pub open spec fn lsr_spec(val: u32, amt: u32) -> (u32, Option<bool>) {
    if amt == 0 {
        (0, Some(top_bit(val)))
    } else if amt > 32 {
        (0, Some(false))
    } else if amt == 32 {
        (0, Some(top_bit(val)))
    } else {
        (val >> amt, Some((val >> ((amt - 1) as u32)) & 1 == 1))
    }
}

/// `val` shifted right by `amt` (below 32) with copies of bit 31 shifted in
pub open spec fn sign_shift(val: u32, amt: u32) -> u32 {
    if top_bit(val) {
        (val >> amt) | !(0xFFFF_FFFFu32 >> amt)
    } else {
        val >> amt
    }
}

/// Arithmetic shift right; an amount of 0 stands for 32
pub open spec fn asr_spec(val: u32, amt: u32) -> (u32, Option<bool>) {
    if amt == 0 || amt >= 32 {
        (sign_shift(val, 31), Some(top_bit(val)))
    } else {
        (sign_shift(val, amt), Some((val >> ((amt - 1) as u32)) & 1 == 1))
    }
}

/// `val` rotated right by `amt` bits (modulo 32)
pub open spec fn rotr(val: u32, amt: u32) -> u32 {
    let s = amt % 32;
    if s == 0 {
        val
    } else {
        (val >> s) | (val << ((32 - s) as u32))
    }
}

/// Rotate right; an amount of 0 leaves the value and the carry
pub open spec fn ror_spec(val: u32, amt: u32) -> (u32, Option<bool>) {
    if amt == 0 {
        (val, None)
    } else {
        (rotr(val, amt), Some(top_bit(rotr(val, amt))))
    }
}

/// Rotate right by one through the carry
pub open spec fn rrx_spec(val: u32, carry: bool) -> (u32, Option<bool>) {
    (
        (val >> 1u32) | ((if carry {
            1u32
        } else {
            0u32
        }) << 31u32),
        Some(val & 1 == 1),
    )
}

/// The registers after a shift with carry out `c`
pub open spec fn carried(r: Registers, c: Option<bool>) -> Registers {
    match c {
        Some(b) => Registers { cpsr: with_bit(r.cpsr, 29, b), ..r },
        None => r,
    }
}

pub struct BarrelShifter;

impl BarrelShifter {
    fn set_carry(registers: Option<&mut Registers>, c: bool)
        ensures
            registers matches Some(r) ==> *final(r) == carried(*r, Some(c)),
    {
        match registers {
            Some(r) => r.cpsr_set_carry_flag(c),
            None => {},
        }
    }

    pub fn lsl(val: u32, shift_amt: u32, registers: Option<&mut Registers>) -> (res: u32)
        ensures
            res == lsl_spec(val, shift_amt).0,
            registers matches Some(r) ==> *final(r) == carried(*r, lsl_spec(val, shift_amt).1),
    {
        if shift_amt == 0 {
            return val;
        }
        if shift_amt > 32 {
            Self::set_carry(registers, false);
            return 0;
        }
        if shift_amt == 32 {
            Self::set_carry(registers, val & 1 == 1);
            return 0;
        }
        Self::set_carry(registers, (val >> (32 - shift_amt)) & 1 == 1);
        val << shift_amt
    }

    pub fn lsr(val: u32, shift_amt: u32, registers: Option<&mut Registers>) -> (res: u32)
        ensures
            res == lsr_spec(val, shift_amt).0,
            registers matches Some(r) ==> *final(r) == carried(*r, lsr_spec(val, shift_amt).1),
    {
        if shift_amt == 0 {
            Self::set_carry(registers, (val >> 31) & 1 == 1);
            return 0;
        }
        if shift_amt > 32 {
            Self::set_carry(registers, false);
            return 0;
        }
        if shift_amt == 32 {
            Self::set_carry(registers, (val >> 31) & 1 == 1);
            return 0;
        }
        Self::set_carry(registers, (val >> (shift_amt - 1)) & 1 == 1);
        val >> shift_amt
    }

    fn sign_shift(val: u32, amt: u32) -> (r: u32)
        requires
            amt < 32,
        ensures
            r == sign_shift(val, amt),
    {
        if (val >> 31) & 1 == 1 {
            (val >> amt) | !(0xFFFF_FFFFu32 >> amt)
        } else {
            val >> amt
        }
    }

    pub fn asr(val: u32, shift_amt: u32, registers: Option<&mut Registers>) -> (res: u32)
        ensures
            res == asr_spec(val, shift_amt).0,
            registers matches Some(r) ==> *final(r) == carried(*r, asr_spec(val, shift_amt).1),
    {
        if shift_amt == 0 || shift_amt >= 32 {
            Self::set_carry(registers, (val >> 31) & 1 == 1);
            return Self::sign_shift(val, 31);
        }
        Self::set_carry(registers, (val >> (shift_amt - 1)) & 1 == 1);
        Self::sign_shift(val, shift_amt)
    }

    pub fn ror(val: u32, shift_amt: u32, registers: Option<&mut Registers>) -> (res: u32)
        ensures
            res == ror_spec(val, shift_amt).0,
            registers matches Some(r) ==> *final(r) == carried(*r, ror_spec(val, shift_amt).1),
    {
        if shift_amt == 0 {
            return val;
        }
        let s = shift_amt % 32;
        let out = if s == 0 {
            val
        } else {
            (val >> s) | (val << (32 - s))
        };
        Self::set_carry(registers, (out >> 31) & 1 == 1);
        out
    }

    /// Rotate right by one through the carry
    pub fn rrx(val: u32, registers: Option<&mut Registers>, carry: bool) -> (res: u32)
        ensures
            res == rrx_spec(val, carry).0,
            registers matches Some(r) ==> *final(r) == carried(*r, rrx_spec(val, carry).1),
    {
        let out = (val >> 1) | ((if carry {
            1u32
        } else {
            0u32
        }) << 31);
        Self::set_carry(registers, val & 1 == 1);
        out
    }
}

} // verus!
