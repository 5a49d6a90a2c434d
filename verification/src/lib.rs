//! A Game Boy (and experimental Game Boy Advance) emulator core whose
//! behaviour is stated in contracts and checked by Verus.
pub mod assembler;
pub mod bits;
pub mod cpu;
pub mod debugger;
pub mod disasm;
pub mod gba;
