//! The data model of the assembler: operands, instructions, labels, and
//! the encodings of registers in opcodes
#[allow(non_snake_case)]
pub mod CSL;
