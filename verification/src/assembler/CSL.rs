//! Operands, instructions and the label environment of the assembler, with
//! the small encoders that turn registers into opcode fields
use vstd::prelude::*;

use crate::cpu::constants::{CpuRegister, CpuRegister16};
use vstd::string::StrSliceExecFns;

verus! {

/// An operand
#[derive(Debug, PartialEq, Clone)]
pub enum Value {
    Literal8(u8),
    Literal16(u16),
    Label(String),
    Register8(CpuRegister),
    Register16(CpuRegister16),
}

/// The operands an instruction takes
#[derive(Debug, PartialEq, Clone)]
pub enum InstructionType {
    Zero,
    Unary(Value),
    Binary(Value, Value),
}

/// An instruction: its operands and its opcode
#[derive(Debug, PartialEq, Clone)]
pub struct Instruction {
    pub insttype: InstructionType,
    pub prefix: u8,
}

/// Carries relevant state about the program being assembled
#[derive(Debug)]
pub struct Environment {
    /// Labels that are resolved into addresses, with their names; where a
    /// name occurs twice, its first entry counts
    pub labels: Vec<(String, u16)>,
}

/// The address of the first label named `name` from entry `i` on
pub open spec fn label_address(labels: Seq<(String, u16)>, name: Seq<char>, i: int) -> Option<u16>
    decreases labels.len() - i,
{
    if i < 0 || i >= labels.len() {
        None
    } else if labels[i].0@ == name {
        Some(labels[i].1)
    } else {
        label_address(labels, name, i + 1)
    }
}

impl Environment {
    /// An environment without labels
    pub fn new() -> (e: Environment)
        ensures
            e.labels@ == Seq::<(String, u16)>::empty(),
    {
        Environment { labels: Vec::new() }
    }
}

/// The number a value stands for: a literal, or the address of a label
/// (`None` for an unknown label and for a register)
#[verifier::loop_isolation(false)]
pub fn resolve_value(v: Value, env: &mut Environment) -> (r: Option<u16>)
    ensures
        final(env).labels@ == old(env).labels@,
        r == match v {
            Value::Literal8(n) => Some(n as u16),
            Value::Literal16(n) => Some(n),
            Value::Label(s) => label_address(old(env).labels@, s@, 0),
            _ => None::<u16>,
        },
{
    match v {
        Value::Literal8(n) => Some(n as u16),
        Value::Literal16(n) => Some(n),
        Value::Label(name) => {
            let mut i: usize = 0;
            while i < env.labels.len()
                invariant
                    i <= env.labels@.len(),
                    label_address(env.labels@, name@, 0) == label_address(
                        env.labels@,
                        name@,
                        i as int,
                    ),
                decreases env.labels@.len() - i,
            {
                if env.labels[i].0 == name {
                    return Some(env.labels[i].1);
                }
                i = i + 1;
            }
            None
        },
        _ => None,
    }
}

/// An instruction with one 8-bit operand as its opcode and that operand
pub fn unary_dispatch(inst: Instruction, v: u8) -> (r: (u8, u8))
    ensures
        r == (inst.prefix, v),
{
    (inst.prefix, v)
}

/// The number of an 8-bit register in the opcode's register field
pub open spec fn reg_code(reg: CpuRegister) -> u8 {
    match reg {
        CpuRegister::B => 0,
        CpuRegister::C => 1,
        CpuRegister::D => 2,
        CpuRegister::E => 3,
        CpuRegister::H => 4,
        CpuRegister::L => 5,
        CpuRegister::HL => 6,
        _ => 7,
    }
}

/// The number of a register in the opcode's register field; a literal has
/// none
pub fn cpuReg_dispatch(reg: CpuRegister) -> (r: u8)
    requires
        !(reg is Num),
    ensures
        r == reg_code(reg),
{
    match reg {
        CpuRegister::B => 0,
        CpuRegister::C => 1,
        CpuRegister::D => 2,
        CpuRegister::E => 3,
        CpuRegister::H => 4,
        CpuRegister::L => 5,
        CpuRegister::HL => 6,
        _ => 7,
    }
}

/// The number of a register pair in the opcode's pair field (AF and a
/// literal have none)
pub fn cpuReg_dispatch16(reg: CpuRegister16) -> (r: u8)
    requires
        reg is BC || reg is DE || reg is HL || reg is SP,
    ensures
        r == (match reg {
            CpuRegister16::BC => 0u8,
            CpuRegister16::DE => 1u8,
            CpuRegister16::HL => 2u8,
            _ => 3u8,
        }),
{
    match reg {
        CpuRegister16::BC => 0,
        CpuRegister16::DE => 1,
        CpuRegister16::HL => 2,
        _ => 3,
    }
}

/// A CB-prefixed instruction: the prefix, then the operation `n` in the
/// upper bits and the register in the lower three
pub fn lookup_prefix(n: u8, reg: CpuRegister) -> (r: (u8, u8))
    requires
        !(reg is Num),
    ensures
        r == (0xCBu8, (n << 4u8) | reg_code(reg)),
{
    let z = cpuReg_dispatch(reg);
    let value = (n << 4) | z;
    (0xCB, value)
}

/// The number of a register pair in PUSH and POP, given by its name
/// (these use AF where others use SP)
pub fn push_pop_disp16(regname: &str) -> (r: u8)
    requires
        regname@ == seq!['B', 'C'] || regname@ == seq!['D', 'E'] || regname@ == seq!['H', 'L']
            || regname@ == seq!['A', 'F'],
    ensures
        regname@ == seq!['B', 'C'] ==> r == 0,
        regname@ == seq!['D', 'E'] ==> r == 1,
        regname@ == seq!['H', 'L'] ==> r == 2,
        regname@ == seq!['A', 'F'] ==> r == 3,
{
    let c = regname.get_char(0);
    if c == 'B' {
        0
    } else if c == 'D' {
        1
    } else if c == 'H' {
        2
    } else {
        3
    }
}

/// An instruction with the opcode `a` and the 8-bit operand `b`
pub fn bytes_to_unary_instruction(a: u8, b: u8) -> (i: Instruction)
    ensures
        i == (Instruction { insttype: InstructionType::Unary(Value::Literal8(b)), prefix: a }),
{
    Instruction { insttype: InstructionType::Unary(Value::Literal8(b)), prefix: a }
}

/// The number in an 8-bit literal
pub fn extract_8bit_literal(n: Value) -> (r: Option<u8>)
    ensures
        r == match n {
            Value::Literal8(v) => Some(v),
            _ => None::<u8>,
        },
{
    if let Value::Literal8(v) = n {
        Some(v)
    } else {
        None
    }
}

} // verus!
