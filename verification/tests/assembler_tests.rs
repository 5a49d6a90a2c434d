use rusty_boy::assembler::CSL::{
    bytes_to_unary_instruction, cpuReg_dispatch, cpuReg_dispatch16, extract_8bit_literal,
    lookup_prefix, push_pop_disp16, resolve_value, unary_dispatch, Environment, Instruction,
    InstructionType, Value,
};
use rusty_boy::cpu::constants::{CpuRegister, CpuRegister16};

#[test]
fn register_codes() {
    assert_eq!(cpuReg_dispatch(CpuRegister::B), 0);
    assert_eq!(cpuReg_dispatch(CpuRegister::HL), 6);
    assert_eq!(cpuReg_dispatch(CpuRegister::A), 7);
    assert_eq!(cpuReg_dispatch16(CpuRegister16::DE), 1);
    assert_eq!(cpuReg_dispatch16(CpuRegister16::SP), 3);
}

#[test]
fn prefix_lookup() {
    assert_eq!(lookup_prefix(2, CpuRegister::C), (0xCB, 0x21));
    assert_eq!(lookup_prefix(0, CpuRegister::A), (0xCB, 0x07));
}

#[test]
fn push_pop_codes() {
    assert_eq!(push_pop_disp16("BC"), 0);
    assert_eq!(push_pop_disp16("DE"), 1);
    assert_eq!(push_pop_disp16("HL"), 2);
    assert_eq!(push_pop_disp16("AF"), 3);
}

#[test]
fn values_and_labels() {
    let mut env = Environment::new();
    assert_eq!(resolve_value(Value::Literal8(5), &mut env), Some(5));
    assert_eq!(resolve_value(Value::Literal16(0x1234), &mut env), Some(0x1234));
    assert_eq!(resolve_value(Value::Label("start".to_string()), &mut env), None);
    env.labels.push(("start".to_string(), 0x150));
    env.labels.push(("start".to_string(), 0x200));
    assert_eq!(resolve_value(Value::Label("start".to_string()), &mut env), Some(0x150));
    assert_eq!(resolve_value(Value::Register8(CpuRegister::A), &mut env), None);
    assert_eq!(extract_8bit_literal(Value::Literal8(9)), Some(9));
    assert_eq!(extract_8bit_literal(Value::Literal16(9)), None);
}

#[test]
fn unary_instructions() {
    let i = bytes_to_unary_instruction(0x3E, 0x10);
    assert_eq!(
        i,
        Instruction { insttype: InstructionType::Unary(Value::Literal8(0x10)), prefix: 0x3E }
    );
    assert_eq!(unary_dispatch(i, 0x10), (0x3E, 0x10));
}
