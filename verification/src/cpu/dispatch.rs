//! Decoding and running one instruction
use vstd::prelude::*;

use crate::cpu::memvis::cpumemvis::{
    after_exec, after_jump, after_read, after_write, log_view, LogView,
};

use super::alu::{
    cbit, op_adc, op_add, op_add_hl, op_addspn, op_and, op_bit, op_cp, op_daa, op_dec, op_dec16,
    op_inc, op_inc16, op_or, op_rot_a, op_rot_r, op_sbc, op_sub, op_swap, op_xor, sra_result,
    shift_value, with_f,
};
use super::constants::{
    cc_dispatch, cpu16_dispatch, cpu16_dispatch_push_pop, cpu_dispatch, spec_cc_dispatch,
    spec_cpu16_dispatch, spec_cpu16_dispatch_push_pop, spec_cpu_dispatch, CpuRegister,
    CpuRegister16, CpuState, CL, HL, NLV, ZL,
};
use super::control::{
    cc_holds, interrupts_handled, interrupts_logged, lemma_interrupts_keep_crash, op_callnn, op_jpnn,
    op_jrn, op_ret, op_rst, pop_logged, popped, push_logged, pushed, ret_logged, stack_top,
};
use super::loads::{load_a, op_ldhlspn, op_ldnnsp, store_a};
use super::memvis::cpumemvis::CpuEventLogger;
use super::{byte_to_u16, hi_byte, lo_byte, operand_written, word, wrap16, wrap8, Cpu, CpuView};

verus! {

/// Bits 7-6 of an opcode
pub open spec fn op_x(b: u8) -> u8 {
    b / 64
}

/// Bits 5-3 of an opcode
pub open spec fn op_y(b: u8) -> u8 {
    (b / 8) % 8
}

/// Bits 2-0 of an opcode
pub open spec fn op_z(b: u8) -> u8 {
    b % 8
}

/// The three fields of an opcode, as the shifts and masks compute them
pub proof fn lemma_decode(b: u8)
    ensures
        (b >> 6u8) & 3 == op_x(b),
        (b >> 3u8) & 7 == op_y(b),
        b & 7 == op_z(b),
        op_x(b) < 4,
        op_y(b) < 8,
        op_z(b) < 8,
        b == op_x(b) * 64 + op_y(b) * 8 + op_z(b),
{
    assert((b >> 6u8) & 3 == b / 64) by {
        crate::bits::lemma_u8(b);
    }
    assert((b >> 3u8) & 7 == (b / 8) % 8) by {
        crate::bits::lemma_u8(b);
    }
    assert(b & 7 == b % 8) by {
        crate::bits::lemma_u8(b);
    }
}

/// PC moved one byte forward
pub open spec fn pc_inc(v: CpuView) -> CpuView {
    CpuView { pc: wrap16(v.pc + 1), ..v }
}

/// PC moved two bytes forward
pub open spec fn pc_inc2(v: CpuView) -> CpuView {
    pc_inc(pc_inc(v))
}

/// A CPU stopped by an illegal opcode
pub open spec fn crashed(v: CpuView) -> CpuView {
    CpuView { state: CpuState::Crashed, ..v }
}

/// The eight CB-prefixed rotations and shifts, by their `y` field
pub open spec fn cb_shift(v: CpuView, y: u8, r: CpuRegister) -> CpuView {
    let x = v.reg8(r);
    if y == 0 {
        op_rot_r(v, r, (x << 1u8) | (x >> 7u8), (x >> 7u8) & 1 == 1)
    } else if y == 1 {
        op_rot_r(v, r, (x >> 1u8) | (x << 7u8), x & 1 == 1)
    } else if y == 2 {
        op_rot_r(v, r, (x << 1u8) | cbit(v.f), (x >> 7u8) & 1 == 1)
    } else if y == 3 {
        op_rot_r(v, r, (x >> 1u8) | (cbit(v.f) << 7u8), x & 1 == 1)
    } else if y == 4 {
        op_rot_r(v, r, x << 1u8, (x >> 7u8) & 1 == 1)
    } else if y == 5 {
        sra_result(v, r)
    } else if y == 6 {
        op_swap(v, r)
    } else {
        op_rot_r(v, r, x >> 1u8, x & 1 == 1)
    }
}

/// What the CB-prefixed instruction `op` does
#[verifier::opaque]
pub open spec fn cb_op(v: CpuView, op: u8) -> CpuView {
    let r = spec_cpu_dispatch(op_z(op));
    let y = op_y(op);
    let x = op_x(op);
    if x == 0 {
        cb_shift(v, y, r)
    } else if x == 1 {
        op_bit(v, y, r)
    } else if x == 2 {
        v.set_reg8(r, v.reg8(r) & !(1u8 << y))
    } else {
        v.set_reg8(r, v.reg8(r) | (1u8 << y))
    }
}

/// Cycles of a CB-prefixed instruction: more when it works on `(HL)`
pub open spec fn cb_cycles(op: u8) -> u8 {
    if op_z(op) == 6 {
        16
    } else {
        8
    }
}

/// The eight arithmetic and logic operations on A, by their `y` field
#[verifier::opaque]
pub open spec fn alu_op(v: CpuView, y: u8, r: CpuRegister) -> CpuView {
    if y == 0 {
        op_add(v, r)
    } else if y == 1 {
        op_adc(v, r)
    } else if y == 2 {
        op_sub(v, r)
    } else if y == 3 {
        op_sbc(v, r)
    } else if y == 4 {
        op_and(v, r)
    } else if y == 5 {
        op_xor(v, r)
    } else if y == 6 {
        op_or(v, r)
    } else {
        op_cp(v, r)
    }
}

/// The accumulator and flag operations of the `00yyy111` row
pub open spec fn acc_op(v: CpuView, y: u8) -> CpuView {
    let a = v.a;
    if y == 0 {
        op_rot_a(v, (a << 1u8) | (a >> 7u8), (a >> 7u8) & 1 == 1)
    } else if y == 1 {
        op_rot_a(v, (a >> 1u8) | (a << 7u8), a & 1 == 1)
    } else if y == 2 {
        op_rot_a(v, (a << 1u8) | cbit(v.f), (a >> 7u8) & 1 == 1)
    } else if y == 3 {
        op_rot_a(v, (a >> 1u8) | (cbit(v.f) << 7u8), a & 1 == 1)
    } else if y == 4 {
        op_daa(v)
    } else if y == 5 {
        with_f(CpuView { a: !a, ..v }, (v.f & (ZL | CL)) | NLV | HL)
    } else if y == 6 {
        with_f(v, (v.f & ZL) | CL)
    } else {
        with_f(v, (v.f & (ZL | CL)) ^ CL)
    }
}

/// Opcodes `00yyyzzz`: the state before the final PC step, and the cycles
#[verifier::opaque]
pub open spec fn exec_x0(v: CpuView, y: u8, z: u8, b1: u8, b2: u8) -> (CpuView, u8) {
    if z == 0 {
        if y == 0 {
            (v, 4)
        } else if y == 1 {
            (pc_inc2(op_ldnnsp(v, b1, b2)), 20)
        } else if y == 2 {
            (CpuView { state: CpuState::Stop, ..v }, 4)
        } else if y == 3 {
            (pc_inc(op_jrn(v, b1 as i8)), 8)
        } else {
            let taken = cc_holds(v.f, spec_cc_dispatch((y - 4) as u8));
            (
                pc_inc(
                    if taken {
                        op_jrn(v, b1 as i8)
                    } else {
                        v
                    },
                ),
                if taken {
                    12
                } else {
                    8
                },
            )
        }
    } else if z == 1 {
        let r = spec_cpu16_dispatch(y / 2);
        if y % 2 == 0 {
            (pc_inc2(v.set_reg16(r, word(b1, b2))), 12)
        } else {
            (op_add_hl(v, r), 8)
        }
    } else if z == 2 {
        let hl = v.hl();
        if y == 0 || y == 2 {
            (store_a(v, v.reg16(spec_cpu16_dispatch(y / 2))), 8)
        } else if y == 1 || y == 3 {
            (load_a(v, v.reg16(spec_cpu16_dispatch(y / 2))), 8)
        } else if y == 4 {
            (store_a(v, hl).set_reg16(CpuRegister16::HL, wrap16(hl + 1)), 8)
        } else if y == 5 {
            (load_a(v, hl).set_reg16(CpuRegister16::HL, wrap16(hl + 1)), 8)
        } else if y == 6 {
            (store_a(v, hl).set_reg16(CpuRegister16::HL, wrap16(hl - 1)), 8)
        } else {
            (load_a(v, hl).set_reg16(CpuRegister16::HL, wrap16(hl - 1)), 8)
        }
    } else if z == 3 {
        let r = spec_cpu16_dispatch(y / 2);
        (
            if y % 2 == 0 {
                op_inc16(v, r)
            } else {
                op_dec16(v, r)
            },
            8,
        )
    } else if z == 4 {
        (
            op_inc(v, spec_cpu_dispatch(y)),
            if y == 6 {
                12
            } else {
                4
            },
        )
    } else if z == 5 {
        (
            op_dec(v, spec_cpu_dispatch(y)),
            if y == 6 {
                12
            } else {
                4
            },
        )
    } else if z == 6 {
        (
            pc_inc(v.set_reg8(spec_cpu_dispatch(y), b1)),
            if y == 6 {
                12
            } else {
                8
            },
        )
    } else {
        (acc_op(v, y), 4)
    }
}

/// Opcodes `01yyyzzz`: register to register loads, and HALT
#[verifier::opaque]
pub open spec fn exec_x1(v: CpuView, y: u8, z: u8) -> (CpuView, u8) {
    if y == 6 && z == 6 {
        (CpuView { state: CpuState::Halt, ..v }, 4)
    } else {
        (
            v.set_reg8(spec_cpu_dispatch(y), v.reg8(spec_cpu_dispatch(z))),
            if y == 6 || z == 6 {
                8
            } else {
                4
            },
        )
    }
}

/// Opcodes `10yyyzzz`: arithmetic and logic on A and a register
pub open spec fn exec_x2(v: CpuView, y: u8, z: u8) -> (CpuView, u8) {
    (
        alu_op(v, y, spec_cpu_dispatch(z)),
        if z == 6 {
            8
        } else {
            4
        },
    )
}

/// Opcodes `11yyy000`
#[verifier::opaque]
pub open spec fn exec_x3_z0(v: CpuView, y: u8, b1: u8) -> (CpuView, u8) {
    if y < 4 {
        let taken = cc_holds(v.f, spec_cc_dispatch(y));
        (
            if taken {
                op_ret(v)
            } else {
                v
            },
            if taken {
                20
            } else {
                8
            },
        )
    } else if y == 4 {
        (pc_inc(store_a(v, (0xFF00 + b1) as u16)), 12)
    } else if y == 5 {
        (pc_inc(op_addspn(v, b1 as i8)), 16)
    } else if y == 6 {
        (pc_inc(load_a(v, (0xFF00 + b1) as u16)), 12)
    } else {
        (pc_inc(op_ldhlspn(v, b1 as i8)), 12)
    }
}

/// Opcodes `11yyy001`
#[verifier::opaque]
pub open spec fn exec_x3_z1(v: CpuView, y: u8) -> (CpuView, u8) {
    if y % 2 == 0 {
        (popped(v).set_reg16(spec_cpu16_dispatch_push_pop(y / 2), stack_top(v)), 12)
    } else if y == 1 {
        (op_ret(v), 16)
    } else if y == 3 {
        (CpuView { ime: true, ..op_ret(v) }, 16)
    } else if y == 5 {
        (CpuView { pc: wrap16(v.hl() - 1), ..v }, 4)
    } else {
        (CpuView { sp: v.hl(), ..v }, 8)
    }
}

/// Opcodes `11yyy010`
#[verifier::opaque]
pub open spec fn exec_x3_z2(v: CpuView, y: u8, b1: u8, b2: u8) -> (CpuView, u8) {
    if y < 4 {
        let taken = cc_holds(v.f, spec_cc_dispatch(y));
        (
            pc_inc2(
                if taken {
                    op_jpnn(v, word(b1, b2))
                } else {
                    v
                },
            ),
            if taken {
                16
            } else {
                12
            },
        )
    } else if y == 4 {
        (store_a(v, (0xFF00 + v.c) as u16), 8)
    } else if y == 5 {
        (pc_inc2(store_a(v, word(b1, b2))), 16)
    } else if y == 6 {
        (load_a(v, (0xFF00 + v.c) as u16), 8)
    } else {
        (pc_inc2(load_a(v, word(b1, b2))), 16)
    }
}

/// Opcodes `11yyyzzz` with `z` from 3 to 7
#[verifier::opaque]
pub open spec fn exec_x3_hi(v: CpuView, y: u8, z: u8, b1: u8, b2: u8) -> (CpuView, u8) {
    if z == 3 {
        if y == 0 {
            (pc_inc2(op_jpnn(v, word(b1, b2))), 16)
        } else if y == 6 {
            (CpuView { interrupt_next_inst: true, ..v }, 4)
        } else if y == 7 {
            (CpuView { ime: true, ..v }, 4)
        } else {
            (crashed(v), 4)
        }
    } else if z == 4 {
        if y < 4 {
            let taken = cc_holds(v.f, spec_cc_dispatch(y));
            (
                pc_inc2(
                    if taken {
                        op_callnn(v, word(b1, b2))
                    } else {
                        v
                    },
                ),
                if taken {
                    24
                } else {
                    12
                },
            )
        } else {
            (crashed(v), 4)
        }
    } else if z == 5 {
        if y % 2 == 0 {
            (pushed(v, v.reg16(spec_cpu16_dispatch_push_pop(y / 2))), 16)
        } else if y == 1 {
            (pc_inc2(op_callnn(v, word(b1, b2))), 24)
        } else {
            (crashed(v), 4)
        }
    } else if z == 6 {
        (pc_inc(alu_op(v, y, CpuRegister::Num(b1))), 8)
    } else {
        (op_rst(v, (8 * y) as u8), 16)
    }
}

/// What an unprefixed opcode does: the state before the final PC step, and
/// the cycles it takes
pub open spec fn exec_unprefixed(v: CpuView, b0: u8, b1: u8, b2: u8) -> (CpuView, u8) {
    let x = op_x(b0);
    let y = op_y(b0);
    let z = op_z(b0);
    if x == 0 {
        exec_x0(v, y, z, b1, b2)
    } else if x == 1 {
        exec_x1(v, y, z)
    } else if x == 2 {
        exec_x2(v, y, z)
    } else if z == 0 {
        exec_x3_z0(v, y, b1)
    } else if z == 1 {
        exec_x3_z1(v, y)
    } else if z == 2 {
        exec_x3_z2(v, y, b1, b2)
    } else {
        exec_x3_hi(v, y, z, b1, b2)
    }
}

/// What the instruction at PC does, with the bytes that follow it, before
/// the final PC step; and its cycles
pub open spec fn exec_instruction(v: CpuView) -> (CpuView, u8) {
    let b0 = v.mem[v.pc as int];
    let b1 = v.mem[v.pc + 1];
    let b2 = v.mem[v.pc + 2];
    if b0 == 0xCB {
        (pc_inc(cb_op(v, b1)), cb_cycles(b1))
    } else {
        exec_unprefixed(v, b0, b1, b2)
    }
}

/// The log after the CB-prefixed instruction `op` runs in state `v`:
/// rotations, shifts, RES and SET of `(HL)` log the write of the new value
#[verifier::opaque]
pub open spec fn cb_logged(v: CpuView, o: Option<LogView>, op: u8) -> Option<LogView> {
    let r = spec_cpu_dispatch(op_z(op));
    let y = op_y(op);
    let x = op_x(op);
    if x == 0 {
        operand_written(o, v, r, shift_value(v, y, r))
    } else if x == 1 {
        o
    } else if x == 2 {
        operand_written(o, v, r, v.reg8(r) & !(1u8 << y))
    } else {
        operand_written(o, v, r, v.reg8(r) | (1u8 << y))
    }
}

/// The log of a relative jump by `n` in state `v`
pub open spec fn jr_logged(v: CpuView, o: Option<LogView>, n: i8) -> Option<LogView> {
    after_jump(o, v.cycles, v.pc, wrap16(v.pc + n))
}

/// The log after an opcode `00yyyzzz` runs in state `v`
#[verifier::opaque]
pub open spec fn x0_logged(v: CpuView, o: Option<LogView>, y: u8, z: u8, b1: u8, b2: u8) -> Option<
    LogView,
> {
    let hl = v.hl();
    if z == 0 {
        if y == 1 {
            after_write(
                after_write(o, word(b1, b2), lo_byte(v.sp)),
                wrap16(word(b1, b2) + 1),
                hi_byte(v.sp),
            )
        } else if y == 3 {
            jr_logged(v, o, b1 as i8)
        } else if y >= 4 && cc_holds(v.f, spec_cc_dispatch((y - 4) as u8)) {
            jr_logged(v, o, b1 as i8)
        } else {
            o
        }
    } else if z == 2 {
        if y == 0 || y == 2 {
            after_write(o, v.reg16(spec_cpu16_dispatch(y / 2)), v.a)
        } else if y == 1 || y == 3 {
            after_read(o, v.reg16(spec_cpu16_dispatch(y / 2)))
        } else if y == 4 || y == 6 {
            after_write(o, hl, v.a)
        } else {
            after_read(o, hl)
        }
    } else if z == 4 {
        operand_written(o, v, spec_cpu_dispatch(y), wrap8(v.reg8(spec_cpu_dispatch(y)) + 1))
    } else if z == 5 {
        operand_written(o, v, spec_cpu_dispatch(y), wrap8(v.reg8(spec_cpu_dispatch(y)) - 1))
    } else if z == 6 {
        operand_written(o, v, spec_cpu_dispatch(y), b1)
    } else {
        o
    }
}

/// The log after an opcode `01yyyzzz` runs in state `v`
pub open spec fn x1_logged(v: CpuView, o: Option<LogView>, y: u8, z: u8) -> Option<LogView> {
    if y == 6 && z == 6 {
        o
    } else {
        operand_written(o, v, spec_cpu_dispatch(y), v.reg8(spec_cpu_dispatch(z)))
    }
}

/// The log after an opcode `11yyy000` runs in state `v`
pub open spec fn x3_z0_logged(v: CpuView, o: Option<LogView>, y: u8, b1: u8) -> Option<LogView> {
    if y < 4 {
        if cc_holds(v.f, spec_cc_dispatch(y)) {
            ret_logged(o, v)
        } else {
            o
        }
    } else if y == 4 {
        after_write(o, (0xFF00 + b1) as u16, v.a)
    } else if y == 6 {
        after_read(o, (0xFF00 + b1) as u16)
    } else {
        o
    }
}

/// The log after an opcode `11yyy001` runs in state `v`
pub open spec fn x3_z1_logged(v: CpuView, o: Option<LogView>, y: u8) -> Option<LogView> {
    if y % 2 == 0 {
        pop_logged(o, v)
    } else if y == 1 || y == 3 {
        ret_logged(o, v)
    } else if y == 5 {
        after_jump(o, v.cycles, v.pc, wrap16(v.hl() - 1))
    } else {
        o
    }
}

/// The log after an opcode `11yyy010` runs in state `v`
pub open spec fn x3_z2_logged(v: CpuView, o: Option<LogView>, y: u8, b1: u8, b2: u8) -> Option<
    LogView,
> {
    if y < 4 {
        if cc_holds(v.f, spec_cc_dispatch(y)) {
            after_jump(o, v.cycles, v.pc, wrap16(word(b1, b2) - 3))
        } else {
            o
        }
    } else if y == 4 {
        after_write(o, (0xFF00 + v.c) as u16, v.a)
    } else if y == 5 {
        after_write(o, word(b1, b2), v.a)
    } else if y == 6 {
        after_read(o, (0xFF00 + v.c) as u16)
    } else {
        after_read(o, word(b1, b2))
    }
}

/// The log of a call of `nn` in state `v`: the push of the return address,
/// then the jump
pub open spec fn call_logged(v: CpuView, o: Option<LogView>, nn: u16) -> Option<LogView> {
    after_jump(push_logged(o, v, (v.pc + 3) as u16), v.cycles, v.pc, nn)
}

/// The log after an opcode `11yyyzzz` with `z` from 3 to 7 runs in state `v`
#[verifier::opaque]
pub open spec fn x3_hi_logged(v: CpuView, o: Option<LogView>, y: u8, z: u8, b1: u8, b2: u8) -> Option<
    LogView,
> {
    if z == 3 {
        if y == 0 {
            after_jump(o, v.cycles, v.pc, wrap16(word(b1, b2) - 3))
        } else {
            o
        }
    } else if z == 4 {
        if y < 4 && cc_holds(v.f, spec_cc_dispatch(y)) {
            call_logged(v, o, word(b1, b2))
        } else {
            o
        }
    } else if z == 5 {
        if y % 2 == 0 {
            push_logged(o, v, v.reg16(spec_cpu16_dispatch_push_pop(y / 2)))
        } else if y == 1 {
            call_logged(v, o, word(b1, b2))
        } else {
            o
        }
    } else if z == 6 {
        o
    } else {
        push_logged(o, v, wrap16(v.pc + 1))
    }
}

/// The log after the instruction at PC runs in state `v`: the reads, writes
/// and jumps it makes, in order
pub open spec fn instruction_logged(v: CpuView, o: Option<LogView>) -> Option<LogView> {
    let b0 = v.mem[v.pc as int];
    let b1 = v.mem[v.pc + 1];
    let b2 = v.mem[v.pc + 2];
    let x = op_x(b0);
    let y = op_y(b0);
    let z = op_z(b0);
    if b0 == 0xCB {
        cb_logged(v, o, b1)
    } else if x == 0 {
        x0_logged(v, o, y, z, b1, b2)
    } else if x == 1 {
        x1_logged(v, o, y, z)
    } else if x == 2 {
        o
    } else if z == 0 {
        x3_z0_logged(v, o, y, b1)
    } else if z == 1 {
        x3_z1_logged(v, o, y)
    } else if z == 2 {
        x3_z2_logged(v, o, y, b1, b2)
    } else {
        x3_hi_logged(v, o, y, z, b1, b2)
    }
}

/// The log after one step in state `v`: the push of an interrupt that is
/// serviced; then, when an instruction runs, its address marked executed
/// and what the instruction logs
pub open spec fn step_logged(v: CpuView, o: Option<LogView>) -> Option<LogView> {
    let o1 = interrupts_logged(v, o);
    let v1 = interrupts_handled(v);
    if runs_instruction(v) {
        instruction_logged(v1, after_exec(o1, v1.pc))
    } else {
        o1
    }
}

/// Whether the instruction at PC is a call that is taken
pub open spec fn call_taken(v: CpuView) -> bool {
    let b0 = v.mem[v.pc as int];
    ||| b0 == 0xCD
    ||| (op_x(b0) == 3 && op_z(b0) == 4 && op_y(b0) < 4 && cc_holds(
        v.f,
        spec_cc_dispatch(op_y(b0)),
    ))
}

/// Whether stepping the CPU in state `v` is defined: it has not crashed,
/// and a call it makes pushes a return address that fits in 16 bits
pub open spec fn can_step(v: CpuView) -> bool {
    let v1 = interrupts_handled(v);
    &&& v.state != CpuState::Crashed
    &&& (v1.state == CpuState::Normal && call_taken(v1)) ==> v1.pc + 3 <= 0xFFFF
}

/// Whether a step runs an instruction: not when the CPU is halted or
/// stopped once pending interrupts have been serviced
pub open spec fn runs_instruction(v: CpuView) -> bool {
    let v1 = interrupts_handled(v);
    v1.state != CpuState::Halt && v1.state != CpuState::Stop
}

/// One step of the CPU: interrupts first; a halted or stopped CPU then
/// idles for 4 cycles; otherwise one instruction runs, PC moves past it, the
/// cycle counter advances and a pending DI takes effect
pub open spec fn step(v: CpuView) -> (CpuView, u8) {
    let v1 = interrupts_handled(v);
    if v1.state == CpuState::Halt || v1.state == CpuState::Stop {
        (v1, 4)
    } else {
        let (v2, t) = exec_instruction(v1);
        let v3 = pc_inc(v2);
        let c = v3.cycles + t;
        let v4 = CpuView {
            cycles: if c > u64::MAX {
                (c - 0x1_0000_0000_0000_0000) as u64
            } else {
                c as u64
            },
            ..v3
        };
        (
            if v4.interrupt_next_inst {
                CpuView { ime: false, interrupt_next_inst: false, ..v4 }
            } else {
                v4
            },
            t,
        )
    }
}

impl Cpu {
    /// Logs the execution of the instruction at the program counter
    fn log_exec(&mut self)
        requires
            old(self).wf(),
        ensures
            final(self).wf(),
            final(self)@ == old(self)@,
            final(self).event_logger is Some == old(self).event_logger is Some,
            log_view(final(self).event_logger) == after_exec(log_view(old(self).event_logger), old(self).pc),
    {
        let cycles = self.cycles;
        let pc = self.pc;
        match &mut self.event_logger {
            Some(logger) => logger.log_exec(cycles, pc),
            None => {},
        }
    }

    /// Runs a CB-prefixed instruction whose second byte is `op`
    fn exec_cb(&mut self, op: u8) -> (t: u8)
        requires
            old(self).wf(),
        ensures
            final(self).wf(),
            final(self)@ == cb_op(old(self)@, op),
            t == cb_cycles(op),
            final(self).event_logger is Some == old(self).event_logger is Some,
            log_view(final(self).event_logger) == cb_logged(old(self)@, log_view(old(self).event_logger), op),
    {
        reveal(cb_logged);
        reveal(cb_op);
        proof {
            lemma_decode(op);
        }
        let x = (op >> 6) & 0x3;
        let y = (op >> 3) & 0x7;
        let z = op & 0x7;
        let r = cpu_dispatch(z);
        if x == 0 {
            match y {
                0 => self.rlc(r),
                1 => self.rrc(r),
                2 => self.rl(r),
                3 => self.rr(r),
                4 => self.sla(r),
                5 => self.sra(r),
                6 => self.swap(r),
                _ => self.srl(r),
            }
        } else if x == 1 {
            self.bit(y, r);
        } else if x == 2 {
            self.res(y, r);
        } else {
            self.set(y, r);
        }
        if z == 6 {
            16
        } else {
            8
        }
    }

    /// Runs an opcode of the form `00yyyzzz`
    fn exec_x0(&mut self, y: u8, z: u8, b1: u8, b2: u8) -> (t: u8)
        requires
            old(self).wf(),
            y < 8,
            z < 8,
        ensures
            final(self).wf(),
            (final(self)@, t) == exec_x0(old(self)@, y, z, b1, b2),
            final(self).event_logger is Some == old(self).event_logger is Some,
            log_view(final(self).event_logger) == x0_logged(old(self)@, log_view(old(self).event_logger), y, z, b1, b2),
    {
        reveal(x0_logged);
        reveal(exec_x0);
        if z == 0 {
            if y == 0 {
                self.nop();
                4
            } else if y == 1 {
                self.ldnnsp(b1, b2);
                self.inc_pc();
                self.inc_pc();
                20
            } else if y == 2 {
                self.stop();
                4
            } else if y == 3 {
                self.jrn(b1 as i8);
                self.inc_pc();
                8
            } else {
                let taken = self.jrccn(cc_dispatch(y - 4), b1 as i8);
                self.inc_pc();
                if taken {
                    12
                } else {
                    8
                }
            }
        } else if z == 1 {
            if y % 2 == 0 {
                self.ldnnn16(cpu16_dispatch(y / 2), b1, b2);
                self.inc_pc();
                self.inc_pc();
                12
            } else {
                self.add_hl(cpu16_dispatch(y / 2));
                8
            }
        } else if z == 2 {
            match y {
                0 | 2 => self.ldna16(cpu16_dispatch(y / 2)),
                1 | 3 => self.ldan16(cpu16_dispatch(y / 2)),
                4 => self.ldihla(),
                5 => self.ldiahl(),
                6 => self.lddhla(),
                _ => self.lddahl(),
            }
            8
        } else if z == 3 {
            if y % 2 == 0 {
                self.inc16(cpu16_dispatch(y / 2));
            } else {
                self.dec16(cpu16_dispatch(y / 2));
            }
            8
        } else if z == 4 {
            self.inc(cpu_dispatch(y));
            if y == 6 {
                12
            } else {
                4
            }
        } else if z == 5 {
            self.dec(cpu_dispatch(y));
            if y == 6 {
                12
            } else {
                4
            }
        } else if z == 6 {
            self.ldnnn(cpu_dispatch(y), b1);
            self.inc_pc();
            if y == 6 {
                12
            } else {
                8
            }
        } else {
            match y {
                0 => self.rlca(),
                1 => self.rrca(),
                2 => self.rla(),
                3 => self.rra(),
                4 => self.daa(),
                5 => self.cpl(),
                6 => self.scf(),
                _ => self.ccf(),
            }
            4
        }
    }

    /// Runs an opcode of the form `01yyyzzz`
    fn exec_x1(&mut self, y: u8, z: u8) -> (t: u8)
        requires
            old(self).wf(),
            y < 8,
            z < 8,
        ensures
            final(self).wf(),
            (final(self)@, t) == exec_x1(old(self)@, y, z),
            final(self).event_logger is Some == old(self).event_logger is Some,
            log_view(final(self).event_logger) == x1_logged(old(self)@, log_view(old(self).event_logger), y, z),
    {
        reveal(exec_x1);
        if y == 6 && z == 6 {
            self.halt();
            4
        } else {
            self.ldr1r2(cpu_dispatch(y), cpu_dispatch(z));
            if y == 6 || z == 6 {
                8
            } else {
                4
            }
        }
    }

    /// Runs an opcode of the form `11yyy000`
    fn exec_x3_z0(&mut self, y: u8, b1: u8) -> (t: u8)
        requires
            old(self).wf(),
            y < 8,
        ensures
            final(self).wf(),
            (final(self)@, t) == exec_x3_z0(old(self)@, y, b1),
            final(self).event_logger is Some == old(self).event_logger is Some,
            log_view(final(self).event_logger) == x3_z0_logged(old(self)@, log_view(old(self).event_logger), y, b1),
    {
        reveal(exec_x3_z0);
        if y < 4 {
            if self.retcc(cc_dispatch(y)) {
                20
            } else {
                8
            }
        } else if y == 4 {
            self.ldhna(b1);
            self.inc_pc();
            12
        } else if y == 5 {
            self.addspn(b1 as i8);
            self.inc_pc();
            16
        } else if y == 6 {
            self.ldhan(b1);
            self.inc_pc();
            12
        } else {
            self.ldhlspn(b1 as i8);
            self.inc_pc();
            12
        }
    }

    /// Runs an opcode of the form `11yyy001`
    fn exec_x3_z1(&mut self, y: u8) -> (t: u8)
        requires
            old(self).wf(),
            y < 8,
        ensures
            final(self).wf(),
            (final(self)@, t) == exec_x3_z1(old(self)@, y),
            final(self).event_logger is Some == old(self).event_logger is Some,
            log_view(final(self).event_logger) == x3_z1_logged(old(self)@, log_view(old(self).event_logger), y),
    {
        reveal(exec_x3_z1);
        if y % 2 == 0 {
            let val = self.pop_from_stack();
            self.set_register16(cpu16_dispatch_push_pop(y / 2), val);
            12
        } else {
            match y / 2 {
                0 => {
                    self.ret();
                    16
                },
                1 => {
                    self.reti();
                    16
                },
                2 => {
                    self.jphl();
                    4
                },
                _ => {
                    self.ldsphl();
                    8
                },
            }
        }
    }

    /// Runs an opcode of the form `11yyy010`
    fn exec_x3_z2(&mut self, y: u8, b1: u8, b2: u8) -> (t: u8)
        requires
            old(self).wf(),
            y < 8,
        ensures
            final(self).wf(),
            (final(self)@, t) == exec_x3_z2(old(self)@, y, b1, b2),
            final(self).event_logger is Some == old(self).event_logger is Some,
            log_view(final(self).event_logger) == x3_z2_logged(old(self)@, log_view(old(self).event_logger), y, b1, b2),
    {
        reveal(exec_x3_z2);
        if y < 4 {
            let nn = byte_to_u16(b1, b2);
            let t: u8 = if self.jpccnn(cc_dispatch(y), nn) {
                16
            } else {
                12
            };
            self.inc_pc();
            self.inc_pc();
            t
        } else if y == 4 {
            self.ldca();
            8
        } else if y == 5 {
            self.ldna16c(b1, b2);
            self.inc_pc();
            self.inc_pc();
            16
        } else if y == 6 {
            self.ldac();
            8
        } else {
            self.ldan16c(b1, b2);
            self.inc_pc();
            self.inc_pc();
            16
        }
    }

    /// Runs an opcode of the form `11yyyzzz` with `z` from 3 to 7
    fn exec_x3_hi(&mut self, y: u8, z: u8, b1: u8, b2: u8) -> (t: u8)
        requires
            old(self).wf(),
            y < 8,
            3 <= z < 8,
            (z == 5 && y == 1) ==> old(self).pc + 3 <= 0xFFFF,
            (z == 4 && y < 4 && cc_holds(old(self).f, spec_cc_dispatch(y))) ==> old(self).pc + 3
                <= 0xFFFF,
        ensures
            final(self).wf(),
            (final(self)@, t) == exec_x3_hi(old(self)@, y, z, b1, b2),
            final(self).event_logger is Some == old(self).event_logger is Some,
            log_view(final(self).event_logger) == x3_hi_logged(old(self)@, log_view(old(self).event_logger), y, z, b1, b2),
    {
        reveal(x3_hi_logged);
        reveal(exec_x3_hi);
        if z == 3 {
            if y == 0 {
                let nn = byte_to_u16(b1, b2);
                self.jpnn(nn);
                self.inc_pc();
                self.inc_pc();
                16
            } else if y == 6 {
                self.di();
                4
            } else if y == 7 {
                self.ei();
                4
            } else {
                self.crash(String::new());
                4
            }
        } else if z == 4 {
            if y < 4 {
                let nn = byte_to_u16(b1, b2);
                let t: u8 = if self.callccnn(cc_dispatch(y), nn) {
                    24
                } else {
                    12
                };
                self.inc_pc();
                self.inc_pc();
                t
            } else {
                self.crash(String::new());
                4
            }
        } else if z == 5 {
            if y % 2 == 0 {
                let value = self.access_register16(cpu16_dispatch_push_pop(y / 2));
                self.push_onto_stack(value);
                16
            } else if y == 1 {
                let nn = byte_to_u16(b1, b2);
                self.callnn(nn);
                self.inc_pc();
                self.inc_pc();
                24
            } else {
                self.crash(String::new());
                4
            }
        } else if z == 6 {
            self.exec_alu(y, CpuRegister::Num(b1));
            self.inc_pc();
            8
        } else {
            self.rst(8 * y);
            16
        }
    }

    /// Runs the instruction at PC; PC is left on its last byte
    fn exec_instruction(&mut self) -> (t: u8)
        requires
            old(self).wf(),
            call_taken(old(self)@) ==> old(self).pc + 3 <= 0xFFFF,
        ensures
            final(self).wf(),
            (final(self)@, t) == exec_instruction(old(self)@),
            final(self).event_logger is Some == old(self).event_logger is Some,
            log_view(final(self).event_logger) == instruction_logged(old(self)@, log_view(old(self).event_logger)),
    {
        let (first_byte, second_byte, third_byte, _) = self.read_instruction();
        proof {
            lemma_decode(first_byte);
        }
        let x = (first_byte >> 6) & 0x3;
        let y = (first_byte >> 3) & 0x7;
        let z = first_byte & 0x7;
        if first_byte == 0xCB {
            let t = self.exec_cb(second_byte);
            self.inc_pc();
            t
        } else if x == 0 {
            self.exec_x0(y, z, second_byte, third_byte)
        } else if x == 1 {
            self.exec_x1(y, z)
        } else if x == 2 {
            self.exec_alu(y, cpu_dispatch(z));
            if z == 6 {
                8
            } else {
                4
            }
        } else if z == 0 {
            self.exec_x3_z0(y, second_byte)
        } else if z == 1 {
            self.exec_x3_z1(y)
        } else if z == 2 {
            self.exec_x3_z2(y, second_byte, third_byte)
        } else {
            self.exec_x3_hi(y, z, second_byte, third_byte)
        }
    }

    /// Whether an interrupt is both enabled and requested
    fn interrupt_pending_now(&self, mask: u8) -> (r: bool)
        requires
            self.wf(),
        ensures
            r == super::control::interrupt_pending(self@, mask),
    {
        self.mem[0xFFFF] & mask == mask && self.mem[0xFF0F] & mask == mask
    }

    /// Whether one step can run from this state: the CPU has not crashed,
    /// and a call that it takes pushes a return address that fits in 16 bits
    pub fn can_step_now(&self) -> (r: bool)
        requires
            self.wf(),
        ensures
            r == can_step(self@),
    {
        proof {
            reveal(interrupts_handled);
        }
        if self.state == CpuState::Crashed {
            return false;
        }
        if self.ime && (self.interrupt_pending_now(0x1) || self.interrupt_pending_now(0x2)
            || self.interrupt_pending_now(0x4) || self.interrupt_pending_now(0x8)
            || self.interrupt_pending_now(0x10)) {
            return true;
        }
        let runs = self.state == CpuState::Normal || (self.ime && self.state == CpuState::Halt);
        if !runs {
            return true;
        }
        let b0 = self.mem[self.pc as usize];
        proof {
            lemma_decode(b0);
        }
        let x = (b0 >> 6) & 3;
        let y = (b0 >> 3) & 7;
        let z = b0 & 7;
        let call = b0 == 0xCD || (x == 3 && z == 4 && y < 4 && self.check_cc(cc_dispatch(y)));
        !call || self.pc <= 0xFFFC
    }

    /// Runs one step of the CPU and returns the cycles it took: pending
    /// interrupts are serviced first; a halted or stopped CPU idles for 4
    /// cycles; otherwise the instruction at PC runs and PC moves past it.
    /// The event log records the pushes, the execution at PC and the
    /// instruction's reads, writes and jumps, in that order.
    pub fn dispatch_opcode(&mut self) -> (t: u8)
        requires
            old(self).wf(),
            can_step(old(self)@),
        ensures
            final(self).wf(),
            (final(self)@, t) == step(old(self)@),
            final(self).event_logger is Some == old(self).event_logger is Some,
            log_view(final(self).event_logger) == step_logged(old(self)@, log_view(old(self).event_logger)),
    {
        proof {
            lemma_interrupts_keep_crash(old(self)@);
        }
        self.handle_interrupts();
        if self.state == CpuState::Halt || self.state == CpuState::Stop {
            return 4;
        }
        self.log_exec();
        let t = self.exec_instruction();
        self.inc_pc();
        self.cycles = self.cycles.wrapping_add(t as u64);
        self.maybe_disable_interrupts();
        t
    }

    /// Runs the `y`-th arithmetic or logic operation on A and `r`
    fn exec_alu(&mut self, y: u8, r: CpuRegister)
        requires
            old(self).wf(),
            y < 8,
        ensures
            final(self).wf(),
            final(self)@ == alu_op(old(self)@, y, r),
            final(self).event_logger is Some == old(self).event_logger is Some,
            log_view(final(self).event_logger) == log_view(old(self).event_logger),
    {
        reveal(alu_op);
        match y {
            0 => self.add(r),
            1 => self.adc(r),
            2 => self.sub(r),
            3 => self.sbc(r),
            4 => self.and(r),
            5 => self.xor(r),
            6 => self.or(r),
            _ => self.cp(r),
        }
    }
}

} // verus!
