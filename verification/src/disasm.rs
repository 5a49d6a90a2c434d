//! A Game Boy disassembler: listings of instructions and their addresses
use vstd::prelude::*;
use vstd::string::StringExecFns;

verus! {

/// Whether the addresses of a listing do not decrease from `lo` to `hi`
pub open spec fn pcs_sorted(s: Seq<(String, u16)>, lo: int, hi: int) -> bool {
    forall|i: int, j: int| lo <= i <= j <= hi ==> #[trigger] s[i].1 <= #[trigger] s[j].1
}

/// Whether a listing has an instruction at `pc` between `lo` and `hi`
pub open spec fn has_pc(s: Seq<(String, u16)>, pc: u16, lo: int, hi: int) -> bool {
    exists|i: int| lo <= i <= hi && #[trigger] s[i].1 == pc
}

/// An uppercase hexadecimal digit
pub open spec fn hex_char(d: nat) -> char {
    if d == 0 {
        '0'
    } else if d == 1 {
        '1'
    } else if d == 2 {
        '2'
    } else if d == 3 {
        '3'
    } else if d == 4 {
        '4'
    } else if d == 5 {
        '5'
    } else if d == 6 {
        '6'
    } else if d == 7 {
        '7'
    } else if d == 8 {
        '8'
    } else if d == 9 {
        '9'
    } else if d == 10 {
        'A'
    } else if d == 11 {
        'B'
    } else if d == 12 {
        'C'
    } else if d == 13 {
        'D'
    } else if d == 14 {
        'E'
    } else {
        'F'
    }
}

/// The last `n` hexadecimal digits of `v`, most significant first: for a
/// value below 16^n, what `{:0nX}` writes
pub open spec fn hex_digits(v: nat, n: nat) -> Seq<char>
    decreases n,
{
    if n == 0 {
        seq![]
    } else {
        hex_digits(v / 16, (n - 1) as nat).push(hex_char(v % 16))
    }
}

/// The name of an 8-bit register operand
pub open spec fn reg_name(i: int) -> Seq<char> {
    if i == 0 {
        "B"@
    } else if i == 1 {
        "C"@
    } else if i == 2 {
        "D"@
    } else if i == 3 {
        "E"@
    } else if i == 4 {
        "H"@
    } else if i == 5 {
        "L"@
    } else if i == 6 {
        "(HL)"@
    } else {
        "A"@
    }
}

/// The name of a register pair operand, with SP
pub open spec fn pair_name(i: int) -> Seq<char> {
    if i == 0 {
        "BC"@
    } else if i == 1 {
        "DE"@
    } else if i == 2 {
        "HL"@
    } else {
        "SP"@
    }
}

/// The name of a register pair operand, with AF
pub open spec fn pair2_name(i: int) -> Seq<char> {
    if i == 0 {
        "BC"@
    } else if i == 1 {
        "DE"@
    } else if i == 2 {
        "HL"@
    } else {
        "AF"@
    }
}

/// The name of a condition
pub open spec fn cond_name(i: int) -> Seq<char> {
    if i == 0 {
        "NZ"@
    } else if i == 1 {
        "Z"@
    } else if i == 2 {
        "NC"@
    } else {
        "C"@
    }
}

/// The name of an ALU operation, with its accumulator operand where it has one
pub open spec fn alu_name(i: int) -> Seq<char> {
    if i == 0 {
        "ADD A,"@
    } else if i == 1 {
        "ADC A,"@
    } else if i == 2 {
        "SUB"@
    } else if i == 3 {
        "SBC A,"@
    } else if i == 4 {
        "AND"@
    } else if i == 5 {
        "XOR"@
    } else if i == 6 {
        "OR"@
    } else {
        "CP"@
    }
}

/// The name of a rotation or shift of the 0xCB prefix
pub open spec fn rot_name(i: int) -> Seq<char> {
    if i == 0 {
        "RLC"@
    } else if i == 1 {
        "RRC"@
    } else if i == 2 {
        "RL"@
    } else if i == 3 {
        "RR"@
    } else if i == 4 {
        "SLA"@
    } else if i == 5 {
        "SRA"@
    } else if i == 6 {
        "SWAP"@
    } else {
        "SRL"@
    }
}

/// A bit number, in decimal
pub open spec fn bit_name(i: int) -> Seq<char> {
    if i == 0 {
        "0"@
    } else if i == 1 {
        "1"@
    } else if i == 2 {
        "2"@
    } else if i == 3 {
        "3"@
    } else if i == 4 {
        "4"@
    } else if i == 5 {
        "5"@
    } else if i == 6 {
        "6"@
    } else {
        "7"@
    }
}

/// The target of a restart, in decimal
pub open spec fn rst_name(i: int) -> Seq<char> {
    if i == 0 {
        "0"@
    } else if i == 1 {
        "8"@
    } else if i == 2 {
        "16"@
    } else if i == 3 {
        "24"@
    } else if i == 4 {
        "32"@
    } else if i == 5 {
        "40"@
    } else if i == 6 {
        "48"@
    } else {
        "56"@
    }
}

/// An 8-bit immediate operand
pub open spec fn imm8(b: u8) -> Seq<char> {
    "$"@ + hex_digits(b as nat, 2)
}

/// A 16-bit immediate operand, from its low and high bytes
pub open spec fn imm16(lo: u8, hi: u8) -> Seq<char> {
    "$"@ + hex_digits((hi * 256 + lo) as nat, 4)
}

/// The target of a relative jump: the address after `size` bytes from `pc`
/// moved by the signed offset `b`, wrapped to 16 bits
pub open spec fn rel_target(pc: u16, size: int, b: u8) -> Seq<char> {
    "Addr_"@ + hex_digits(((pc + size + (b as i8)) as u16) as nat, 4)
}

/// A byte that is no instruction
pub open spec fn illegal_op(b: u8) -> Seq<char> {
    ".DB $"@ + hex_digits(b as nat, 2)
}

/// The mnemonic of an instruction with `b1 / 64 == 0`
pub open spec fn mnemonic_x0(b1: u8, b2: u8, b3: u8, pc: u16) -> Seq<char> {
    let y = (b1 / 8) % 8;
    let z = b1 % 8;
    let p = (b1 / 16) % 4;
    let q = (b1 / 8) % 2;
    if z == 0 {
        if y == 0 {
            "NOP"@
        } else if y == 1 {
            "LD ("@ + imm16(b2, b3) + "),SP"@
        } else if y == 2 {
            "STOP "@ + imm8(b2)
        } else if y == 3 {
            "JR "@ + rel_target(pc, 2, b2)
        } else if y == 4 {
            "JR NZ,"@ + rel_target(pc, 2, b2)
        } else if y == 5 {
            "JR Z,"@ + rel_target(pc, 2, b2)
        } else if y == 6 {
            "JR NC,"@ + rel_target(pc, 2, b2)
        } else {
            "JR C,"@ + rel_target(pc, 2, b2)
        }
    } else if z == 1 {
        if q == 0 {
            "LD "@ + pair_name(p as int) + ","@ + imm16(b2, b3)
        } else {
            "ADD HL,"@ + pair_name(p as int)
        }
    } else if z == 2 {
        if q == 0 {
            if p == 0 {
                "LD (BC),A"@
            } else if p == 1 {
                "LD (DE),A"@
            } else if p == 2 {
                "LD (HL+),A"@
            } else {
                "LD (HL-),A"@
            }
        } else {
            if p == 0 {
                "LD A,(BC)"@
            } else if p == 1 {
                "LD A,(DE)"@
            } else if p == 2 {
                "LD A,(HL+)"@
            } else {
                "LD A,(HL-)"@
            }
        }
    } else if z == 3 {
        if q == 0 {
            "INC "@ + pair_name(p as int)
        } else {
            "DEC "@ + pair_name(p as int)
        }
    } else if z == 4 {
        "INC "@ + reg_name(y as int)
    } else if z == 5 {
        "DEC "@ + reg_name(y as int)
    } else if z == 6 {
        "LD "@ + reg_name(y as int) + ","@ + imm8(b2)
    } else {
        if y == 0 {
            "RLCA"@
        } else if y == 1 {
            "RRCA"@
        } else if y == 2 {
            "RLA"@
        } else if y == 3 {
            "RRA"@
        } else if y == 4 {
            "DAA"@
        } else if y == 5 {
            "CPL"@
        } else if y == 6 {
            "SCF"@
        } else {
            "CCF"@
        }
    }
}

/// The mnemonic of an instruction of the 0xCB prefix, from its second byte
pub open spec fn mnemonic_cb(b2: u8) -> Seq<char> {
    let x = b2 / 64;
    let y = (b2 / 8) % 8;
    let z = b2 % 8;
    if x == 0 {
        rot_name(y as int) + " "@ + reg_name(z as int)
    } else if x == 1 {
        "BIT "@ + bit_name(y as int) + ","@ + reg_name(z as int)
    } else if x == 2 {
        "RES "@ + bit_name(y as int) + ","@ + reg_name(z as int)
    } else {
        "SET "@ + bit_name(y as int) + ","@ + reg_name(z as int)
    }
}

/// The mnemonic of an instruction with `b1 / 64 == 3`
pub open spec fn mnemonic_x3(b1: u8, b2: u8, b3: u8, pc: u16) -> Seq<char> {
    let y = (b1 / 8) % 8;
    let z = b1 % 8;
    let p = (b1 / 16) % 4;
    let q = (b1 / 8) % 2;
    if z == 0 {
        if y <= 3 {
            "RET "@ + cond_name(y as int)
        } else if y == 4 {
            "LD ($FF00+"@ + imm8(b2) + "),A"@
        } else if y == 5 {
            "ADD SP,"@ + rel_target(pc, 0, b2)
        } else if y == 6 {
            "LD A,($FF00+"@ + imm8(b2) + ")"@
        } else {
            "LD HL,(sp + "@ + rel_target(pc, 0, b2) + ")"@
        }
    } else if z == 1 {
        if q == 0 {
            "POP "@ + pair2_name(p as int)
        } else if p == 0 {
            "RET"@
        } else if p == 1 {
            "RETI"@
        } else if p == 2 {
            "JP (HL)"@
        } else {
            "LD SP,HL"@
        }
    } else if z == 2 {
        if y <= 3 {
            "JP "@ + cond_name(y as int) + ","@ + imm16(b2, b3)
        } else if y == 4 {
            "LD ($FF00+C),A"@
        } else if y == 5 {
            "LD ("@ + imm16(b2, b3) + "),A"@
        } else if y == 6 {
            "LD A,($FF00+C)"@
        } else {
            "LD A,("@ + imm16(b2, b3) + ")"@
        }
    } else if z == 3 {
        if y == 0 {
            "JP "@ + imm16(b2, b3)
        } else if y == 1 {
            mnemonic_cb(b2)
        } else if y <= 5 {
            illegal_op(b1)
        } else if y == 6 {
            "DI"@
        } else {
            "EI"@
        }
    } else if z == 4 {
        if y <= 3 {
            "CALL "@ + cond_name(y as int) + ","@ + imm16(b2, b3)
        } else {
            illegal_op(b1)
        }
    } else if z == 5 {
        if q == 0 {
            "PUSH "@ + pair2_name(p as int)
        } else if p == 0 {
            "CALL "@ + imm16(b2, b3)
        } else {
            illegal_op(b1)
        }
    } else if z == 6 {
        alu_name(y as int) + " "@ + imm8(b2)
    } else {
        "RST "@ + rst_name(y as int)
    }
}

/// The mnemonic of the instruction whose bytes are `b1`, `b2`, `b3` at
/// address `pc`
pub open spec fn mnemonic(b1: u8, b2: u8, b3: u8, pc: u16) -> Seq<char> {
    let x = b1 / 64;
    let y = (b1 / 8) % 8;
    let z = b1 % 8;
    if x == 0 {
        mnemonic_x0(b1, b2, b3, pc)
    } else if x == 1 {
        if z == 6 && y == 6 {
            "HALT"@
        } else {
            "LD "@ + reg_name(y as int) + ","@ + reg_name(z as int)
        }
    } else if x == 2 {
        alu_name(y as int) + " "@ + reg_name(z as int)
    } else {
        mnemonic_x3(b1, b2, b3, pc)
    }
}

/// The size in bytes of the instruction whose first byte is `b1`
pub open spec fn op_size(b1: u8) -> u8 {
    let x = b1 / 64;
    let y = (b1 / 8) % 8;
    let z = b1 % 8;
    let p = (b1 / 16) % 4;
    let q = (b1 / 8) % 2;
    if x == 0 {
        if z == 0 {
            if y == 0 {
                1
            } else if y == 1 {
                3
            } else {
                2
            }
        } else if z == 1 {
            if q == 0 {
                3
            } else {
                1
            }
        } else if z == 6 {
            2
        } else {
            1
        }
    } else if x == 1 || x == 2 {
        1
    } else if z == 0 {
        if y <= 3 {
            1
        } else {
            2
        }
    } else if z == 2 {
        if y == 4 || y == 6 {
            1
        } else {
            3
        }
    } else if z == 3 {
        if y == 0 {
            3
        } else if y == 1 {
            2
        } else {
            1
        }
    } else if z == 4 {
        if y <= 3 {
            3
        } else {
            1
        }
    } else if z == 5 {
        if q == 1 && p == 0 {
            3
        } else {
            1
        }
    } else if z == 6 {
        2
    } else {
        1
    }
}

/// An instruction takes one to three bytes
pub proof fn lemma_op_size(b1: u8)
    ensures
        1 <= op_size(b1) <= 3,
{
}

/// An instruction's size takes in every byte that its mnemonic shows: the
/// third byte cannot change the mnemonic of an instruction of one or two
/// bytes, nor the second byte that of a one-byte instruction. So every
/// instruction with a 16-bit operand (an address or a word) is three bytes
/// long, and every one with an 8-bit operand at least two.
pub proof fn lemma_size_covers_operands(b1: u8, b2: u8, b3: u8, b2x: u8, b3x: u8, pc: u16)
    ensures
        op_size(b1) <= 2 ==> mnemonic(b1, b2, b3, pc) == mnemonic(b1, b2, b3x, pc),
        op_size(b1) == 1 ==> mnemonic(b1, b2, b3, pc) == mnemonic(b1, b2x, b3, pc),
{
}

/// The digits of `v`: `n` of them, the last one that of `v % 16`, the
/// one before it that of `(v / 16) % 16`, and so on
proof fn lemma_hex_digits(v: nat, n: nat)
    ensures
        hex_digits(v, n).len() == n,
        n >= 1 ==> hex_digits(v, n)[n - 1] == hex_char(v % 16),
        n >= 3 ==> hex_digits(v, n)[n - 3] == hex_char((v / 256) % 16),
    decreases n,
{
    if n > 0 {
        lemma_hex_digits(v / 16, (n - 1) as nat);
        if n >= 3 {
            lemma_hex_digits(v / 16 / 16, (n - 2) as nat);
            assert(v / 16 / 16 == v / 256) by (nonlinear_arith);
        }
    }
}

/// Two texts whose middle parts have one length and differ somewhere differ
proof fn lemma_middle_differs(p: Seq<char>, x1: Seq<char>, x2: Seq<char>, q: Seq<char>, k: int)
    requires
        x1.len() == x2.len(),
        0 <= k < x1.len(),
        x1[k] != x2[k],
    ensures
        p + x1 + q != p + x2 + q,
        p + x1 != p + x2,
{
    assert((p + x1 + q)[p.len() + k] == x1[k]);
    assert((p + x2 + q)[p.len() + k] == x2[k]);
    assert((p + x1)[p.len() + k] == x1[k]);
    assert((p + x2)[p.len() + k] == x2[k]);
}

/// Operands written with different bytes differ: a 16-bit operand in its
/// high byte and in its low byte, an 8-bit operand, and a jump target
proof fn lemma_operand_texts(b2: u8, b3: u8, pc: u16, s: int)
    requires
        s == 0 || s == 2,
    ensures
        imm16(b2, 0).len() == 5 && imm16(b2, 1).len() == 5,
        imm16(0, b3).len() == 5 && imm16(1, b3).len() == 5,
        imm8(0).len() == 3 && imm8(1).len() == 3,
        rel_target(pc, s, 0).len() == 9 && rel_target(pc, s, 1).len() == 9,
        imm16(b2, 0).len() == imm16(b2, 1).len(),
        imm16(b2, 0)[2] != imm16(b2, 1)[2],
        imm16(0, b3).len() == imm16(1, b3).len(),
        imm16(0, b3)[4] != imm16(1, b3)[4],
        imm8(0).len() == imm8(1).len(),
        imm8(0)[2] != imm8(1)[2],
        rel_target(pc, s, 0).len() == rel_target(pc, s, 1).len(),
        rel_target(pc, s, 0)[8] != rel_target(pc, s, 1)[8],
{
    reveal_strlit("$");
    reveal_strlit("Addr_");
    lemma_hex_digits((0 * 256 + b2) as nat, 4);
    lemma_hex_digits((1 * 256 + b2) as nat, 4);
    lemma_hex_digits((b3 * 256 + 0) as nat, 4);
    lemma_hex_digits((b3 * 256 + 1) as nat, 4);
    assert(((1 * 256 + b2) as nat / 256) % 16 == 1 && ((0 * 256 + b2) as nat / 256) % 16 == 0);
    assert((b3 * 256 + 0) % 16 == 0 && (b3 * 256 + 1) % 16 == 1) by (nonlinear_arith);
    lemma_hex_digits(0, 2);
    lemma_hex_digits(1, 2);
    let u0 = (pc + s + (0u8 as i8)) as u16;
    let u1 = (pc + s + (1u8 as i8)) as u16;
    if s == 0 {
        assert(u0 % 16 != u1 % 16) by (bit_vector)
            requires
                u0 == (pc + 0) as u16,
                u1 == (pc + 1) as u16,
        ;
    } else {
        assert(u0 % 16 != u1 % 16) by (bit_vector)
            requires
                u0 == (pc + 2) as u16,
                u1 == (pc + 3) as u16,
        ;
    }
    lemma_hex_digits(u0 as nat, 4);
    lemma_hex_digits(u1 as nat, 4);
}

/// The converse of `lemma_size_covers_operands`: every byte that an
/// instruction's size takes in shows in its mnemonic. The mnemonic of a
/// three-byte instruction changes with its third byte, and that of an
/// instruction of two or three bytes with its second.
pub proof fn lemma_operands_show(b1: u8, b2: u8, b3: u8, pc: u16)
    ensures
        op_size(b1) == 3 ==> mnemonic(b1, b2, 0, pc) != mnemonic(b1, b2, 1, pc),
        op_size(b1) >= 2 ==> mnemonic(b1, 0, b3, pc) != mnemonic(b1, 1, b3, pc),
{
    lemma_operand_texts(b2, b3, pc, 0);
    lemma_operand_texts(b2, b3, pc, 2);
    let e = Seq::<char>::empty();
    let x = b1 / 64;
    let y = (b1 / 8) % 8;
    let z = b1 % 8;
    let p = (b1 / 16) % 4;
    let q = (b1 / 8) % 2;
    let h0 = imm16(b2, 0);
    let h1 = imm16(b2, 1);
    let l0 = imm16(0, b3);
    let l1 = imm16(1, b3);
    if x == 0 {
        if z == 0 && y == 1 {
            lemma_middle_differs("LD ("@, h0, h1, "),SP"@, 2);
            lemma_middle_differs("LD ("@, l0, l1, "),SP"@, 4);
        } else if z == 0 && y == 2 {
            lemma_middle_differs("STOP "@, imm8(0), imm8(1), e, 2);
        } else if z == 0 && y >= 3 {
            let r0 = rel_target(pc, 2, 0);
            let r1 = rel_target(pc, 2, 1);
            lemma_middle_differs("JR "@, r0, r1, e, 8);
            lemma_middle_differs("JR NZ,"@, r0, r1, e, 8);
            lemma_middle_differs("JR Z,"@, r0, r1, e, 8);
            lemma_middle_differs("JR NC,"@, r0, r1, e, 8);
            lemma_middle_differs("JR C,"@, r0, r1, e, 8);
        } else if z == 1 && q == 0 {
            let pre = "LD "@ + pair_name(p as int) + ","@;
            lemma_middle_differs(pre, h0, h1, e, 2);
            lemma_middle_differs(pre, l0, l1, e, 4);
        } else if z == 6 {
            lemma_middle_differs("LD "@ + reg_name(y as int) + ","@, imm8(0), imm8(1), e, 2);
        }
    } else if x == 3 {
        if z == 0 && y == 4 {
            lemma_middle_differs("LD ($FF00+"@, imm8(0), imm8(1), "),A"@, 2);
        } else if z == 0 && y == 5 {
            lemma_middle_differs("ADD SP,"@, rel_target(pc, 0, 0), rel_target(pc, 0, 1), e, 8);
        } else if z == 0 && y == 6 {
            lemma_middle_differs("LD A,($FF00+"@, imm8(0), imm8(1), ")"@, 2);
        } else if z == 0 && y == 7 {
            lemma_middle_differs(
                "LD HL,(sp + "@,
                rel_target(pc, 0, 0),
                rel_target(pc, 0, 1),
                ")"@,
                8,
            );
        } else if z == 2 && y <= 3 {
            let pre = "JP "@ + cond_name(y as int) + ","@;
            lemma_middle_differs(pre, h0, h1, e, 2);
            lemma_middle_differs(pre, l0, l1, e, 4);
        } else if z == 2 && y == 5 {
            lemma_middle_differs("LD ("@, h0, h1, "),A"@, 2);
            lemma_middle_differs("LD ("@, l0, l1, "),A"@, 4);
        } else if z == 2 && y == 7 {
            lemma_middle_differs("LD A,("@, h0, h1, ")"@, 2);
            lemma_middle_differs("LD A,("@, l0, l1, ")"@, 4);
        } else if z == 3 && y == 0 {
            lemma_middle_differs("JP "@, h0, h1, e, 2);
            lemma_middle_differs("JP "@, l0, l1, e, 4);
        } else if z == 3 && y == 1 {
            reveal_strlit("B");
            reveal_strlit("C");
            lemma_middle_differs(rot_name(0) + " "@, reg_name(0), reg_name(1), e, 0);
        } else if z == 4 && y <= 3 {
            let pre = "CALL "@ + cond_name(y as int) + ","@;
            lemma_middle_differs(pre, h0, h1, e, 2);
            lemma_middle_differs(pre, l0, l1, e, 4);
        } else if z == 5 && q == 1 && p == 0 {
            lemma_middle_differs("CALL "@, h0, h1, e, 2);
            lemma_middle_differs("CALL "@, l0, l1, e, 4);
        } else if z == 6 {
            lemma_middle_differs(alu_name(y as int) + " "@, imm8(0), imm8(1), e, 2);
        }
    }
}

/// Whether the instruction is a relative jump, whose target is taken from
/// the address after its two bytes
pub open spec fn is_jr(b1: u8) -> bool {
    b1 / 64 == 0 && b1 % 8 == 0 && (b1 / 8) % 8 >= 3
}

/// One line of a listing: the address and the mnemonic
pub open spec fn listing_line(pc: int, m: Seq<char>) -> Seq<char> {
    "0x"@ + hex_digits(pc as nat, 4) + "\t"@ + m
}

/// Whether a listing of the first `size` bytes from `pc` can be made: each
/// instruction it reaches has its three bytes in the image
pub open spec fn listing_ok(rom: Seq<u8>, size: int, pc: nat) -> bool
    decreases if pc < size { size - pc } else { 0 },
{
    if pc >= size {
        true
    } else {
        proof {
            lemma_op_size(rom[pc as int]);
        }
        pc + 2 < 0x8000 && listing_ok(rom, size, (pc + op_size(rom[pc as int])) as nat)
    }
}

/// The listing of the first `size` bytes from `pc`: each instruction's line
/// and address
pub open spec fn listing(rom: Seq<u8>, size: int, pc: nat) -> Seq<(Seq<char>, u16)>
    decreases if pc < size { size - pc } else { 0 },
{
    if pc >= size || !(pc + 2 < 0x8000) {
        seq![]
    } else {
        proof {
            lemma_op_size(rom[pc as int]);
        }
        let m = mnemonic(rom[pc as int], rom[pc + 1int], rom[pc + 2int], pc as u16);
        seq![(listing_line(pc as int, m), pc as u16)] + listing(rom, size, (pc + op_size(rom[pc as int])) as nat)
    }
}

/// The text of an 8-bit register operand
fn reg_text(i: u8) -> (r: &'static str)
    requires
        i < 8,
    ensures
        r@ == reg_name(i as int),
{
    if i == 0 {
        "B"
    } else if i == 1 {
        "C"
    } else if i == 2 {
        "D"
    } else if i == 3 {
        "E"
    } else if i == 4 {
        "H"
    } else if i == 5 {
        "L"
    } else if i == 6 {
        "(HL)"
    } else {
        "A"
    }
}

/// The text of a register pair operand, with SP
fn pair_text(i: u8) -> (r: &'static str)
    requires
        i < 4,
    ensures
        r@ == pair_name(i as int),
{
    if i == 0 {
        "BC"
    } else if i == 1 {
        "DE"
    } else if i == 2 {
        "HL"
    } else {
        "SP"
    }
}

/// The text of a register pair operand, with AF
fn pair2_text(i: u8) -> (r: &'static str)
    requires
        i < 4,
    ensures
        r@ == pair2_name(i as int),
{
    if i == 0 {
        "BC"
    } else if i == 1 {
        "DE"
    } else if i == 2 {
        "HL"
    } else {
        "AF"
    }
}

/// The text of a condition
fn cond_text(i: u8) -> (r: &'static str)
    requires
        i < 4,
    ensures
        r@ == cond_name(i as int),
{
    if i == 0 {
        "NZ"
    } else if i == 1 {
        "Z"
    } else if i == 2 {
        "NC"
    } else {
        "C"
    }
}

/// The text of an ALU operation
fn alu_text(i: u8) -> (r: &'static str)
    requires
        i < 8,
    ensures
        r@ == alu_name(i as int),
{
    if i == 0 {
        "ADD A,"
    } else if i == 1 {
        "ADC A,"
    } else if i == 2 {
        "SUB"
    } else if i == 3 {
        "SBC A,"
    } else if i == 4 {
        "AND"
    } else if i == 5 {
        "XOR"
    } else if i == 6 {
        "OR"
    } else {
        "CP"
    }
}

/// The text of a rotation or shift
fn rot_text(i: u8) -> (r: &'static str)
    requires
        i < 8,
    ensures
        r@ == rot_name(i as int),
{
    if i == 0 {
        "RLC"
    } else if i == 1 {
        "RRC"
    } else if i == 2 {
        "RL"
    } else if i == 3 {
        "RR"
    } else if i == 4 {
        "SLA"
    } else if i == 5 {
        "SRA"
    } else if i == 6 {
        "SWAP"
    } else {
        "SRL"
    }
}

/// The text of a bit number
fn bit_text(i: u8) -> (r: &'static str)
    requires
        i < 8,
    ensures
        r@ == bit_name(i as int),
{
    if i == 0 {
        "0"
    } else if i == 1 {
        "1"
    } else if i == 2 {
        "2"
    } else if i == 3 {
        "3"
    } else if i == 4 {
        "4"
    } else if i == 5 {
        "5"
    } else if i == 6 {
        "6"
    } else {
        "7"
    }
}

/// The text of a restart target
fn rst_text(i: u8) -> (r: &'static str)
    requires
        i < 8,
    ensures
        r@ == rst_name(i as int),
{
    if i == 0 {
        "0"
    } else if i == 1 {
        "8"
    } else if i == 2 {
        "16"
    } else if i == 3 {
        "24"
    } else if i == 4 {
        "32"
    } else if i == 5 {
        "40"
    } else if i == 6 {
        "48"
    } else {
        "56"
    }
}

/// The text of a hexadecimal digit
pub(crate) fn hex_digit_text(d: u32) -> (r: &'static str)
    requires
        d < 16,
    ensures
        r@ == seq![hex_char(d as nat)],
{
    proof {
        reveal_strlit("0");
        reveal_strlit("1");
        reveal_strlit("2");
        reveal_strlit("3");
        reveal_strlit("4");
        reveal_strlit("5");
        reveal_strlit("6");
        reveal_strlit("7");
        reveal_strlit("8");
        reveal_strlit("9");
        reveal_strlit("A");
        reveal_strlit("B");
        reveal_strlit("C");
        reveal_strlit("D");
        reveal_strlit("E");
        reveal_strlit("F");
    }
    if d == 0 {
        "0"
    } else if d == 1 {
        "1"
    } else if d == 2 {
        "2"
    } else if d == 3 {
        "3"
    } else if d == 4 {
        "4"
    } else if d == 5 {
        "5"
    } else if d == 6 {
        "6"
    } else if d == 7 {
        "7"
    } else if d == 8 {
        "8"
    } else if d == 9 {
        "9"
    } else if d == 10 {
        "A"
    } else if d == 11 {
        "B"
    } else if d == 12 {
        "C"
    } else if d == 13 {
        "D"
    } else if d == 14 {
        "E"
    } else {
        "F"
    }
}

/// The last `n` hexadecimal digits of `v`
fn hex_text(v: u32, n: u32) -> (r: String)
    ensures
        r@ == hex_digits(v as nat, n as nat),
    decreases n,
{
    if n == 0 {
        proof {
            reveal_strlit("");
        }
        String::from_str("")
    } else {
        let mut s = hex_text(v / 16, n - 1);
        s.append(hex_digit_text(v % 16));
        proof {
            assert(hex_digits((v / 16) as nat, (n - 1) as nat) + seq![hex_char((v % 16) as nat)]
                =~= hex_digits(v as nat, n as nat));
        }
        s
    }
}

/// Two texts, one after the other
fn join2(a: &str, b: &str) -> (r: String)
    ensures
        r@ == a@ + b@,
{
    let mut s = String::from_str(a);
    s.append(b);
    s
}

/// Three texts, one after the other
fn join3(a: &str, b: &str, c: &str) -> (r: String)
    ensures
        r@ == a@ + b@ + c@,
{
    let mut s = join2(a, b);
    s.append(c);
    s
}

/// Four texts, one after the other
fn join4(a: &str, b: &str, c: &str, d: &str) -> (r: String)
    ensures
        r@ == a@ + b@ + c@ + d@,
{
    let mut s = join3(a, b, c);
    s.append(d);
    s
}

/// The text of an 8-bit immediate operand
fn imm8_text(b: u8) -> (r: String)
    ensures
        r@ == imm8(b),
{
    let h = hex_text(b as u32, 2);
    join2("$", h.as_str())
}

/// The text of a 16-bit immediate operand
fn imm16_text(lo: u8, hi: u8) -> (r: String)
    ensures
        r@ == imm16(lo, hi),
{
    let h = hex_text((hi as u32) * 256 + lo as u32, 4);
    join2("$", h.as_str())
}

/// The text of a relative jump's target
fn rel_text(pc: u16, size: u16, b: u8) -> (r: String)
    requires
        pc + size <= 0xFFFF,
    ensures
        r@ == rel_target(pc, size as int, b),
{
    let t: i32 = (pc + size) as i32 + (b as i8) as i32;
    let h = hex_text((t as u16) as u32, 4);
    join2("Addr_", h.as_str())
}

/// The text of a byte that is no instruction
fn illegal_text(b: u8) -> (r: String)
    ensures
        r@ == illegal_op(b),
{
    let h = hex_text(b as u32, 2);
    join2(".DB $", h.as_str())
}

/// The mnemonic of an instruction with `b1 / 64 == 0`
fn x0_text(b1: u8, b2: u8, b3: u8, pc: u16) -> (r: String)
    requires
        b1 / 64 == 0,
        is_jr(b1) ==> pc + 2 <= 0xFFFF,
    ensures
        r@ == mnemonic_x0(b1, b2, b3, pc),
{
    proof {
        crate::bits::lemma_u8(b1);
    }
    let y = (b1 >> 3) & 0b111;
    let z = (b1 >> 0) & 0b111;
    let p = (b1 >> 4) & 0b011;
    let q = (b1 >> 3) & 0b001;
    if z == 0 {
        if y == 0 {
            String::from_str("NOP")
        } else if y == 1 {
            let a = imm16_text(b2, b3);
            join3("LD (", a.as_str(), "),SP")
        } else if y == 2 {
            let d = imm8_text(b2);
            join2("STOP ", d.as_str())
        } else {
            let r = rel_text(pc, 2, b2);
            let head = if y == 3 {
                "JR "
            } else if y == 4 {
                "JR NZ,"
            } else if y == 5 {
                "JR Z,"
            } else if y == 6 {
                "JR NC,"
            } else {
                "JR C,"
            };
            join2(head, r.as_str())
        }
    } else if z == 1 {
        if q == 0 {
            let d = imm16_text(b2, b3);
            join4("LD ", pair_text(p), ",", d.as_str())
        } else {
            join2("ADD HL,", pair_text(p))
        }
    } else if z == 2 {
        if q == 0 {
            if p == 0 {
                String::from_str("LD (BC),A")
            } else if p == 1 {
                String::from_str("LD (DE),A")
            } else if p == 2 {
                String::from_str("LD (HL+),A")
            } else {
                String::from_str("LD (HL-),A")
            }
        } else {
            if p == 0 {
                String::from_str("LD A,(BC)")
            } else if p == 1 {
                String::from_str("LD A,(DE)")
            } else if p == 2 {
                String::from_str("LD A,(HL+)")
            } else {
                String::from_str("LD A,(HL-)")
            }
        }
    } else if z == 3 {
        if q == 0 {
            join2("INC ", pair_text(p))
        } else {
            join2("DEC ", pair_text(p))
        }
    } else if z == 4 {
        join2("INC ", reg_text(y))
    } else if z == 5 {
        join2("DEC ", reg_text(y))
    } else if z == 6 {
        let d = imm8_text(b2);
        join4("LD ", reg_text(y), ",", d.as_str())
    } else {
        if y == 0 {
            String::from_str("RLCA")
        } else if y == 1 {
            String::from_str("RRCA")
        } else if y == 2 {
            String::from_str("RLA")
        } else if y == 3 {
            String::from_str("RRA")
        } else if y == 4 {
            String::from_str("DAA")
        } else if y == 5 {
            String::from_str("CPL")
        } else if y == 6 {
            String::from_str("SCF")
        } else {
            String::from_str("CCF")
        }
    }
}

/// The mnemonic of an instruction of the 0xCB prefix
fn cb_text(b2: u8) -> (r: String)
    ensures
        r@ == mnemonic_cb(b2),
{
    proof {
        crate::bits::lemma_u8(b2);
    }
    let x = (b2 >> 6) & 0b011;
    let y = (b2 >> 3) & 0b111;
    let z = (b2 >> 0) & 0b111;
    if x == 0 {
        join3(rot_text(y), " ", reg_text(z))
    } else if x == 1 {
        join4("BIT ", bit_text(y), ",", reg_text(z))
    } else if x == 2 {
        join4("RES ", bit_text(y), ",", reg_text(z))
    } else {
        join4("SET ", bit_text(y), ",", reg_text(z))
    }
}

/// The mnemonic of an instruction with `b1 / 64 == 3`
fn x3_text(b1: u8, b2: u8, b3: u8, pc: u16) -> (r: String)
    requires
        b1 / 64 == 3,
    ensures
        r@ == mnemonic_x3(b1, b2, b3, pc),
{
    proof {
        crate::bits::lemma_u8(b1);
    }
    let y = (b1 >> 3) & 0b111;
    let z = (b1 >> 0) & 0b111;
    let p = (b1 >> 4) & 0b011;
    let q = (b1 >> 3) & 0b001;
    if z == 0 {
        if y <= 3 {
            join2("RET ", cond_text(y))
        } else if y == 4 {
            let a = imm8_text(b2);
            join3("LD ($FF00+", a.as_str(), "),A")
        } else if y == 5 {
            let r = rel_text(pc, 0, b2);
            join2("ADD SP,", r.as_str())
        } else if y == 6 {
            let a = imm8_text(b2);
            join3("LD A,($FF00+", a.as_str(), ")")
        } else {
            let r = rel_text(pc, 0, b2);
            join3("LD HL,(sp + ", r.as_str(), ")")
        }
    } else if z == 1 {
        if q == 0 {
            join2("POP ", pair2_text(p))
        } else if p == 0 {
            String::from_str("RET")
        } else if p == 1 {
            String::from_str("RETI")
        } else if p == 2 {
            String::from_str("JP (HL)")
        } else {
            String::from_str("LD SP,HL")
        }
    } else if z == 2 {
        if y <= 3 {
            let a = imm16_text(b2, b3);
            join4("JP ", cond_text(y), ",", a.as_str())
        } else if y == 4 {
            String::from_str("LD ($FF00+C),A")
        } else if y == 5 {
            let a = imm16_text(b2, b3);
            join3("LD (", a.as_str(), "),A")
        } else if y == 6 {
            String::from_str("LD A,($FF00+C)")
        } else {
            let a = imm16_text(b2, b3);
            join3("LD A,(", a.as_str(), ")")
        }
    } else if z == 3 {
        if y == 0 {
            let a = imm16_text(b2, b3);
            join2("JP ", a.as_str())
        } else if y == 1 {
            cb_text(b2)
        } else if y <= 5 {
            illegal_text(b1)
        } else if y == 6 {
            String::from_str("DI")
        } else {
            String::from_str("EI")
        }
    } else if z == 4 {
        if y <= 3 {
            let a = imm16_text(b2, b3);
            join4("CALL ", cond_text(y), ",", a.as_str())
        } else {
            illegal_text(b1)
        }
    } else if z == 5 {
        if q == 0 {
            join2("PUSH ", pair2_text(p))
        } else if p == 0 {
            let a = imm16_text(b2, b3);
            join2("CALL ", a.as_str())
        } else {
            illegal_text(b1)
        }
    } else if z == 6 {
        let d = imm8_text(b2);
        join3(alu_text(y), " ", d.as_str())
    } else {
        join2("RST ", rst_text(y))
    }
}

/// The size in bytes of the instruction whose first byte is `b1`
fn instruction_size(b1: u8) -> (r: u8)
    ensures
        r == op_size(b1),
{
    proof {
        crate::bits::lemma_u8(b1);
    }
    let x = (b1 >> 6) & 0b011;
    let y = (b1 >> 3) & 0b111;
    let z = (b1 >> 0) & 0b111;
    let p = (b1 >> 4) & 0b011;
    let q = (b1 >> 3) & 0b001;
    if x == 0 {
        if z == 0 {
            if y == 0 {
                1
            } else if y == 1 {
                3
            } else {
                2
            }
        } else if z == 1 {
            if q == 0 {
                3
            } else {
                1
            }
        } else if z == 6 {
            2
        } else {
            1
        }
    } else if x == 1 || x == 2 {
        1
    } else if z == 0 {
        if y <= 3 {
            1
        } else {
            2
        }
    } else if z == 2 {
        if y == 4 || y == 6 {
            1
        } else {
            3
        }
    } else if z == 3 {
        if y == 0 {
            3
        } else if y == 1 {
            2
        } else {
            1
        }
    } else if z == 4 {
        if y <= 3 {
            3
        } else {
            1
        }
    } else if z == 5 {
        if q == 1 && p == 0 {
            3
        } else {
            1
        }
    } else if z == 6 {
        2
    } else {
        1
    }
}

/// The mnemonic and size of the instruction whose bytes are `first_byte`,
/// `second_byte` and `third_byte` at address `pc`. Operands are written in
/// hexadecimal after `$`, and the target of a relative jump as `Addr_`
/// and four hexadecimal digits.
pub fn pp_opcode(first_byte: u8, second_byte: u8, third_byte: u8, pc: u16) -> (r: (String, u8))
    requires
        is_jr(first_byte) ==> pc + 2 <= 0xFFFF,
    ensures
        r.0@ == mnemonic(first_byte, second_byte, third_byte, pc),
        r.1 == op_size(first_byte),
{
    proof {
        crate::bits::lemma_u8(first_byte);
    }
    let x = (first_byte >> 6) & 0b011;
    let y = (first_byte >> 3) & 0b111;
    let z = (first_byte >> 0) & 0b111;
    let m = if x == 0 {
        x0_text(first_byte, second_byte, third_byte, pc)
    } else if x == 1 {
        if z == 6 && y == 6 {
            String::from_str("HALT")
        } else {
            join4("LD ", reg_text(y), ",", reg_text(z))
        }
    } else if x == 2 {
        join3(alu_text(y), " ", reg_text(z))
    } else {
        x3_text(first_byte, second_byte, third_byte, pc)
    };
    (m, instruction_size(first_byte))
}

/// The listing of the first `rom_size` bytes of a 32 KiB image: for each
/// instruction from address 0 on, a line with its address in hexadecimal,
/// a tab and its mnemonic, beside the address
pub fn disasm_rom_to_vec(rom: [u8; 0x8000], rom_size: usize) -> (r: Vec<(String, u16)>)
    requires
        listing_ok(rom@, rom_size as int, 0),
    ensures
        r@.map_values(|e: (String, u16)| (e.0@, e.1)) == listing(rom@, rom_size as int, 0),
{
    let mut pc: usize = 0;
    let mut ret: Vec<(String, u16)> = Vec::new();
    while pc < rom_size
        invariant
            listing_ok(rom@, rom_size as int, pc as nat),
            rom@.len() == 0x8000,
            ret@.map_values(|e: (String, u16)| (e.0@, e.1)) + listing(rom@, rom_size as int, pc as nat)
                == listing(rom@, rom_size as int, 0),
        decreases 0x8000 - pc,
    {
        let (mnemonic, size) = pp_opcode(rom[pc], rom[pc + 1], rom[pc + 2], pc as u16);
        let h = hex_text(pc as u32, 4);
        let line = join4("0x", h.as_str(), "\t", mnemonic.as_str());
        proof {
            lemma_op_size(rom@[pc as int]);
        }
        let ghost before = ret@;
        ret.push((line, pc as u16));
        proof {
            assert(ret@.map_values(|e: (String, u16)| (e.0@, e.1)) =~= before.map_values(
                |e: (String, u16)| (e.0@, e.1),
            ).push((listing_line(pc as int, mnemonic@), pc as u16)));
        }
        pc = pc + size as usize;
    }
    proof {
        assert(ret@.map_values(|e: (String, u16)| (e.0@, e.1)) + listing(rom@, rom_size as int, pc as nat)
            =~= ret@.map_values(|e: (String, u16)| (e.0@, e.1)));
    }
    ret
}

/// Finds the line of a listing whose address is `desired_pc` among the
/// lines `begin..=end`: a binary search that ends in a scan once at most
/// eleven lines are left. A line it gives has that address; when the
/// addresses are sorted, it gives one exactly when there is such a line.
pub fn binsearch_inst(vec: &Vec<(String, u16)>, desired_pc: u16, begin: usize, end: usize) -> (r:
    Option<usize>)
    requires
        begin <= end ==> end < vec.len(),
        end <= usize::MAX / 2,
    ensures
        r matches Some(i) ==> begin <= i <= end && vec@[i as int].1 == desired_pc,
        pcs_sorted(vec@, begin as int, end as int) ==> (r is None <==> !has_pc(
            vec@,
            desired_pc,
            begin as int,
            end as int,
        )),
    decreases end - begin,
{
    if end < begin {
        return None;
    } else if end - begin <= 10 {
        let mut x = begin;
        while x < end + 1
            invariant
                begin <= x <= end + 1,
                end < vec.len(),
                forall|i: int| begin <= i < x ==> vec@[i].1 != desired_pc,
            decreases end + 1 - x,
        {
            if vec[x].1 == desired_pc {
                return Some(x);
            }
            x = x + 1;
        }
        return None;
    }
    let search = if (end + begin) % 2 == 0 {
        (end + begin) / 2
    } else {
        ((end + begin) / 2) + 1
    };
    let b = vec[search].1;
    if b == desired_pc {
        Some(search)
    } else if b > desired_pc {
        let r = binsearch_inst(vec, desired_pc, begin, search + 1);
        proof {
            if pcs_sorted(vec@, begin as int, end as int) && has_pc(
                vec@,
                desired_pc,
                begin as int,
                end as int,
            ) {
                let j = choose|j: int| begin <= j <= end && #[trigger] vec@[j].1 == desired_pc;
                if j >= search {
                    assert(vec@[search as int].1 <= vec@[j].1);
                }
                assert(has_pc(vec@, desired_pc, begin as int, search + 1));
            }
        }
        r
    } else {
        let r = binsearch_inst(vec, desired_pc, search - 1, end);
        proof {
            if pcs_sorted(vec@, begin as int, end as int) && has_pc(
                vec@,
                desired_pc,
                begin as int,
                end as int,
            ) {
                let j = choose|j: int| begin <= j <= end && #[trigger] vec@[j].1 == desired_pc;
                if j <= search {
                    assert(vec@[j].1 <= vec@[search as int].1);
                }
                assert(has_pc(vec@, desired_pc, search - 1, end as int));
            }
        }
        r
    }
}

} // verus!
