use rusty_boy::disasm::{binsearch_inst, disasm_rom_to_vec, pp_opcode};

#[test]
fn pp_simple_opcodes() {
    assert_eq!(pp_opcode(0x00, 0, 0, 0), ("NOP".to_string(), 1));
    assert_eq!(pp_opcode(0x76, 0, 0, 0), ("HALT".to_string(), 1));
    assert_eq!(pp_opcode(0x41, 0, 0, 0), ("LD B,C".to_string(), 1));
    assert_eq!(pp_opcode(0x86, 0, 0, 0), ("ADD A, (HL)".to_string(), 1));
    assert_eq!(pp_opcode(0xFB, 0, 0, 0), ("EI".to_string(), 1));
    assert_eq!(pp_opcode(0xFF, 0, 0, 0), ("RST 56".to_string(), 1));
}

#[test]
fn pp_immediates() {
    assert_eq!(pp_opcode(0x01, 0x34, 0x12, 0), ("LD BC,$1234".to_string(), 3));
    assert_eq!(pp_opcode(0x3E, 0x0A, 0, 0), ("LD A,$0A".to_string(), 2));
    assert_eq!(pp_opcode(0xE0, 0x44, 0, 0), ("LD ($FF00+$44),A".to_string(), 2));
    assert_eq!(pp_opcode(0xC3, 0x50, 0x01, 0), ("JP $0150".to_string(), 3));
    assert_eq!(pp_opcode(0xCD, 0x00, 0x40, 0), ("CALL $4000".to_string(), 3));
    assert_eq!(pp_opcode(0xFE, 0x99, 0, 0), ("CP $99".to_string(), 2));
}

#[test]
fn pp_relative_jumps() {
    // a jump to itself: two bytes back from the address after it
    assert_eq!(pp_opcode(0x18, 0xFE, 0, 0x0100), ("JR Addr_0100".to_string(), 2));
    assert_eq!(pp_opcode(0x20, 0x05, 0, 0x0200), ("JR NZ,Addr_0207".to_string(), 2));
    // the target wraps below 0
    assert_eq!(pp_opcode(0x38, 0x80, 0, 0x0000), ("JR C,Addr_FF82".to_string(), 2));
}

#[test]
fn pp_prefix_and_illegal() {
    assert_eq!(pp_opcode(0xCB, 0x11, 0, 0), ("RL C".to_string(), 2));
    assert_eq!(pp_opcode(0xCB, 0x7C, 0, 0), ("BIT 7,H".to_string(), 2));
    assert_eq!(pp_opcode(0xCB, 0x86, 0, 0), ("RES 0,(HL)".to_string(), 2));
    assert_eq!(pp_opcode(0xD3, 0, 0, 0), (".DB $D3".to_string(), 1));
    assert_eq!(pp_opcode(0xED, 0, 0, 0), (".DB $ED".to_string(), 1));
}

#[test]
fn listing_of_image() {
    let mut rom = [0u8; 0x8000];
    rom[1] = 0xC3;
    rom[2] = 0x50;
    rom[3] = 0x01;
    rom[4] = 0x3E;
    rom[5] = 0x0A;
    let listing = disasm_rom_to_vec(rom, 6);
    assert_eq!(
        listing,
        vec![
            ("0x0000\tNOP".to_string(), 0),
            ("0x0001\tJP $0150".to_string(), 1),
            ("0x0004\tLD A,$0A".to_string(), 4),
        ]
    );
    assert_eq!(disasm_rom_to_vec(rom, 0), vec![]);
}

fn sample_listing() -> Vec<(String, u16)> {
    (0..40u16).map(|i| (format!("line {}", i), i * 2)).collect()
}

#[test]
fn binsearch_finds_lines() {
    let v = sample_listing();
    assert_eq!(binsearch_inst(&v, 0, 0, 39), Some(0));
    assert_eq!(binsearch_inst(&v, 40, 0, 39), Some(20));
    assert_eq!(binsearch_inst(&v, 78, 0, 39), Some(39));
    assert_eq!(binsearch_inst(&v, 22, 0, 39), Some(11));
}

#[test]
fn binsearch_misses() {
    let v = sample_listing();
    assert_eq!(binsearch_inst(&v, 21, 0, 39), None);
    assert_eq!(binsearch_inst(&v, 100, 0, 39), None);
    assert_eq!(binsearch_inst(&v, 0, 5, 4), None);
    // outside the range searched
    assert_eq!(binsearch_inst(&v, 0, 1, 39), None);
}
