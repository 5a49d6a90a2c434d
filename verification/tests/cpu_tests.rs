use rusty_boy::cpu::constants::{
    CartridgeType, CpuRegister, CpuRegister16, CpuState, CL, HL, NLV, ZL,
};
use rusty_boy::cpu::Cpu;

#[test]
fn add_const() {
    let mut cpu = Cpu::new();
    cpu.a = 5;
    cpu.add(CpuRegister::Num(5));
    assert_eq!(cpu.a, 5 + 5);
    assert_eq!(cpu.f & ZL, 0);
}

#[test]
fn add_mem_half_carry() {
    let mut cpu = Cpu::new();
    cpu.set_register(CpuRegister::HL, 15);
    cpu.a = 1;
    cpu.add(CpuRegister::HL);
    assert_eq!(cpu.a, 15 + 1);
    assert_eq!(cpu.f, HL);
}

#[test]
fn add_mem_half_carry1() {
    let mut cpu = Cpu::new();
    cpu.set_register(CpuRegister::HL, 1);
    cpu.a = 15;
    cpu.add(CpuRegister::HL);
    assert_eq!(cpu.a, 15 + 1);
    assert_eq!(cpu.f, HL);
}

#[test]
fn and_test() {
    let mut cpu = Cpu::new();
    cpu.set_register(CpuRegister::B, 0xF);
    cpu.a = 0xF;
    cpu.and(CpuRegister::B);
    assert_eq!(cpu.a, 0xF);
    assert_eq!(cpu.f, HL);
}

#[test]
fn and_test1() {
    let mut cpu = Cpu::new();
    cpu.set_register(CpuRegister::C, 0x1);
    cpu.a = 0xF;
    cpu.and(CpuRegister::C);
    assert_eq!(cpu.a, 0x1);
    assert_eq!(cpu.f, HL);
}

#[test]
fn and_test2() {
    let mut cpu = Cpu::new();
    cpu.set_register(CpuRegister::E, 0x70);
    cpu.a = 0xF;
    cpu.and(CpuRegister::E);
    assert_eq!(cpu.a, 0);
    assert_eq!(cpu.f, ZL | HL);
}

#[test]
fn or_test() {
    let mut cpu = Cpu::new();
    cpu.set_register(CpuRegister::C, 0xF);
    cpu.a = 0xF;
    cpu.or(CpuRegister::C);
    assert_eq!(cpu.a, 0xF);
    assert_eq!(cpu.f, 0);
}

#[test]
fn or_test1() {
    let mut cpu = Cpu::new();
    cpu.set_register(CpuRegister::D, 0);
    cpu.a = 0xF;
    cpu.or(CpuRegister::D);
    assert_eq!(cpu.a, 0xF);
    assert_eq!(cpu.f, 0);
}

#[test]
fn or_test2() {
    let mut cpu = Cpu::new();
    cpu.set_register(CpuRegister::B, 0xF0);
    cpu.a = 0xF;
    cpu.or(CpuRegister::B);
    assert_eq!(cpu.a, 0xFF);
    assert_eq!(cpu.f, 0);
}

#[test]
fn or_test3() {
    let mut cpu = Cpu::new();
    cpu.set_register(CpuRegister::D, 0);
    cpu.a = 0;
    cpu.or(CpuRegister::D);
    assert_eq!(cpu.a, 0);
    assert_eq!(cpu.f, ZL);
}

#[test]
fn xor_test() {
    let mut cpu = Cpu::new();
    cpu.set_register(CpuRegister::C, 0xF);
    cpu.a = 0xF;
    cpu.xor(CpuRegister::C);
    assert_eq!(cpu.a, 0);
    assert_eq!(cpu.f, ZL);
}

#[test]
fn xor_test1() {
    let mut cpu = Cpu::new();
    cpu.set_register(CpuRegister::D, 0);
    cpu.a = 0xF;
    cpu.xor(CpuRegister::D);
    assert_eq!(cpu.a, 0xF);
    assert_eq!(cpu.f, 0);
}

#[test]
fn xor_test2() {
    let mut cpu = Cpu::new();
    cpu.set_register(CpuRegister::B, 0xF0);
    cpu.a = 0xF;
    cpu.xor(CpuRegister::B);
    assert_eq!(cpu.a, 0xFF);
    assert_eq!(cpu.f, 0);
}

#[test]
fn xor_test3() {
    let mut cpu = Cpu::new();
    cpu.set_register(CpuRegister::D, 0);
    cpu.a = 0;
    cpu.xor(CpuRegister::D);
    assert_eq!(cpu.a, 0);
    assert_eq!(cpu.f, ZL);
}

#[test]
fn addhl_test() {
    let mut cpu = Cpu::new();
    cpu.set_register16(CpuRegister16::BC, 0xFFFF);
    cpu.add_hl(CpuRegister16::BC);
    assert_eq!(cpu.access_register16(CpuRegister16::HL), (0xFFFF + 0x14D) as u16);
    assert_eq!(cpu.f & 0x70, HL | CL);
}

#[test]
fn addhl_test1() {
    let mut cpu = Cpu::new();
    cpu.set_register16(CpuRegister16::DE, 0);
    cpu.add_hl(CpuRegister16::DE);
    assert_eq!(cpu.access_register16(CpuRegister16::HL), 0 + 0x14D);
    assert_eq!(cpu.f & 0x70, 0);
}

#[test]
fn addhl_test2() {
    let mut cpu = Cpu::new();
    cpu.set_register16(CpuRegister16::DE, 0xFFFF);
    cpu.add_hl(CpuRegister16::DE);
    assert_eq!(cpu.access_register16(CpuRegister16::HL), (0xFFFF + 0x14D) as u16);
    assert_eq!(cpu.f & 0x70, HL | CL);
}

#[test]
fn inc16_0() {
    let mut cpu = Cpu::new();
    cpu.set_register16(CpuRegister16::BC, 0);
    cpu.inc16(CpuRegister16::BC);
    assert_eq!(cpu.access_register16(CpuRegister16::BC), 1);
}

#[test]
fn inc16_1() {
    let mut cpu = Cpu::new();
    cpu.set_register16(CpuRegister16::DE, 0xFFFF);
    cpu.inc16(CpuRegister16::DE);
    assert_eq!(cpu.access_register16(CpuRegister16::DE), 0);
}

#[test]
fn inc16_2() {
    let mut cpu = Cpu::new();
    cpu.set_register16(CpuRegister16::BC, 127);
    cpu.inc16(CpuRegister16::BC);
    assert_eq!(cpu.access_register16(CpuRegister16::BC), 128);
}

#[test]
fn dec16_0() {
    let mut cpu = Cpu::new();
    cpu.set_register16(CpuRegister16::BC, 1);
    cpu.dec16(CpuRegister16::BC);
    assert_eq!(cpu.access_register16(CpuRegister16::BC), 0);
}

#[test]
fn dec16_1() {
    let mut cpu = Cpu::new();
    cpu.set_register16(CpuRegister16::DE, 0);
    cpu.dec16(CpuRegister16::DE);
    assert_eq!(cpu.access_register16(CpuRegister16::DE), 0xFFFF);
}

#[test]
fn dec16_2() {
    let mut cpu = Cpu::new();
    cpu.set_register16(CpuRegister16::BC, 128);
    cpu.dec16(CpuRegister16::BC);
    assert_eq!(cpu.access_register16(CpuRegister16::BC), 127);
}

#[test]
fn dec16_3() {
    let mut cpu = Cpu::new();
    cpu.set_register16(CpuRegister16::BC, 0xFF00);
    cpu.dec16(CpuRegister16::BC);
    assert_eq!(cpu.access_register16(CpuRegister16::BC), 0xFEFF);
}

#[test]
fn inc_test() {
    let mut cpu = Cpu::new();
    cpu.set_register(CpuRegister::A, 0xE);
    cpu.inc(CpuRegister::A);
    assert_eq!(cpu.access_register(CpuRegister::A).expect("invalid register"), 0xF);
    assert_eq!(cpu.f & 0xE0, 0);
}

#[test]
fn inc_test1() {
    let mut cpu = Cpu::new();
    cpu.set_register(CpuRegister::B, 0x0);
    cpu.inc(CpuRegister::B);
    assert_eq!(cpu.access_register(CpuRegister::B).expect("invalid register"), 0x1);
    assert_eq!(cpu.f & 0xE0, 0);
}

#[test]
fn swap_test() {
    let mut cpu = Cpu::new();
    cpu.set_register(CpuRegister::A, 0xFA);
    cpu.swap(CpuRegister::A);
    assert_eq!(cpu.access_register(CpuRegister::A).expect("invalid register"), 0xAF);
    assert_eq!(cpu.f, 0);
}

#[test]
fn swap_test1() {
    let mut cpu = Cpu::new();
    cpu.set_register(CpuRegister::B, 0x12);
    cpu.swap(CpuRegister::B);
    assert_eq!(cpu.access_register(CpuRegister::B).expect("invalid register"), 0x21);
    assert_eq!(cpu.f, 0);
}

#[test]
fn swap_test2() {
    let mut cpu = Cpu::new();
    cpu.set_register(CpuRegister::C, 0);
    cpu.swap(CpuRegister::C);
    assert_eq!(cpu.access_register(CpuRegister::C).expect("invalid register"), 0);
    assert_eq!(cpu.f, ZL);
}

#[test]
fn cpl_test1() {
    let mut cpu = Cpu::new();
    cpu.set_register(CpuRegister::A, 0x15);
    cpu.cpl();
    assert_eq!(cpu.access_register(CpuRegister::A).expect("invalid register"), 0xEA);
    assert_eq!(cpu.f & (NLV | HL), NLV | HL);
}

#[test]
fn cpl_test2() {
    let mut cpu = Cpu::new();
    cpu.set_register(CpuRegister::A, 0x70);
    cpu.cpl();
    assert_eq!(cpu.access_register(CpuRegister::A).expect("invalid register"), 0x8F);
    assert_eq!(cpu.f & (NLV | HL), NLV | HL);
}

#[test]
fn cpl_test3() {
    let mut cpu = Cpu::new();
    cpu.set_register(CpuRegister::A, 0xFF);
    cpu.cpl();
    assert_eq!(cpu.access_register(CpuRegister::A).expect("invalid register"), 0x00);
    assert_eq!(cpu.f & (NLV | HL), NLV | HL);
}

#[test]
fn cpl_test4() {
    let mut cpu = Cpu::new();
    cpu.set_register(CpuRegister::A, 0x00);
    cpu.cpl();
    assert_eq!(cpu.access_register(CpuRegister::A).expect("invalid register"), 0xFF);
    assert_eq!(cpu.f & (NLV | HL), NLV | HL);
}

#[test]
fn hl_tests() {
    let mut cpu = Cpu::new();

    cpu.set_register16(CpuRegister16::HL, 0);
    assert_eq!(cpu.access_register16(CpuRegister16::HL), 0);

    cpu.set_register16(CpuRegister16::HL, 100);
    assert_eq!(cpu.access_register16(CpuRegister16::HL), 100);

    assert_eq!(cpu.access_register16(CpuRegister16::HL), cpu.hl());

    cpu.set_register16(CpuRegister16::HL, 0xFF);
    assert_eq!(cpu.access_register16(CpuRegister16::HL), 0xFF);

    cpu.set_register16(CpuRegister16::HL, 0x100);
    assert_eq!(cpu.access_register16(CpuRegister16::HL), 0x100);

    cpu.set_register16(CpuRegister16::HL, 0xFFFE);
    assert_eq!(cpu.access_register16(CpuRegister16::HL), 0xFFFE);
}

#[test]
fn ccf_tests() {
    let mut cpu = Cpu::new();
    cpu.ccf();

    assert_eq!(cpu.f, 0x80);
    cpu.ccf();
    assert_eq!(cpu.f, 0x90);
    cpu.ccf();
    cpu.ccf();
    assert_eq!(cpu.f, 0x90);

    cpu.scf();
    assert_eq!(cpu.f, 0x90);
    cpu.ccf();
    assert_eq!(cpu.f, 0x80);
    cpu.scf();
    assert_eq!(cpu.f, 0x90);
}

#[test]
fn test_halt() {
    let mut cpu = Cpu::new();

    assert_eq!(cpu.state, CpuState::Normal);
    cpu.halt();
    assert_eq!(cpu.state, CpuState::Halt);

    cpu.enable_interrupts();
    cpu.set_vblank_interrupt_enabled();
    cpu.set_vblank();
    cpu.set_vblank_interrupt_bit();
    cpu.set_vblank_interrupt_stat();

    cpu.dispatch_opcode();

    assert_eq!(cpu.state, CpuState::Normal);
}

#[test]
fn test_stop() {
    let mut cpu = Cpu::new();

    assert_eq!(cpu.state, CpuState::Normal);
    cpu.stop();
    assert_eq!(cpu.state, CpuState::Stop);
    cpu.press_a();
    assert_eq!(cpu.state, CpuState::Normal);
    cpu.press_b();
    cpu.press_a();
    assert_eq!(cpu.state, CpuState::Normal);

    cpu.stop();
    cpu.press_start();
    cpu.press_select();
    assert_eq!(cpu.state, CpuState::Normal);
}

#[test]
fn test_interrupt_disabling() {}

#[test]
fn test_jumps() {}

#[test]
fn game_name_from_header() {
    let mut cpu = Cpu::new();
    for i in 0..16 {
        cpu.mem[0x134 + i] = 0;
    }
    for (i, b) in b"TETRIS".iter().enumerate() {
        cpu.mem[0x134 + i] = *b;
    }
    assert_eq!(cpu.get_game_name(), "TETRIS".to_string());
    // zero bytes inside the title are left out
    cpu.mem[0x134 + 8] = b'X';
    assert_eq!(cpu.get_game_name(), "TETRISX".to_string());
}

#[test]
fn game_name_not_utf8() {
    let mut cpu = Cpu::new();
    for i in 0..16 {
        cpu.mem[0x134 + i] = 0;
    }
    cpu.mem[0x134] = 0xFF;
    cpu.mem[0x135] = 0xFE;
    assert_eq!(cpu.get_game_name(), "Illegally named game".to_string());
}

#[test]
fn background_tiles_rows() {
    let mut cpu = Cpu::new();
    // LCDC bits 3 and 4 clear: the map at 0x9000, the data at 0x9800
    cpu.mem[0xFF40] = 0;
    cpu.mem[0x9000] = 1;
    cpu.mem[0x9001] = 0;
    cpu.mem[0x9800 + 0x40] = 0xE4;
    cpu.mem[0x9800] = 0xFF;
    let tiles = cpu.get_background_tiles();
    // entry 0 is written last by the bit pair 3 of group 0
    assert_eq!(tiles[0][0], 3);
    // entries 15, 30, 45, 60 are written last by group 15
    assert_eq!(tiles[0][15], 0);
    assert_eq!(tiles[0][30], 1);
    assert_eq!(tiles[0][45], 2);
    assert_eq!(tiles[0][60], 3);
    // no group writes entry 63
    assert_eq!(tiles[0][63], 0);
    // the second entry of the map points at tile 0
    assert_eq!(tiles[1][1], 3);
    assert_eq!(tiles[1][63], 0);
}

#[test]
fn wram_echo_mirrors_writes() {
    let mut cpu = Cpu::new();
    cpu.set_mem(0xC010, 7);
    assert_eq!(cpu.get_mem(0xC010), 7);
    assert_eq!(cpu.get_mem(0xE010), 7);
    cpu.set_mem(0xE020, 9);
    assert_eq!(cpu.get_mem(0xE020), 9);
    assert_eq!(cpu.get_mem(0xC020), 9);
}

#[test]
fn memory_accesses_are_logged() {
    let mut cpu = Cpu::new();
    cpu.set_mem(0xC123, 0x80);
    cpu.get_mem(0xC200);
    let logger = cpu.event_logger.as_ref().unwrap();
    let w = 0xC123 * 4;
    assert_eq!(logger.access_flags[w + 3], 255);
    assert_eq!(logger.values[w], 255);
    assert_eq!(logger.values[w + 1], 0x20);
    let r = 0xC200 * 4;
    assert_eq!(logger.access_flags[r + 1], 255);
}

#[test]
fn memory_read_byte_by_byte() {
    let mut m = rusty_boy::cpu::memory::Memory::new();
    assert_eq!(m.next_byte(), Some(0));
    assert_eq!(m.next_byte(), Some(0));
}

#[test]
fn sub_const() {
    let mut cpu = Cpu::new();
    cpu.a = 5;
    cpu.sub(CpuRegister::Num(5));
    assert_eq!(cpu.a, 5 - 5);
    assert_eq!(cpu.f, ZL | NLV | HL | CL);
}

#[test]
fn sub_reg2() {
    let mut cpu = Cpu::new();
    cpu.set_register(CpuRegister::C, 10);
    cpu.a = 10;
    cpu.sub(CpuRegister::C);
    assert_eq!(cpu.a, 0);
    assert_eq!(cpu.f, ZL | NLV | HL | CL);
}

#[test]
fn cp_test2() {
    let mut cpu = Cpu::new();
    cpu.set_register(CpuRegister::B, 0xF0);
    cpu.a = 0xF;
    cpu.cp(CpuRegister::B);
    assert_eq!(cpu.a, 0xF);
    assert_eq!(cpu.f, NLV | HL);
}

#[test]
fn cp_test4() {
    let mut cpu = Cpu::new();
    cpu.set_register(CpuRegister::B, 0xF);
    cpu.a = 0xF0;
    cpu.cp(CpuRegister::B);
    assert_eq!(cpu.a, 0xF0);
    assert_eq!(cpu.f, NLV | CL);
}

#[test]
fn dec_test() {
    let mut cpu = Cpu::new();
    cpu.set_register(CpuRegister::A, 0x10);
    cpu.dec(CpuRegister::A);
    assert_eq!(cpu.access_register(CpuRegister::A).expect("invalid register"), 0xF);
    assert_eq!(cpu.f & 0xE0, NLV);
}

#[test]
fn dec_test2() {
    let mut cpu = Cpu::new();
    cpu.set_register(CpuRegister::C, 1);
    cpu.dec(CpuRegister::C);
    assert_eq!(cpu.access_register(CpuRegister::C).expect("invalid register"), 0);
    assert_eq!(cpu.f & 0xE0, ZL | HL | NLV);
}

#[test]
fn bcd_test1() {
    let mut cpu = Cpu::new();
    cpu.set_register(CpuRegister::A, 0x15);
    cpu.daa();
    assert_eq!(cpu.access_register(CpuRegister::A).expect("invalid register"), 0x15);
    assert_eq!(cpu.f & (ZL | HL), 0);
}

#[test]
fn bcd_test2() {
    let mut cpu = Cpu::new();
    cpu.set_register(CpuRegister::A, 0x70);
    cpu.daa();
    assert_eq!(cpu.access_register(CpuRegister::A).expect("invalid register"), 0x70);
    assert_eq!(cpu.f & (ZL | HL), 0);
}

#[test]
fn bcd_test3() {
    let mut cpu = Cpu::new();
    cpu.set_register(CpuRegister::A, 0x79);
    cpu.daa();
    assert_eq!(cpu.access_register(CpuRegister::A).expect("invalid register"), 0x79);
    assert_eq!(cpu.f & (ZL | HL), 0);
}

#[test]
fn bcd_test4() {
    let mut cpu = Cpu::new();
    cpu.set_register(CpuRegister::A, 0x3F);
    cpu.daa();
    assert_eq!(cpu.access_register(CpuRegister::A).expect("invalid register"), 0x45);
    assert_eq!(cpu.f & (ZL | HL), 0);
}

#[test]
fn bcd_test5() {
    let mut cpu = Cpu::new();
    cpu.set_register(CpuRegister::A, 0);
    cpu.daa();
    assert_eq!(cpu.access_register(CpuRegister::A).expect("invalid register"), 0);
    assert_eq!(cpu.f & (ZL | HL), ZL);
}

#[test]
fn step_takes_instruction_cycles() {
    let mut cpu = Cpu::new();
    assert!(cpu.can_step_now());
    let pc = cpu.pc as usize;
    let t = cpu.dispatch_opcode();
    assert_eq!(t, 4);
    assert_eq!(cpu.cycles, 4);
    let logger = cpu.event_logger.as_ref().expect("a new CPU has a logger");
    assert_eq!(logger.access_flags[pc * 4 + 2], 255);
    assert_eq!(logger.access_times[pc * 4 + 2], 255);
}

#[test]
fn call_at_top_of_memory_cannot_step() {
    let mut cpu = Cpu::new();
    cpu.ime = false;
    cpu.pc = 0xFFFE;
    cpu.mem[0xFFFE] = 0xCD;
    assert!(!cpu.can_step_now());
    cpu.state = CpuState::Crashed;
    cpu.pc = 0x100;
    assert!(!cpu.can_step_now());
}

#[test]
fn envelope_counters_stay_in_range() {
    let mut apu = rusty_boy::cpu::apu::Apu::new();
    apu.set_mem(0xFF26, 0x80);
    apu.set_mem(0xFF17, 0xF3);
    apu.set_mem(0xFF19, 0x80);
    assert!(apu.get_sound2());
    for _ in 0..64 {
        let before = apu.div_apu;
        apu.step();
        assert_eq!(apu.div_apu, (before + 1) % 8);
        assert!(1 <= apu.channel2_envelope_counter && apu.channel2_envelope_counter <= 8);
        assert!(1 <= apu.channel1_envelope_counter && apu.channel1_envelope_counter <= 8);
        assert!(1 <= apu.channel4_envelope_counter && apu.channel4_envelope_counter <= 8);
    }
}

#[test]
fn step_logs_jumps_and_writes() {
    let mut cpu = Cpu::new();
    cpu.mem[0x100] = 0xC3;
    cpu.mem[0x101] = 0x50;
    cpu.mem[0x102] = 0x01;
    let before = cpu.event_logger.as_ref().unwrap().events_deq.len();
    assert_eq!(cpu.dispatch_opcode(), 16);
    assert_eq!(cpu.pc, 0x150);
    let logger = cpu.event_logger.as_ref().unwrap();
    assert_eq!(logger.events_deq.len(), before + 1);
    let entry = logger.events_deq.back().unwrap();
    assert_eq!(entry.timestamp, 0);
    assert!(matches!(
        entry.event,
        rusty_boy::cpu::memvis::cpumemvis::CpuEvent::Jump { from: 0x100, to: 0x14D }
    ));

    cpu.set_register16(CpuRegister16::HL, 0xC000);
    cpu.a = 0x44;
    cpu.mem[0x150] = 0x77;
    cpu.dispatch_opcode();
    let logger = cpu.event_logger.as_ref().unwrap();
    assert_eq!(logger.access_flags[0xC000 * 4 + 3], 255);
    assert_eq!(logger.values[0xC000 * 4 + 1], 0x11);
    assert_eq!(logger.access_flags[0x150 * 4 + 2], 255);
}

#[test]
fn cartridge_type_codes() {
    assert_eq!(CartridgeType::RomOnly.code(), 0);
    assert_eq!(CartridgeType::RomMBC2.code(), 5);
    assert_eq!(CartridgeType::RomMBC5RumbleSRam.code(), 0x1D);
    assert_eq!(CartridgeType::HudsonHuC1.code(), 0xFF);
}

#[test]
fn wave_ram_reads_back_writes() {
    let mut apu = rusty_boy::cpu::apu::Apu::new();
    assert!(!apu.get_sound_all());
    apu.set_mem(0xFF30, 0x12);
    apu.set_mem(0xFF3F, 0xAB);
    assert_eq!(apu.get_mem(0xFF30), 0x12);
    assert_eq!(apu.get_mem(0xFF3F), 0xAB);
    apu.set_mem(0xFF26, 0x80);
    apu.set_mem(0xFF31, 0x34);
    assert_eq!(apu.get_mem(0xFF31), 0x34);
    apu.set_mem(0xFF13, 0x42);
    assert_eq!(apu.get_mem(0xFF13), 0xFF);
    assert_eq!(apu.get_mem(0xFF18), 0xFF);
    assert_eq!(apu.get_mem(0xFF1D), 0xFF);
}
