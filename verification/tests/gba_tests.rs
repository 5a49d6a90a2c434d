use rusty_boy::gba::control::{DmaAddrControl, DmaControl, DmaStartTiming};
use rusty_boy::gba::machine::GameboyAdvance;

fn block_control(
    source: DmaAddrControl,
    dest: DmaAddrControl,
    words: bool,
    timing: DmaStartTiming,
) -> DmaControl {
    DmaControl {
        dest_addr_control: dest,
        source_addr_control: source,
        repeat: false,
        transfer_type: words,
        game_pak_drq: false,
        start_timing: timing,
        irq_at_end: false,
        enabled: true,
    }
}

#[test]
fn wram_word_roundtrip() {
    let mut g = GameboyAdvance::new(true);
    let c = g.set_mem32(0x0200_0010, 0xDEAD_BEEF);
    assert_eq!(c, 6);
    assert_eq!(g.get_mem32(0x0200_0010, false), (0xDEAD_BEEF, 6));
    assert_eq!(g.get_mem16(0x0200_0010, false), (0xBEEF, 3));
    assert_eq!(g.get_mem16(0x0200_0012, false), (0xDEAD, 3));
}

#[test]
fn iwram_half_roundtrip() {
    let mut g = GameboyAdvance::new(true);
    assert_eq!(g.set_mem16(0x0300_0100, 0x1234), 1);
    assert_eq!(g.get_mem16(0x0300_0100, true), (0x1234, 1));
}

#[test]
fn dma_block_words_increment() {
    let mut g = GameboyAdvance::new(true);
    for i in 0..4u32 {
        g.set_mem32(0x0200_0000 + 4 * i, 0x1111_1111 * (i + 1));
    }
    let control = block_control(
        DmaAddrControl::Increment,
        DmaAddrControl::Increment,
        true,
        DmaStartTiming::Immediately,
    );
    let cycles = g.run_dma(control, 0x0200_0000, 0x0300_0000, 4, 3);
    // each word: 6 cycles to read from WRAM and 1 to write to IWRAM
    assert_eq!(cycles, 28);
    for i in 0..4u32 {
        assert_eq!(g.get_mem32(0x0300_0000 + 4 * i, false).0, 0x1111_1111 * (i + 1));
    }
    // both cached addresses move past the bytes moved, counted from the source
    assert_eq!(g.io_registers.dma3_source_addr(), 0x0200_0010);
    assert_eq!(g.io_registers.dma3_dest_addr(), 0x0200_0010);
}

#[test]
fn dma_block_halfwords_decrement_source() {
    let mut g = GameboyAdvance::new(true);
    g.set_mem16(0x0200_0004, 0xAAAA);
    g.set_mem16(0x0200_0002, 0xBBBB);
    g.set_mem16(0x0200_0000, 0xCCCC);
    let control = block_control(
        DmaAddrControl::Decrement,
        DmaAddrControl::Fixed,
        false,
        DmaStartTiming::Immediately,
    );
    let cycles = g.run_dma(control, 0x0200_0004, 0x0300_0000, 3, 0);
    // each half word: 3 cycles to read from WRAM and 1 to write to IWRAM
    assert_eq!(cycles, 12);
    // the destination is fixed: the last half word stays
    assert_eq!(g.get_mem16(0x0300_0000, false).0, 0xCCCC);
    assert_eq!(g.io_registers.dma0_source_addr(), 0x0200_0004 - 6);
    assert_eq!(g.io_registers.dma0_dest_addr(), 0);
}

#[test]
fn dma_fifo_fill_moves_source_only() {
    let mut g = GameboyAdvance::new(true);
    let control = block_control(
        DmaAddrControl::Increment,
        DmaAddrControl::Increment,
        false,
        DmaStartTiming::Special,
    );
    // a destination that is not a FIFO: nothing is copied
    let cycles = g.run_dma(control, 0x0200_0000, 0x0300_0000, 4, 1);
    assert_eq!(cycles, 0);
    assert_eq!(g.io_registers.dma1_source_addr(), 0x0200_0010);
    assert_eq!(g.io_registers.dma1_dest_addr(), 0);
}

#[test]
fn handle_dma_without_pending_channel() {
    let mut g = GameboyAdvance::new(true);
    assert_eq!(g.handle_dma(), 0);
    g.handle_dma_delay();
    assert_eq!(g.handle_dma(), 0);
}

#[test]
fn dispatch_runs_arm_instruction() {
    let mut g = GameboyAdvance::new(true);
    let mut rom = vec![0u8; 0x200];
    // MOV r0, #5
    rom[0] = 0x05;
    rom[1] = 0x00;
    rom[2] = 0xA0;
    rom[3] = 0xE3;
    g.load_rom(rom);
    assert_eq!(g.registers().pc, 0x0800_0000);
    let cycles = g.dispatch();
    assert!(cycles > 0);
    assert_eq!(g.registers().r0, 5);
    assert_eq!(g.registers().pc, 0x0800_0004);
}

#[test]
fn codata_software_interrupt() {
    let mut g = GameboyAdvance::new(true);
    let c = g.dispatch_codata_op(0x0F00_0000);
    assert_eq!(c, 5);
    assert_eq!(g.registers().pc, 4);
    assert_eq!(g.registers().cpsr & 0x1F, 0x13);
    assert_eq!(g.registers().spsr_svc, 0x5F);
}
