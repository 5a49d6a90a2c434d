//! DMA: the four channels that copy memory while the CPU waits, and the
//! step that runs them between instructions
use vstd::prelude::*;

use super::{bit8, set_bit8, GameboyAdvance, GbaView};
use crate::gba::registers::bit_of;
use crate::gba::control::{DmaAddrControl, DmaControl, DmaStartTiming};
use crate::gba::io::{dma_base, IoRegisters, IoView};

verus! {

/// Where the unit at byte offset `off` of a transfer from `base` lies
pub open spec fn dma_addr(mode: DmaAddrControl, base: u32, off: int) -> int {
    match mode {
        DmaAddrControl::Increment => base + off,
        DmaAddrControl::IncrementReload => base + off,
        DmaAddrControl::Decrement => base - off,
        DmaAddrControl::Fixed => base as int,
    }
}

/// The size in bytes of one unit of a transfer
pub open spec fn dma_unit_size(c: DmaControl) -> int {
    if c.transfer_type {
        4
    } else {
        2
    }
}

/// Whether an address moved by `bytes` in `mode` stays a 32-bit value
pub open spec fn dma_move_ok(mode: DmaAddrControl, base: u32, bytes: int) -> bool {
    match mode {
        DmaAddrControl::Increment => base + bytes <= u32::MAX,
        DmaAddrControl::Decrement => base >= bytes,
        _ => true,
    }
}

/// The control of a sound FIFO fill: 32-bit units, all to one address
pub open spec fn fifo_fill(c: DmaControl) -> DmaControl {
    DmaControl { dest_addr_control: DmaAddrControl::Fixed, transfer_type: true, ..c }
}

/// Whether `a` is one of the two sound FIFOs
pub open spec fn is_fifo(a: u32) -> bool {
    a == 0x40000A0 || a == 0x40000A4
}

/// The number of units that a channel's count register stands for
pub open spec fn dma_length(n: int, count: u16) -> u32 {
    if count == 0 {
        if n == 3 {
            0x10000
        } else {
            0x4000
        }
    } else {
        count as u32
    }
}

/// Whether a channel number may index the cached addresses that a
/// transfer updates
pub open spec fn dma_index_ok(c: DmaControl, n: int) -> bool {
    n < 4 || (c.source_addr_control == DmaAddrControl::Fixed && !(c.dest_addr_control
        == DmaAddrControl::Increment || c.dest_addr_control == DmaAddrControl::Decrement))
}

/// The first channel that is running and triggered
pub open spec fn dma_pending(io: IoView) -> Option<int> {
    if io.dma_enabled[0] && io.dma_triggered[0] {
        Some(0)
    } else if io.dma_enabled[1] && io.dma_triggered[1] {
        Some(1)
    } else if io.dma_enabled[2] && io.dma_triggered[2] {
        Some(2)
    } else if io.dma_enabled[3] && io.dma_triggered[3] {
        Some(3)
    } else {
        None
    }
}

/// Channel `n` after its start delay was checked: a channel that is ready
/// leaves the delay, and is triggered if it starts immediately
pub open spec fn dma_delay_step(io: IoView, n: int) -> IoView {
    if IoRegisters::spec_dma_ready(io, n) && io.dma_just_enabled[n] {
        let io1 = IoView { dma_just_enabled: io.dma_just_enabled.update(n, false), ..io };
        if io.dma_control(n).start_timing == DmaStartTiming::Immediately {
            IoView { dma_triggered: io1.dma_triggered.update(n, true), ..io1 }
        } else {
            io1
        }
    } else {
        io
    }
}

/// All four channels after their start delays were checked, in order
pub open spec fn dma_delays_handled(io: IoView) -> IoView {
    dma_delay_step(dma_delay_step(dma_delay_step(dma_delay_step(io, 0), 1), 2), 3)
}

/// The start delays counted by one step: each channel that was just enabled
/// before the step, and still is, waits one more
pub open spec fn dma_delays_counted(before: Seq<bool>, io: IoView) -> IoView {
    IoView {
        dma_delay: Seq::new(
            4,
            |i: int|
                if before[i] && io.dma_just_enabled[i] {
                    (io.dma_delay[i] + 1) as u8
                } else {
                    io.dma_delay[i]
                },
        ),
        ..io
    }
}

impl GbaView {
    /// Whether unit `i` of a transfer can be moved from this state
    pub open spec fn dma_unit_ok(self, c: DmaControl, src: u32, dest: u32, i: int) -> bool {
        let s = dma_addr(c.source_addr_control, src, i * dma_unit_size(c));
        let d = dma_addr(c.dest_addr_control, dest, i * dma_unit_size(c));
        &&& 0 <= s <= u32::MAX
        &&& 0 <= d <= u32::MAX
        &&& if c.transfer_type {
            self.read32_ok(s as u32) && GbaView::write32_ok(d as u32, self.read32(s as u32, i > 0).0)
        } else {
            self.read16_ok(s as u32) && self.write16_ok(d as u32, self.read16(s as u32, i > 0).0)
        }
    }

    /// The state after unit `i` of a transfer moved, and the cycles it took
    pub open spec fn dma_unit(self, c: DmaControl, src: u32, dest: u32, i: int) -> (GbaView, int) {
        let s = dma_addr(c.source_addr_control, src, i * dma_unit_size(c)) as u32;
        let d = dma_addr(c.dest_addr_control, dest, i * dma_unit_size(c)) as u32;
        if c.transfer_type {
            let r = self.read32(s, i > 0);
            (self.write32(d, r.0), r.1 + GbaView::write32_cycles(d))
        } else {
            let r = self.read16(s, i > 0);
            (self.write16(d, r.0), r.1 + GbaView::write16_cycles(d))
        }
    }

    /// The state after the first `k` units of a transfer, and their cycles
    pub open spec fn dma_units(self, c: DmaControl, src: u32, dest: u32, k: nat) -> (GbaView, int)
        decreases k,
    {
        if k == 0 {
            (self, 0)
        } else {
            let p = self.dma_units(c, src, dest, (k - 1) as nat);
            let q = p.0.dma_unit(c, src, dest, k - 1);
            (q.0, p.1 + q.1)
        }
    }

    /// Whether the first `k` units of a transfer can be moved
    pub open spec fn dma_units_ok(self, c: DmaControl, src: u32, dest: u32, k: nat) -> bool
        decreases k,
    {
        k == 0 || (self.dma_units_ok(c, src, dest, (k - 1) as nat) && self.dma_units(
            c,
            src,
            dest,
            (k - 1) as nat,
        ).0.dma_unit_ok(c, src, dest, k - 1))
    }

    /// Channel `n`'s cached source after `bytes` moved from `src`
    pub open spec fn dma_source_moved(self, c: DmaControl, src: u32, bytes: int, n: int) -> GbaView {
        let s = match c.source_addr_control {
            DmaAddrControl::Increment => self.io.dma_source.update(n, (src + bytes) as u32),
            DmaAddrControl::Decrement => self.io.dma_source.update(n, (src - bytes) as u32),
            _ => self.io.dma_source,
        };
        GbaView { io: IoView { dma_source: s, ..self.io }, ..self }
    }

    /// Channel `n`'s cached destination after a transfer of `bytes`: it is
    /// set from the source address
    pub open spec fn dma_dest_moved(self, c: DmaControl, src: u32, bytes: int, n: int) -> GbaView {
        let d = match c.dest_addr_control {
            DmaAddrControl::Increment => self.io.dma_dest.update(n, (src + bytes) as u32),
            DmaAddrControl::Decrement => self.io.dma_dest.update(n, (src - bytes) as u32),
            _ => self.io.dma_dest,
        };
        GbaView { io: IoView { dma_dest: d, ..self.io }, ..self }
    }

    /// Whether a block transfer of `count` units returns
    pub open spec fn block_dma_ok(self, c: DmaControl, src: u32, dest: u32, count: u32, n: int) -> bool {
        let bytes = count * dma_unit_size(c);
        &&& bytes <= u32::MAX
        &&& self.dma_units_ok(c, src, dest, count as nat)
        &&& count <= 0x10000 || self.dma_units(c, src, dest, count as nat).1 <= u32::MAX
        &&& c.source_addr_control != DmaAddrControl::IncrementReload
        &&& dma_move_ok(c.source_addr_control, src, bytes)
        &&& dma_move_ok(c.dest_addr_control, src, bytes)
        &&& dma_index_ok(c, n)
    }

    /// A block transfer of `count` units, and its cycles
    pub open spec fn block_dma(self, c: DmaControl, src: u32, dest: u32, count: u32, n: int) -> (GbaView, int) {
        let bytes = count * dma_unit_size(c);
        let u = self.dma_units(c, src, dest, count as nat);
        (u.0.dma_source_moved(c, src, bytes, n).dma_dest_moved(c, src, bytes, n), u.1)
    }

    /// Whether a sound FIFO fill returns
    pub open spec fn fifo_dma_ok(self, c: DmaControl, src: u32, dest: u32) -> bool {
        &&& c.source_addr_control != DmaAddrControl::IncrementReload
        &&& dma_move_ok(c.source_addr_control, src, 16)
        &&& is_fifo(dest) ==> self.dma_units_ok(fifo_fill(c), src, dest, 4)
    }

    /// A sound FIFO fill by channel `n`: four words into the FIFO when it is
    /// the destination, and the source moved by 16 bytes in any case
    pub open spec fn fifo_dma(self, c: DmaControl, src: u32, dest: u32, n: int) -> (GbaView, int) {
        let u = if is_fifo(dest) {
            self.dma_units(fifo_fill(c), src, dest, 4)
        } else {
            (self, 0)
        };
        (u.0.dma_source_moved(c, src, 16, n), u.1)
    }

    /// Whether a transfer returns: a block transfer that starts immediately
    /// and does not repeat, a special one on channel 3, or a FIFO fill on
    /// channel 1 or 2
    pub open spec fn run_dma_ok(self, c: DmaControl, src: u32, dest: u32, count: u32, n: int) -> bool {
        match c.start_timing {
            DmaStartTiming::Immediately => !c.repeat && self.block_dma_ok(c, src, dest, count, n),
            DmaStartTiming::Special => if n == 3 {
                self.block_dma_ok(c, src, dest, count, n)
            } else {
                (n == 1 || n == 2) && self.fifo_dma_ok(c, src, dest)
            },
            _ => false,
        }
    }

    /// What a transfer does, and its cycles
    pub open spec fn run_dma(self, c: DmaControl, src: u32, dest: u32, count: u32, n: int) -> (GbaView, int) {
        if c.start_timing == DmaStartTiming::Special && n != 3 {
            self.fifo_dma(c, src, dest, n)
        } else {
            self.block_dma(c, src, dest, count, n)
        }
    }

    /// Channel `n` made ready to transfer: untriggered, and when it repeats
    /// its count (and with reload its destination) read again
    pub open spec fn dma_prepared(self, n: int) -> GbaView {
        let c = self.io.dma_control(n);
        let io1 = IoView { dma_triggered: self.io.dma_triggered.update(n, false), ..self.io };
        let io2 = if c.repeat {
            IoView { dma_count: io1.dma_count.update(n, io1.dma_count_raw(n)), ..io1 }
        } else {
            io1
        };
        let io3 = if c.repeat && c.dest_addr_control == DmaAddrControl::IncrementReload {
            IoView { dma_dest: io2.dma_dest.update(n, io2.dma_dest_raw(n)), ..io2 }
        } else {
            io2
        };
        GbaView { io: io3, ..self }
    }

    /// After channel `n`'s transfer: its interrupt requested when it asks for
    /// one and it is enabled, and the channel stopped unless it repeats
    pub open spec fn dma_finished(self, c: DmaControl, n: int) -> GbaView {
        let w = if c.irq_at_end && bit8(self.io.regs[0x201], n as u8) {
            self.with_io_reg(0x203, set_bit8(self.io.regs[0x203], n as u8, true))
        } else {
            self
        };
        if !c.repeat {
            let a = dma_base(n) + 11;
            GbaView {
                io: IoView { dma_enabled: w.io.dma_enabled.update(n, false), ..w.io }.put(
                    a,
                    w.io.regs[a] & !0x80u8,
                ),
                ..w
            }
        } else {
            w
        }
    }

    /// Whether channel `n`'s transfer returns
    pub open spec fn dma_service_ok(self, n: int) -> bool {
        let p = self.dma_prepared(n);
        p.run_dma_ok(
            self.io.dma_control(n),
            p.io.dma_source[n],
            p.io.dma_dest[n],
            dma_length(n, p.io.dma_count[n]),
            n,
        )
    }

    /// Channel `n`'s transfer from its cached values, and its cycles
    pub open spec fn dma_serviced(self, n: int) -> (GbaView, int) {
        let c = self.io.dma_control(n);
        let p = self.dma_prepared(n);
        let r = p.run_dma(c, p.io.dma_source[n], p.io.dma_dest[n], dma_length(n, p.io.dma_count[n]), n);
        (r.0.dma_finished(c, n), r.1)
    }

    /// Whether the pending transfer, if any, returns
    #[verifier::opaque]
    pub open spec fn handle_dma_ok(self) -> bool {
        match dma_pending(self.io) {
            Some(n) => self.dma_service_ok(n),
            None => true,
        }
    }

    /// The first pending channel's transfer and its cycles; 0 when none waits
    #[verifier::opaque]
    pub open spec fn dma_handled(self) -> (GbaView, int) {
        match dma_pending(self.io) {
            Some(n) => self.dma_serviced(n),
            None => (self, 0),
        }
    }
}

/// Each unit of a transfer that returns can be moved from the state that
/// the units before it leave, and takes no fewer cycles than them
proof fn lemma_units_prefix(v: GbaView, c: DmaControl, src: u32, dest: u32, k: nat, i: nat)
    requires
        v.dma_units_ok(c, src, dest, k),
        i < k,
    ensures
        v.dma_units(c, src, dest, i).0.dma_unit_ok(c, src, dest, i as int),
        v.dma_units(c, src, dest, i).1 <= v.dma_units(c, src, dest, k).1,
    decreases k,
{
    let p = v.dma_units(c, src, dest, (k - 1) as nat);
    let q = p.0.dma_unit(c, src, dest, k - 1);
    assert(q.1 >= 0);
    if i < k - 1 {
        lemma_units_prefix(v, c, src, dest, (k - 1) as nat, i);
    }
}

/// A write takes at most 6 cycles
proof fn lemma_write_cycles(a: u32)
    ensures
        GbaView::write32_cycles(a) <= 6,
        GbaView::write16_cycles(a) <= 6,
{
}

impl GbaView {
    /// The state before the step's instruction: start delays checked
    pub open spec fn dispatch_start(self) -> GbaView {
        GbaView { io: dma_delays_handled(self.io), ..self }
    }

    /// The transfer that the step runs first, if a channel waits, and its
    /// cycles
    pub open spec fn dispatch_dma(self) -> (GbaView, int) {
        let a = self.dispatch_start();
        if dma_pending(a.io) is Some {
            a.dma_handled()
        } else {
            (a, 0)
        }
    }

    /// The state after a pending and enabled interrupt was taken
    #[verifier::opaque]
    pub open spec fn irq_checked(self) -> GbaView {
        if self.read16(0x4000202, false).0 != 0 && self.io_bit(0x208, 0) {
            self.interrupts_handled()
        } else {
            self
        }
    }

    /// Whether the instruction at the program counter runs
    #[verifier::opaque]
    pub open spec fn instruction_ok(self) -> bool {
        if bit_of(self.r.cpsr, 5) {
            self.thumb_step_ok()
        } else {
            self.arm_step_ok()
        }
    }

    /// The instruction at the program counter, run in the current state
    #[verifier::opaque]
    pub open spec fn instruction(self) -> (GbaView, u8) {
        if bit_of(self.r.cpsr, 5) {
            self.thumb_step()
        } else {
            self.arm_step()
        }
    }

    /// Whether one step of the machine returns
    pub open spec fn dispatch_ok(self) -> bool {
        let a = self.dispatch_start();
        let b = self.dispatch_dma();
        let c = b.0.irq_checked();
        let d = c.instruction();
        &&& dma_pending(a.io) is Some ==> a.handle_dma_ok()
        &&& b.1 == 0 ==> {
            &&& b.0.read16(0x4000202, false).0 != 0 && b.0.io_bit(0x208, 0) && !bit_of(b.0.r.cpsr, 7)
                && b.0.irq_pending() ==> b.0.r.pc <= u32::MAX - 4
            &&& c.instruction_ok()
            &&& forall|i: int|
                0 <= i < 4 && self.io.dma_just_enabled[i] && #[trigger] d.0.io.dma_just_enabled[i]
                    ==> d.0.io.dma_delay[i] < 255
        }
    }

    /// One step of the machine: a waiting transfer, or else an interrupt
    /// check and one instruction; and its cycles
    pub open spec fn dispatched(self) -> (GbaView, int) {
        let b = self.dispatch_dma();
        if b.1 != 0 {
            b
        } else {
            let d = b.0.irq_checked().instruction();
            (GbaView { io: dma_delays_counted(self.io.dma_just_enabled, d.0.io), ..d.0 }, d.1 as int)
        }
    }
}

/// An address moved by `off` bytes in `mode`
fn dma_adjust(mode: DmaAddrControl, base: u32, off: u32) -> (r: u32)
    requires
        0 <= dma_addr(mode, base, off as int) <= u32::MAX,
    ensures
        r == dma_addr(mode, base, off as int),
{
    match mode {
        DmaAddrControl::Increment => base + off,
        DmaAddrControl::IncrementReload => base + off,
        DmaAddrControl::Decrement => base - off,
        DmaAddrControl::Fixed => base,
    }
}

impl GameboyAdvance {
    /// Moves the first `count` units of a transfer; their cycles
    fn copy_units(&mut self, c: DmaControl, src: u32, dest: u32, count: u32) -> (cycles: u32)
        requires
            old(self).wf(),
            count * dma_unit_size(c) <= u32::MAX,
            old(self)@.dma_units_ok(c, src, dest, count as nat),
            count <= 0x10000 || old(self)@.dma_units(c, src, dest, count as nat).1 <= u32::MAX,
        ensures
            final(self).wf(),
            (final(self)@, cycles as int) == old(self)@.dma_units(c, src, dest, count as nat),
    {
        let ghost v0 = self@;
        let size: u32 = if c.transfer_type {
            4
        } else {
            2
        };
        let mut cycles: u32 = 0;
        let mut seq = false;
        let mut i: u32 = 0;
        while i < count
            invariant
                self.wf(),
                i <= count,
                count * dma_unit_size(c) <= u32::MAX,
                size == dma_unit_size(c),
                seq == (i > 0),
                v0.dma_units_ok(c, src, dest, count as nat),
                count <= 0x10000 || v0.dma_units(c, src, dest, count as nat).1 <= u32::MAX,
                (self@, cycles as int) == v0.dma_units(c, src, dest, i as nat),
                cycles <= 24 * i,
            decreases count - i,
        {
            proof {
                lemma_units_prefix(v0, c, src, dest, count as nat, i as nat);
                if i + 1 < count {
                    lemma_units_prefix(v0, c, src, dest, count as nat, (i + 1) as nat);
                }
                assert(i * size <= count * size) by (nonlinear_arith)
                    requires
                        i <= count,
                        size == 2 || size == 4,
                ;
            }
            let off = i * size;
            let s = dma_adjust(c.source_addr_control, src, off);
            let d = dma_adjust(c.dest_addr_control, dest, off);
            proof {
                lemma_write_cycles(d);
            }
            let step: u32 = if c.transfer_type {
                let val = self.get_mem32(s, seq);
                let o = self.set_mem32(d, val.0);
                val.1 as u32 + o as u32
            } else {
                let val = self.get_mem16(s, seq);
                let o = self.set_mem16(d, val.0);
                val.1 as u32 + o as u32
            };
            cycles = cycles + step;
            seq = true;
            i = i + 1;
        }
        cycles
    }

    /// Moves channel `n`'s cached source after `bytes` moved from `src`
    fn move_source(&mut self, c: DmaControl, src: u32, bytes: u32, n: u8)
        requires
            old(self).wf(),
            c.source_addr_control != DmaAddrControl::IncrementReload,
            dma_move_ok(c.source_addr_control, src, bytes as int),
            dma_index_ok(c, n as int),
        ensures
            final(self).wf(),
            final(self)@ == old(self)@.dma_source_moved(c, src, bytes as int, n as int),
    {
        match c.source_addr_control {
            DmaAddrControl::Increment => {
                self.io_registers.set_dma_source(n, src + bytes);
            },
            DmaAddrControl::Decrement => {
                self.io_registers.set_dma_source(n, src - bytes);
            },
            _ => {},
        }
    }

    /// A block transfer of `count` units by channel `dma_id`; its cycles
    fn do_dma(&mut self, control: DmaControl, src: u32, dest: u32, count: u32, dma_id: u8) -> (cycles: u32)
        requires
            old(self).wf(),
            old(self)@.block_dma_ok(control, src, dest, count, dma_id as int),
        ensures
            final(self).wf(),
            (final(self)@, cycles as int) == old(self)@.block_dma(control, src, dest, count, dma_id as int),
    {
        let cycles = self.copy_units(control, src, dest, count);
        let size: u32 = if control.transfer_type {
            4
        } else {
            2
        };
        let bytes = count * size;
        self.move_source(control, src, bytes, dma_id);
        match control.dest_addr_control {
            DmaAddrControl::Increment => {
                self.io_registers.set_dma_dest(dma_id, src + bytes);
            },
            DmaAddrControl::Decrement => {
                self.io_registers.set_dma_dest(dma_id, src - bytes);
            },
            _ => {},
        }
        cycles
    }

    /// A sound FIFO fill by channel 1 or 2; its cycles
    fn fifo_dma(&mut self, control: DmaControl, src: u32, dest: u32, dma_id: u8) -> (cycles: u32)
        requires
            old(self).wf(),
            old(self)@.fifo_dma_ok(control, src, dest),
            dma_id == 1 || dma_id == 2,
        ensures
            final(self).wf(),
            (final(self)@, cycles as int) == old(self)@.fifo_dma(control, src, dest, dma_id as int),
    {
        let mut cycles: u32 = 0;
        if dest == 0x40000A0 || dest == 0x40000A4 {
            let fill = DmaControl {
                dest_addr_control: DmaAddrControl::Fixed,
                transfer_type: true,
                ..control
            };
            cycles = self.copy_units(fill, src, dest, 4);
        }
        self.move_source(control, src, 16, dma_id);
        cycles
    }

    /// Runs a transfer of channel `dma_id`; its cycles
    pub fn run_dma(&mut self, control: DmaControl, src: u32, dest: u32, count: u32, dma_id: u8) -> (cycles: u32)
        requires
            old(self).wf(),
            old(self)@.run_dma_ok(control, src, dest, count, dma_id as int),
        ensures
            final(self).wf(),
            (final(self)@, cycles as int) == old(self)@.run_dma(control, src, dest, count, dma_id as int),
    {
        if control.start_timing == DmaStartTiming::Special && dma_id != 3 {
            self.fifo_dma(control, src, dest, dma_id)
        } else {
            self.do_dma(control, src, dest, count, dma_id)
        }
    }

    /// Whether channel `n` may raise an interrupt
    fn dma_irq_enabled(&self, n: u8) -> (r: bool)
        requires
            self.wf(),
            n < 4,
        ensures
            r == bit8(self@.io.regs[0x201], n),
    {
        match n {
            0 => self.dma0_interrupt_enabled(),
            1 => self.dma1_interrupt_enabled(),
            2 => self.dma2_interrupt_enabled(),
            _ => self.dma3_interrupt_enabled(),
        }
    }

    /// Requests channel `n`'s interrupt
    fn request_dma_irq(&mut self, n: u8)
        requires
            old(self).wf(),
            n < 4,
        ensures
            final(self).wf(),
            final(self)@ == old(self)@.with_io_reg(0x203, set_bit8(old(self)@.io.regs[0x203], n, true)),
    {
        match n {
            0 => self.set_dma0_interrupt(true),
            1 => self.set_dma1_interrupt(true),
            2 => self.set_dma2_interrupt(true),
            _ => self.set_dma3_interrupt(true),
        }
    }

    /// Channel `n`'s transfer from its cached values; its cycles
    fn service_dma(&mut self, n: u8) -> (cycles: u32)
        requires
            old(self).wf(),
            n < 4,
            old(self)@.dma_service_ok(n as int),
        ensures
            final(self).wf(),
            (final(self)@, cycles as int) == old(self)@.dma_serviced(n as int),
    {
        self.io_registers.set_dma_triggered(n, false);
        let dma = self.io_registers.dma_control_of(n);
        if dma.repeat {
            self.io_registers.reload_dma_word_count(n);
            if dma.dest_addr_control == DmaAddrControl::IncrementReload {
                self.io_registers.reload_dma_dest(n);
            }
        }
        let (src, dest, words) = self.io_registers.dma_transfer_of(n);
        let count: u32 = if words == 0 {
            if n == 3 {
                0x10000
            } else {
                0x4000
            }
        } else {
            words as u32
        };
        let out = self.run_dma(dma, src, dest, count, n);
        if dma.irq_at_end && self.dma_irq_enabled(n) {
            self.request_dma_irq(n);
        }
        if !dma.repeat {
            self.io_registers.stop_dma(n);
            self.io_registers.disable_dma(n);
        }
        out
    }

    /// Runs the transfer of the first channel that is running and
    /// triggered; its cycles, 0 when none waits
    pub fn handle_dma(&mut self) -> (cycles: u32)
        requires
            old(self).wf(),
            old(self)@.handle_dma_ok(),
        ensures
            final(self).wf(),
            (final(self)@, cycles as int) == old(self)@.dma_handled(),
    {
        proof {
            reveal(GbaView::dma_handled);
            reveal(GbaView::handle_dma_ok);
        }
        if self.io_registers.dma_running(0) && self.io_registers.dma_is_triggered(0) {
            self.service_dma(0)
        } else if self.io_registers.dma_running(1) && self.io_registers.dma_is_triggered(1) {
            self.service_dma(1)
        } else if self.io_registers.dma_running(2) && self.io_registers.dma_is_triggered(2) {
            self.service_dma(2)
        } else if self.io_registers.dma_running(3) && self.io_registers.dma_is_triggered(3) {
            self.service_dma(3)
        } else {
            0
        }
    }

    /// Checks channel `n`'s start delay
    fn dma_delay_one(&mut self, n: u8)
        requires
            old(self).wf(),
            n < 4,
        ensures
            final(self).wf(),
            final(self)@ == (GbaView { io: dma_delay_step(old(self)@.io, n as int), ..old(self)@ }),
    {
        let ready = match n {
            0 => self.io_registers.dma0_ready(),
            1 => self.io_registers.dma1_ready(),
            2 => self.io_registers.dma2_ready(),
            _ => self.io_registers.dma3_ready(),
        };
        if ready && self.io_registers.dma_is_just_enabled(n) {
            self.io_registers.end_dma_delay(n);
            if self.io_registers.dma_control_of(n).start_timing == DmaStartTiming::Immediately {
                self.io_registers.trigger_dma(n);
            }
        }
    }

    /// Ends the start delay of each channel that is ready, and triggers
    /// those that start immediately
    pub fn handle_dma_delay(&mut self)
        requires
            old(self).wf(),
        ensures
            final(self).wf(),
            final(self)@ == (GbaView { io: dma_delays_handled(old(self)@.io), ..old(self)@ }),
    {
        self.dma_delay_one(0);
        self.dma_delay_one(1);
        self.dma_delay_one(2);
        self.dma_delay_one(3);
    }

    /// Counts one step of the start delay of each channel that was just
    /// enabled before the step (`before`) and still is
    fn count_dma_delays(&mut self, before: [bool; 4])
        requires
            old(self).wf(),
            forall|i: int|
                0 <= i < 4 && before@[i] && #[trigger] old(self)@.io.dma_just_enabled[i]
                    ==> old(self)@.io.dma_delay[i] < 255,
        ensures
            final(self).wf(),
            final(self)@ == (GbaView { io: dma_delays_counted(before@, old(self)@.io), ..old(self)@ }),
    {
        let ghost v0 = self@;
        proof {
            self.lemma_wf();
            self.io_registers.lemma_wf();
        }
        assert(self@.io.dma_delay =~= Seq::new(
            4,
            |i: int|
                if i < 0 && before@[i] && v0.io.dma_just_enabled[i] {
                    (v0.io.dma_delay[i] + 1) as u8
                } else {
                    v0.io.dma_delay[i]
                },
        ));
        let mut n: u8 = 0;
        while n < 4
            invariant
                self.wf(),
                n <= 4,
                v0.io.dma_just_enabled.len() == 4,
                v0.io.dma_delay.len() == 4,
                forall|i: int|
                    0 <= i < 4 && before@[i] && #[trigger] v0.io.dma_just_enabled[i]
                        ==> v0.io.dma_delay[i] < 255,
                self@ == (GbaView {
                    io: IoView {
                        dma_delay: Seq::new(
                            4,
                            |i: int|
                                if i < n && before@[i] && v0.io.dma_just_enabled[i] {
                                    (v0.io.dma_delay[i] + 1) as u8
                                } else {
                                    v0.io.dma_delay[i]
                                },
                        ),
                        ..v0.io
                    },
                    ..v0
                }),
            decreases 4 - n,
        {
            proof {
                self.io_registers.lemma_wf();
            }
            if before[n as usize] && self.io_registers.dma_is_just_enabled(n) {
                self.io_registers.dma_inc_delay_counter(n, 1);
            }
            n = n + 1;
            assert(self@.io.dma_delay =~= Seq::new(
                4,
                |i: int|
                    if i < n && before@[i] && v0.io.dma_just_enabled[i] {
                        (v0.io.dma_delay[i] + 1) as u8
                    } else {
                        v0.io.dma_delay[i]
                    },
            ));
        }
        assert(self@.io.dma_delay =~= dma_delays_counted(before@, v0.io).dma_delay);
    }

    /// The interrupt check and one instruction; its cycles
    fn run_instruction(&mut self) -> (cycles: u32)
        requires
            old(self).wf(),
            old(self)@.read16(0x4000202, false).0 != 0 && old(self)@.io_bit(0x208, 0) && !bit_of(
                old(self)@.r.cpsr,
                7,
            ) && old(self)@.irq_pending() ==> old(self)@.r.pc <= u32::MAX - 4,
            old(self)@.irq_checked().instruction_ok(),
        ensures
            final(self).wf(),
            (final(self)@, cycles as u8) == old(self)@.irq_checked().instruction(),
            cycles <= u8::MAX,
    {
        proof {
            reveal(GbaView::irq_checked);
            reveal(GbaView::instruction);
            reveal(GbaView::instruction_ok);
        }
        if self.get_mem16(0x4000202, false).0 != 0 && self.master_interrupts_enabled() {
            self.maybe_handle_interrupts();
        }
        if self.r.thumb_enabled() {
            self.dispatch_thumb() as u32
        } else {
            self.dispatch_arm() as u32
        }
    }

    /// One step of the machine: a waiting DMA transfer, or else an interrupt
    /// check and one instruction; its cycles
    #[verifier::rlimit(30)]
    pub fn dispatch(&mut self) -> (cycles: u32)
        requires
            old(self).wf(),
            old(self)@.dispatch_ok(),
        ensures
            final(self).wf(),
            (final(self)@, cycles as int) == old(self)@.dispatched(),
    {
        let ghost v0 = self@;
        let before = [
            self.io_registers.dma_is_just_enabled(0),
            self.io_registers.dma_is_just_enabled(1),
            self.io_registers.dma_is_just_enabled(2),
            self.io_registers.dma_is_just_enabled(3),
        ];
        proof {
            self.lemma_wf();
            self.io_registers.lemma_wf();
            assert(before@ =~= v0.io.dma_just_enabled);
        }
        if self.io_registers.dma_ready() {
            self.handle_dma_delay();
        }
        assert(self@ == v0.dispatch_start());
        if self.io_registers.dma_waiting() {
            let dma_cycles = self.handle_dma();
            if dma_cycles != 0 {
                return dma_cycles;
            }
        }
        assert(self@ == v0.dispatch_dma().0);
        let cycles = self.run_instruction();
        let ghost d = v0.dispatch_dma().0.irq_checked().instruction();
        assert(self@ == d.0);
        assert forall|i: int|
            0 <= i < 4 && before@[i] && #[trigger] self@.io.dma_just_enabled[i] implies self@.io.dma_delay[i]
            < 255 by {
            assert(v0.io.dma_just_enabled[i]);
            assert(d.0.io.dma_just_enabled[i]);
        }
        self.count_dma_delays(before);
        cycles
    }
}

} // verus!
