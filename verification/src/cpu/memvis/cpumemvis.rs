//! Recording of memory reads, writes, executions and jumps, for
//! visualising what the CPU does.
use std::collections::VecDeque;
use vstd::prelude::*;

use crate::cpu::constants::{CpuRegister, CpuRegister16};

verus! {

pub type CycleCount = u64;

pub type MemAddr = u16;

pub const FLAG_R: u8 = 0x1;
pub const FLAG_W: u8 = 0x2;
pub const FLAG_X: u8 = 0x4;

/// Use RGB + Alpha for cpu event visualization
pub const COLOR_DEPTH: usize = 4;

/// Texture size for storing RGBA pixels for every memory address
/// (with 0x100 addresses to spare).
pub const EVENT_LOGGER_TEXTURE_SIZE: usize = 0x40FFC;

/// Alpha of the access-type channels before any access is seen
pub const EVENT_LOGGER_ACCESS_TYPE_ALPHA: u8 = 76;

/// The most bytes of memory that a logger can mirror
pub const MAX_MIRRORED_BYTES: usize = 0x103FF;

/// Something that records what the CPU does to memory.
pub trait CpuEventLogger: Sized {
    /// The logger's own consistency condition.
    spec fn logger_inv(&self) -> bool;

    fn new(mem: Option<&[u8]>) -> (r: Self)
        requires
            mem matches Some(m) ==> m@.len() <= MAX_MIRRORED_BYTES,
        ensures
            r.logger_inv(),
    ;

    fn log_read(&mut self, timestamp: CycleCount, addr: MemAddr)
        requires
            old(self).logger_inv(),
        ensures
            final(self).logger_inv(),
    ;

    fn log_write(&mut self, timestamp: CycleCount, addr: MemAddr, value: u8)
        requires
            old(self).logger_inv(),
        ensures
            final(self).logger_inv(),
    ;

    fn log_exec(&mut self, timestamp: CycleCount, addr: MemAddr)
        requires
            old(self).logger_inv(),
        ensures
            final(self).logger_inv(),
    ;

    fn log_jump(&mut self, timestamp: CycleCount, src: MemAddr, dst: MemAddr)
        requires
            old(self).logger_inv(),
        ensures
            final(self).logger_inv(),
    ;
}

/// Types for storing and visualizing various things happening
#[derive(Copy, Clone)]
pub enum EventPlace {
    Addr(MemAddr),
    Register(CpuRegister),
    Register16(CpuRegister16),
}

#[derive(Copy, Clone)]
pub enum CpuEvent {
    Read { from: MemAddr },
    Write { to: MemAddr },
    Execute(MemAddr),
    Move { from: EventPlace, to: EventPlace },
    Jump { from: MemAddr, to: MemAddr },
}

#[derive(Copy, Clone)]
pub struct EventLogEntry {
    pub timestamp: CycleCount,
    pub event: CpuEvent,
}

/// Structure for storing info about things happening in memory/cpu.
pub struct DeqCpuEventLogger {
    /// Deque for storing events (currently only jump events)
    pub events_deq: VecDeque<EventLogEntry>,
    /// Mirror of addressable memory values (stored as 4 channel texture)
    pub values: Vec<u8>,
    /// Color coding for address access types (r/w/x)
    pub access_flags: Vec<u8>,
    /// Store of recent accesses. Used for fading effect.
    pub access_times: Vec<u8>,
}

/// The texture after one channel of pixel `addr` is set to full intensity
pub open spec fn mark_channel(t: Seq<u8>, addr: MemAddr, channel: int) -> Seq<u8> {
    t.update(addr * 4 + channel, 255u8)
}

/// What a logger holds: its events and its three textures
pub ghost struct LogView {
    pub events: Seq<EventLogEntry>,
    pub values: Seq<u8>,
    pub flags: Seq<u8>,
    pub times: Seq<u8>,
}

/// What an optional logger holds
pub open spec fn log_view(l: Option<DeqCpuEventLogger>) -> Option<LogView> {
    match l {
        Some(g) => Some(
            LogView {
                events: g.events_deq@,
                values: g.values@,
                flags: g.access_flags@,
                times: g.access_times@,
            },
        ),
        None => None,
    }
}

/// The log after a read of `addr`: its pixel marked read
pub open spec fn after_read(o: Option<LogView>, addr: MemAddr) -> Option<LogView> {
    match o {
        Some(g) => Some(
            LogView { flags: mark_channel(g.flags, addr, 1), times: mark_channel(g.times, addr, 1), ..g },
        ),
        None => None,
    }
}

/// The log after `value` is written to `addr`: the value mirrored and its
/// pixel marked written
pub open spec fn after_write(o: Option<LogView>, addr: MemAddr, value: u8) -> Option<LogView> {
    match o {
        Some(g) => Some(
            LogView {
                values: mirror_value(g.values, addr, value),
                flags: mark_channel(g.flags, addr, 3),
                times: mark_channel(g.times, addr, 3),
                ..g
            },
        ),
        None => None,
    }
}

/// The log after the instruction at `addr` starts: its pixel marked executed
pub open spec fn after_exec(o: Option<LogView>, addr: MemAddr) -> Option<LogView> {
    match o {
        Some(g) => Some(
            LogView { flags: mark_channel(g.flags, addr, 2), times: mark_channel(g.times, addr, 2), ..g },
        ),
        None => None,
    }
}

/// The log after a jump from `from` to `to` at time `timestamp`: the event
/// appended
pub open spec fn after_jump(o: Option<LogView>, timestamp: CycleCount, from: MemAddr, to: MemAddr) -> Option<
    LogView,
> {
    match o {
        Some(g) => Some(
            LogView {
                events: g.events.push(
                    EventLogEntry { timestamp: timestamp, event: CpuEvent::Jump { from: from, to: to } },
                ),
                ..g
            },
        ),
        None => None,
    }
}

/// The value texture after `value` is written to `addr`: full alpha, and
/// the value faded to a quarter in each colour channel
pub open spec fn mirror_value(t: Seq<u8>, addr: MemAddr, value: u8) -> Seq<u8> {
    t.update(addr * 4, 255u8).update(addr * 4 + 1, value / 4).update(addr * 4 + 2, value / 4).update(
        addr * 4 + 3,
        value / 4,
    )
}

/// The value texture that mirrors memory `m`, pixel by pixel
pub open spec fn initial_values(m: Seq<u8>) -> Seq<u8> {
    Seq::new(
        EVENT_LOGGER_TEXTURE_SIZE as nat,
        |j: int|
            if j < m.len() * 4 {
                if j % 4 == 0 {
                    255u8
                } else {
                    m[j / 4] / 4
                }
            } else {
                0u8
            },
    )
}

/// An access texture for memory `m`: `alpha` in the first channel of every
/// mirrored pixel, zero elsewhere
pub open spec fn initial_alpha(m: Seq<u8>, alpha: u8) -> Seq<u8> {
    Seq::new(
        EVENT_LOGGER_TEXTURE_SIZE as nat,
        |j: int|
            if j < m.len() * 4 && j % 4 == 0 {
                alpha
            } else {
                0u8
            },
    )
}

impl DeqCpuEventLogger {
    pub open spec fn wf(&self) -> bool {
        &&& self.values@.len() == EVENT_LOGGER_TEXTURE_SIZE
        &&& self.access_flags@.len() == EVENT_LOGGER_TEXTURE_SIZE
        &&& self.access_times@.len() == EVENT_LOGGER_TEXTURE_SIZE
    }
}

impl CpuEventLogger for DeqCpuEventLogger {
    open spec fn logger_inv(&self) -> bool {
        self.wf()
    }

    /// A logger with no events; with `Some(mem)`, its textures mirror `mem`.
    fn new(mem: Option<&[u8]>) -> (logger: DeqCpuEventLogger)
        ensures
            logger.wf(),
            logger.events_deq@.len() == 0,
            mem is None ==> logger.values@ == Seq::new(EVENT_LOGGER_TEXTURE_SIZE as nat, |j: int| 0u8)
                && logger.access_flags@ == logger.values@ && logger.access_times@ == logger.values@,
            mem matches Some(m) ==> logger.values@ == initial_values(m@)
                && logger.access_flags@ == initial_alpha(m@, EVENT_LOGGER_ACCESS_TYPE_ALPHA)
                && logger.access_times@ == initial_alpha(m@, 255u8),
    {
        let mut logger = DeqCpuEventLogger {
            events_deq: VecDeque::new(),
            values: vec![0u8; EVENT_LOGGER_TEXTURE_SIZE],
            access_flags: vec![0u8; EVENT_LOGGER_TEXTURE_SIZE],
            access_times: vec![0u8; EVENT_LOGGER_TEXTURE_SIZE],
        };
        proof {
            assert(logger.values@ =~= Seq::new(EVENT_LOGGER_TEXTURE_SIZE as nat, |j: int| 0u8));
            assert(logger.access_flags@ =~= logger.values@);
            assert(logger.access_times@ =~= logger.values@);
        }
        if let Some(mem) = mem {
            let n = mem.len();
            let mut i: usize = 0;
            while i < n
                invariant
                    n == mem@.len(),
                    n <= MAX_MIRRORED_BYTES,
                    i <= n,
                    logger.wf(),
                    logger.events_deq@.len() == 0,
                    forall|j: int|
                        0 <= j < EVENT_LOGGER_TEXTURE_SIZE ==> #[trigger] logger.values@[j] == (
                        if j < i * 4 {
                            if j % 4 == 0 {
                                255u8
                            } else {
                                mem@[j / 4] / 4
                            }
                        } else {
                            0u8
                        }),
                    forall|j: int|
                        0 <= j < EVENT_LOGGER_TEXTURE_SIZE ==> #[trigger] logger.access_flags@[j] == (
                        if j < i * 4 && j % 4 == 0 {
                            EVENT_LOGGER_ACCESS_TYPE_ALPHA
                        } else {
                            0u8
                        }),
                    forall|j: int|
                        0 <= j < EVENT_LOGGER_TEXTURE_SIZE ==> #[trigger] logger.access_times@[j] == (
                        if j < i * 4 && j % 4 == 0 {
                            255u8
                        } else {
                            0u8
                        }),
                decreases n - i,
            {
                let p = mem[i];
                let pi = i * COLOR_DEPTH;
                logger.values.set(pi, 255);
                logger.values.set(pi + 1, p / 4);
                logger.values.set(pi + 2, p / 4);
                logger.values.set(pi + 3, p / 4);
                logger.access_flags.set(pi, EVENT_LOGGER_ACCESS_TYPE_ALPHA);
                logger.access_times.set(pi, 255);
                i = i + 1;
            }
            proof {
                assert(logger.values@ =~= initial_values(mem@));
                assert(logger.access_flags@ =~= initial_alpha(mem@, EVENT_LOGGER_ACCESS_TYPE_ALPHA));
                assert(logger.access_times@ =~= initial_alpha(mem@, 255u8));
            }
        }
        logger
    }

    /// Marks `addr` as read
    fn log_read(&mut self, timestamp: CycleCount, addr: MemAddr)
        ensures
            final(self).access_flags@ == mark_channel(old(self).access_flags@, addr, 1),
            final(self).access_times@ == mark_channel(old(self).access_times@, addr, 1),
            final(self).values@ == old(self).values@,
            final(self).events_deq@ == old(self).events_deq@,
    {
        let pi = addr as usize * COLOR_DEPTH;
        self.access_flags.set(pi + 1, 255);
        self.access_times.set(pi + 1, 255);
    }

    /// Mirrors a written value and marks `addr` as written
    fn log_write(&mut self, timestamp: CycleCount, addr: MemAddr, value: u8)
        ensures
            final(self).values@ == mirror_value(old(self).values@, addr, value),
            final(self).access_flags@ == mark_channel(old(self).access_flags@, addr, 3),
            final(self).access_times@ == mark_channel(old(self).access_times@, addr, 3),
            final(self).events_deq@ == old(self).events_deq@,
    {
        let pi = addr as usize * COLOR_DEPTH;
        self.values.set(pi, 255);
        self.values.set(pi + 1, value / 4);
        self.values.set(pi + 2, value / 4);
        self.values.set(pi + 3, value / 4);
        self.access_flags.set(pi + 3, 255);
        self.access_times.set(pi + 3, 255);
    }

    /// Marks `addr` as executed
    fn log_exec(&mut self, timestamp: CycleCount, addr: MemAddr)
        ensures
            final(self).access_flags@ == mark_channel(old(self).access_flags@, addr, 2),
            final(self).access_times@ == mark_channel(old(self).access_times@, addr, 2),
            final(self).values@ == old(self).values@,
            final(self).events_deq@ == old(self).events_deq@,
    {
        let pi = addr as usize * COLOR_DEPTH;
        self.access_flags.set(pi + 2, 255);
        self.access_times.set(pi + 2, 255);
    }

    /// Appends a jump event
    fn log_jump(&mut self, timestamp: CycleCount, src: MemAddr, dst: MemAddr)
        ensures
            final(self).events_deq@ == old(self).events_deq@.push(
                EventLogEntry { timestamp: timestamp, event: CpuEvent::Jump { from: src, to: dst } },
            ),
            final(self).values@ == old(self).values@,
            final(self).access_flags@ == old(self).access_flags@,
            final(self).access_times@ == old(self).access_times@,
    {
        self.events_deq.push_back(
            EventLogEntry { timestamp: timestamp, event: CpuEvent::Jump { from: src, to: dst } },
        );
    }
}

} // verus!
