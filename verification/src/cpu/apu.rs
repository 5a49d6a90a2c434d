//! Audio logic: the sound registers at 0xFF10..0xFF40 and the frame
//! sequencer that drives envelopes, the frequency sweep and length counters
use vstd::prelude::*;

use super::fifo::{Fifo, FifoView};

verus! {

/// The address of the first sound register
pub const APU_BASE: usize = 0xFF10;

/// The audio processing unit
pub struct Apu {
    pub channel1_sweep_pace: u8,
    pub channel1_sweep_counter: u8,
    pub channel1_sweep_enabled: bool,
    pub channel1_frequency: u16,
    pub channel1_negate_executed: bool,
    pub channel1_envelope_pace: u8,
    pub channel1_envelope_counter: u8,
    pub channel1_envelope_increasing: bool,
    pub channel1_envelope_volume: u8,
    pub channel2_envelope_pace: u8,
    pub channel2_envelope_counter: u8,
    pub channel2_envelope_increasing: bool,
    pub channel2_envelope_volume: u8,
    pub channel4_envelope_pace: u8,
    pub channel4_envelope_counter: u8,
    pub channel4_envelope_increasing: bool,
    pub channel4_envelope_volume: u8,
    /// The frame sequencer's step, 0 to 7
    pub div_apu: u8,
    /// 0xFF10..=0xFF3F
    pub apu_mem: [u8; 0x30],
    /// The GBA's direct sound channel A
    pub gba_fifo_a: Fifo,
    /// The GBA's direct sound channel B
    pub gba_fifo_b: Fifo,
    /// Channel A to the (right, left) speaker
    pub gba_sound_a_enabled: (bool, bool),
    /// Channel B to the (right, left) speaker
    pub gba_sound_b_enabled: (bool, bool),
}

/// The mathematical state of an `Apu`: its fields, with the register file
/// as a sequence
pub ghost struct ApuView {
    pub channel1_sweep_pace: u8,
    pub channel1_sweep_counter: u8,
    pub channel1_sweep_enabled: bool,
    pub channel1_frequency: u16,
    pub channel1_negate_executed: bool,
    pub channel1_envelope_pace: u8,
    pub channel1_envelope_counter: u8,
    pub channel1_envelope_increasing: bool,
    pub channel1_envelope_volume: u8,
    pub channel2_envelope_pace: u8,
    pub channel2_envelope_counter: u8,
    pub channel2_envelope_increasing: bool,
    pub channel2_envelope_volume: u8,
    pub channel4_envelope_pace: u8,
    pub channel4_envelope_counter: u8,
    pub channel4_envelope_increasing: bool,
    pub channel4_envelope_volume: u8,
    pub div_apu: u8,
    pub mem: Seq<u8>,
    pub gba_fifo_a: FifoView,
    pub gba_fifo_b: FifoView,
    pub gba_sound_a_enabled: (bool, bool),
    pub gba_sound_b_enabled: (bool, bool),
}

impl View for Apu {
    type V = ApuView;

    open spec fn view(&self) -> ApuView {
        ApuView {
            channel1_sweep_pace: self.channel1_sweep_pace,
            channel1_sweep_counter: self.channel1_sweep_counter,
            channel1_sweep_enabled: self.channel1_sweep_enabled,
            channel1_frequency: self.channel1_frequency,
            channel1_negate_executed: self.channel1_negate_executed,
            channel1_envelope_pace: self.channel1_envelope_pace,
            channel1_envelope_counter: self.channel1_envelope_counter,
            channel1_envelope_increasing: self.channel1_envelope_increasing,
            channel1_envelope_volume: self.channel1_envelope_volume,
            channel2_envelope_pace: self.channel2_envelope_pace,
            channel2_envelope_counter: self.channel2_envelope_counter,
            channel2_envelope_increasing: self.channel2_envelope_increasing,
            channel2_envelope_volume: self.channel2_envelope_volume,
            channel4_envelope_pace: self.channel4_envelope_pace,
            channel4_envelope_counter: self.channel4_envelope_counter,
            channel4_envelope_increasing: self.channel4_envelope_increasing,
            channel4_envelope_volume: self.channel4_envelope_volume,
            div_apu: self.div_apu,
            mem: self.apu_mem@,
            gba_fifo_a: self.gba_fifo_a@,
            gba_fifo_b: self.gba_fifo_b@,
            gba_sound_a_enabled: self.gba_sound_a_enabled,
            gba_sound_b_enabled: self.gba_sound_b_enabled,
        }
    }
}

impl ApuView {
    /// The register at a CPU address
    pub open spec fn reg(self, addr: int) -> u8 {
        self.mem[addr - 0xFF10]
    }

    /// The state with the register at a CPU address replaced
    pub open spec fn put(self, addr: int, v: u8) -> ApuView {
        ApuView { mem: self.mem.update(addr - 0xFF10, v), ..self }
    }

    pub open spec fn sweep_pace(self) -> u8 {
        (self.reg(0xFF10) >> 4u8) & 0x7
    }

    pub open spec fn sweep_increase(self) -> bool {
        (self.reg(0xFF10) >> 3u8) & 1 == 0
    }

    pub open spec fn sweep_shift(self) -> u8 {
        self.reg(0xFF10) & 0x7
    }

    pub open spec fn length1(self) -> u8 {
        self.reg(0xFF11) & 0x3F
    }

    pub open spec fn length2(self) -> u8 {
        self.reg(0xFF16) & 0x3F
    }

    pub open spec fn length3(self) -> u8 {
        self.reg(0xFF1B)
    }

    pub open spec fn length4(self) -> u8 {
        self.reg(0xFF20) & 0x3F
    }

    /// The initial volume in an envelope register
    pub open spec fn env_volume(self, addr: int) -> u8 {
        (self.reg(addr) >> 4u8) & 0xF
    }

    /// The direction bit of an envelope register
    pub open spec fn env_increasing(self, addr: int) -> bool {
        (self.reg(addr) >> 3u8) & 0x1 == 1
    }

    /// The sweep pace of an envelope register
    pub open spec fn env_pace(self, addr: int) -> u8 {
        self.reg(addr) & 0x7
    }

    /// The 11-bit frequency held in a low and a high register
    pub open spec fn freq(self, lo: int, hi: int) -> u16 {
        ((self.reg(hi) & 0x7) as u16) << 8u16 | (self.reg(lo) as u16)
    }

    /// The length-enable bit of a control register
    pub open spec fn length_enabled(self, addr: int) -> bool {
        (self.reg(addr) >> 6u8) & 1 == 1
    }

    /// Whether channel `k` (0 to 3) is on, or with `k == 7` the whole APU
    pub open spec fn sound(self, k: u8) -> bool {
        (self.reg(0xFF26) >> k) & 1 == 1
    }

    /// NR52 with the bits of `mask` cleared
    pub open spec fn clear_status(self, mask: u8) -> ApuView {
        self.put(0xFF26, self.reg(0xFF26) & !mask)
    }

    /// NR52 with the bits of `mask` set
    pub open spec fn set_status(self, mask: u8) -> ApuView {
        self.put(0xFF26, self.reg(0xFF26) | mask)
    }

    /// One envelope step of a volume: up to 15, or down to 0
    pub open spec fn env_step(volume: u8, increasing: bool) -> u8 {
        if increasing {
            if volume + 1 >= 0xF {
                0xF
            } else {
                (volume + 1) as u8
            }
        } else if volume == 0 {
            0
        } else {
            (volume - 1) as u8
        }
    }

    /// The frequency sweep's overflow check on the shadow frequency: the
    /// channel goes off when an increase would pass 0x7FF; a decrease is noted
    pub open spec fn sweep_overflow_checked(self) -> ApuView {
        let f = self.channel1_frequency;
        if self.sweep_increase() {
            if f + (f >> self.sweep_shift()) > 0x7FF {
                self.clear_status(0x01)
            } else {
                self
            }
        } else {
            ApuView { channel1_negate_executed: true, ..self }
        }
    }

    /// Whether the sweep arithmetic on the shadow frequency fits in 16 bits
    pub open spec fn sweep_defined(self) -> bool {
        self.sweep_increase() ==> self.channel1_frequency + (self.channel1_frequency
            >> self.sweep_shift()) <= 0xFFFF
    }

    /// One frequency sweep step
    pub open spec fn sweep_stepped(self) -> ApuView {
        let f = self.channel1_frequency;
        let s = self.sweep_shift();
        let n = if self.sweep_increase() {
            (f + (f >> s)) as u16
        } else {
            (f - (f >> s)) as u16
        };
        let v = if self.sweep_increase() {
            self
        } else {
            ApuView { channel1_negate_executed: true, ..self }
        };
        if self.sweep_increase() && n > 0x7FF {
            self.clear_status(0x01)
        } else if s != 0 {
            let v1 = ApuView { channel1_frequency: n, ..v }.put(0xFF13, (n & 0xFF) as u8);
            v1.put(0xFF14, (v1.reg(0xFF14) & !0x7u8) | ((n >> 8u16) & 0x7) as u8).sweep_overflow_checked()
        } else {
            v
        }
    }

    /// Triggering channel 1
    pub open spec fn sound1_triggered(self) -> ApuView {
        let v = self.set_status(0x01);
        let sp = v.sweep_pace();
        let ep = v.env_pace(0xFF12);
        let v1 = ApuView {
            channel1_frequency: v.freq(0xFF13, 0xFF14),
            channel1_sweep_pace: sp,
            channel1_envelope_pace: ep,
            channel1_sweep_counter: if sp != 0 {
                sp
            } else {
                8
            },
            channel1_envelope_counter: if ep != 0 {
                ep
            } else {
                8
            },
            channel1_envelope_increasing: v.env_increasing(0xFF12),
            channel1_envelope_volume: v.env_volume(0xFF12),
            channel1_negate_executed: false,
            channel1_sweep_enabled: v.sweep_shift() > 0 || sp > 0,
            ..v
        };
        if v1.sweep_shift() > 0 {
            v1.sweep_overflow_checked()
        } else {
            v1
        }
    }

    /// Triggering channel 2
    pub open spec fn sound2_triggered(self) -> ApuView {
        let v = self.set_status(0x02);
        let ep = v.env_pace(0xFF17);
        ApuView {
            channel2_envelope_pace: ep,
            channel2_envelope_counter: if ep != 0 {
                ep
            } else {
                8
            },
            channel2_envelope_increasing: v.env_increasing(0xFF17),
            channel2_envelope_volume: v.env_volume(0xFF17),
            ..v
        }
    }

    /// Triggering channel 4
    pub open spec fn sound4_triggered(self) -> ApuView {
        let v = self.set_status(0x08);
        let ep = v.env_pace(0xFF21);
        ApuView {
            channel4_envelope_pace: ep,
            channel4_envelope_counter: if ep != 0 {
                ep
            } else {
                8
            },
            channel4_envelope_increasing: v.env_increasing(0xFF21),
            channel4_envelope_volume: v.env_volume(0xFF21),
            ..v
        }
    }

    /// Powering the APU on: the frame sequencer restarts if it was off
    pub open spec fn powered_on(self) -> ApuView {
        let v = if !self.sound(7) {
            ApuView { div_apu: 7, ..self }
        } else {
            self
        };
        v.set_status(0x80)
    }

    /// Powering the APU off: all channels off and every register from
    /// 0xFF10 to 0xFF2F cleared
    pub open spec fn powered_off(self) -> ApuView {
        ApuView {
            mem: Seq::new(self.mem.len(), |i: int| if i < 0x20 { 0u8 } else { self.mem[i] }),
            ..self
        }
    }

    /// A length counter step on a 6-bit length field at `addr`; the
    /// channel whose status bit is `mask` goes off when it wraps
    pub open spec fn length6_ticked(self, addr: int, enable_addr: int, mask: u8) -> ApuView {
        if !self.length_enabled(enable_addr) {
            self
        } else {
            let val = (self.reg(addr) & 0x3F) + 1;
            let v = if val >= 64 {
                self.clear_status(mask)
            } else {
                self
            };
            v.put(addr, (v.reg(addr) & !0x3Fu8) | ((val as u8) & 0x3F))
        }
    }

    /// The register values that the boot ROM leaves, and the shadow state
    /// loaded from them
    pub open spec fn reset_state(self, sgb_mode: bool) -> ApuView {
        let m = self.put(0xFF10, 0x80).put(0xFF11, 0xBF).put(0xFF12, 0xF3).put(0xFF13, 0xFF).put(
            0xFF14,
            0xBF,
        ).put(0xFF16, 0x3F).put(0xFF17, 0x00).put(0xFF18, 0xFF).put(0xFF19, 0xBF).put(
            0xFF1A,
            0x7F,
        ).put(0xFF1B, 0xFF).put(0xFF1C, 0x9F).put(0xFF1E, 0xBF).put(0xFF20, 0xFF).put(
            0xFF21,
            0x00,
        ).put(0xFF22, 0x00).put(0xFF23, 0xBF).put(0xFF24, 0x77).put(0xFF25, 0xF3).put(
            0xFF26,
            if sgb_mode {
                0xF0
            } else {
                0xF1
            },
        );
        ApuView {
            channel1_sweep_pace: m.sweep_pace(),
            channel1_envelope_pace: m.env_pace(0xFF12),
            channel1_envelope_increasing: m.env_increasing(0xFF12),
            channel1_envelope_volume: m.env_volume(0xFF12),
            channel1_frequency: m.freq(0xFF13, 0xFF14),
            channel2_envelope_pace: m.env_pace(0xFF17),
            channel2_envelope_increasing: m.env_increasing(0xFF17),
            channel2_envelope_volume: m.env_volume(0xFF17),
            channel4_envelope_pace: m.env_pace(0xFF21),
            channel4_envelope_increasing: m.env_increasing(0xFF21),
            channel4_envelope_volume: m.env_volume(0xFF21),
            div_apu: 7,
            channel1_sweep_counter: 8,
            channel1_envelope_counter: 8,
            channel2_envelope_counter: 8,
            channel4_envelope_counter: 8,
            ..m
        }
    }

    /// A tick of channel 1's envelope timer
    pub open spec fn envelope1_ticked(self) -> ApuView {
        if !self.sound(0) {
            self
        } else {
            let c = (self.channel1_envelope_counter - 1) as u8;
            if c != 0 {
                ApuView { channel1_envelope_counter: c, ..self }
            } else if self.channel1_envelope_pace != 0 {
                let p = self.env_pace(0xFF12);
                ApuView {
                    channel1_envelope_pace: p,
                    channel1_envelope_counter: p,
                    channel1_envelope_volume: ApuView::env_step(
                        self.channel1_envelope_volume,
                        self.channel1_envelope_increasing,
                    ),
                    ..self
                }
            } else {
                ApuView { channel1_envelope_counter: 8, ..self }
            }
        }
    }

    /// A tick of channel 2's envelope timer
    pub open spec fn envelope2_ticked(self) -> ApuView {
        if !self.sound(1) {
            self
        } else {
            let c = (self.channel2_envelope_counter - 1) as u8;
            if c != 0 {
                ApuView { channel2_envelope_counter: c, ..self }
            } else if self.channel2_envelope_pace != 0 {
                let p = self.env_pace(0xFF17);
                ApuView {
                    channel2_envelope_pace: p,
                    channel2_envelope_counter: p,
                    channel2_envelope_volume: ApuView::env_step(
                        self.channel2_envelope_volume,
                        self.channel2_envelope_increasing,
                    ),
                    ..self
                }
            } else {
                ApuView { channel2_envelope_counter: 8, ..self }
            }
        }
    }

    /// A tick of channel 4's envelope timer
    pub open spec fn envelope4_ticked(self) -> ApuView {
        if !self.sound(3) {
            self
        } else {
            let c = (self.channel4_envelope_counter - 1) as u8;
            if c != 0 {
                ApuView { channel4_envelope_counter: c, ..self }
            } else if self.channel4_envelope_pace != 0 {
                let p = self.env_pace(0xFF21);
                ApuView {
                    channel4_envelope_pace: p,
                    channel4_envelope_counter: p,
                    channel4_envelope_volume: ApuView::env_step(
                        self.channel4_envelope_volume,
                        self.channel4_envelope_increasing,
                    ),
                    ..self
                }
            } else {
                ApuView { channel4_envelope_counter: 8, ..self }
            }
        }
    }

    /// Whether channel 1's envelope tick stays within its 8-bit counter and
    /// volume
    pub open spec fn envelope1_defined(self) -> bool {
        self.sound(0) ==> self.channel1_envelope_counter > 0 && (self.channel1_envelope_counter == 1
            && self.channel1_envelope_pace != 0 && self.channel1_envelope_increasing
            ==> self.channel1_envelope_volume < 255)
    }

    /// Whether channel 2's envelope tick stays within its 8-bit counter and
    /// volume
    pub open spec fn envelope2_defined(self) -> bool {
        self.sound(1) ==> self.channel2_envelope_counter > 0 && (self.channel2_envelope_counter == 1
            && self.channel2_envelope_pace != 0 && self.channel2_envelope_increasing
            ==> self.channel2_envelope_volume < 255)
    }

    /// Whether channel 4's envelope tick stays within its 8-bit counter and
    /// volume
    pub open spec fn envelope4_defined(self) -> bool {
        self.sound(3) ==> self.channel4_envelope_counter > 0 && (self.channel4_envelope_counter == 1
            && self.channel4_envelope_pace != 0 && self.channel4_envelope_increasing
            ==> self.channel4_envelope_volume < 255)
    }

    /// Whether the envelope ticks stay within the 8-bit counters and volumes
    pub open spec fn envelopes_defined(self) -> bool {
        &&& self.envelope1_defined()
        &&& self.envelope2_defined()
        &&& self.envelope4_defined()
    }

    /// A tick of channel 1's sweep timer
    pub open spec fn sweep_ticked(self) -> ApuView {
        if !(self.channel1_sweep_enabled && self.sound(0)) {
            self
        } else {
            let c = if self.channel1_sweep_counter == 0 {
                255u8
            } else {
                (self.channel1_sweep_counter - 1) as u8
            };
            if c != 0 {
                ApuView { channel1_sweep_counter: c, ..self }
            } else if self.sweep_pace() != 0 {
                ApuView {
                    channel1_sweep_pace: self.sweep_pace(),
                    channel1_sweep_counter: self.sweep_pace(),
                    ..self
                }.sweep_stepped()
            } else {
                ApuView { channel1_sweep_counter: 8, ..self }
            }
        }
    }

    /// Whether the sweep tick keeps its arithmetic within 16 bits
    pub open spec fn sweep_tick_defined(self) -> bool {
        (self.channel1_sweep_enabled && self.sound(0) && self.channel1_sweep_counter == 1
            && self.sweep_pace() != 0) ==> self.sweep_defined()
    }

    /// A tick of all four length counters
    pub open spec fn lengths_ticked(self) -> ApuView {
        self.length6_ticked(0xFF11, 0xFF14, 0x01).length6_ticked(
            0xFF16,
            0xFF19,
            0x02,
        ).length3_ticked().length6_ticked(0xFF20, 0xFF23, 0x08)
    }

    /// The frame sequencer's step value after this one
    pub open spec fn next_div(self) -> u8 {
        ((self.div_apu + 1) as u8) & 0x7
    }

    /// One step of the 512 Hz frame sequencer: envelopes on step 7, the
    /// sweep on steps 2 and 6, length counters on even steps
    pub open spec fn stepped(self) -> ApuView {
        let v1 = ApuView { div_apu: self.next_div(), ..self };
        let v2 = if v1.div_apu == 7 {
            v1.envelope1_ticked().envelope2_ticked().envelope4_ticked()
        } else {
            v1
        };
        let v3 = if v2.div_apu & 0x3 == 0x2 {
            v2.sweep_ticked()
        } else {
            v2
        };
        if v3.div_apu & 1 == 0 {
            v3.lengths_ticked()
        } else {
            v3
        }
    }

    /// Whether a frame sequencer step stays within its integer types
    pub open spec fn step_defined(self) -> bool {
        &&& self.div_apu < 255
        &&& self.next_div() == 7 ==> self.envelopes_defined()
        &&& self.next_div() & 0x3 == 0x2 ==> self.sweep_tick_defined()
    }

    /// What the CPU reads from a sound register: unused bits read as 1 and
    /// write-only registers as 0xFF
    #[verifier::opaque]
    pub open spec fn cpu_read(self, addr: u16) -> u8 {
        let a = addr as int;
        if a == 0xFF10 {
            self.reg(a) | 0x80
        } else if a == 0xFF11 {
            self.reg(a) | 0x3F
        } else if a == 0xFF14 || a == 0xFF19 || a == 0xFF1E || a == 0xFF23 {
            self.reg(a) | !0b0100_0000u8
        } else if a == 0xFF16 {
            self.reg(a) | !0b1100_0000u8
        } else if a == 0xFF1A {
            self.reg(a) | !0b1000_0000u8
        } else if a == 0xFF1C {
            self.reg(a) | !0b0110_0000u8
        } else if a == 0xFF26 {
            self.reg(a) | !0b1000_1111u8
        } else if a == 0xFF13 || a == 0xFF15 || a == 0xFF18 || a == 0xFF1B || a == 0xFF1D || a
            == 0xFF1F || a == 0xFF20 || (0xFF27 <= a <= 0xFF2F) {
            0xFF
        } else {
            self.reg(a)
        }
    }

    /// A write to NR10, the sweep register
    pub open spec fn nr10_written(self, value: u8) -> ApuView {
        let old_pace = self.sweep_pace();
        let old_subtract = !self.sweep_increase();
        let v = self.put(0xFF10, value & 0x7F);
        let v1 = if old_pace == 0 && v.sweep_pace() != 0 {
            ApuView { channel1_sweep_pace: v.sweep_pace(), ..v }
        } else {
            v
        };
        if old_subtract && v1.sweep_increase() && v1.channel1_negate_executed {
            v1.clear_status(0x01)
        } else {
            v1
        }
    }

    /// A write to NR14, channel 1's control register
    pub open spec fn nr14_written(self, value: u8) -> ApuView {
        let old_enabled = self.length_enabled(0xFF14);
        let v = self.put(0xFF14, value);
        let v1 = if v.length_enabled(0xFF14) && !old_enabled && v.div_apu & 1 != 1 && v.length1()
            != 0 {
            v.length6_ticked(0xFF11, 0xFF14, 0x01)
        } else {
            v
        };
        if value >> 7u8 == 1 {
            let v2 = if v1.length1() == 0 && v1.length_enabled(0xFF14) && v1.div_apu & 1 != 1 {
                v1.length6_ticked(0xFF11, 0xFF14, 0x01)
            } else {
                v1
            };
            let v3 = v2.sound1_triggered();
            if v3.reg(0xFF12) >> 3u8 == 0 {
                v3.clear_status(0x01)
            } else {
                v3
            }
        } else {
            v1
        }
    }

    /// A write to NR24, channel 2's control register
    pub open spec fn nr24_written(self, value: u8) -> ApuView {
        let old_enabled = self.length_enabled(0xFF19);
        let v = self.put(0xFF19, value);
        let v1 = if v.length_enabled(0xFF19) && !old_enabled && v.div_apu & 1 != 1 && v.length2()
            != 0 {
            v.length6_ticked(0xFF16, 0xFF19, 0x02)
        } else {
            v
        };
        if value >> 7u8 == 1 {
            let v2 = if v1.length2() == 0 && v1.length_enabled(0xFF19) && v1.div_apu & 1 != 1 {
                v1.length6_ticked(0xFF16, 0xFF19, 0x02)
            } else {
                v1
            };
            if v2.reg(0xFF17) >> 3u8 != 0 {
                v2.sound2_triggered()
            } else {
                v2
            }
        } else {
            v1
        }
    }

    /// What a CPU write to a sound register does; with the APU off, writes
    /// to 0xFF10..=0xFF25 are ignored
    #[verifier::opaque]
    pub open spec fn cpu_write(self, addr: u16, value: u8) -> ApuView {
        let a = addr as int;
        if !self.sound(7) && 0xFF10 <= a <= 0xFF25 {
            self
        } else if a == 0xFF10 {
            self.nr10_written(value)
        } else if a == 0xFF12 || a == 0xFF17 || a == 0xFF21 {
            let mask: u8 = if a == 0xFF12 {
                0x01
            } else if a == 0xFF17 {
                0x02
            } else {
                0x08
            };
            (if value >> 3u8 == 0 {
                self.clear_status(mask)
            } else {
                self
            }).put(a, value)
        } else if a == 0xFF1A {
            (if value >> 7u8 == 0 {
                self.clear_status(0x04)
            } else {
                self
            }).put(a, value)
        } else if a == 0xFF14 {
            self.nr14_written(value)
        } else if a == 0xFF19 {
            self.nr24_written(value)
        } else if a == 0xFF1E {
            (if value >> 7u8 == 1 && self.reg(0xFF1A) >> 7u8 == 1 {
                self.set_status(0x04)
            } else {
                self
            }).put(a, value)
        } else if a == 0xFF23 {
            (if value >> 7u8 == 1 && self.reg(0xFF21) >> 3u8 != 0 {
                self.sound4_triggered()
            } else {
                self
            }).put(a, value)
        } else if a == 0xFF26 {
            if (value >> 7u8) & 1 == 0 {
                self.powered_off()
            } else {
                self.powered_on()
            }
        } else {
            self.put(a, value)
        }
    }

    /// The length counter step of channel 3 (an 8-bit field)
    pub open spec fn length3_ticked(self) -> ApuView {
        if !self.length_enabled(0xFF1E) {
            self
        } else if self.reg(0xFF1B) == 0xFF {
            self.clear_status(0x04).put(0xFF1B, 0)
        } else {
            self.put(0xFF1B, (self.reg(0xFF1B) + 1) as u8)
        }
    }
}

impl Apu {
    /// Both sound FIFOs hold at most 32 samples
    pub open spec fn wf(&self) -> bool {
        &&& self.gba_fifo_a.wf()
        &&& self.gba_fifo_b.wf()
    }

    /// The state of a new APU
    pub open spec fn new_view() -> ApuView {
        ApuView {
            channel1_sweep_pace: 0,
            channel1_sweep_counter: 8,
            channel1_sweep_enabled: true,
            channel1_frequency: 0,
            channel1_negate_executed: false,
            channel1_envelope_pace: 0,
            channel1_envelope_counter: 8,
            channel1_envelope_increasing: true,
            channel1_envelope_volume: 0,
            channel2_envelope_pace: 0,
            channel2_envelope_counter: 8,
            channel2_envelope_increasing: true,
            channel2_envelope_volume: 0,
            channel4_envelope_pace: 0,
            channel4_envelope_counter: 8,
            channel4_envelope_increasing: true,
            channel4_envelope_volume: 0,
            div_apu: 7,
            mem: Seq::new(0x30, |i: int| 0u8),
            gba_fifo_a: FifoView {
                data: Seq::empty(),
                sound_buffer: Seq::empty(),
                reset_flag: false,
            },
            gba_fifo_b: FifoView {
                data: Seq::empty(),
                sound_buffer: Seq::empty(),
                reset_flag: false,
            },
            gba_sound_a_enabled: (false, false),
            gba_sound_b_enabled: (false, false),
        }
    }

    /// A silent APU with all registers zero
    pub fn new() -> (apu: Apu)
        ensures
            apu@ == Apu::new_view(),
            apu.wf(),
    {
        let apu = Apu {
            channel1_sweep_pace: 0,
            channel1_sweep_counter: 8,
            channel1_sweep_enabled: true,
            channel1_frequency: 0,
            channel1_negate_executed: false,
            channel1_envelope_pace: 0,
            channel1_envelope_counter: 8,
            channel1_envelope_increasing: true,
            channel1_envelope_volume: 0,
            channel2_envelope_pace: 0,
            channel2_envelope_counter: 8,
            channel2_envelope_increasing: true,
            channel2_envelope_volume: 0,
            channel4_envelope_pace: 0,
            channel4_envelope_counter: 8,
            channel4_envelope_increasing: true,
            channel4_envelope_volume: 0,
            div_apu: 7,
            apu_mem: [0u8; 0x30],
            gba_fifo_a: Fifo::new(),
            gba_fifo_b: Fifo::new(),
            gba_sound_a_enabled: (false, false),
            gba_sound_b_enabled: (false, false),
        };
        assert(apu.apu_mem@ =~= Seq::new(0x30, |i: int| 0u8));
        apu
    }

    /// The number of a register in the register file
    fn idx(addr: usize) -> (i: usize)
        requires
            0xFF10 <= addr < 0xFF40,
        ensures
            i == addr - 0xFF10,
            i < 0x30,
    {
        addr - APU_BASE
    }

    fn write_reg(&mut self, addr: usize, v: u8)
        requires
            0xFF10 <= addr < 0xFF40,
        ensures
            final(self)@ == old(self)@.put(addr as int, v),
    {
        let i = Self::idx(addr);
        self.apu_mem.set(i, v);
    }

    fn read_reg(&self, addr: usize) -> (r: u8)
        requires
            0xFF10 <= addr < 0xFF40,
        ensures
            r == self@.reg(addr as int),
    {
        self.apu_mem[Self::idx(addr)]
    }

    /// Sets the registers to the values the boot ROM leaves (NR52 differs
    /// on the Super Game Boy) and reloads the shadow state from them
    pub fn reset(&mut self, sgb_mode: bool)
        ensures
            final(self)@ == old(self)@.reset_state(sgb_mode),
    {
        self.write_reg(0xFF10, 0x80);
        self.write_reg(0xFF11, 0xBF);
        self.write_reg(0xFF12, 0xF3);
        self.write_reg(0xFF13, 0xFF);
        self.write_reg(0xFF14, 0xBF);
        self.write_reg(0xFF16, 0x3F);
        self.write_reg(0xFF17, 0x00);
        self.write_reg(0xFF18, 0xFF);
        self.write_reg(0xFF19, 0xBF);
        self.write_reg(0xFF1A, 0x7F);
        self.write_reg(0xFF1B, 0xFF);
        self.write_reg(0xFF1C, 0x9F);
        self.write_reg(0xFF1E, 0xBF);
        self.write_reg(0xFF20, 0xFF);
        self.write_reg(0xFF21, 0x00);
        self.write_reg(0xFF22, 0x00);
        self.write_reg(0xFF23, 0xBF);
        self.write_reg(0xFF24, 0x77);
        self.write_reg(0xFF25, 0xF3);
        self.write_reg(
            0xFF26,
            if sgb_mode {
                0xF0
            } else {
                0xF1
            },
        );
        self.channel1_sweep_pace = self.channel1_sweep_pace();
        self.channel1_envelope_pace = self.channel1_envelope_sweep_pace();
        self.channel1_envelope_increasing = self.channel1_envelope_increasing();
        self.channel1_envelope_volume = self.channel1_envelope_volume();
        self.channel1_frequency = self.channel1_frequency();
        self.channel2_envelope_pace = self.channel2_envelope_sweep_pace();
        self.channel2_envelope_increasing = self.channel2_envelope_increasing();
        self.channel2_envelope_volume = self.channel2_envelope_volume();
        self.channel4_envelope_pace = self.channel4_envelope_sweep_pace();
        self.channel4_envelope_increasing = self.channel4_envelope_increasing();
        self.channel4_envelope_volume = self.channel4_envelope_volume();
        self.div_apu = 7;
        self.channel1_sweep_counter = 8;
        self.channel1_envelope_counter = 8;
        self.channel2_envelope_counter = 8;
        self.channel4_envelope_counter = 8;
    }

    fn tick_envelope1(&mut self)
        requires
            old(self)@.envelope1_defined(),
        ensures
            final(self)@ == old(self)@.envelope1_ticked(),
    {
        if self.get_sound1() {
            self.channel1_envelope_counter = self.channel1_envelope_counter - 1;
            if self.channel1_envelope_counter == 0 {
                if self.channel1_envelope_pace != 0 {
                    self.channel1_envelope_pace = self.channel1_envelope_sweep_pace();
                    self.channel1_envelope_counter = self.channel1_envelope_pace;
                    self.channel1_step_envelope();
                } else {
                    self.channel1_envelope_counter = 8;
                }
            }
        }
    }

    fn tick_envelope2(&mut self)
        requires
            old(self)@.envelope2_defined(),
        ensures
            final(self)@ == old(self)@.envelope2_ticked(),
    {
        if self.get_sound2() {
            self.channel2_envelope_counter = self.channel2_envelope_counter - 1;
            if self.channel2_envelope_counter == 0 {
                if self.channel2_envelope_pace != 0 {
                    self.channel2_envelope_pace = self.channel2_envelope_sweep_pace();
                    self.channel2_envelope_counter = self.channel2_envelope_pace;
                    self.channel2_step_envelope();
                } else {
                    self.channel2_envelope_counter = 8;
                }
            }
        }
    }

    fn tick_envelope4(&mut self)
        requires
            old(self)@.envelope4_defined(),
        ensures
            final(self)@ == old(self)@.envelope4_ticked(),
    {
        if self.get_sound4() {
            self.channel4_envelope_counter = self.channel4_envelope_counter - 1;
            if self.channel4_envelope_counter == 0 {
                if self.channel4_envelope_pace != 0 {
                    self.channel4_envelope_pace = self.channel4_envelope_sweep_pace();
                    self.channel4_envelope_counter = self.channel4_envelope_pace;
                    self.channel4_step_envelope();
                } else {
                    self.channel4_envelope_counter = 8;
                }
            }
        }
    }

    fn tick_sweep(&mut self)
        requires
            old(self)@.sweep_tick_defined(),
        ensures
            final(self)@ == old(self)@.sweep_ticked(),
    {
        if self.channel1_sweep_enabled && self.get_sound1() {
            self.channel1_sweep_counter = self.channel1_sweep_counter.wrapping_sub(1);
            if self.channel1_sweep_counter == 0 {
                if self.channel1_sweep_pace() != 0 {
                    self.channel1_sweep_pace = self.channel1_sweep_pace();
                    self.channel1_sweep_counter = self.channel1_sweep_pace;
                    self.channel1_sweep_step();
                } else {
                    self.channel1_sweep_counter = 8;
                }
            }
        }
    }

    /// One step of the 512 Hz frame sequencer: envelopes on step 7, the
    /// frequency sweep on steps 2 and 6, length counters on even steps
    pub fn step(&mut self)
        requires
            old(self)@.step_defined(),
        ensures
            final(self)@ == old(self)@.stepped(),
    {
        self.div_apu = (self.div_apu + 1) & 0x7;
        if self.div_apu == 7 {
            self.tick_envelope1();
            self.tick_envelope2();
            self.tick_envelope4();
        }
        if (self.div_apu & 0x3) == 0x2 {
            self.tick_sweep();
        }
        if self.div_apu & 1 == 0 {
            self.channel1_inc_sound_length();
            self.channel2_inc_sound_length();
            self.channel3_inc_sound_length();
            self.channel4_inc_sound_length();
        }
    }

    /// What the CPU reads from a sound register
    pub fn get_mem(&self, addr: u16) -> (r: u8)
        requires
            0xFF10 <= addr < 0xFF40,
        ensures
            r == self@.cpu_read(addr),
    {
        reveal(ApuView::cpu_read);
        let a = addr as usize;
        match addr {
            0xFF10 => self.read_reg(a) | 0x80,
            0xFF11 => self.read_reg(a) | 0x3F,
            0xFF13 => 0xFF,
            0xFF14 => self.read_reg(a) | !0b0100_0000,
            0xFF15 => 0xFF,
            0xFF16 => self.read_reg(a) | !0b1100_0000,
            0xFF18 => 0xFF,
            0xFF19 => self.read_reg(a) | !0b0100_0000,
            0xFF1A => self.read_reg(a) | !0b1000_0000,
            0xFF1B => 0xFF,
            0xFF1C => self.read_reg(a) | !0b0110_0000,
            0xFF1D => 0xFF,
            0xFF1E => self.read_reg(a) | !0b0100_0000,
            0xFF1F => 0xFF,
            0xFF20 => 0xFF,
            0xFF23 => self.read_reg(a) | !0b0100_0000,
            0xFF26 => self.read_reg(a) | !0b1000_1111,
            0xFF27..=0xFF2F => 0xFF,
            _ => self.read_reg(a),
        }
    }

    fn write_nr10(&mut self, value: u8)
        ensures
            final(self)@ == old(self)@.nr10_written(value),
    {
        let old_sweep_pace = self.channel1_sweep_pace();
        let old_direction_is_subtract = !self.channel1_sweep_increase();
        self.write_reg(0xFF10, value & 0x7F);
        let new_sweep_pace = self.channel1_sweep_pace();
        let new_direction_is_add = self.channel1_sweep_increase();
        if old_sweep_pace == 0 && new_sweep_pace != 0 {
            self.channel1_sweep_pace = self.channel1_sweep_pace();
        }
        if old_direction_is_subtract && new_direction_is_add && self.channel1_negate_executed {
            self.unset_sound1();
        }
    }

    fn write_nr14(&mut self, value: u8)
        ensures
            final(self)@ == old(self)@.nr14_written(value),
    {
        let old_sound_length_enabled = self.channel1_sound_length_enabled();
        self.write_reg(0xFF14, value);
        if self.channel1_sound_length_enabled() && !old_sound_length_enabled && self.div_apu & 1
            != 1 && self.channel1_sound_length() != 0 {
            self.channel1_inc_sound_length();
        }
        if value >> 7 == 1 {
            if self.channel1_sound_length() == 0 {
                if self.channel1_sound_length_enabled() && self.div_apu & 1 != 1 {
                    self.channel1_inc_sound_length();
                }
            }
            self.set_sound1();
            if self.read_reg(0xFF12) >> 3 == 0 {
                self.unset_sound1();
            }
        }
    }

    fn write_nr24(&mut self, value: u8)
        ensures
            final(self)@ == old(self)@.nr24_written(value),
    {
        let old_sound_length_enabled = self.channel2_sound_length_enabled();
        self.write_reg(0xFF19, value);
        if self.channel2_sound_length_enabled() && !old_sound_length_enabled && self.div_apu & 1
            != 1 && self.channel2_sound_length() != 0 {
            self.channel2_inc_sound_length();
        }
        if value >> 7 == 1 {
            if self.channel2_sound_length() == 0 {
                if self.channel2_sound_length_enabled() && self.div_apu & 1 != 1 {
                    self.channel2_inc_sound_length();
                }
            }
            if self.read_reg(0xFF17) >> 3 != 0 {
                self.set_sound2();
            }
        }
    }

    /// A CPU write to a sound register; while the APU is off, writes to
    /// 0xFF10..=0xFF25 are ignored
    pub fn set_mem(&mut self, addr: u16, value: u8)
        requires
            0xFF10 <= addr < 0xFF40,
        ensures
            final(self)@ == old(self)@.cpu_write(addr, value),
            old(self).wf() ==> final(self).wf(),
    {
        reveal(ApuView::cpu_write);
        if !self.get_sound_all() && 0xFF10 <= addr && addr <= 0xFF25 {
            return ;
        }
        let a = addr as usize;
        match addr {
            0xFF10 => self.write_nr10(value),
            0xFF12 => {
                if value >> 3 == 0 {
                    self.unset_sound1();
                }
                self.write_reg(a, value);
            },
            0xFF17 => {
                if value >> 3 == 0 {
                    self.unset_sound2();
                }
                self.write_reg(a, value);
            },
            0xFF21 => {
                if value >> 3 == 0 {
                    self.unset_sound4();
                }
                self.write_reg(a, value);
            },
            0xFF1A => {
                if value >> 7 == 0 {
                    self.unset_sound3();
                }
                self.write_reg(a, value);
            },
            0xFF14 => self.write_nr14(value),
            0xFF19 => self.write_nr24(value),
            0xFF1E => {
                if value >> 7 == 1 {
                    if self.read_reg(0xFF1A) >> 7 == 1 {
                        self.set_sound3();
                    }
                }
                self.write_reg(a, value);
            },
            0xFF23 => {
                if value >> 7 == 1 {
                    if self.read_reg(0xFF21) >> 3 != 0 {
                        self.set_sound4();
                    }
                }
                self.write_reg(a, value);
            },
            0xFF26 => {
                if (value >> 7) & 1 == 0 {
                    self.unset_sound_all();
                } else {
                    self.set_sound_all();
                }
            },
            _ => self.write_reg(a, value),
        }
    }

    /* sound */
    /// The sweep pace: how many 128 Hz ticks between sweep steps
    pub fn channel1_sweep_pace(&self) -> (r: u8)
        ensures
            r == self@.sweep_pace(),
    {
        (self.read_reg(0xFF10) >> 4) & 0x7
    }

    pub fn channel1_sweep_increase(&self) -> (r: bool)
        ensures
            r == self@.sweep_increase(),
    {
        ((self.read_reg(0xFF10) >> 3) & 1) == 0
    }

    pub fn channel1_sweep_shift(&self) -> (r: u8)
        ensures
            r == self@.sweep_shift(),
            r < 8,
    {
        let v = self.read_reg(0xFF10);
        assert(v & 0x7 < 8) by {
            crate::bits::lemma_u8(v);
        }
        v & 0x7
    }

    fn channel1_sweep_step_overflow_logic(&mut self)
        requires
            old(self)@.sweep_defined(),
        ensures
            final(self)@ == old(self)@.sweep_overflow_checked(),
    {
        let freq = self.channel1_frequency;
        let shift = self.channel1_sweep_shift();
        if self.channel1_sweep_increase() {
            let n = freq + (freq >> shift);
            if n > 0x7FF {
                self.unset_sound1();
                return ;
            }
        } else {
            self.channel1_negate_executed = true;
        }
    }

    /// Runs one step of the frequency sweep
    pub fn channel1_sweep_step(&mut self)
        requires
            old(self)@.sweep_defined(),
        ensures
            final(self)@ == old(self)@.sweep_stepped(),
    {
        let freq = self.channel1_frequency;
        let shift = self.channel1_sweep_shift();
        let new_value = if self.channel1_sweep_increase() {
            let n = freq + (freq >> shift);
            if n > 0x7FF {
                self.unset_sound1();
                return ;
            } else {
                n
            }
        } else {
            self.channel1_negate_executed = true;
            proof {
                assert(freq >> shift <= freq) by {
                    crate::bits::lemma_shift(freq, shift);
                }
            }
            freq - (freq >> shift)
        };
        if shift != 0 {
            self.channel1_frequency = new_value;
            self.write_reg(0xFF13, (new_value & 0xFF) as u8);
            let hi = self.read_reg(0xFF14);
            self.write_reg(0xFF14, (hi & !0x7) | ((new_value >> 8) & 0x7) as u8);
            proof {
                let nv = new_value;
                assert(nv <= 0x7FF ==> nv + (nv >> shift) <= 0xFFFF) by {
                    crate::bits::lemma_shift(nv, shift);
                }
                if !self@.sweep_increase() {
                    assert(new_value <= 0xFFFF);
                }
            }
            self.channel1_sweep_step_overflow_logic();
        }
    }

    pub fn channel1_sound_length(&self) -> (r: u8)
        ensures
            r == self@.length1(),
    {
        self.read_reg(0xFF11) & 0x3F
    }

    /// Advances channel 1's length counter, if enabled; the channel goes
    /// off when it wraps
    pub fn channel1_inc_sound_length(&mut self)
        ensures
            final(self)@ == old(self)@.length6_ticked(0xFF11, 0xFF14, 0x01),
    {
        if !self.channel1_sound_length_enabled() {
            return ;
        }
        let cur = self.read_reg(0xFF11);
        assert(cur & 0x3F <= 0x3F) by {
            crate::bits::lemma_u8(cur);
        }
        let val = (cur & 0x3F) + 1;
        if val >= 64 {
            self.unset_sound1();
        }
        let old_val = self.read_reg(0xFF11);
        self.write_reg(0xFF11, (old_val & !0x3F) | (val & 0x3F));
    }

    /// One envelope step of channel 1's volume
    pub fn channel1_step_envelope(&mut self)
        requires
            old(self).channel1_envelope_increasing ==> old(self).channel1_envelope_volume < 255,
        ensures
            final(self)@ == (ApuView {
                channel1_envelope_volume: ApuView::env_step(
                    old(self).channel1_envelope_volume,
                    old(self).channel1_envelope_increasing,
                ),
                ..old(self)@
            }),
    {
        let val = self.channel1_envelope_volume;
        let new_val = if self.channel1_envelope_increasing {
            let n = val + 1;
            if n >= 0xF {
                0xF
            } else {
                n
            }
        } else {
            if val == 0 {
                0
            } else {
                val - 1
            }
        };
        self.channel1_envelope_volume = new_val;
    }

    pub fn channel1_envelope_sweep_pace(&self) -> (r: u8)
        ensures
            r == self@.env_pace(0xFF12),
    {
        self.read_reg(0xFF12) & 0x7
    }

    pub fn channel1_sound_length_enabled(&self) -> (r: bool)
        ensures
            r == self@.length_enabled(0xFF14),
    {
        ((self.read_reg(0xFF14) >> 6) & 1) == 1
    }

    pub fn channel2_sound_length(&self) -> (r: u8)
        ensures
            r == self@.length2(),
    {
        self.read_reg(0xFF16) & 0x3F
    }

    pub fn channel2_inc_sound_length(&mut self)
        ensures
            final(self)@ == old(self)@.length6_ticked(0xFF16, 0xFF19, 0x02),
    {
        if !self.channel2_sound_length_enabled() {
            return ;
        }
        let cur = self.read_reg(0xFF16);
        assert(cur & 0x3F <= 0x3F) by {
            crate::bits::lemma_u8(cur);
        }
        let val = (cur & 0x3F) + 1;
        if val >= 64 {
            self.unset_sound2();
        }
        let old_val = self.read_reg(0xFF16);
        self.write_reg(0xFF16, (old_val & !0x3F) | (val & 0x3F));
    }

    pub fn channel2_step_envelope(&mut self)
        requires
            old(self).channel2_envelope_increasing ==> old(self).channel2_envelope_volume < 255,
        ensures
            final(self)@ == (ApuView {
                channel2_envelope_volume: ApuView::env_step(
                    old(self).channel2_envelope_volume,
                    old(self).channel2_envelope_increasing,
                ),
                ..old(self)@
            }),
    {
        let val = self.channel2_envelope_volume;
        let new_val = if self.channel2_envelope_increasing {
            let n = val + 1;
            if n >= 0xF {
                0xF
            } else {
                n
            }
        } else {
            if val == 0 {
                0
            } else {
                val - 1
            }
        };
        self.channel2_envelope_volume = new_val;
    }

    pub fn channel2_envelope_sweep_pace(&self) -> (r: u8)
        ensures
            r == self@.env_pace(0xFF17),
    {
        self.read_reg(0xFF17) & 0x7
    }

    pub fn channel2_frequency(&self) -> (r: u16)
        ensures
            r == self@.freq(0xFF18, 0xFF19),
    {
        let lower = self.read_reg(0xFF18);
        let higher = self.read_reg(0xFF19) & 0x7;
        (higher as u16) << 8 | (lower as u16)
    }

    pub fn channel2_sound_length_enabled(&self) -> (r: bool)
        ensures
            r == self@.length_enabled(0xFF19),
    {
        ((self.read_reg(0xFF19) >> 6) & 1) == 1
    }

    pub fn channel3_on(&self) -> (r: bool)
        ensures
            r == ((self@.reg(0xFF1A) >> 7u8) & 1 == 1),
    {
        ((self.read_reg(0xFF1A) >> 7) & 1) == 1
    }

    pub fn channel3_sound_length(&self) -> (r: u8)
        ensures
            r == self@.length3(),
    {
        self.read_reg(0xFF1B)
    }

    pub fn channel3_inc_sound_length(&mut self)
        ensures
            final(self)@ == old(self)@.length3_ticked(),
    {
        if !self.channel3_sound_length_enabled() {
            return ;
        }
        let val = self.read_reg(0xFF1B);
        if val == 0xFF {
            self.unset_sound3();
            self.write_reg(0xFF1B, 0);
        } else {
            self.write_reg(0xFF1B, val + 1);
        }
    }

    /// The right shift applied to wave samples for the output level
    pub fn channel3_shift_amount(&self) -> (r: u8)
        ensures
            r == (match (self@.reg(0xFF1C) >> 5u8) & 0x3 {
                0 => 4u8,
                1 => 0u8,
                2 => 1u8,
                _ => 2u8,
            }),
    {
        match (self.read_reg(0xFF1C) >> 5) & 0x3 {
            0 => 4,
            1 => 0,
            2 => 1,
            _ => 2,
        }
    }

    pub fn channel3_frequency(&self) -> (r: u16)
        ensures
            r == self@.freq(0xFF1D, 0xFF1E),
    {
        let lower = self.read_reg(0xFF1D);
        let higher = self.read_reg(0xFF1E) & 0x7;
        (higher as u16) << 8 | (lower as u16)
    }

    pub fn channel3_sound_length_enabled(&self) -> (r: bool)
        ensures
            r == self@.length_enabled(0xFF1E),
    {
        ((self.read_reg(0xFF1E) >> 6) & 1) == 1
    }

    /// The 32 four-bit wave samples, high nibble first
    pub fn channel3_wave_pattern_ram(&self) -> (r: [u8; 32])
        ensures
            forall|i: int|
                0 <= i < 32 ==> r@[i] == (self@.mem[0x20 + i / 2] >> ((((i + 1) % 2) * 4) as u8))
                    & 0xF,
    {
        let mut ret = [0u8; 32];
        let mut i: usize = 0;
        while i < 32
            invariant
                i <= 32,
                ret@.len() == 32,
                self.apu_mem@.len() == 0x30,
                forall|j: int|
                    0 <= j < i ==> ret@[j] == (self@.mem[0x20 + j / 2] >> ((((j + 1) % 2) * 4) as u8))
                        & 0xF,
            decreases 32 - i,
        {
            let shift: u8 = (((i + 1) % 2) * 4) as u8;
            ret.set(i, (self.apu_mem[0x20 + i / 2] >> shift) & 0xF);
            i = i + 1;
        }
        ret
    }

    pub fn channel4_sound_length(&self) -> (r: u8)
        ensures
            r == self@.length4(),
    {
        self.read_reg(0xFF20) & 0x3F
    }

    pub fn channel4_inc_sound_length(&mut self)
        ensures
            final(self)@ == old(self)@.length6_ticked(0xFF20, 0xFF23, 0x08),
    {
        if !self.channel4_sound_length_enabled() {
            return ;
        }
        let cur = self.read_reg(0xFF20);
        assert(cur & 0x3F <= 0x3F) by {
            crate::bits::lemma_u8(cur);
        }
        let val = (cur & 0x3F) + 1;
        if val >= 64 {
            self.unset_sound4();
        }
        let old_val = self.read_reg(0xFF20);
        self.write_reg(0xFF20, (old_val & !0x3F) | (val & 0x3F));
    }

    pub fn channel4_sound_length_enabled(&self) -> (r: bool)
        ensures
            r == self@.length_enabled(0xFF23),
    {
        ((self.read_reg(0xFF23) >> 6) & 1) == 1
    }

    pub fn channel4_step_envelope(&mut self)
        requires
            old(self).channel4_envelope_increasing ==> old(self).channel4_envelope_volume < 255,
        ensures
            final(self)@ == (ApuView {
                channel4_envelope_volume: ApuView::env_step(
                    old(self).channel4_envelope_volume,
                    old(self).channel4_envelope_increasing,
                ),
                ..old(self)@
            }),
    {
        let val = self.channel4_envelope_volume;
        let new_val = if self.channel4_envelope_increasing {
            let n = val + 1;
            if n >= 0xF {
                0xF
            } else {
                n
            }
        } else {
            if val == 0 {
                0
            } else {
                val - 1
            }
        };
        self.channel4_envelope_volume = new_val;
    }

    pub fn channel4_envelope_sweep_pace(&self) -> (r: u8)
        ensures
            r == self@.env_pace(0xFF21),
    {
        self.read_reg(0xFF21) & 0x7
    }

    pub fn channel4_clock_shift(&self) -> (r: u8)
        ensures
            r == (self@.reg(0xFF22) >> 4u8) & 0xF,
    {
        (self.read_reg(0xFF22) >> 4) & 0xF
    }

    pub fn channel4_lfsr_width(&self) -> (r: bool)
        ensures
            r == ((self@.reg(0xFF22) >> 3u8) & 0x1 == 1),
    {
        ((self.read_reg(0xFF22) >> 3) & 0x1) == 1
    }

    pub fn get_sound1(&self) -> (r: bool)
        ensures
            r == self@.sound(0),
    {
        let v = self.read_reg(0xFF26);
        assert(v >> 0u8 == v) by {
            crate::bits::lemma_u8(v);
        }
        (v & 1) == 1
    }

    pub fn get_sound2(&self) -> (r: bool)
        ensures
            r == self@.sound(1),
    {
        ((self.read_reg(0xFF26) >> 1) & 1) == 1
    }

    pub fn get_sound3(&self) -> (r: bool)
        ensures
            r == self@.sound(2),
    {
        ((self.read_reg(0xFF26) >> 2) & 1) == 1
    }

    pub fn get_sound4(&self) -> (r: bool)
        ensures
            r == self@.sound(3),
    {
        ((self.read_reg(0xFF26) >> 3) & 1) == 1
    }

    pub fn get_sound_all(&self) -> (r: bool)
        ensures
            r == self@.sound(7),
    {
        ((self.read_reg(0xFF26) >> 7) & 1) == 1
    }

    fn channel1_envelope_volume(&self) -> (r: u8)
        ensures
            r == self@.env_volume(0xFF12),
    {
        (self.read_reg(0xFF12) >> 4) & 0xF
    }

    fn channel1_envelope_increasing(&self) -> (r: bool)
        ensures
            r == self@.env_increasing(0xFF12),
    {
        ((self.read_reg(0xFF12) >> 3) & 0x1) == 1
    }

    fn channel1_frequency(&self) -> (r: u16)
        ensures
            r == self@.freq(0xFF13, 0xFF14),
            r <= 0x7FF,
    {
        let lower = self.read_reg(0xFF13);
        let hi_reg = self.read_reg(0xFF14);
        let higher = hi_reg & 0x7;
        assert(higher <= 7 ==> (higher as u16) << 8u16 | (lower as u16) <= 0x7FF) by {
            crate::bits::lemma_word(lower, higher);
        }
        assert(hi_reg & 0x7 <= 7) by {
            crate::bits::lemma_u8(hi_reg);
        }
        (higher as u16) << 8 | (lower as u16)
    }

    fn channel2_envelope_volume(&self) -> (r: u8)
        ensures
            r == self@.env_volume(0xFF17),
    {
        (self.read_reg(0xFF17) >> 4) & 0xF
    }

    fn channel2_envelope_increasing(&self) -> (r: bool)
        ensures
            r == self@.env_increasing(0xFF17),
    {
        ((self.read_reg(0xFF17) >> 3) & 0x1) == 1
    }

    fn channel4_envelope_volume(&self) -> (r: u8)
        ensures
            r == self@.env_volume(0xFF21),
    {
        (self.read_reg(0xFF21) >> 4) & 0xF
    }

    fn channel4_envelope_increasing(&self) -> (r: bool)
        ensures
            r == self@.env_increasing(0xFF21),
    {
        ((self.read_reg(0xFF21) >> 3) & 0x1) == 1
    }

    /// Triggers channel 1: its status bit goes on and its shadow registers
    /// are loaded from the register file
    pub fn set_sound1(&mut self)
        ensures
            final(self)@ == old(self)@.sound1_triggered(),
    {
        let st = self.read_reg(0xFF26);
        self.write_reg(0xFF26, st | 0x01);
        self.channel1_frequency = self.channel1_frequency();
        self.channel1_sweep_pace = self.channel1_sweep_pace();
        self.channel1_envelope_pace = self.channel1_envelope_sweep_pace();
        self.channel1_sweep_counter = if self.channel1_sweep_pace != 0 {
            self.channel1_sweep_pace
        } else {
            8
        };
        self.channel1_envelope_counter = if self.channel1_envelope_pace != 0 {
            self.channel1_envelope_pace
        } else {
            8
        };
        self.channel1_envelope_increasing = self.channel1_envelope_increasing();
        self.channel1_envelope_volume = self.channel1_envelope_volume();
        self.channel1_negate_executed = false;
        self.channel1_sweep_enabled = self.channel1_sweep_shift() > 0 || self.channel1_sweep_pace
            > 0;
        if self.channel1_sweep_shift() > 0 {
            proof {
                let f = self.channel1_frequency;
                let sh = self@.sweep_shift();
                assert(f <= 0x7FF && sh < 8 ==> f + (f >> sh) <= 0xFFFF) by {
                    crate::bits::lemma_shift(f, sh);
                }
            }
            self.channel1_sweep_step_overflow_logic();
        }
    }

    /// Triggers channel 2
    pub fn set_sound2(&mut self)
        ensures
            final(self)@ == old(self)@.sound2_triggered(),
    {
        let st = self.read_reg(0xFF26);
        self.write_reg(0xFF26, st | 0x02);
        self.channel2_envelope_pace = self.channel2_envelope_sweep_pace();
        self.channel2_envelope_counter = if self.channel2_envelope_pace != 0 {
            self.channel2_envelope_pace
        } else {
            8
        };
        self.channel2_envelope_increasing = self.channel2_envelope_increasing();
        self.channel2_envelope_volume = self.channel2_envelope_volume();
    }

    /// Triggers channel 3
    pub fn set_sound3(&mut self)
        ensures
            final(self)@ == old(self)@.set_status(0x04),
    {
        let st = self.read_reg(0xFF26);
        self.write_reg(0xFF26, st | 0x04);
    }

    /// Triggers channel 4
    pub fn set_sound4(&mut self)
        ensures
            final(self)@ == old(self)@.sound4_triggered(),
    {
        let st = self.read_reg(0xFF26);
        self.write_reg(0xFF26, st | 0x08);
        self.channel4_envelope_pace = self.channel4_envelope_sweep_pace();
        self.channel4_envelope_counter = if self.channel4_envelope_pace != 0 {
            self.channel4_envelope_pace
        } else {
            8
        };
        self.channel4_envelope_increasing = self.channel4_envelope_increasing();
        self.channel4_envelope_volume = self.channel4_envelope_volume();
    }

    /// Powers the APU on
    pub fn set_sound_all(&mut self)
        ensures
            final(self)@ == old(self)@.powered_on(),
    {
        if !self.get_sound_all() {
            self.div_apu = 7;
        }
        let st = self.read_reg(0xFF26);
        self.write_reg(0xFF26, st | 0x80);
    }

    /// Powers the APU off: every channel goes off and the registers from
    /// 0xFF10 to 0xFF2F are cleared
    pub fn unset_sound_all(&mut self)
        ensures
            final(self)@ == old(self)@.powered_off(),
    {
        self.unset_sound1();
        self.unset_sound2();
        self.unset_sound3();
        self.unset_sound4();
        let st = self.read_reg(0xFF26);
        self.write_reg(0xFF26, st & !0x80);
        let ghost before = self@;
        let mut i: usize = 0;
        assert(before.mem =~= Seq::new(0x30, |j: int| if j < 0 { 0u8 } else { before.mem[j] }));
        while i < 0x20
            invariant
                i <= 0x20,
                self@ == (ApuView {
                    mem: Seq::new(0x30, |j: int| if j < i { 0u8 } else { before.mem[j] }),
                    ..before
                }),
                before.mem.len() == 0x30,
            decreases 0x20 - i,
        {
            self.apu_mem.set(i, 0);
            i = i + 1;
            assert(self@.mem =~= Seq::new(0x30, |j: int| if j < i { 0u8 } else { before.mem[j] }));
        }
        assert(self@.mem =~= old(self)@.powered_off().mem);
    }

    pub fn unset_sound1(&mut self)
        ensures
            final(self)@ == old(self)@.clear_status(0x01),
    {
        let v = self.read_reg(0xFF26);
        self.write_reg(0xFF26, v & !0x01);
    }

    pub fn unset_sound2(&mut self)
        ensures
            final(self)@ == old(self)@.clear_status(0x02),
    {
        let v = self.read_reg(0xFF26);
        self.write_reg(0xFF26, v & !0x02);
    }

    pub fn unset_sound3(&mut self)
        ensures
            final(self)@ == old(self)@.clear_status(0x04),
    {
        let v = self.read_reg(0xFF26);
        self.write_reg(0xFF26, v & !0x04);
    }

    pub fn unset_sound4(&mut self)
        ensures
            final(self)@ == old(self)@.clear_status(0x08),
    {
        let v = self.read_reg(0xFF26);
        self.write_reg(0xFF26, v & !0x08);
    }
}

} // verus!
