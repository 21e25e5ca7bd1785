//! The APU subset: channel enables, length counters, and the frame counter
//! with its interrupt flag.
use vstd::prelude::*;
use pulse::{Counter, Pulse, Sequencer, duty_spec, length_table, enabled_counter};

pub mod pulse;

verus! {

pub struct Apu {
    pub pulse_1: Pulse,
    pub pulse_2: Pulse,
    pub noise: Noise,
    pub triangle: Triangle,
    pub dmc: Dmc,
    pub frame_int: bool,
    pub counter: u16,
    pub mode: Mode,
    pub int_inhibit: bool,
}

#[derive(Debug, Copy, Clone, PartialEq, Eq, Structural)]
pub enum Mode {
    Step4,
    Step5,
}

pub struct Noise {
    pub counter: u8,
    pub enabled: bool,
}

pub struct Triangle {
    pub counter: u8,
    pub enabled: bool,
}

pub struct Dmc {
    pub enabled: bool,
    pub bytes: u8,
    pub interupt: bool,
}

impl Noise {
    pub fn new() -> (r: Noise)
        ensures
            r.counter == 0 && !r.enabled,
    {
        Noise { counter: 0, enabled: false }
    }

    pub fn active(&self) -> (r: bool)
        ensures
            r == (self.counter > 0 && self.enabled),
    {
        self.counter > 0 && self.enabled
    }

    pub fn halt(&mut self)
        ensures
            !final(self).enabled && final(self).counter == old(self).counter,
    {
        self.enabled = false;
    }

    pub fn disable(&mut self)
        ensures
            !final(self).enabled && final(self).counter == 0,
    {
        self.halt();
        self.counter = 0;
    }

    pub fn enable(&mut self)
        ensures
            final(self).enabled && final(self).counter == old(self).counter,
    {
        self.enabled = true;
    }
}

impl Triangle {
    pub fn new() -> (r: Triangle)
        ensures
            r.counter == 0 && !r.enabled,
    {
        Triangle { counter: 0, enabled: false }
    }

    pub fn active(&self) -> (r: bool)
        ensures
            r == (self.counter > 0 && self.enabled),
    {
        self.counter > 0 && self.enabled
    }

    pub fn halt(&mut self)
        ensures
            !final(self).enabled && final(self).counter == old(self).counter,
    {
        self.enabled = false;
    }

    pub fn disable(&mut self)
        ensures
            !final(self).enabled && final(self).counter == 0,
    {
        self.halt();
        self.counter = 0;
    }

    pub fn enable(&mut self)
        ensures
            final(self).enabled && final(self).counter == old(self).counter,
    {
        self.enabled = true;
    }
}

impl Dmc {
    pub fn new() -> (r: Dmc)
        ensures
            !r.enabled && !r.interupt && r.bytes == 0,
    {
        Dmc { enabled: false, interupt: false, bytes: 0 }
    }

    pub fn disable(&mut self)
        ensures
            !final(self).enabled && final(self).bytes == 0 && final(self).interupt == old(self).interupt,
    {
        self.enabled = false;
        self.bytes = 0;
    }

    pub fn enable(&mut self)
        ensures
            final(self).enabled && final(self).bytes == old(self).bytes && final(self).interupt
                == old(self).interupt,
    {
        self.enabled = true;
    }
}

pub open spec fn pulse_active(p: Pulse) -> bool {
    p.enabled && (p.counter matches Some(c) && c.count > 0)
}

pub open spec fn flag(b: bool, v: int) -> int {
    if b { v } else { 0 }
}

/// The frame-counter values on which length counters are clocked.
pub open spec fn half_frame(c: int, mode: Mode) -> bool {
    c == 7456 || (c == 14914 && mode == Mode::Step4) || (c == 18640 && mode == Mode::Step5)
}

/// A length counter after a half-frame tick, when `half`.
pub open spec fn counter_tick(c: Option<Counter>, half: bool) -> Option<Counter> {
    match c {
        Some(k) => if half && k.running && k.count > 0 {
            Some(Counter { count: (k.count - 1) as u8, ..k })
        } else {
            Some(k)
        },
        None => None,
    }
}

/// Frame-counter value after one more APU cycle.
pub open spec fn next_counter(counter: u16, mode: Mode) -> u16 {
    let c = (counter as int + 1) % 0x10000;
    if (c == 14915 && mode == Mode::Step4) || (c == 18641 && mode == Mode::Step5) { 0 } else { c as u16 }
}

impl Apu {
    pub fn new() -> (r: Apu)
        ensures
            !r.frame_int && r.counter == 0 && r.mode == Mode::Step4 && !r.int_inhibit,
    {
        Apu {
            pulse_1: Pulse::new(),
            pulse_2: Pulse::new(),
            noise: Noise::new(),
            triangle: Triangle::new(),
            dmc: Dmc::new(),
            frame_int: false,
            counter: 0,
            mode: Mode::Step4,
            int_inhibit: false,
        }
    }

    /// One APU cycle (every second CPU cycle). In 4-step mode the frame
    /// interrupt flag rises at 14914 unless inhibited; half frames (7456,
    /// 14914 in 4-step mode, 18640 in 5-step mode) clock the length counters.
    pub fn clock(&mut self)
        ensures
            final(self).counter == next_counter(old(self).counter, old(self).mode),
            final(self).frame_int == (old(self).frame_int || ((old(self).counter as int + 1) % 0x10000
                == 14914 && old(self).mode == Mode::Step4 && !old(self).int_inhibit)),
            final(self).mode == old(self).mode,
            final(self).int_inhibit == old(self).int_inhibit,
            final(self).pulse_1.enabled == old(self).pulse_1.enabled,
            final(self).pulse_2.enabled == old(self).pulse_2.enabled,
            final(self).pulse_1.counter == counter_tick(
                old(self).pulse_1.counter,
                half_frame((old(self).counter as int + 1) % 0x10000, old(self).mode),
            ),
            final(self).pulse_2.counter == counter_tick(
                old(self).pulse_2.counter,
                half_frame((old(self).counter as int + 1) % 0x10000, old(self).mode),
            ),
    {
        self.counter = self.counter.wrapping_add(1);
        let half = if self.counter == 7456 {
            true
        } else if self.counter == 14914 && self.mode == Mode::Step4 {
            if !self.int_inhibit {
                self.frame_int = true;
            }
            true
        } else if self.counter == 14915 && self.mode == Mode::Step4 {
            self.counter = 0;
            false
        } else if self.counter == 18640 && self.mode == Mode::Step5 {
            true
        } else if self.counter == 18641 && self.mode == Mode::Step5 {
            self.counter = 0;
            false
        } else {
            false
        };
        if half {
            match &mut self.pulse_1.counter {
                Some(c) => {
                    c.clock();
                },
                None => {},
            }
            match &mut self.pulse_2.counter {
                Some(c) => {
                    c.clock();
                },
                None => {},
            }
        }
        self.pulse_1.clock();
        self.pulse_2.clock();
    }

    /// Port 0x4015 read: which channels are active (pulse 1, pulse 2,
    /// triangle, noise, DMC in bits 0 to 4, as in a 0x4015 write), the frame
    /// interrupt flag (bit 6) and the DMC interrupt flag (bit 7).
    pub open spec fn get_status_spec(&self) -> u8 {
        (flag(pulse_active(self.pulse_1), 1) + flag(pulse_active(self.pulse_2), 2) + flag(
            self.triangle.counter > 0 && self.triangle.enabled,
            4,
        ) + flag(self.noise.counter > 0 && self.noise.enabled, 8) + flag(self.dmc.bytes > 0, 16)
            + flag(self.frame_int, 64) + flag(self.dmc.interupt, 128)) as u8
    }

    pub fn get_status(&self) -> (r: u8)
        ensures
            r == self.get_status_spec(),
            r == flag(pulse_active(self.pulse_1), 1) + flag(pulse_active(self.pulse_2), 2) + flag(
                self.triangle.counter > 0 && self.triangle.enabled,
                4,
            ) + flag(self.noise.counter > 0 && self.noise.enabled, 8) + flag(self.dmc.bytes > 0, 16)
                + flag(self.frame_int, 64) + flag(self.dmc.interupt, 128),
    {
        let mut r: u8 = 0;
        if self.pulse_1.active() {
            r = r + 1;
        }
        if self.pulse_2.active() {
            r = r + 2;
        }
        if self.triangle.active() {
            r = r + 4;
        }
        if self.noise.active() {
            r = r + 8;
        }
        if self.dmc.bytes > 0 {
            r = r + 16;
        }
        if self.frame_int {
            r = r + 64;
        }
        if self.dmc.interupt {
            r = r + 128;
        }
        r
    }

    /// `new` is `self` after a write of `val` at `idx`.
    pub open spec fn write_post(&self, new: Apu, idx: u16, val: u8) -> bool {
        if idx == 0x4015 {
            new == (Apu {
                pulse_1: Pulse { enabled: val & 1 != 0, counter: enabled_counter(self.pulse_1.counter, val & 1 != 0), ..self.pulse_1 },
                pulse_2: Pulse { enabled: val & 2 != 0, counter: enabled_counter(self.pulse_2.counter, val & 2 != 0), ..self.pulse_2 },
                triangle: Triangle {
                    enabled: val & 4 != 0,
                    counter: if val & 4 != 0 { self.triangle.counter } else { 0 },
                },
                noise: Noise { enabled: val & 8 != 0, counter: if val & 8 != 0 { self.noise.counter } else { 0 } },
                dmc: Dmc {
                    enabled: val & 16 != 0,
                    bytes: if val & 16 != 0 { self.dmc.bytes } else { 0 },
                    interupt: false,
                },
                ..*self
            })
        } else if idx == 0x4017 {
            new == (Apu {
                mode: if val & 0x80 != 0 { Mode::Step5 } else { Mode::Step4 },
                int_inhibit: val & 0x40 != 0,
                ..*self
            })
        } else if idx == 0x4000 {
            new == (Apu {
                pulse_1: Pulse {
                    sequence: Sequencer { sequence: duty_spec(val), ..self.pulse_1.sequence },
                    counter: match self.pulse_1.counter {
                        Some(c) => Some(Counter { running: val & 0x20 == 0, ..c }),
                        None => None,
                    },
                    ..self.pulse_1
                },
                ..*self
            })
        } else if idx == 0x4002 {
            new == (Apu {
                pulse_1: Pulse {
                    sequence: Sequencer { reload: (self.pulse_1.sequence.reload & 0xFF00) | val as u16, ..self.pulse_1.sequence },
                    ..self.pulse_1
                },
                ..*self
            })
        } else if idx == 0x4003 {
            let reload = (self.pulse_1.sequence.reload & 0x00FF) | ((val as u16 & 0x07) << 8);
            new == (Apu {
                pulse_1: Pulse {
                    sequence: Sequencer { reload, timer: reload, ..self.pulse_1.sequence },
                    counter: match self.pulse_1.counter {
                        Some(c) => Some(Counter { count: length_table()[val as int / 8], ..c }),
                        None => None,
                    },
                    ..self.pulse_1
                },
                ..*self
            })
        } else {
            new == *self
        }
    }

    /// Register write at 0x4000..=0x4017. 0x4015 sets the channel enables
    /// and clears the DMC interrupt flag; 0x4017 sets the frame-counter mode
    /// and interrupt inhibit; pulse 1's registers are kept; the others are
    /// accepted and discarded.
    pub fn write(&mut self, idx: u16, val: u8)
        ensures
            old(self).write_post(*final(self), idx, val),
    {
        if idx == 0x4015 {
            self.pulse_1.set_enabled(val & 1 != 0);
            self.pulse_2.set_enabled(val & 2 != 0);
            if val & 4 != 0 {
                self.triangle.enable();
            } else {
                self.triangle.disable();
            }
            if val & 8 != 0 {
                self.noise.enable();
            } else {
                self.noise.disable();
            }
            if val & 16 != 0 {
                self.dmc.enable();
            } else {
                self.dmc.disable();
            }
            self.dmc.interupt = false;
        } else if idx == 0x4017 {
            self.mode = if val & 0x80 != 0 {
                Mode::Step5
            } else {
                Mode::Step4
            };
            self.int_inhibit = val & 0x40 != 0;
        } else if idx == 0x4000 {
            self.pulse_1.write_reg_0(val);
        } else if idx == 0x4002 {
            self.pulse_1.write_reg_2(val);
        } else if idx == 0x4003 {
            self.pulse_1.write_reg_3(val);
        }
    }
}

/// After a write of `val` to 0x4015, each channel whose enable bit is clear
/// (pulse 1, pulse 2, triangle, noise, DMC in bits 0 to 4) reads 0 in the
/// same bit of the status byte.
pub proof fn lemma_disabled_channels_read_zero(a: Apu, b: Apu, val: u8)
    requires
        a.write_post(b, 0x4015, val),
    ensures
        val & 1 == 0 ==> b.get_status_spec() & 1 == 0,
        val & 2 == 0 ==> b.get_status_spec() & 2 == 0,
        val & 4 == 0 ==> b.get_status_spec() & 4 == 0,
        val & 8 == 0 ==> b.get_status_spec() & 8 == 0,
        val & 16 == 0 ==> b.get_status_spec() & 16 == 0,
{
    let t0 = flag(pulse_active(b.pulse_1), 1) as u8;
    let t1 = flag(pulse_active(b.pulse_2), 2) as u8;
    let t2 = flag(b.triangle.counter > 0 && b.triangle.enabled, 4) as u8;
    let t3 = flag(b.noise.counter > 0 && b.noise.enabled, 8) as u8;
    let t4 = flag(b.dmc.bytes > 0, 16) as u8;
    let t6 = flag(b.frame_int, 64) as u8;
    let t7 = flag(b.dmc.interupt, 128) as u8;
    assert(b.get_status_spec() == t0 + t1 + t2 + t3 + t4 + t6 + t7);
    assert((t0 == 0 || t0 == 1) && (t1 == 0 || t1 == 2) && (t2 == 0 || t2 == 4) && (t3 == 0 || t3 == 8)
        && (t4 == 0 || t4 == 16) && (t6 == 0 || t6 == 64) && (t7 == 0 || t7 == 128) ==> {
        let x = (t0 + t1 + t2 + t3 + t4 + t6 + t7) as u8;
        &&& (t0 == 0 ==> x & 1 == 0)
        &&& (t1 == 0 ==> x & 2 == 0)
        &&& (t2 == 0 ==> x & 4 == 0)
        &&& (t3 == 0 ==> x & 8 == 0)
        &&& (t4 == 0 ==> x & 16 == 0)
    }) by (bit_vector);
}

} // verus!
