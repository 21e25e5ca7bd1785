//! A pulse channel: duty sequencer, sweep settings and length counter.
use vstd::prelude::*;

verus! {

pub struct Pulse {
    pub enabled: bool,
    pub sequence: Sequencer,
    pub sweep: Sweep,
    pub counter: Option<Counter>,
}

pub struct Sweep {
    pub enabled: bool,
    pub period: u8,
    pub dir: Direction,
    pub shift: u8,
}

pub struct Sequencer {
    pub sequence: u32,
    pub timer: u16,
    pub reload: u16,
    pub output: u8,
}

#[derive(Debug, Copy, Clone, PartialEq, Eq, Structural)]
pub struct Counter {
    pub running: bool,
    pub count: u8,
}

pub enum Direction {
    Lower,
    Higher,
}

/// Length-counter load values, by the top five bits of register 3.
pub open spec fn length_table() -> Seq<u8> {
    seq![
        10u8, 254, 20, 2, 40, 4, 80, 6, 160, 8, 60, 10, 14, 12, 26, 14, 12, 16, 24, 18, 48, 20, 96, 22,
        192, 24, 72, 26, 16, 38, 32, 30,
    ]
}

/// The length counter after the channel is enabled (`enable`) or disabled:
/// disabling drops it; enabling keeps it, or starts a stopped one at 0.
pub open spec fn enabled_counter(c: Option<Counter>, enable: bool) -> Option<Counter> {
    if !enable {
        None
    } else if c is None {
        Some(Counter { running: false, count: 0 })
    } else {
        c
    }
}

/// The duty pattern chosen by the top two bits of register 0.
pub open spec fn duty_spec(val: u8) -> u32 {
    let d = val / 64;
    if d == 0 { 0b00000001 } else if d == 1 { 0b00000011 } else if d == 2 { 0b00001111 } else { 0b11111100 }
}

/// Rotates a 32-bit pattern right by one.
pub open spec fn rotate_spec(s: u32) -> u32 {
    (s / 2 + (s % 2) * 0x8000_0000) as u32
}

pub fn length_of(idx: u8) -> (r: u8)
    requires
        idx < 32,
    ensures
        r == length_table()[idx as int],
        r > 0,
{
    let table: [u8; 32] = [
        10, 254, 20, 2, 40, 4, 80, 6, 160, 8, 60, 10, 14, 12, 26, 14, 12, 16, 24, 18, 48, 20, 96, 22,
        192, 24, 72, 26, 16, 38, 32, 30,
    ];
    assert(table@ =~= length_table());
    table[idx as usize]
}

impl Pulse {
    pub fn new() -> (r: Pulse)
        ensures
            !r.enabled,
            r.counter is None,
    {
        Pulse { enabled: false, sequence: Sequencer::new(), sweep: Sweep::new(), counter: None }
    }

    /// One APU cycle: the sequencer runs while the channel is enabled.
    pub fn clock(&mut self)
        ensures
            final(self).enabled == old(self).enabled,
            final(self).counter == old(self).counter,
            !old(self).enabled ==> final(self).sequence == old(self).sequence,
            old(self).enabled && old(self).sequence.timer == 0 ==> final(self).sequence.sequence == rotate_spec(
                old(self).sequence.sequence,
            ),
            old(self).enabled && old(self).sequence.timer != 0 ==> final(self).sequence.timer
                == old(self).sequence.timer - 1 && final(self).sequence.sequence == old(self).sequence.sequence,
    {
        if self.enabled {
            self.sequence.clock();
        }
    }

    /// The channel is enabled and its length counter is non-zero.
    pub fn active(&self) -> (r: bool)
        ensures
            r == (self.enabled && (self.counter matches Some(c) && c.count > 0)),
    {
        match &self.counter {
            Some(c) => c.count > 0 && self.enabled,
            None => false,
        }
    }

    pub fn set_enabled(&mut self, enable: bool)
        ensures
            *final(self) == (Pulse { enabled: enable, counter: enabled_counter(old(self).counter, enable), ..*old(self) }),
    {
        self.enabled = enable;
        if !enable {
            self.counter = None;
        } else if self.counter.is_none() {
            self.counter = Some(Counter::new());
        }
    }

    /// Register 0: duty pattern; bit 5 halts the length counter.
    pub fn write_reg_0(&mut self, val: u8)
        ensures
            *final(self) == (Pulse {
                sequence: Sequencer { sequence: duty_spec(val), ..old(self).sequence },
                counter: match old(self).counter {
                    Some(c) => Some(Counter { running: val & 0x20 == 0, ..c }),
                    None => None,
                },
                ..*old(self)
            }),
    {
        self.sequence.sequence = match val / 64 {
            0 => 0b00000001,
            1 => 0b00000011,
            2 => 0b00001111,
            _ => 0b11111100,
        };
        match &mut self.counter {
            Some(c) => c.running = val & 0x20 == 0,
            None => {},
        }
    }

    /// Register 2: low byte of the timer reload.
    pub fn write_reg_2(&mut self, val: u8)
        ensures
            *final(self) == (Pulse {
                sequence: Sequencer { reload: (old(self).sequence.reload & 0xFF00) | val as u16, ..old(self).sequence },
                ..*old(self)
            }),
    {
        self.sequence.reload = (self.sequence.reload & 0xFF00) | val as u16;
    }

    /// Register 3: high bits of the timer reload, timer restart, and the
    /// length counter load.
    pub fn write_reg_3(&mut self, val: u8)
        ensures
            ({
                let reload = (old(self).sequence.reload & 0x00FF) | ((val as u16 & 0x07) << 8);
                *final(self) == (Pulse {
                    sequence: Sequencer { reload, timer: reload, ..old(self).sequence },
                    counter: match old(self).counter {
                        Some(c) => Some(Counter { count: length_table()[val as int / 8], ..c }),
                        None => None,
                    },
                    ..*old(self)
                })
            }),
    {
        self.sequence.reload = (self.sequence.reload & 0x00FF) | ((val as u16 & 0x07) << 8);
        self.sequence.reset();
        match &mut self.counter {
            Some(c) => c.count = length_of(val / 8),
            None => {},
        }
    }
}

impl Sweep {
    pub fn new() -> (r: Sweep)
        ensures
            !r.enabled && r.period == 0 && r.shift == 0,
    {
        Sweep { enabled: false, period: 0, dir: Direction::Lower, shift: 0 }
    }

    pub fn set_enabled(&mut self, enable: bool)
        ensures
            final(self).enabled == enable,
            final(self).period == old(self).period,
            final(self).shift == old(self).shift,
    {
        self.enabled = enable;
    }
}

impl Sequencer {
    pub fn new() -> (r: Sequencer)
        ensures
            r.sequence == 0 && r.timer == 0 && r.reload == 0 && r.output == 0,
    {
        Sequencer { sequence: 0, timer: 0, reload: 0, output: 0 }
    }

    pub fn reset(&mut self)
        ensures
            final(self).timer == old(self).reload,
            final(self).reload == old(self).reload,
            final(self).sequence == old(self).sequence,
            final(self).output == old(self).output,
    {
        self.timer = self.reload;
    }

    /// Counts the timer down; when it passes zero it reloads and the duty
    /// pattern rotates one step. Returns the output bit.
    pub fn clock(&mut self) -> (r: u8)
        ensures
            final(self).reload == old(self).reload,
            old(self).timer == 0 ==> final(self).timer == (old(self).reload as int + 1) % 0x10000
                && final(self).sequence == rotate_spec(old(self).sequence)
                && final(self).output == final(self).sequence % 2,
            old(self).timer != 0 ==> final(self).timer == old(self).timer - 1 && final(self).sequence
                == old(self).sequence && final(self).output == old(self).output,
            r == final(self).output,
    {
        self.timer = self.timer.wrapping_sub(1);
        if self.timer == 0xFFFF {
            self.timer = self.reload.wrapping_add(1);
            self.sequence = self.sequence / 2 + (self.sequence % 2) * 0x8000_0000;
            self.output = (self.sequence % 2) as u8;
        }
        self.output
    }
}

impl Counter {
    pub fn new() -> (r: Counter)
        ensures
            r == (Counter { running: false, count: 0 }),
    {
        Counter { running: false, count: 0 }
    }

    /// Half-frame tick: a running counter counts down to zero. Returns
    /// whether it is still non-zero.
    pub fn clock(&mut self) -> (r: bool)
        ensures
            final(self).running == old(self).running,
            final(self).count == if old(self).running && old(self).count > 0 {
                (old(self).count - 1) as u8
            } else {
                old(self).count
            },
            r == (final(self).count > 0),
    {
        if self.running && self.count > 0 {
            self.count = self.count - 1;
        }
        self.count > 0
    }
}

} // verus!
