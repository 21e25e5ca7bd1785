//! Mapper 1: PRG and CHR bank switching through a five-write serial port.
use vstd::prelude::*;
use crate::ines;
use crate::ppu::pattern::{PTIdx, PatternTable, pattern_base};

verus! {

pub const PRG_BANK: usize = 0x4000;
pub const CHR_BANK: usize = 0x1000;
pub const CHR_RAM_LEN: usize = 0x2000;

/// Nametable arrangement, by its two-bit code in the control register.
#[derive(Debug, Clone, Copy, PartialEq, Eq, Structural)]
pub enum Mirroring {
    Lower,
    Upper,
    Vertical,
    Horizontal,
}

#[derive(Debug, Clone, Copy, PartialEq, Eq, Structural)]
pub enum PRGMode {
    /// Switch 32 KiB at 0x8000.
    Full,
    /// First bank fixed at 0x8000, 16 KiB switched at 0xC000.
    FixFirst,
    /// 16 KiB switched at 0x8000, last bank fixed at 0xC000.
    FixLast,
}

#[derive(Debug, Clone, Copy, PartialEq, Eq, Structural)]
pub enum CHRMode {
    /// Switch 8 KiB at a time.
    Full,
    /// Two independent 4 KiB banks.
    Half,
}

#[derive(Debug, Clone, Copy, PartialEq, Eq, Structural)]
pub struct Settings {
    pub mirror: Mirroring,
    pub prg_mode: PRGMode,
    pub chr_mode: CHRMode,
}

/// Destination registers, by bits 13 and 14 of the written address.
pub const CONTROL: u16 = 0;
pub const CHR_1: u16 = 1;
pub const CHR_2: u16 = 2;
pub const PRG: u16 = 3;

pub open spec fn settings_spec(shift: u8) -> Settings {
    Settings {
        mirror: if shift % 4 == 0 {
            Mirroring::Lower
        } else if shift % 4 == 1 {
            Mirroring::Upper
        } else if shift % 4 == 2 {
            Mirroring::Vertical
        } else {
            Mirroring::Horizontal
        },
        prg_mode: if (shift / 4) % 4 <= 1 {
            PRGMode::Full
        } else if (shift / 4) % 4 == 2 {
            PRGMode::FixFirst
        } else {
            PRGMode::FixLast
        },
        chr_mode: if (shift / 16) % 2 == 1 { CHRMode::Half } else { CHRMode::Full },
    }
}

pub open spec fn mirror_of(m: ines::Mirroring) -> Mirroring {
    match m {
        ines::Mirroring::Horizontal => Mirroring::Horizontal,
        ines::Mirroring::Vertical => Mirroring::Vertical,
        ines::Mirroring::Ignore => Mirroring::Lower,
    }
}

pub open spec fn mmc1_pages(m: Mirroring) -> Seq<u8> {
    match m {
        Mirroring::Horizontal => seq![0u8, 0, 1, 1],
        Mirroring::Vertical => seq![0u8, 1, 0, 1],
        Mirroring::Lower => seq![0u8, 0, 0, 0],
        Mirroring::Upper => seq![1u8, 1, 1, 1],
    }
}

/// Place value of the next bit of the serial port.
pub open spec fn weight(count: u8) -> u8 {
    if count == 0 { 1 } else if count == 1 { 2 } else if count == 2 { 4 } else if count == 3 { 8 } else { 16 }
}

impl Settings {
    pub fn default() -> (r: Settings)
        ensures
            r == (Settings { mirror: Mirroring::Lower, prg_mode: PRGMode::FixLast, chr_mode: CHRMode::Full }),
    {
        Settings { mirror: Mirroring::Lower, prg_mode: PRGMode::FixLast, chr_mode: CHRMode::Full }
    }

    pub fn from(shift: u8) -> (r: Settings)
        ensures
            r == settings_spec(shift),
    {
        let mirror = match shift % 4 {
            0 => Mirroring::Lower,
            1 => Mirroring::Upper,
            2 => Mirroring::Vertical,
            _ => Mirroring::Horizontal,
        };
        let prg_mode = match (shift / 4) % 4 {
            0 | 1 => PRGMode::Full,
            2 => PRGMode::FixFirst,
            _ => PRGMode::FixLast,
        };
        let chr_mode = if (shift / 16) % 2 == 1 {
            CHRMode::Half
        } else {
            CHRMode::Full
        };
        Settings { mirror, prg_mode, chr_mode }
    }
}

impl Mirroring {
    pub fn from(m: ines::Mirroring) -> (r: Mirroring)
        ensures
            r == mirror_of(m),
    {
        match m {
            ines::Mirroring::Horizontal => Mirroring::Horizontal,
            ines::Mirroring::Vertical => Mirroring::Vertical,
            ines::Mirroring::Ignore => Mirroring::Lower,
        }
    }
}

pub struct Mmc1 {
    pub prg_rom: Vec<u8>,
    pub chr: Vec<u8>,
    /// The cartridge has CHR RAM rather than CHR ROM.
    pub chr_ram: bool,
    pub sram: Option<Vec<u8>>,
    /// PRG bank numbers (16 KiB units) seen at 0x8000 and 0xC000.
    pub prg_banks: [usize; 2],
    /// CHR bank numbers (4 KiB units) seen at 0x0000 and 0x1000.
    pub chr_banks: [usize; 2],
    pub settings: Settings,
    pub shift: u8,
    pub count: u8,
}

impl Mmc1 {
    pub open spec fn prg_bank_count(&self) -> int {
        self.prg_rom@.len() as int / (PRG_BANK as int)
    }

    pub open spec fn sram_view(&self) -> Option<Seq<u8>> {
        match self.sram {
            Some(s) => Some(s@),
            None => None,
        }
    }

    pub open spec fn wf(&self) -> bool {
        &&& self.prg_rom@.len() >= PRG_BANK
        &&& self.prg_rom@.len() % (PRG_BANK as nat) == 0
        &&& self.prg_rom@.len() <= 255 * PRG_BANK
        &&& self.prg_banks@[0] < self.prg_bank_count()
        &&& self.prg_banks@[1] < self.prg_bank_count()
        &&& self.chr_banks@[0] < 32
        &&& self.chr_banks@[1] < 32
        &&& self.chr@.len() <= 255 * 0x2000
        &&& (self.sram matches Some(s) ==> s@.len() == 0x2000)
        &&& self.count < 5
        &&& self.shift < weight(self.count)
    }

    /// CPU-space read: battery RAM when present at 0x6000, the two selected
    /// PRG banks at 0x8000 and 0xC000.
    pub open spec fn get_spec(&self, idx: u16) -> u8 {
        if 0x6000 <= idx <= 0x7fff {
            match self.sram {
                Some(s) => s@[idx as int % 0x2000],
                None => 0,
            }
        } else if 0x8000 <= idx <= 0xbfff {
            self.prg_rom@[self.prg_banks@[0] * PRG_BANK + (idx - 0x8000)]
        } else if idx >= 0xc000 {
            self.prg_rom@[self.prg_banks@[1] * PRG_BANK + (idx - 0xc000)]
        } else {
            0
        }
    }

    /// Offset in CHR memory of pattern address `idx`, through the selected bank.
    pub open spec fn chr_offset(&self, idx: u16) -> int {
        self.chr_banks@[idx as int / 0x1000] * CHR_BANK + idx as int % 0x1000
    }

    pub open spec fn get_ppu_spec(&self, idx: u16) -> u8 {
        if idx < 0x2000 && self.chr_offset(idx) < self.chr@.len() {
            self.chr@[self.chr_offset(idx)]
        } else {
            0
        }
    }

    pub fn new(prg_rom: Vec<u8>, chr_rom: Vec<u8>, mirror: ines::Mirroring) -> (r: Mmc1)
        requires
            prg_rom@.len() >= PRG_BANK,
            prg_rom@.len() % (PRG_BANK as nat) == 0,
            prg_rom@.len() <= 255 * PRG_BANK,
            chr_rom@.len() <= 255 * 0x2000,
        ensures
            r.wf(),
            r.prg_rom@ == prg_rom@,
            chr_rom@.len() > 0 ==> r.chr@ == chr_rom@ && !r.chr_ram,
            chr_rom@.len() == 0 ==> r.chr@.len() == CHR_RAM_LEN && r.chr_ram,
            r.prg_banks@ == seq![0usize, (prg_rom@.len() as int / (PRG_BANK as int) - 1) as usize],
            r.chr_banks@ == seq![0usize, 1],
            r.settings == (Settings {
                mirror: mirror_of(mirror),
                prg_mode: PRGMode::FixLast,
                chr_mode: CHRMode::Full,
            }),
            r.sram is Some,
            forall|i: int| 0 <= i < 0x2000 ==> r.sram_view()->0[i] == 0,
            r.shift == 0 && r.count == 0,
    {
        let last = prg_rom.len() / PRG_BANK - 1;
        let chr_ram = chr_rom.len() == 0;
        let chr = if chr_ram {
            vec![0u8; CHR_RAM_LEN]
        } else {
            chr_rom
        };
        let r = Mmc1 {
            prg_rom,
            chr,
            chr_ram,
            sram: Some(vec![0u8; 0x2000]),
            prg_banks: [0, last],
            chr_banks: [0, 1],
            settings: Settings {
                mirror: Mirroring::from(mirror),
                prg_mode: PRGMode::FixLast,
                chr_mode: CHRMode::Full,
            },
            shift: 0,
            count: 0,
        };
        assert(r.prg_banks@ =~= seq![0usize, last]);
        assert(r.chr_banks@ =~= seq![0usize, 1]);
        r
    }

    pub fn mirror(&self) -> (r: [u8; 4])
        ensures
            r@ == mmc1_pages(self.settings.mirror),
    {
        let r = match self.settings.mirror {
            Mirroring::Horizontal => [0, 0, 1, 1],
            Mirroring::Vertical => [0, 1, 0, 1],
            Mirroring::Lower => [0, 0, 0, 0],
            Mirroring::Upper => [1, 1, 1, 1],
        };
        assert(r@ =~= mmc1_pages(self.settings.mirror));
        r
    }

    pub fn get(&self, idx: u16) -> (r: u8)
        requires
            self.wf(),
        ensures
            r == self.get_spec(idx),
    {
        if 0x6000 <= idx && idx <= 0x7fff {
            match &self.sram {
                Some(s) => s[idx as usize % 0x2000],
                None => 0,
            }
        } else if 0x8000 <= idx && idx <= 0xbfff {
            proof {
                lemma_bank_offset(self.prg_banks@[0] as int, self.prg_bank_count(), idx - 0x8000);
            }
            self.prg_rom[self.prg_banks[0] * PRG_BANK + (idx - 0x8000) as usize]
        } else if idx >= 0xc000 {
            proof {
                lemma_bank_offset(self.prg_banks@[1] as int, self.prg_bank_count(), idx - 0xc000);
            }
            self.prg_rom[self.prg_banks[1] * PRG_BANK + (idx - 0xc000) as usize]
        } else {
            0
        }
    }

    /// `new` is `self` after a CPU write of `val` at `idx`.
    pub open spec fn set_post(&self, new: Mmc1, idx: u16, val: u8) -> bool {
        &&& (new.prg_rom@ == self.prg_rom@)
        &&& (new.chr@ == self.chr@)
        &&& (new.chr_ram == self.chr_ram)
        &&& (idx < 0x6000 ==> new == *self)
        &&& (0x6000 <= idx <= 0x7fff ==> {
                &&& new.sram_view() == match self.sram_view() {
                    Some(s) => Some(s.update(idx as int - 0x6000, val)),
                    None => None,
                }
                &&& new.settings == self.settings
                &&& new.prg_banks == self.prg_banks
                &&& new.chr_banks == self.chr_banks
                &&& new.shift == self.shift
                &&& new.count == self.count
            })
        &&& (idx >= 0x8000 && val >= 0x80 ==> {
                &&& new.shift == 0
                &&& new.count == 0
                &&& new.settings == (Settings { prg_mode: PRGMode::FixLast, ..self.settings })
                &&& new.prg_banks == self.prg_banks
                &&& new.chr_banks == self.chr_banks
                &&& new.sram == self.sram
            })
        &&& (idx >= 0x8000 && val < 0x80 && self.count < 4 ==> {
                &&& new.shift == self.shift + (val % 2) * weight(self.count)
                &&& new.count == self.count + 1
                &&& new.settings == self.settings
                &&& new.prg_banks == self.prg_banks
                &&& new.chr_banks == self.chr_banks
                &&& new.sram == self.sram
            })
        &&& (idx >= 0x8000 && val < 0x80 && self.count == 4 ==> {
                let v = (self.shift + (val % 2) * 16) as u8;
                let reg = (idx / 0x2000) % 4;
                &&& new.shift == 0
                &&& new.count == 0
                &&& reg == CONTROL ==> new.settings == settings_spec(v)
                    && new.prg_banks == self.prg_banks
                    && new.chr_banks == self.chr_banks
                    && new.sram == self.sram
                &&& reg == CHR_1 ==> new.settings == self.settings
                    && new.prg_banks == self.prg_banks
                    && new.chr_banks@ == (if self.settings.chr_mode == CHRMode::Full {
                        seq![(v - v % 2) as usize, (v - v % 2 + 1) as usize]
                    } else {
                        seq![v as usize, self.chr_banks@[1]]
                    })
                    && new.sram == self.sram
                &&& reg == CHR_2 ==> new.settings == self.settings
                    && new.prg_banks == self.prg_banks
                    && new.chr_banks@ == (if self.settings.chr_mode == CHRMode::Half {
                        seq![self.chr_banks@[0], v as usize]
                    } else {
                        self.chr_banks@
                    })
                    && new.sram == self.sram
                &&& reg == PRG ==> new.settings == self.settings
                    && new.chr_banks == self.chr_banks
                    && new.prg_banks@ == prg_select(
                        self.settings.prg_mode,
                        (v % 16) as int,
                        self.prg_bank_count(),
                    )
                    && (new.sram is Some <==> (v / 16) % 2 == 1)
                    && ((v / 16) % 2 == 1 && self.sram is Some ==> new.sram == self.sram)
            })
    }

    /// CPU-space write: battery RAM, or one bit into the serial port.
    pub fn set(&mut self, idx: u16, val: u8)
        requires
            old(self).wf(),
        ensures
            final(self).wf(),
            old(self).set_post(*final(self), idx, val),
    {
        if 0x6000 <= idx && idx <= 0x7fff {
            match &mut self.sram {
                Some(s) => {
                    s.set((idx - 0x6000) as usize, val);
                },
                None => {},
            }
        } else if idx >= 0x8000 {
            if val >= 0x80 {
                self.shift = 0;
                self.count = 0;
                self.settings.prg_mode = PRGMode::FixLast;
            } else {
                let weight: u8 = match self.count {
                    0 => 1,
                    1 => 2,
                    2 => 4,
                    3 => 8,
                    _ => 16,
                };
                self.shift = self.shift + (val % 2) * weight;
                self.count = self.count + 1;
                if self.count >= 5 {
                    let shift = self.shift;
                    self.commit((idx / 0x2000) % 4, shift);
                    self.shift = 0;
                    self.count = 0;
                }
            }
        }
    }

    /// Hands a completed five-bit value to register `reg`.
    fn commit(&mut self, reg: u16, v: u8)
        requires
            old(self).prg_rom@.len() >= PRG_BANK,
            old(self).prg_rom@.len() % (PRG_BANK as nat) == 0,
            old(self).prg_rom@.len() <= 255 * PRG_BANK,
            old(self).prg_banks@[0] < old(self).prg_bank_count(),
            old(self).prg_banks@[1] < old(self).prg_bank_count(),
            old(self).chr_banks@[0] < 32,
            old(self).chr_banks@[1] < 32,
            old(self).sram matches Some(s) ==> s@.len() == 0x2000,
            v < 32,
            reg < 4,
        ensures
            final(self).prg_rom == old(self).prg_rom,
            final(self).chr == old(self).chr,
            final(self).chr_ram == old(self).chr_ram,
            final(self).shift == old(self).shift,
            final(self).count == old(self).count,
            final(self).prg_banks@[0] < final(self).prg_bank_count(),
            final(self).prg_banks@[1] < final(self).prg_bank_count(),
            final(self).chr_banks@[0] < 32,
            final(self).chr_banks@[1] < 32,
            final(self).sram matches Some(s) ==> s@.len() == 0x2000,
            reg == CONTROL ==> final(self).settings == settings_spec(v)
                && final(self).prg_banks == old(self).prg_banks
                && final(self).chr_banks == old(self).chr_banks
                && final(self).sram == old(self).sram,
            reg == CHR_1 ==> final(self).settings == old(self).settings
                && final(self).prg_banks == old(self).prg_banks
                && final(self).chr_banks@ == (if old(self).settings.chr_mode == CHRMode::Full {
                    seq![(v - v % 2) as usize, (v - v % 2 + 1) as usize]
                } else {
                    seq![v as usize, old(self).chr_banks@[1]]
                })
                && final(self).sram == old(self).sram,
            reg == CHR_2 ==> final(self).settings == old(self).settings
                && final(self).prg_banks == old(self).prg_banks
                && final(self).chr_banks@ == (if old(self).settings.chr_mode == CHRMode::Half {
                    seq![old(self).chr_banks@[0], v as usize]
                } else {
                    old(self).chr_banks@
                })
                && final(self).sram == old(self).sram,
            reg == PRG ==> final(self).settings == old(self).settings
                && final(self).chr_banks == old(self).chr_banks
                && final(self).prg_banks@ == prg_select(
                    old(self).settings.prg_mode,
                    (v % 16) as int,
                    old(self).prg_bank_count(),
                )
                && (final(self).sram is Some <==> (v / 16) % 2 == 1)
                && ((v / 16) % 2 == 1 && old(self).sram is Some ==> final(self).sram == old(self).sram),
    {
        let value = v as usize;
        if reg == CONTROL {
            self.settings = Settings::from(v);
        } else if reg == CHR_1 {
            match self.settings.chr_mode {
                CHRMode::Full => {
                    self.chr_banks = [value - value % 2, value - value % 2 + 1];
                    assert(self.chr_banks@ =~= seq![(v - v % 2) as usize, (v - v % 2 + 1) as usize]);
                },
                CHRMode::Half => {
                    self.chr_banks = [value, self.chr_banks[1]];
                    assert(self.chr_banks@ =~= seq![v as usize, old(self).chr_banks@[1]]);
                },
            }
        } else if reg == CHR_2 {
            if self.settings.chr_mode == CHRMode::Half {
                self.chr_banks = [self.chr_banks[0], value];
                assert(self.chr_banks@ =~= seq![old(self).chr_banks@[0], v as usize]);
            }
        } else {
            if (v / 16) % 2 == 1 {
                if self.sram.is_none() {
                    self.sram = Some(vec![0u8; 0x2000]);
                }
            } else {
                self.sram = None;
            }
            let n = self.prg_rom.len() / PRG_BANK;
            let bank = value % 16;
            self.prg_banks = match self.settings.prg_mode {
                PRGMode::Full => [(bank - bank % 2) % n, (bank - bank % 2 + 1) % n],
                PRGMode::FixFirst => [0, bank % n],
                PRGMode::FixLast => [bank % n, n - 1],
            };
            assert(self.prg_banks@ =~= prg_select(old(self).settings.prg_mode, (v % 16) as int, n as int));
        }
    }

    /// Pattern-table read through the selected CHR banks; a bank past the end
    /// of CHR memory reads 0.
    pub fn get_ppu(&self, idx: u16) -> (r: u8)
        requires
            self.wf(),
        ensures
            r == self.get_ppu_spec(idx),
    {
        if idx < 0x2000 {
            let offset = self.chr_banks[(idx / 0x1000) as usize] * CHR_BANK + (idx % 0x1000) as usize;
            if offset < self.chr.len() {
                self.chr[offset]
            } else {
                0
            }
        } else {
            0
        }
    }

    /// A copy of pattern table `idx` as the PPU sees it now.
    pub fn get_pattern_table(&self, idx: PTIdx) -> (r: PatternTable)
        requires
            self.wf(),
        ensures
            r.wf(),
            forall|j: int| 0 <= j < 0x1000 ==> r.0@[j] == self.get_ppu_spec((pattern_base(idx) + j) as u16),
    {
        let base: u16 = match idx {
            PTIdx::Left => 0,
            PTIdx::Right => 0x1000,
        };
        let mut t: Vec<u8> = Vec::new();
        let mut i: u16 = 0;
        while i < 0x1000
            invariant
                i <= 0x1000,
                base as int == pattern_base(idx),
                self.wf(),
                t@.len() == i,
                forall|j: int| 0 <= j < i ==> t@[j] == self.get_ppu_spec((base + j) as u16),
            decreases 0x1000 - i,
        {
            t.push(self.get_ppu(base + i));
            i = i + 1;
        }
        PatternTable(t)
    }

    /// Pattern-table write: lands in CHR RAM; CHR ROM ignores it.
    pub fn set_ppu(&mut self, idx: u16, val: u8)
        requires
            old(self).wf(),
        ensures
            final(self).wf(),
            final(self).chr_ram == old(self).chr_ram,
            final(self).chr@ == if old(self).chr_ram && idx < 0x2000 && old(self).chr_offset(idx)
                < old(self).chr@.len() {
                old(self).chr@.update(old(self).chr_offset(idx), val)
            } else {
                old(self).chr@
            },
            final(self).prg_rom == old(self).prg_rom,
            final(self).sram == old(self).sram,
            final(self).prg_banks == old(self).prg_banks,
            final(self).chr_banks == old(self).chr_banks,
            final(self).settings == old(self).settings,
            final(self).shift == old(self).shift,
            final(self).count == old(self).count,
    {
        if self.chr_ram && idx < 0x2000 {
            let offset = self.chr_banks[(idx / 0x1000) as usize] * CHR_BANK + (idx % 0x1000) as usize;
            if offset < self.chr.len() {
                self.chr.set(offset, val);
            }
        }
    }
}

/// PRG banks (at 0x8000, 0xC000) selected by bank number `v` (the low four
/// bits of the register) in mode `mode`,
/// out of `n` banks.
pub open spec fn prg_select(mode: PRGMode, v: int, n: int) -> Seq<usize> {
    match mode {
        PRGMode::Full => seq![((v - v % 2) % n) as usize, ((v - v % 2 + 1) % n) as usize],
        PRGMode::FixFirst => seq![0usize, (v % n) as usize],
        PRGMode::FixLast => seq![(v % n) as usize, (n - 1) as usize],
    }
}

proof fn lemma_bank_offset(b: int, n: int, off: int)
    requires
        0 <= b < n,
        0 <= off < PRG_BANK,
    ensures
        b * PRG_BANK + off < n * PRG_BANK,
        0 <= b * PRG_BANK + off,
{
    assert(b * PRG_BANK + off < n * PRG_BANK) by (nonlinear_arith)
        requires
            0 <= b < n,
            0 <= off < PRG_BANK,
    ;
    assert(0 <= b * PRG_BANK) by (nonlinear_arith)
        requires
            0 <= b,
    ;
}

} // verus!
