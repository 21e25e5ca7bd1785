//! Mapper 0: fixed PRG ROM (16 KiB mirrored, or 32 KiB), fixed CHR ROM.
use vstd::prelude::*;
use crate::ines::Mirroring;
use crate::ppu::pattern::{PTIdx, PatternTable, pattern_base};

verus! {

pub struct NRom {
    prg_rom: Vec<u8>,
    chr_rom: Vec<u8>,
    sram: Vec<u8>,
    mirror: Mirroring,
}

impl NRom {
    pub closed spec fn prg(&self) -> Seq<u8> {
        self.prg_rom@
    }

    pub closed spec fn chr(&self) -> Seq<u8> {
        self.chr_rom@
    }

    pub closed spec fn sram(&self) -> Seq<u8> {
        self.sram@
    }

    pub closed spec fn mirroring(&self) -> Mirroring {
        self.mirror
    }

    pub open spec fn wf_view(&self) -> bool {
        self.prg().len() > 0 && self.sram().len() == 0x2000
    }

    /// CPU-space read: battery RAM at 0x6000, PRG ROM from 0x8000 repeated
    /// every PRG length.
    pub open spec fn get_spec(&self, idx: u16) -> u8 {
        if 0x6000 <= idx <= 0x7fff {
            self.sram()[idx as int - 0x6000]
        } else if idx >= 0x8000 {
            self.prg()[(idx as int - 0x8000) % (self.prg().len() as int)]
        } else {
            0
        }
    }

    pub fn new(prg_rom: Vec<u8>, chr_rom: Vec<u8>, mirror: Mirroring) -> (r: NRom)
        requires
            prg_rom@.len() > 0,
        ensures
            r.wf_view(),
            r.prg() == prg_rom@,
            r.chr() == chr_rom@,
            r.mirroring() == mirror,
            forall|i: int| 0 <= i < 0x2000 ==> r.sram()[i] == 0,
    {
        NRom { prg_rom, chr_rom, sram: vec![0u8; 0x2000], mirror }
    }

    pub fn get(&self, idx: u16) -> (r: u8)
        requires
            self.wf_view(),
        ensures
            r == self.get_spec(idx),
    {
        if 0x6000 <= idx && idx <= 0x7fff {
            self.sram[(idx - 0x6000) as usize]
        } else if idx >= 0x8000 {
            self.prg_rom[(idx as usize - 0x8000) % self.prg_rom.len()]
        } else {
            0
        }
    }

    /// `new` is `self` after a CPU write of `val` at `idx`.
    pub open spec fn set_post(&self, new: NRom, idx: u16, val: u8) -> bool {
        &&& (new.prg() == self.prg())
        &&& (new.chr() == self.chr())
        &&& (new.mirroring() == self.mirroring())
        &&& (0x6000 <= idx <= 0x7fff ==> new.sram() == self.sram().update(
                idx as int - 0x6000,
                val,
            ))
        &&& (!(0x6000 <= idx <= 0x7fff) ==> new.sram() == self.sram())
    }

    /// Only the battery RAM can be written.
    pub fn set(&mut self, idx: u16, val: u8)
        requires
            old(self).wf_view(),
        ensures
            final(self).wf_view(),
            old(self).set_post(*final(self), idx, val),
    {
        if 0x6000 <= idx && idx <= 0x7fff {
            self.sram.set((idx - 0x6000) as usize, val);
        }
    }

    pub open spec fn get_ppu_spec(&self, idx: u16) -> u8 {
        if (idx as int) < self.chr().len() { self.chr()[idx as int] } else { 0 }
    }

    /// Pattern-table read; past the end of CHR ROM reads 0.
    pub fn get_ppu(&self, idx: u16) -> (r: u8)
        ensures
            r == self.get_ppu_spec(idx),
    {
        if (idx as usize) < self.chr_rom.len() {
            self.chr_rom[idx as usize]
        } else {
            0
        }
    }

    /// A copy of pattern table `idx` as the PPU sees it now.
    pub fn get_pattern_table(&self, idx: PTIdx) -> (r: PatternTable)
        requires
            true,
        ensures
            r.wf(),
            forall|j: int| 0 <= j < 0x1000 ==> r.0@[j] == self.get_ppu_spec((pattern_base(idx) + j) as u16),
    {
        let base: u16 = match idx {
            PTIdx::Left => 0,
            PTIdx::Right => 0x1000,
        };
        let mut t: Vec<u8> = Vec::new();
        let mut i: u16 = 0;
        while i < 0x1000
            invariant
                i <= 0x1000,
                base as int == pattern_base(idx),
                
                t@.len() == i,
                forall|j: int| 0 <= j < i ==> t@[j] == self.get_ppu_spec((base + j) as u16),
            decreases 0x1000 - i,
        {
            t.push(self.get_ppu(base + i));
            i = i + 1;
        }
        PatternTable(t)
    }

    /// Physical nametable page (0 or 1) behind each of the four logical slots.
    pub fn mirror(&self) -> (r: [u8; 4])
        ensures
            r@ == nrom_pages(self.mirroring()),
    {
        match self.mirror {
            Mirroring::Horizontal => [0, 0, 1, 1],
            Mirroring::Vertical => [0, 1, 0, 1],
            Mirroring::Ignore => [0, 0, 0, 0],
        }
    }
}

pub open spec fn nrom_pages(m: Mirroring) -> Seq<u8> {
    match m {
        Mirroring::Horizontal => seq![0u8, 0, 1, 1],
        Mirroring::Vertical => seq![0u8, 1, 0, 1],
        Mirroring::Ignore => seq![0u8, 0, 0, 0],
    }
}

} // verus!
