//! System RAM and the cartridge mappers.
use vstd::prelude::*;
use crate::ines::{Mapper, Rom};
use crate::ppu::pattern::{PTIdx, PatternTable, pattern_base};
use mmc1::Mmc1;
use nrom::NRom;

pub mod mmc1;
pub mod nrom;

verus! {

/// The CPU's address space.
pub struct CPU;

/// The PPU's address space.
pub struct PPU;

/// A marker for the two address spaces.
pub trait AddressSpace {}

impl AddressSpace for CPU {}

impl AddressSpace for PPU {}

/// The console's 2 KiB of work RAM, seen at 0x0000..=0x1FFF modulo 0x800.
#[derive(Debug)]
pub struct SysMemory {
    pub ram: Vec<u8>,
}

pub const RAM_LEN: usize = 0x800;

impl SysMemory {
    pub open spec fn view(&self) -> Seq<u8> {
        self.ram@
    }

    pub open spec fn wf(&self) -> bool {
        self.ram@.len() == RAM_LEN
    }

    pub fn new() -> (r: SysMemory)
        ensures
            r.wf(),
            forall|i: int| 0 <= i < RAM_LEN ==> r.ram@[i] == 0,
    {
        SysMemory { ram: vec![0u8; RAM_LEN] }
    }

    pub fn get(&self, idx: u16) -> (r: u8)
        requires
            self.wf(),
        ensures
            idx <= 0x1fff ==> r == self.ram@[idx as int % 0x800],
            idx > 0x1fff ==> r == 0,
    {
        if idx <= 0x1fff {
            self.ram[idx as usize % RAM_LEN]
        } else {
            0
        }
    }

    pub fn set(&mut self, idx: u16, val: u8)
        requires
            old(self).wf(),
        ensures
            final(self).wf(),
            idx <= 0x1fff ==> final(self).ram@ == old(self).ram@.update(idx as int % 0x800, val),
            idx > 0x1fff ==> final(self).ram@ == old(self).ram@,
    {
        if idx <= 0x1fff {
            self.ram.set(idx as usize % RAM_LEN, val);
        }
    }
}

pub enum Cartridge {
    NRom(NRom),
    Mmc1(Mmc1),
}

impl Cartridge {
    pub open spec fn wf(&self) -> bool {
        match self {
            Cartridge::NRom(c) => c.wf_view(),
            Cartridge::Mmc1(c) => c.wf(),
        }
    }

    /// What a CPU read at `idx` (0x4020..) returns.
    pub open spec fn get_spec(&self, idx: u16) -> u8 {
        match self {
            Cartridge::NRom(c) => c.get_spec(idx),
            Cartridge::Mmc1(c) => c.get_spec(idx),
        }
    }

    /// What a PPU read of pattern memory at `idx` (< 0x2000) returns.
    pub open spec fn get_ppu_spec(&self, idx: u16) -> u8 {
        match self {
            Cartridge::NRom(c) => c.get_ppu_spec(idx),
            Cartridge::Mmc1(c) => c.get_ppu_spec(idx),
        }
    }

    /// Physical nametable page behind each of the four logical slots.
    pub open spec fn pages(&self) -> Seq<u8> {
        match self {
            Cartridge::NRom(c) => nrom::nrom_pages(c.mirroring()),
            Cartridge::Mmc1(c) => mmc1::mmc1_pages(c.settings.mirror),
        }
    }

    /// The cartridge is the one that `rom` describes, as at power-on.
    pub open spec fn built_from(&self, rom: &Rom) -> bool {
        let r = *self;
        &&& rom.header.mapper == Mapper::NROM ==> r is NRom
        &&& rom.header.mapper == Mapper::MMC1 ==> r is Mmc1
        &&& r matches Cartridge::NRom(n) ==> n.prg() == rom.prg@ && n.chr() == rom.chr@ && n.mirroring()
            == rom.header.flags6.mirror && forall|i: int| 0 <= i < 0x2000 ==> n.sram()[i] == 0
        &&& r matches Cartridge::Mmc1(m) ==> m.prg_rom@ == rom.prg@ && (rom.chr@.len() > 0 ==> m.chr@ == rom.chr@)
            && m.settings.mirror == mmc1::mirror_of(rom.header.flags6.mirror) && m.prg_banks@ == seq![
            0usize,
            (rom.prg@.len() as int / 0x4000 - 1) as usize,
        ] && m.chr_banks@ == seq![0usize, 1] && m.settings.prg_mode == mmc1::PRGMode::FixLast
            && m.shift == 0 && m.count == 0
    }

    pub open spec fn same_kind(&self, other: &Cartridge) -> bool {
        match (self, other) {
            (Cartridge::NRom(_), Cartridge::NRom(_)) => true,
            (Cartridge::Mmc1(_), Cartridge::Mmc1(_)) => true,
            _ => false,
        }
    }

    pub fn get(&self, idx: u16) -> (r: u8)
        requires
            self.wf(),
        ensures
            r == self.get_spec(idx),
    {
        match self {
            Cartridge::NRom(c) => c.get(idx),
            Cartridge::Mmc1(c) => c.get(idx),
        }
    }

    pub fn set(&mut self, idx: u16, val: u8)
        requires
            old(self).wf(),
        ensures
            final(self).wf(),
            final(self).same_kind(old(self)),
            match (*old(self), *final(self)) {
                (Cartridge::NRom(a), Cartridge::NRom(b)) => a.set_post(b, idx, val),
                (Cartridge::Mmc1(a), Cartridge::Mmc1(b)) => a.set_post(b, idx, val),
                _ => false,
            },
    {
        match self {
            Cartridge::NRom(c) => c.set(idx, val),
            Cartridge::Mmc1(c) => c.set(idx, val),
        }
    }

    pub fn get_ppu(&self, idx: u16) -> (r: u8)
        requires
            self.wf(),
        ensures
            r == self.get_ppu_spec(idx),
    {
        match self {
            Cartridge::NRom(c) => c.get_ppu(idx),
            Cartridge::Mmc1(c) => c.get_ppu(idx),
        }
    }

    /// Pattern-memory write; only MMC1 boards with CHR RAM take it.
    pub fn set_ppu(&mut self, idx: u16, val: u8)
        requires
            old(self).wf(),
        ensures
            final(self).wf(),
            final(self).same_kind(old(self)),
            final(self).pages() == old(self).pages(),
            *old(self) is NRom ==> *final(self) == *old(self),
    {
        match self {
            Cartridge::NRom(_c) => {},
            Cartridge::Mmc1(c) => c.set_ppu(idx, val),
        }
    }

    pub fn mirror(&self) -> (r: [u8; 4])
        ensures
            r@ == self.pages(),
            forall|i: int| 0 <= i < 4 ==> r@[i] < 2,
    {
        match self {
            Cartridge::NRom(c) => c.mirror(),
            Cartridge::Mmc1(c) => c.mirror(),
        }
    }

    /// A copy of pattern table `idx` as the PPU sees it now.
    pub fn get_pattern_table(&self, idx: PTIdx) -> (r: PatternTable)
        requires
            self.wf(),
        ensures
            r.wf(),
            forall|j: int| 0 <= j < 0x1000 ==> r.0@[j] == self.get_ppu_spec((pattern_base(idx) + j) as u16),
    {
        match self {
            Cartridge::NRom(c) => c.get_pattern_table(idx),
            Cartridge::Mmc1(c) => c.get_pattern_table(idx),
        }
    }

    pub fn from_rom(rom: &Rom) -> (r: Cartridge)
        requires
            rom.wf(),
        ensures
            r.wf(),
            r.built_from(rom),
    {
        match rom.header.mapper {
            Mapper::NROM => Cartridge::NRom(NRom::new(rom.prg.clone(), rom.chr.clone(), rom.header.flags6.mirror)),
            Mapper::MMC1 => Cartridge::Mmc1(Mmc1::new(rom.prg.clone(), rom.chr.clone(), rom.header.flags6.mirror)),
        }
    }
}

} // verus!
