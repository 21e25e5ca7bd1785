//! The iNES 1.0 cartridge image: a 16-byte header, an optional trainer, PRG
//! ROM and CHR ROM.
use vstd::prelude::*;
use vstd::slice::{slice_subrange, slice_to_vec};

verus! {

pub const PRG_BANK_SIZE: usize = 0x4000;
pub const CHR_BANK_SIZE: usize = 0x2000;
pub const HEADER_LEN: usize = 16;
pub const TRAINER_LEN: usize = 512;

pub struct Rom {
    pub header: Header,
    pub prg: Vec<u8>,
    pub chr: Vec<u8>,
}

#[derive(Debug, Clone, Copy, PartialEq, Eq, Structural)]
pub struct Header {
    pub prg_size: u32,
    pub chr_size: u32,
    pub flags6: Flags6,
    pub flags7: Flags7,
    pub region: Region,
    pub mapper: Mapper,
    pub version: Version,
}

#[derive(Debug, Clone, Copy, PartialEq, Eq, Structural)]
pub enum Mirroring {
    Horizontal,
    Vertical,
    Ignore,
}

#[derive(Debug, Clone, Copy, PartialEq, Eq, Structural)]
pub enum Region {
    NTSC,
    PAL,
}

#[derive(Debug, Clone, Copy, PartialEq, Eq, Structural)]
pub struct Flags6 {
    pub mirror: Mirroring,
    pub battery: bool,
    pub trainer: bool,
}

#[derive(Debug, Clone, Copy, PartialEq, Eq, Structural)]
pub struct Flags7 {
    pub vs_unisystem: bool,
    pub play_choice: bool,
}

#[derive(Debug, Clone, Copy, PartialEq, Eq, Structural)]
pub enum Version {
    Archaic,
    INes,
    Nes2_0,
}

#[derive(Debug, Clone, Copy, PartialEq, Eq, Structural)]
pub enum Mapper {
    NROM,
    MMC1,
}

/// A mapper number that this emulator does not implement.
#[derive(Debug, Clone, Copy, PartialEq, Eq, Structural)]
pub struct UnknownMapper(pub u16);

/// Why a cartridge image was refused.
#[derive(Debug, Clone, Copy, PartialEq, Eq, Structural)]
pub enum RomError {
    /// The signature, the version or the layout of the image is rejected.
    InvalidHeader,
    /// The header names a mapper other than NROM (0) or MMC1 (1).
    UnsupportedMapper(UnknownMapper),
}

pub open spec fn mirroring_spec(bits: u8) -> Mirroring {
    if bits & 8 != 0 {
        Mirroring::Ignore
    } else if bits & 1 == 0 {
        Mirroring::Horizontal
    } else {
        Mirroring::Vertical
    }
}

pub open spec fn signature_ok(rom: Seq<u8>) -> bool {
    rom.len() >= 16 && rom[0] == 0x4E && rom[1] == 0x45 && rom[2] == 0x53 && rom[3] == 0x1A
}

pub open spec fn version_spec(rom: Seq<u8>) -> Version {
    if rom[7] & 0x0C == 0x08 {
        Version::Nes2_0
    } else if rom[7] & 0x0C == 0x00 && rom[12] == 0 && rom[13] == 0 && rom[14] == 0 && rom[15] == 0 {
        Version::INes
    } else {
        Version::Archaic
    }
}

/// Mapper number: the high nibble of flags 6 over the high nibble of flags 7.
pub open spec fn mapper_id(rom: Seq<u8>) -> u16 {
    ((rom[6] >> 4) | (rom[7] & 0xF0)) as u16
}

pub open spec fn prg_len(rom: Seq<u8>) -> int {
    rom[4] * PRG_BANK_SIZE
}

pub open spec fn chr_len(rom: Seq<u8>) -> int {
    rom[5] * CHR_BANK_SIZE
}

pub open spec fn prg_start(rom: Seq<u8>) -> int {
    HEADER_LEN + if rom[6] & 4 != 0 { TRAINER_LEN as int } else { 0 }
}

/// The header is acceptable: signature, an iNES version, at least one PRG bank.
pub open spec fn header_ok(rom: Seq<u8>) -> bool {
    &&& signature_ok(rom)
    &&& version_spec(rom) != Version::Archaic
    &&& rom[4] > 0
}

pub open spec fn mapper_spec(id: u16) -> Option<Mapper> {
    if id == 0 {
        Some(Mapper::NROM)
    } else if id == 1 {
        Some(Mapper::MMC1)
    } else {
        None
    }
}

impl Flags6 {
    pub fn from(bits: u8) -> (r: Flags6)
        ensures
            r.mirror == mirroring_spec(bits),
            r.battery == (bits & 2 != 0),
            r.trainer == (bits & 4 != 0),
    {
        let mirror = if bits & 8 != 0 {
            Mirroring::Ignore
        } else if bits & 1 == 0 {
            Mirroring::Horizontal
        } else {
            Mirroring::Vertical
        };
        Flags6 { mirror, battery: bits & 2 != 0, trainer: bits & 4 != 0 }
    }
}

impl Flags7 {
    pub fn from(bits: u8) -> (r: Flags7)
        ensures
            r.vs_unisystem == (bits & 1 != 0),
            r.play_choice == (bits & 2 != 0),
    {
        Flags7 { vs_unisystem: bits & 1 != 0, play_choice: bits & 2 != 0 }
    }
}

impl Mapper {
    pub fn try_from_id(id: u16) -> (r: Result<Mapper, UnknownMapper>)
        ensures
            r == (match mapper_spec(id) {
                Some(m) => Ok(m),
                None => Err(UnknownMapper(id)),
            }),
    {
        match id {
            0 => Ok(Mapper::NROM),
            1 => Ok(Mapper::MMC1),
            n => Err(UnknownMapper(n)),
        }
    }
}

impl Header {
    /// Reads the 16-byte header.
    pub fn parse(rom: &[u8]) -> (r: Result<Header, RomError>)
        ensures
            !header_ok(rom@) ==> r == Err::<Header, RomError>(RomError::InvalidHeader),
            header_ok(rom@) && mapper_spec(mapper_id(rom@)) is None ==> r == Err::<Header, RomError>(
                RomError::UnsupportedMapper(UnknownMapper(mapper_id(rom@))),
            ),
            header_ok(rom@) && mapper_spec(mapper_id(rom@)) is Some ==> (r matches Ok(h) && {
                &&& h.prg_size == prg_len(rom@)
                &&& h.chr_size == chr_len(rom@)
                &&& h.mapper == mapper_spec(mapper_id(rom@))->0
                &&& h.version == version_spec(rom@)
                &&& h.flags6.mirror == mirroring_spec(rom@[6])
                &&& h.flags6.trainer == (rom@[6] & 4 != 0)
                &&& h.flags6.battery == (rom@[6] & 2 != 0)
                &&& h.flags7.vs_unisystem == (rom@[7] & 1 != 0)
                &&& h.flags7.play_choice == (rom@[7] & 2 != 0)
                &&& h.region == if rom@[9] & 1 == 0 { Region::NTSC } else { Region::PAL }
            }),
    {
        if rom.len() < 16 || rom[0] != 0x4E || rom[1] != 0x45 || rom[2] != 0x53 || rom[3] != 0x1A {
            return Err(RomError::InvalidHeader);
        }
        let version = if rom[7] & 0x0C == 0x08 {
            Version::Nes2_0
        } else if rom[7] & 0x0C == 0x00 && rom[12] == 0 && rom[13] == 0 && rom[14] == 0 && rom[15]
            == 0 {
            Version::INes
        } else {
            Version::Archaic
        };
        if version == Version::Archaic || rom[4] == 0 {
            return Err(RomError::InvalidHeader);
        }
        let prg_size = rom[4] as u32 * PRG_BANK_SIZE as u32;
        let chr_size = rom[5] as u32 * CHR_BANK_SIZE as u32;
        let flags6 = Flags6::from(rom[6]);
        let flags7 = Flags7::from(rom[7]);
        let region = if rom[9] & 1 == 0 {
            Region::NTSC
        } else {
            Region::PAL
        };
        let mapper = match Mapper::try_from_id(((rom[6] >> 4) | (rom[7] & 0xF0)) as u16) {
            Ok(m) => m,
            Err(e) => {
                return Err(RomError::UnsupportedMapper(e));
            },
        };
        Ok(Header { prg_size, chr_size, flags6, flags7, region, mapper, version })
    }
}

/// The image holds the header, the trainer when flagged, and both ROMs whole.
pub open spec fn layout_ok(rom: Seq<u8>) -> bool {
    prg_start(rom) + prg_len(rom) + chr_len(rom) <= rom.len()
}

impl Rom {
    /// Splits an iNES image into its header, PRG ROM and CHR ROM.
    pub fn parse(rom: &[u8]) -> (r: Result<Rom, RomError>)
        ensures
            !header_ok(rom@) ==> r is Err && r->Err_0 == RomError::InvalidHeader,
            header_ok(rom@) && mapper_spec(mapper_id(rom@)) is None ==> r is Err && r->Err_0
                == RomError::UnsupportedMapper(UnknownMapper(mapper_id(rom@))),
            header_ok(rom@) && mapper_spec(mapper_id(rom@)) is Some && !layout_ok(rom@) ==> r is Err
                && r->Err_0 == RomError::InvalidHeader,
            header_ok(rom@) && mapper_spec(mapper_id(rom@)) is Some && layout_ok(rom@) ==> r is Ok
                && r->Ok_0.wf() && r->Ok_0.header.mapper == mapper_spec(mapper_id(rom@))->0
                && r->Ok_0.header.flags6.mirror == mirroring_spec(rom@[6])
                && r->Ok_0.prg@ == rom@.subrange(prg_start(rom@), prg_start(rom@) + prg_len(rom@))
                && r->Ok_0.chr@ == rom@.subrange(
                prg_start(rom@) + prg_len(rom@),
                prg_start(rom@) + prg_len(rom@) + chr_len(rom@),
            ),
    {
        let header = match Header::parse(rom) {
            Ok(h) => h,
            Err(e) => {
                return Err(e);
            },
        };
        let start: usize = if header.flags6.trainer {
            HEADER_LEN + TRAINER_LEN
        } else {
            HEADER_LEN
        };
        let prg_size = header.prg_size as usize;
        let chr_size = header.chr_size as usize;
        if rom.len() < start || rom.len() - start < prg_size || rom.len() - start - prg_size
            < chr_size {
            return Err(RomError::InvalidHeader);
        }
        let prg = slice_to_vec(slice_subrange(rom, start, start + prg_size));
        let chr = slice_to_vec(slice_subrange(rom, start + prg_size, start + prg_size + chr_size));
        Ok(Rom { header, prg, chr })
    }

    /// PRG ROM is a whole number of 16 KiB banks, at least one; CHR ROM is a
    /// whole number of 8 KiB banks.
    pub open spec fn wf(&self) -> bool {
        &&& self.prg@.len() > 0
        &&& self.prg@.len() % (PRG_BANK_SIZE as nat) == 0
        &&& self.prg@.len() <= 255 * PRG_BANK_SIZE
        &&& self.chr@.len() % (CHR_BANK_SIZE as nat) == 0
        &&& self.chr@.len() <= 255 * CHR_BANK_SIZE
    }

    pub fn version(&self) -> (r: Version)
        ensures
            r == self.header.version,
    {
        self.header.version
    }

    pub fn is_play_choice(&self) -> (r: bool)
        ensures
            r == self.header.flags7.play_choice,
    {
        self.header.flags7.play_choice
    }

    pub fn mapper(&self) -> (r: Mapper)
        ensures
            r == self.header.mapper,
    {
        self.header.mapper
    }

    pub fn mirror(&self) -> (r: Mirroring)
        ensures
            r == self.header.flags6.mirror,
    {
        self.header.flags6.mirror
    }
}

} // verus!
