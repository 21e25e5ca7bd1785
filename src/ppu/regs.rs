//! PPUCTRL, PPUMASK, PPUSTATUS, OAMADDR and the shared address register.
use vstd::prelude::*;
use super::loopy::{AddrReg, Time, coarse_x, coarse_y, nametable, fine_y};
use super::pattern::PTIdx;

verus! {

#[derive(Debug, Clone, Copy, PartialEq, Eq, Structural)]
pub struct Registers {
    pub control: Control,
    pub mask: Mask,
    pub status: Status,
    pub oam_addr: u8,
    pub addr: AddrReg,
}

#[derive(Debug, Copy, Clone, PartialEq, Eq, Structural)]
pub struct Control {
    pub base_nt: u8,
    pub vram_inc: u16,
    pub sprite_table: PTIdx,
    pub bg_table: PTIdx,
    pub sprite_height: u8,
    pub interrupt: bool,
}

#[derive(Debug, Clone, Copy, PartialEq, Eq, Structural)]
pub struct Status {
    pub overflow: bool,
    pub zero_hit: bool,
    pub vblank: bool,
}

#[derive(Debug, Copy, Clone, PartialEq, Eq, Structural)]
pub struct Mask {
    pub color: Color,
    pub background_left: Show,
    pub sprites_left: Show,
    pub background: Show,
    pub sprites: Show,
    pub red: Emphasis,
    pub green: Emphasis,
    pub blue: Emphasis,
}

#[derive(Debug, Copy, Clone, PartialEq, Eq, Structural)]
pub enum Color {
    Normal,
    Greyscale,
}

#[derive(Debug, Copy, Clone, PartialEq, Eq, Structural)]
pub enum Show {
    Show,
    Hide,
}

#[derive(Debug, Copy, Clone, PartialEq, Eq, Structural)]
pub enum Emphasis {
    On,
    Off,
}

/// Bit `bit` of `val` is set.
pub open spec fn bit(val: u8, bit: u8) -> bool {
    (val >> bit) & 1 == 1
}

/// `on` when bit `bit` of `val` is set, else `off`.
pub fn test_bit<T>(val: u8, bit: u8, on: T, off: T) -> (r: T)
    requires
        bit < 8,
    ensures
        r == if (val >> bit) & 1 == 1 { on } else { off },
{
    if (val >> bit) & 1 == 1 {
        on
    } else {
        off
    }
}

pub open spec fn show_of(val: u8, b: u8) -> Show {
    if bit(val, b) { Show::Show } else { Show::Hide }
}

pub open spec fn emphasis_of(val: u8, b: u8) -> Emphasis {
    if bit(val, b) { Emphasis::On } else { Emphasis::Off }
}

pub open spec fn mask_spec(bits: u8) -> Mask {
    Mask {
        color: if bit(bits, 0) { Color::Greyscale } else { Color::Normal },
        background_left: show_of(bits, 1),
        sprites_left: show_of(bits, 2),
        background: show_of(bits, 3),
        sprites: show_of(bits, 4),
        red: emphasis_of(bits, 5),
        green: emphasis_of(bits, 6),
        blue: emphasis_of(bits, 7),
    }
}

pub open spec fn control_spec(bits: u8) -> Control {
    Control {
        base_nt: bits % 4,
        vram_inc: if bit(bits, 2) { 32 } else { 1 },
        sprite_table: if bit(bits, 3) { PTIdx::Right } else { PTIdx::Left },
        bg_table: if bit(bits, 4) { PTIdx::Right } else { PTIdx::Left },
        sprite_height: if bit(bits, 5) { 16 } else { 8 },
        interrupt: bit(bits, 7),
    }
}

/// The nametable to the right: flips the horizontal bit.
pub open spec fn flip_x(nt: u16) -> u16 {
    if nt % 2 == 0 { (nt + 1) as u16 } else { (nt - 1) as u16 }
}

/// The nametable below: flips the vertical bit.
pub open spec fn flip_y(nt: u16) -> u16 {
    if nt < 2 { (nt + 2) as u16 } else { (nt - 2) as u16 }
}

impl Mask {
    pub fn from(bits: u8) -> (r: Mask)
        ensures
            r == mask_spec(bits),
    {
        Mask {
            color: test_bit(bits, 0, Color::Greyscale, Color::Normal),
            background_left: test_bit(bits, 1, Show::Show, Show::Hide),
            sprites_left: test_bit(bits, 2, Show::Show, Show::Hide),
            background: test_bit(bits, 3, Show::Show, Show::Hide),
            sprites: test_bit(bits, 4, Show::Show, Show::Hide),
            red: test_bit(bits, 5, Emphasis::On, Emphasis::Off),
            green: test_bit(bits, 6, Emphasis::On, Emphasis::Off),
            blue: test_bit(bits, 7, Emphasis::On, Emphasis::Off),
        }
    }

    /// Power-on mask: PPUMASK 0, nothing shown, so rendering is off.
    pub fn default() -> (r: Mask)
        ensures
            r == mask_spec(0),
    {
        Mask::from(0)
    }
}

impl Control {
    pub fn from(bits: u8) -> (r: Control)
        ensures
            r == control_spec(bits),
    {
        Control {
            base_nt: bits % 4,
            vram_inc: test_bit(bits, 2, 32, 1),
            sprite_table: test_bit(bits, 3, PTIdx::Right, PTIdx::Left),
            bg_table: test_bit(bits, 4, PTIdx::Right, PTIdx::Left),
            sprite_height: test_bit(bits, 5, 16, 8),
            interrupt: test_bit(bits, 7, true, false),
        }
    }

    pub open spec fn wf(&self) -> bool {
        self.base_nt < 4 && (self.vram_inc == 1 || self.vram_inc == 32)
    }
}

impl Status {
    /// The status byte: overflow in bit 5, sprite-zero hit in bit 6, vblank
    /// in bit 7.
    pub open spec fn byte_spec(&self) -> u8 {
        ((if self.overflow { 0x20int } else { 0 }) + (if self.zero_hit { 0x40int } else { 0 }) + (
        if self.vblank { 0x80int } else { 0 })) as u8
    }

    pub fn to_byte(&self) -> (r: u8)
        ensures
            r == self.byte_spec(),
    {
        let mut r: u8 = 0;
        if self.overflow {
            r = r + 0x20;
        }
        if self.zero_hit {
            r = r + 0x40;
        }
        if self.vblank {
            r = r + 0x80;
        }
        r
    }
}

impl Registers {
    pub open spec fn wf(&self) -> bool {
        self.addr.wf() && self.control.wf()
    }

    /// Rendering runs while the background or the sprites are shown.
    pub open spec fn enabled_spec(&self) -> bool {
        self.mask.background == Show::Show || self.mask.sprites == Show::Show
    }

    pub open spec fn default_spec() -> Registers {
        Registers {
            control: control_spec(0),
            mask: mask_spec(0),
            status: Status { overflow: false, zero_hit: false, vblank: false },
            oam_addr: 0,
            addr: AddrReg::new_spec(),
        }
    }

    /// Power-on registers: control and mask 0, address 0.
    pub fn default() -> (r: Registers)
        ensures
            r.wf(),
            r == Registers::default_spec(),
    {
        Registers {
            control: Control::from(0),
            mask: Mask::default(),
            status: Status { overflow: false, zero_hit: false, vblank: false },
            oam_addr: 0,
            addr: AddrReg::new(),
        }
    }

    pub fn set_vblank(&mut self, val: bool)
        ensures
            *final(self) == (Registers { status: Status { vblank: val, ..old(self).status }, ..*old(self) }),
    {
        self.status.vblank = val;
    }

    /// The address of a PPUDATA access; the live address then moves on by
    /// the PPUCTRL increment.
    pub fn advance_vaddr(&mut self) -> (r: u16)
        requires
            old(self).wf(),
        ensures
            final(self).wf(),
            r == old(self).addr.address % 0x4000,
            final(self).addr.address == (old(self).addr.address + old(self).control.vram_inc) % 0x8000,
            final(self).addr == (AddrReg { address: final(self).addr.address, ..old(self).addr }),
            final(self).control == old(self).control,
            final(self).mask == old(self).mask,
            final(self).status == old(self).status,
            final(self).oam_addr == old(self).oam_addr,
    {
        let inc = self.control.vram_inc;
        self.addr.advance(inc)
    }

    /// PPUCTRL write: new control bits; the base nametable goes to the
    /// temporary address.
    pub fn set_control(&mut self, val: u8)
        requires
            old(self).wf(),
        ensures
            final(self).wf(),
            final(self).control == control_spec(val),
            old(self).addr.changes(final(self).addr, Time::Delayed, true, true, false, true),
            nametable(final(self).addr.temp) == (val % 4) as u16,
            final(self).mask == old(self).mask,
            final(self).status == old(self).status,
            final(self).oam_addr == old(self).oam_addr,
    {
        let reg = Control::from(val);
        self.control = reg;
        self.addr.set_nametable(reg.base_nt, Time::Delayed);
    }

    pub fn enabled(&self) -> (r: bool)
        ensures
            r == self.enabled_spec(),
    {
        self.mask.background == Show::Show || self.mask.sprites == Show::Show
    }

    pub fn interrupt_enabled(&self) -> (r: bool)
        ensures
            r == self.control.interrupt,
    {
        self.control.interrupt
    }

    /// End of each 8-dot tile: next coarse X, wrapping from 31 to 0 into the
    /// horizontally adjacent nametable.
    pub fn increment_scrollx(&mut self)
        requires
            old(self).wf(),
        ensures
            final(self).wf(),
            gated(*old(self), *final(self), scrollx_post(old(self).addr, final(self).addr)),
    {
        if self.enabled() {
            let coarse = self.addr.get_coarse_x();
            if coarse == 31 {
                self.addr.set_coarse_x(0, Time::Immediate);
                let nt = self.addr.get_nametable();
                let flipped = if nt % 2 == 0 { nt + 1 } else { nt - 1 };
                self.addr.set_nametable(flipped, Time::Immediate);
            } else {
                self.addr.set_coarse_x(coarse + 1, Time::Immediate);
            }
        }
    }

    /// Dot 256: next fine Y; past 7, next coarse Y, wrapping at 29 into the
    /// vertically adjacent nametable, or at 31 within the same one.
    pub fn increment_scrolly(&mut self)
        requires
            old(self).wf(),
        ensures
            final(self).wf(),
            gated(*old(self), *final(self), scrolly_post(old(self).addr, final(self).addr)),
    {
        if self.enabled() {
            let fy = self.addr.get_fine_y();
            if fy < 7 {
                self.addr.set_fine_y(fy + 1, Time::Immediate);
            } else {
                self.addr.set_fine_y(0, Time::Immediate);
                let cy = self.addr.get_coarse_y();
                if cy == 29 {
                    self.addr.set_coarse_y(0, Time::Immediate);
                    let nt = self.addr.get_nametable();
                    let flipped = if nt < 2 { nt + 2 } else { nt - 2 };
                    self.addr.set_nametable(flipped, Time::Immediate);
                } else if cy == 31 {
                    self.addr.set_coarse_y(0, Time::Immediate);
                } else {
                    self.addr.set_coarse_y(cy + 1, Time::Immediate);
                }
            }
        }
    }

    pub fn transfer_x(&mut self)
        requires
            old(self).wf(),
        ensures
            final(self).wf(),
            gated(*old(self), *final(self), transfer_x_post(old(self).addr, final(self).addr)),
    {
        if self.enabled() {
            self.addr.transfer_x();
        }
    }

    pub fn transfer_y(&mut self)
        requires
            old(self).wf(),
        ensures
            final(self).wf(),
            gated(*old(self), *final(self), transfer_y_post(old(self).addr, final(self).addr)),
    {
        if self.enabled() {
            self.addr.transfer_y();
        }
    }
}

/// Coarse X moved on by one, wrapping from 31 into the next nametable.
pub open spec fn scrollx_post(a: AddrReg, b: AddrReg) -> bool {
    let (x, y) = (a.address, b.address);
    &&& coarse_x(y) == (coarse_x(x) + 1) % 32
    &&& nametable(y) == if coarse_x(x) == 31 { flip_x(nametable(x)) } else { nametable(x) }
    &&& coarse_y(y) == coarse_y(x)
    &&& fine_y(y) == fine_y(x)
    &&& b == (AddrReg { address: b.address, ..a })
}

/// Fine Y moved on by one; past 7, coarse Y moved on with the wraps of
/// `next_coarse_y`.
pub open spec fn scrolly_post(a: AddrReg, b: AddrReg) -> bool {
    let (x, y) = (a.address, b.address);
    &&& coarse_x(y) == coarse_x(x)
    &&& fine_y(x) < 7 ==> fine_y(y) == fine_y(x) + 1 && coarse_y(y) == coarse_y(x) && nametable(y) == nametable(x)
    &&& fine_y(x) == 7 ==> fine_y(y) == 0 && coarse_y(y) == next_coarse_y(coarse_y(x))
        && nametable(y) == if coarse_y(x) == 29 { flip_y(nametable(x)) } else { nametable(x) }
    &&& b == (AddrReg { address: b.address, ..a })
}

/// Coarse X and the horizontal nametable bit copied from the temporary address.
pub open spec fn transfer_x_post(a: AddrReg, b: AddrReg) -> bool {
    let (x, y, t) = (a.address, b.address, a.temp);
    &&& coarse_x(y) == coarse_x(t)
    &&& nametable(y) % 2 == nametable(t) % 2
    &&& nametable(y) / 2 == nametable(x) / 2
    &&& coarse_y(y) == coarse_y(x)
    &&& fine_y(y) == fine_y(x)
    &&& b == (AddrReg { address: b.address, ..a })
}

/// Coarse Y, fine Y and the vertical nametable bit copied from the
/// temporary address.
pub open spec fn transfer_y_post(a: AddrReg, b: AddrReg) -> bool {
    let (x, y, t) = (a.address, b.address, a.temp);
    &&& coarse_y(y) == coarse_y(t)
    &&& fine_y(y) == fine_y(t)
    &&& nametable(y) / 2 == nametable(t) / 2
    &&& nametable(y) % 2 == nametable(x) % 2
    &&& coarse_x(y) == coarse_x(x)
    &&& b == (AddrReg { address: b.address, ..a })
}

/// Nothing moves while rendering is off; while it is on, only the address
/// register does, as `moved` says.
pub open spec fn gated(a: Registers, b: Registers, moved: bool) -> bool {
    &&& !a.enabled_spec() ==> b == a
    &&& a.enabled_spec() ==> moved && b == (Registers { addr: b.addr, ..a })
}

/// Coarse Y after the last fine row of a tile: 29 and 31 wrap to 0, any
/// other value (30 included) goes on by one.
pub open spec fn next_coarse_y(cy: u16) -> u16 {
    if cy == 29 || cy == 31 { 0 } else { (cy + 1) as u16 }
}

} // verus!
