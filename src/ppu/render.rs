//! The background renderer, one dot per call: 262 lines (-1..=260) of 341
//! dots. Lines -1..=239 fetch tiles in 8-dot slots, shift the background
//! registers and move the loopy address; visible dots emit a colour code.
use vstd::prelude::*;
use crate::memory::Cartridge;
use super::Vram;
use super::loopy::{coarse_x, coarse_y, nametable, fine_y, AddrReg};
use super::pattern::PTIdx;
use super::regs::{Registers, Show, scrollx_post, scrolly_post, transfer_x_post, transfer_y_post};

verus! {

pub const WIDTH: usize = 256;
pub const HEIGHT: usize = 240;

/// What a dot did on the PPU bus, or the NMI edge it raised.
#[derive(Debug, Copy, Clone, PartialEq, Eq, Structural)]
pub enum VOp {
    Nop,
    Fetch(u16),
    Nmi,
}

/// A background pixel: where, which colour of the tile, which palette.
#[derive(Debug, Copy, Clone, PartialEq, Eq)]
pub struct DrawCommand {
    pub point: (u32, u32),
    pub tile: u8,
    pub palette: u8,
}

/// A pair of 16-bit shift registers (low and high bit planes).
#[derive(Debug, Copy, Clone, PartialEq, Eq, Structural)]
pub struct Shift {
    pub low: u16,
    pub high: u16,
}

/// Latches of the tile being fetched, and the shift registers.
#[derive(Debug, Copy, Clone, PartialEq, Eq, Structural)]
pub struct LiveRender {
    pub tile_id: u8,
    pub attrib: u8,
    pub tile_low: u8,
    pub tile_high: u8,
    pub attrib_shift: Shift,
    pub pattern_shift: Shift,
}

/// Renderer position and state, and the picture as 6-bit colour codes.
pub struct FrameBuffer {
    pub line: i16,
    pub dot: u16,
    pub live: LiveRender,
    pub pixels: Vec<u8>,
}

/// Background pattern table base.
pub open spec fn table_base(t: PTIdx) -> u16 {
    match t {
        PTIdx::Left => 0,
        PTIdx::Right => 0x1000,
    }
}

/// Nametable byte address of the tile under `v`.
pub open spec fn tile_addr(v: u16) -> u16 {
    0x2000 | (v & 0x0FFF)
}

/// Attribute byte address of the tile under `v`.
pub open spec fn attr_addr(v: u16) -> u16 {
    (0x23C0 | (nametable(v) << 10) | ((coarse_y(v) >> 2) << 3) | (coarse_x(v) >> 2)) as u16
}

/// The two palette bits of a tile in its attribute byte.
pub open spec fn attr_bits(byte: u8, v: u16) -> u8 {
    let b1 = if coarse_y(v) & 2 != 0 { byte >> 4 } else { byte };
    let b2 = if coarse_x(v) & 2 != 0 { b1 >> 4 } else { b1 };
    b2 % 4
}

/// Pattern byte address of row fine Y of tile `tile`, plane `high`.
pub open spec fn pattern_addr(table: PTIdx, tile: u8, v: u16, high: bool) -> u16 {
    (table_base(table) + (tile as u16) * 16 + fine_y(v) + if high { 8u16 } else { 0u16 }) as u16
}

/// Dots of the background fetch cycle.
pub open spec fn fetch_dot(dot: u16) -> bool {
    (2 <= dot <= 257) || (321 <= dot <= 340)
}

/// Position of a fetch dot within its 8-dot slot.
pub open spec fn phase_of(dot: u16) -> u16 {
    if dot <= 257 { ((dot - 2) % 8) as u16 } else { ((dot - 321) % 8) as u16 }
}

/// Dots on which the background shift registers move.
pub open spec fn shift_dot(dot: u16) -> bool {
    (2 <= dot <= 257) || (322 <= dot <= 337)
}

/// How dot (`line`, `dot`) moves the live address `a` to `b` while
/// rendering is on: coarse X at the end of each fetch slot, fine and coarse Y
/// at dot 256, the horizontal copy at dot 257, the vertical copy on
/// pre-render dots 280..=304.
pub open spec fn dot_addr_post(line: i16, dot: u16, a: AddrReg, b: AddrReg) -> bool {
    if line > 239 {
        b == a
    } else if dot == 256 {
        scrolly_post(a, b)
    } else if dot == 257 {
        transfer_x_post(a, b)
    } else if line == -1 && 280 <= dot <= 304 {
        transfer_y_post(a, b)
    } else if fetch_dot(dot) && phase_of(dot) == 7 {
        scrollx_post(a, b)
    } else {
        b == a
    }
}

/// The latched tile moved into the low halves of the shift registers.
pub open spec fn loaded(l: LiveRender) -> LiveRender {
    LiveRender {
        pattern_shift: l.pattern_shift.load_spec(l.tile_low, l.tile_high),
        attrib_shift: l.attrib_shift.load_spec(
            if l.attrib % 2 == 1 { 0xFFu8 } else { 0u8 },
            if l.attrib / 2 == 1 { 0xFFu8 } else { 0u8 },
        ),
        ..l
    }
}

/// Both shift registers moved on by one bit.
pub open spec fn shifted(l: LiveRender) -> LiveRender {
    LiveRender { pattern_shift: l.pattern_shift.update_spec(true), attrib_shift: l.attrib_shift.update_spec(true), ..l }
}

/// The latches after fetch phase `phase`: the slot starts by loading the
/// shift registers and latching the tile number, then the palette bits, then
/// the two pattern planes.
pub open spec fn fetch_live(phase: u16, l: LiveRender, vram: Vram, cart: Cartridge) -> LiveRender {
    let v = vram.registers.addr.address;
    let bg = vram.registers.control.bg_table;
    if phase == 0 {
        LiveRender { tile_id: vram.get_ppu_spec(&cart, tile_addr(v)), ..loaded(l) }
    } else if phase == 2 {
        LiveRender { attrib: attr_bits(vram.get_ppu_spec(&cart, attr_addr(v)), v), ..l }
    } else if phase == 4 {
        LiveRender { tile_low: vram.get_ppu_spec(&cart, pattern_addr(bg, l.tile_id, v, false)), ..l }
    } else if phase == 6 {
        LiveRender { tile_high: vram.get_ppu_spec(&cart, pattern_addr(bg, l.tile_id, v, true)), ..l }
    } else {
        l
    }
}

/// The latches and shift registers after dot (`line`, `dot`): while
/// rendering is on, on lines -1..=239 and fetch dots, a shift (on shift
/// dots), the fetch phase, and at dot 257 a reload; otherwise unchanged.
pub open spec fn dot_live(line: i16, dot: u16, l: LiveRender, vram: Vram, cart: Cartridge) -> LiveRender {
    if line <= 239 && fetch_dot(dot) && vram.registers.enabled_spec() {
        let l1 = if shift_dot(dot) { shifted(l) } else { l };
        let l2 = fetch_live(phase_of(dot), l1, vram, cart);
        if dot == 257 { loaded(l2) } else { l2 }
    } else {
        l
    }
}

/// Bit `fine_x` (from the top) of a shift register.
pub open spec fn tap(reg: u16, fine_x: u8) -> u8 {
    if reg & (0x8000u16 >> fine_x) != 0 { 1 } else { 0 }
}

/// The position after (`line`, `dot`).
pub open spec fn next_pos(line: i16, dot: u16) -> (i16, u16) {
    if dot < 340 {
        (line, (dot + 1) as u16)
    } else if line < 260 {
        ((line + 1) as i16, 0)
    } else {
        (-1i16, 0u16)
    }
}

impl Shift {
    pub fn load(self, low: u8, high: u8) -> (r: Shift)
        ensures
            r.low == (self.low & 0xFF00) | low as u16,
            r.high == (self.high & 0xFF00) | high as u16,
    {
        Shift { low: (self.low & 0xFF00) | low as u16, high: (self.high & 0xFF00) | high as u16 }
    }

    pub fn update(self, mask: bool) -> (r: Shift)
        ensures
            mask ==> r.low == ((self.low as int * 2) % 0x10000) as u16 && r.high == ((self.high as int * 2)
                % 0x10000) as u16,
            !mask ==> r == self,
    {
        if mask {
            Shift { low: ((self.low as u32 * 2) % 0x10000) as u16, high: ((self.high as u32 * 2) % 0x10000) as u16 }
        } else {
            self
        }
    }
}

impl LiveRender {
    pub fn default() -> (r: LiveRender)
        ensures
            r.attrib < 4,
    {
        let zero = Shift { low: 0, high: 0 };
        LiveRender { tile_id: 0, attrib: 0, tile_low: 0, tile_high: 0, attrib_shift: zero, pattern_shift: zero }
    }

    /// Loads the latched tile into the low halves of the shift registers.
    pub fn load_shifters(&mut self)
        requires
            old(self).attrib < 4,
        ensures
            final(self).pattern_shift == old(self).pattern_shift.load_spec(old(self).tile_low, old(self).tile_high),
            final(self).attrib_shift == old(self).attrib_shift.load_spec(
                if old(self).attrib % 2 == 1 { 0xFFu8 } else { 0u8 },
                if old(self).attrib / 2 == 1 { 0xFFu8 } else { 0u8 },
            ),
            final(self).tile_id == old(self).tile_id,
            final(self).attrib == old(self).attrib,
            final(self).tile_low == old(self).tile_low,
            final(self).tile_high == old(self).tile_high,
    {
        let a = self.attrib;
        self.pattern_shift = self.pattern_shift.load(self.tile_low, self.tile_high);
        let lo: u8 = if a % 2 == 1 { 0xFF } else { 0 };
        let hi: u8 = if a / 2 == 1 { 0xFF } else { 0 };
        self.attrib_shift = self.attrib_shift.load(lo, hi);
    }

    pub fn update(&mut self, mask: bool)
        ensures
            *final(self) == (LiveRender {
                pattern_shift: old(self).pattern_shift.update_spec(mask),
                attrib_shift: old(self).attrib_shift.update_spec(mask),
                ..*old(self)
            }),
    {
        self.pattern_shift = self.pattern_shift.update(mask);
        self.attrib_shift = self.attrib_shift.update(mask);
    }
}

impl Shift {
    pub open spec fn load_spec(self, low: u8, high: u8) -> Shift {
        Shift { low: (self.low & 0xFF00) | low as u16, high: (self.high & 0xFF00) | high as u16 }
    }

    pub open spec fn update_spec(self, mask: bool) -> Shift {
        if mask {
            Shift {
                low: ((self.low as int * 2) % 0x10000) as u16,
                high: ((self.high as int * 2) % 0x10000) as u16,
            }
        } else {
            self
        }
    }
}

/// Palette index of the pixel under the shift registers at fine X.
pub open spec fn pixel_palette(live: LiveRender, fine_x: u8) -> u8 {
    (tap(live.attrib_shift.low, fine_x) + 2 * tap(live.attrib_shift.high, fine_x)) as u8
}

/// Colour (0..4) within its palette of the pixel at fine X.
pub open spec fn pixel_tile(live: LiveRender, fine_x: u8) -> u8 {
    (tap(live.pattern_shift.low, fine_x) + 2 * tap(live.pattern_shift.high, fine_x)) as u8
}

/// Colour code of the background pixel produced from `live` and `vram`.
pub open spec fn pixel_code(live: LiveRender, vram: Vram) -> u8 {
    let tile = pixel_tile(live, vram.registers.addr.fine_x);
    let pal = pixel_palette(live, vram.registers.addr.fine_x);
    (if tile == 0 { vram.palette.entries@[0] } else { vram.palette.entries@[pal * 4 + tile] }) % 0x40
}

/// The PPU bus address fetched on slot phase `phase`, if any.
pub open spec fn fetch_spec(phase: u16, regs: Registers, live: LiveRender) -> VOp {
    let v = regs.addr.address;
    if phase == 0 {
        VOp::Fetch(tile_addr(v))
    } else if phase == 2 {
        VOp::Fetch(attr_addr(v))
    } else if phase == 4 {
        VOp::Fetch(pattern_addr(regs.control.bg_table, live.tile_id, v, false))
    } else if phase == 6 {
        VOp::Fetch(pattern_addr(regs.control.bg_table, live.tile_id, v, true))
    } else {
        VOp::Nop
    }
}

/// Only the renderer's own latches and the loopy address move; memories do not.
pub open spec fn memories_kept(old_v: Vram, new_v: Vram) -> bool {
    &&& new_v.wf()
    &&& new_v.oam == old_v.oam
    &&& new_v.palette == old_v.palette
    &&& new_v.lower == old_v.lower
    &&& new_v.upper == old_v.upper
    &&& new_v.data_bus == old_v.data_bus
    &&& new_v.registers.control == old_v.registers.control
    &&& new_v.registers.mask == old_v.registers.mask
    &&& new_v.registers.oam_addr == old_v.registers.oam_addr
    &&& new_v.registers.addr.temp == old_v.registers.addr.temp
    &&& new_v.registers.addr.fine_x == old_v.registers.addr.fine_x
    &&& new_v.registers.addr.latch == old_v.registers.addr.latch
}

impl FrameBuffer {
    pub open spec fn wf(&self) -> bool {
        &&& -1 <= self.line <= 260
        &&& self.dot <= 340
        &&& self.pixels@.len() == WIDTH * HEIGHT
        &&& self.live.attrib < 4
    }

    pub fn new() -> (r: FrameBuffer)
        ensures
            r.wf(),
            r.line == 0 && r.dot == 0,
    {
        FrameBuffer { line: 0, dot: 0, live: LiveRender::default(), pixels: vec![0u8; WIDTH * HEIGHT] }
    }

    /// One dot of the 8-dot fetch slot: nametable byte, attribute byte, low
    /// and high pattern planes; coarse X moves on at the end of the slot.
    pub fn scanline(&mut self, phase: u16, vram: &mut Vram, cart: &Cartridge) -> (r: VOp)
        requires
            old(self).live.attrib < 4,
            old(vram).wf(),
            cart.wf(),
            phase < 8,
        ensures
            final(self).live.attrib < 4,
            final(self).line == old(self).line,
            final(self).dot == old(self).dot,
            final(self).pixels == old(self).pixels,
            memories_kept(*old(vram), *final(vram)),
            r == fetch_spec(phase, old(vram).registers, old(self).live),
            final(self).live == fetch_live(phase, old(self).live, *old(vram), *cart),
            final(vram).registers.status == old(vram).registers.status,
            phase != 7 ==> final(vram).registers == old(vram).registers,
            phase == 7 ==> old(vram).registers.enabled_spec() ==> scrollx_post(
                old(vram).registers.addr,
                final(vram).registers.addr,
            ),
            !old(vram).registers.enabled_spec() ==> final(vram).registers == old(vram).registers,
    {
        let v = vram.registers.addr.address;
        proof {
            super::loopy::lemma_field_bounds(v);
        }
        if phase == 0 {
            self.live.load_shifters();
            let a = 0x2000 | (v & 0x0FFF);
            assert(0x2000 | (v & 0x0FFF) < 0x4000) by (bit_vector);
            self.live.tile_id = vram.get_ppu(a, cart);
            VOp::Fetch(a)
        } else if phase == 2 {
            let nt = vram.registers.addr.get_nametable() as u16;
            let cy = vram.registers.addr.get_coarse_y() as u16;
            let cx = vram.registers.addr.get_coarse_x() as u16;
            let a = 0x23C0 | (nt << 10) | ((cy >> 2) << 3) | (cx >> 2);
            assert(nt < 4 && cy < 32 && cx < 32 ==> 0x23C0 | (nt << 10) | ((cy >> 2) << 3) | (cx >> 2) < 0x4000)
                by (bit_vector);
            let byte = vram.get_ppu(a, cart);
            let b1 = if cy & 2 != 0 { byte >> 4 } else { byte };
            let b2 = if cx & 2 != 0 { b1 >> 4 } else { b1 };
            self.live.attrib = b2 % 4;
            VOp::Fetch(a)
        } else if phase == 4 || phase == 6 {
            let base: u16 = match vram.registers.control.bg_table {
                PTIdx::Left => 0,
                PTIdx::Right => 0x1000,
            };
            let plane: u16 = if phase == 6 { 8 } else { 0 };
            let a = base + (self.live.tile_id as u16) * 16 + vram.registers.addr.get_fine_y() as u16 + plane;
            let byte = vram.get_ppu(a, cart);
            if phase == 4 {
                self.live.tile_low = byte;
            } else {
                self.live.tile_high = byte;
            }
            VOp::Fetch(a)
        } else if phase == 7 {
            vram.registers.increment_scrollx();
            VOp::Nop
        } else {
            VOp::Nop
        }
    }

    /// Runs one dot; returns the bus access it made or the NMI edge it raised.
    pub fn clock(&mut self, vram: &mut Vram, cart: &Cartridge) -> (r: VOp)
        requires
            old(self).wf(),
            old(vram).wf(),
            cart.wf(),
        ensures
            final(self).wf(),
            (final(self).line, final(self).dot) == next_pos(old(self).line, old(self).dot),
            final(self).live == dot_live(old(self).line, old(self).dot, old(self).live, *old(vram), *cart),
            memories_kept(*old(vram), *final(vram)),
            !old(vram).registers.enabled_spec() ==> final(vram).registers.addr == old(vram).registers.addr,
            !old(vram).registers.enabled_spec() && !(old(self).line == 241 && old(self).dot == 1) ==> r
                == VOp::Nop,
            old(vram).registers.enabled_spec() ==> dot_addr_post(
                old(self).line,
                old(self).dot,
                old(vram).registers.addr,
                final(vram).registers.addr,
            ),
            old(self).line == 241 && old(self).dot == 1 ==> final(vram).registers.status.vblank && r == (
            if old(vram).registers.control.interrupt {
                VOp::Nmi
            } else {
                VOp::Nop
            }),
            old(self).line == -1 && old(self).dot == 1 ==> !final(vram).registers.status.vblank
                && !final(vram).registers.status.zero_hit && !final(vram).registers.status.overflow,
            !(old(self).line == 241 && old(self).dot == 1) && !(old(self).line == -1 && old(self).dot
                == 1) ==> final(vram).registers.status == old(vram).registers.status,
            old(vram).registers.enabled_spec() && old(self).line <= 239 && fetch_dot(old(self).dot)
                ==> r == fetch_spec(phase_of(old(self).dot), old(vram).registers, old(self).live),
            ({
                let (y, x) = (old(self).line, old(self).dot);
                if 0 <= y <= 239 && 1 <= x <= 256 && old(vram).registers.mask.background == Show::Show {
                    final(self).pixels@ == old(self).pixels@.update(
                        y * 256 + x - 1,
                        pixel_code(final(self).live, *final(vram)),
                    )
                } else {
                    final(self).pixels@ == old(self).pixels@
                }
            }),
    {
        let (y, x) = (self.line, self.dot);
        let enabled = vram.registers.enabled();
        let mut cmd = VOp::Nop;
        if y <= 239 {
            if y == -1 && x == 1 {
                vram.registers.status.vblank = false;
                vram.registers.status.zero_hit = false;
                vram.registers.status.overflow = false;
            }
            if (2 <= x && x <= 257) || (321 <= x && x <= 340) {
                if (x <= 257 || (322 <= x && x <= 337)) && enabled {
                    self.live.update(true);
                }
                if enabled {
                    let phase = if x <= 257 { (x - 2) % 8 } else { (x - 321) % 8 };
                    cmd = self.scanline(phase, vram, cart);
                }
                if x == 256 {
                    vram.registers.increment_scrolly();
                } else if x == 257 {
                    if enabled {
                        self.live.load_shifters();
                    }
                    vram.registers.transfer_x();
                }
            }
            if y == -1 && 280 <= x && x <= 304 {
                vram.registers.transfer_y();
            }
        } else if y == 241 && x == 1 {
            vram.registers.set_vblank(true);
            if vram.registers.interrupt_enabled() {
                cmd = VOp::Nmi;
            }
        }
        if 0 <= y && y <= 239 && 1 <= x && x <= 256 && vram.registers.mask.background == Show::Show {
            self.draw(vram);
        }
        if x < 340 {
            self.dot = x + 1;
        } else {
            self.dot = 0;
            self.line = if y < 260 { y + 1 } else { -1 };
        }
        cmd
    }

    /// Writes the colour code of the pixel at (dot - 1, line).
    fn draw(&mut self, vram: &Vram)
        requires
            old(self).wf(),
            vram.wf(),
            0 <= old(self).line <= 239,
            1 <= old(self).dot <= 256,
        ensures
            final(self).wf(),
            final(self).line == old(self).line,
            final(self).dot == old(self).dot,
            final(self).live == old(self).live,
            final(self).pixels@ == old(self).pixels@.update(
                old(self).line * 256 + old(self).dot - 1,
                pixel_code(old(self).live, *vram),
            ),
    {
        let fine_x = vram.registers.addr.get_fine_x();
        let mux: u16 = 0x8000u16 >> fine_x;
        let p0: u8 = if self.live.pattern_shift.low & mux != 0 { 1 } else { 0 };
        let p1: u8 = if self.live.pattern_shift.high & mux != 0 { 1 } else { 0 };
        let a0: u8 = if self.live.attrib_shift.low & mux != 0 { 1 } else { 0 };
        let a1: u8 = if self.live.attrib_shift.high & mux != 0 { 1 } else { 0 };
        let code = vram.palette.get_background(p0 + 2 * p1, a0 + 2 * a1);
        let idx = (self.line as usize) * WIDTH + (self.dot as usize) - 1;
        self.pixels.set(idx, code);
    }

    /// The draw command of the pixel at (dot - 1, line) from the current
    /// shift registers.
    pub fn draw_command(&self, vram: &Vram) -> (r: DrawCommand)
        requires
            vram.wf(),
            0 <= self.line <= 239,
            1 <= self.dot <= 256,
        ensures
            r.point == ((self.dot - 1) as u32, self.line as u32),
            r.tile == pixel_tile(self.live, vram.registers.addr.fine_x),
            r.palette == pixel_palette(self.live, vram.registers.addr.fine_x),
    {
        let fine_x = vram.registers.addr.get_fine_x();
        let mux: u16 = 0x8000u16 >> fine_x;
        let p0: u8 = if self.live.pattern_shift.low & mux != 0 { 1 } else { 0 };
        let p1: u8 = if self.live.pattern_shift.high & mux != 0 { 1 } else { 0 };
        let a0: u8 = if self.live.attrib_shift.low & mux != 0 { 1 } else { 0 };
        let a1: u8 = if self.live.attrib_shift.high & mux != 0 { 1 } else { 0 };
        DrawCommand { point: ((self.dot - 1) as u32, self.line as u32), tile: p0 + 2 * p1, palette: a0 + 2 * a1 }
    }
}

} // verus!
