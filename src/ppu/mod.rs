//! The picture processor: VRAM map, CPU-facing register ports, renderer.
use vstd::prelude::*;
use crate::memory::Cartridge;
use loopy::{AddrLatch, AddrReg, Time, scroll_written, write_addr_spec};
use nametable::Nametable;
use oam::Oam;
use palette::{PaletteRam, palette_slot};
use regs::{Registers, Mask, control_spec, mask_spec};

pub mod loopy;
pub mod nametable;
pub mod oam;
pub mod palette;
pub mod pattern;
pub mod regs;
pub mod render;

verus! {

/// A pair of coordinates.
#[derive(Debug, Copy, Clone, PartialEq, Eq, Structural)]
pub struct Point<T> {
    pub x: T,
    pub y: T,
}

/// The PPU's memories and registers.
pub struct Vram {
    pub oam: Oam,
    pub palette: PaletteRam,
    /// The two physical nametable pages.
    pub lower: Nametable,
    pub upper: Nametable,
    pub registers: Registers,
    /// The PPUDATA read buffer, also the latch behind open-bus bits.
    pub data_bus: u8,
}

/// Logical nametable slot (0..4) of a VRAM address in 0x2000..0x3F00.
pub open spec fn nt_slot(addr: u16) -> int {
    (addr as int / 0x400) % 4
}

impl Vram {
    pub open spec fn wf(&self) -> bool {
        &&& self.oam.wf()
        &&& self.palette.wf()
        &&& self.lower.wf()
        &&& self.upper.wf()
        &&& self.registers.wf()
    }

    /// The nametable byte at `addr`, through the cartridge's mirroring.
    pub open spec fn nt_byte(&self, pages: Seq<u8>, addr: u16) -> u8 {
        if pages[nt_slot(addr)] == 0 {
            self.lower.cells@[addr as int % 0x400]
        } else {
            self.upper.cells@[addr as int % 0x400]
        }
    }

    /// What a PPU-space read of `addr` (< 0x4000) returns.
    pub open spec fn get_ppu_spec(&self, cart: &Cartridge, addr: u16) -> u8 {
        if addr < 0x2000 {
            cart.get_ppu_spec(addr)
        } else if addr < 0x3F00 {
            self.nt_byte(cart.pages(), addr)
        } else {
            self.palette.entries@[palette_slot((addr % 0x20) as u8)]
        }
    }

    /// What a CPU read of port `reg` returns.
    pub open spec fn port_value(&self, reg: u8) -> u8 {
        if reg == 2 {
            self.registers.status.byte_spec() | (self.data_bus & 0x1F)
        } else if reg == 4 {
            self.oam.byte_spec(self.registers.oam_addr)
        } else if reg == 7 {
            if self.registers.addr.address % 0x4000 >= 0x3F00 {
                self.palette.entries@[palette_slot(((self.registers.addr.address % 0x4000) % 0x20) as u8)]
            } else {
                self.data_bus
            }
        } else {
            0
        }
    }

    pub fn new() -> (r: Vram)
        ensures
            r.wf(),
            r.registers == Registers::default_spec(),
            r.data_bus == 0,
    {
        Vram {
            oam: Oam::new(),
            palette: PaletteRam::default(),
            lower: Nametable::new(),
            upper: Nametable::new(),
            registers: Registers::default(),
            data_bus: 0,
        }
    }

    pub fn get_ppu(&self, addr: u16, cart: &Cartridge) -> (r: u8)
        requires
            self.wf(),
            cart.wf(),
            addr < 0x4000,
        ensures
            r == self.get_ppu_spec(cart, addr),
    {
        if addr < 0x2000 {
            cart.get_ppu(addr)
        } else if addr < 0x3F00 {
            let pages = cart.mirror();
            if pages[((addr / 0x400) % 4) as usize] == 0 {
                self.lower.read(addr % 0x400)
            } else {
                self.upper.read(addr % 0x400)
            }
        } else {
            self.palette.read((addr % 0x20) as u8)
        }
    }

    pub fn set_ppu(&mut self, addr: u16, val: u8, cart: &mut Cartridge)
        requires
            old(self).wf(),
            old(cart).wf(),
            addr < 0x4000,
        ensures
            final(self).wf(),
            final(cart).wf(),
            final(cart).same_kind(old(cart)),
            final(cart).pages() == old(cart).pages(),
            final(self).registers == old(self).registers,
            final(self).oam == old(self).oam,
            final(self).data_bus == old(self).data_bus,
            addr < 0x2000 ==> final(self).lower == old(self).lower && final(self).upper == old(self).upper
                && final(self).palette == old(self).palette,
            0x2000 <= addr < 0x3F00 ==> *final(cart) == *old(cart) && final(self).palette == old(self).palette
                && if old(cart).pages()[nt_slot(addr)] == 0 {
                    final(self).lower.cells@ == old(self).lower.cells@.update(addr as int % 0x400, val)
                        && final(self).upper == old(self).upper
                } else {
                    final(self).upper.cells@ == old(self).upper.cells@.update(addr as int % 0x400, val)
                        && final(self).lower == old(self).lower
                },
            addr >= 0x3F00 ==> *final(cart) == *old(cart) && final(self).lower == old(self).lower
                && final(self).upper == old(self).upper
                && final(self).palette.entries@ == old(self).palette.entries@.update(
                palette_slot((addr % 0x20) as u8),
                val,
            ),
    {
        if addr < 0x2000 {
            cart.set_ppu(addr, val);
        } else if addr < 0x3F00 {
            let pages = cart.mirror();
            if pages[((addr / 0x400) % 4) as usize] == 0 {
                self.lower.write(addr % 0x400, val);
            } else {
                self.upper.write(addr % 0x400, val);
            }
        } else {
            self.palette.write((addr % 0x20) as u8, val);
        }
    }

    /// `new` and `r` are `self` and the result after a CPU read of port `reg`.
    pub open spec fn get_cpu_post(&self, new: Vram, reg: u8, r: (u8, Option<u16>)) -> bool {
        &&& (r.0 == self.port_value(reg))
        &&& (new.oam == self.oam)
        &&& (new.palette == self.palette)
        &&& (new.lower == self.lower)
        &&& (new.upper == self.upper)
        &&& (new.registers.control == self.registers.control)
        &&& (new.registers.mask == self.registers.mask)
        &&& (new.registers.oam_addr == self.registers.oam_addr)
        &&& (reg == 2 ==> {
                &&& r.0 == self.registers.status.byte_spec() | (self.data_bus & 0x1F)
                &&& r.1 is None
                &&& !new.registers.status.vblank
                &&& new.registers.status.overflow == self.registers.status.overflow
                &&& new.registers.status.zero_hit == self.registers.status.zero_hit
                &&& new.registers.addr == (AddrReg { latch: AddrLatch::High, ..self.registers.addr })
                &&& new.data_bus == self.data_bus
            })
        &&& (reg == 4 ==> r == (self.oam.byte_spec(self.registers.oam_addr), None::<u16>)
                && new == *self)
        &&& (reg == 7 ==> {
                let a = (self.registers.addr.address % 0x4000) as u16;
                &&& new.registers.status == self.registers.status
                &&& new.registers.addr == (AddrReg {
                    address: ((self.registers.addr.address + self.registers.control.vram_inc)
                        % 0x8000) as u16,
                    ..self.registers.addr
                })
                &&& a >= 0x3F00 ==> r == (self.palette.entries@[palette_slot((a % 0x20) as u8)], None::<u16>)
                    && new.data_bus == r.0
                &&& a < 0x3F00 ==> r == (self.data_bus, Some(a)) && new.data_bus
                    == self.data_bus
            })
        &&& (reg != 2 && reg != 4 && reg != 7 ==> r == (0u8, None::<u16>) && new == *self)
    }

    /// CPU read of PPU port `reg` (0..8). Returns the byte, and for a
    /// PPUDATA read below the palette the VRAM address whose byte refills the
    /// read buffer.
    pub fn get_cpu(&mut self, reg: u8) -> (r: (u8, Option<u16>))
        requires
            old(self).wf(),
            reg < 8,
        ensures
            final(self).wf(),
            old(self).get_cpu_post(*final(self), reg, r),
    {
        if reg == 2 {
            let s = self.registers.status.to_byte() | (self.data_bus & 0x1F);
            self.registers.set_vblank(false);
            self.registers.addr.latch = AddrLatch::High;
            (s, None)
        } else if reg == 4 {
            (self.oam.read_byte(self.registers.oam_addr), None)
        } else if reg == 7 {
            let addr = self.registers.advance_vaddr();
            if addr >= 0x3F00 {
                self.data_bus = self.palette.read((addr % 0x20) as u8);
                (self.data_bus, None)
            } else {
                (self.data_bus, Some(addr))
            }
        } else {
            (0, None)
        }
    }

    /// What a CPU read of port `reg` would return, with no effect on the PPU.
    pub fn peek_cpu(&self, reg: u8) -> (r: u8)
        requires
            self.wf(),
            reg < 8,
        ensures
            r == self.port_value(reg),
            reg == 2 ==> r == self.registers.status.byte_spec() | (self.data_bus & 0x1F),
            reg == 4 ==> r == self.oam.byte_spec(self.registers.oam_addr),
            reg == 7 ==> r == if self.registers.addr.address % 0x4000 >= 0x3F00 {
                self.palette.entries@[palette_slot(((self.registers.addr.address % 0x4000) % 0x20) as u8)]
            } else {
                self.data_bus
            },
            reg != 2 && reg != 4 && reg != 7 ==> r == 0,
    {
        if reg == 2 {
            self.registers.status.to_byte() | (self.data_bus & 0x1F)
        } else if reg == 4 {
            self.oam.read_byte(self.registers.oam_addr)
        } else if reg == 7 {
            let addr = self.registers.addr.get_addr();
            if addr >= 0x3F00 {
                self.palette.read((addr % 0x20) as u8)
            } else {
                self.data_bus
            }
        } else {
            0
        }
    }

    /// `new` and `r` are `self` and the result after a CPU write of `val` to port `reg`.
    pub open spec fn set_cpu_post(&self, new: Vram, reg: u8, val: u8, r: Option<u16>) -> bool {
        &&& (new.lower == self.lower)
        &&& (new.upper == self.upper)
        &&& (new.data_bus == self.data_bus)
        &&& (new.registers.status == self.registers.status)
        &&& (reg != 7 ==> r is None)
        &&& (reg != 4 ==> new.oam == self.oam)
        &&& (reg != 7 ==> new.palette == self.palette)
        &&& (reg == 0 ==> new.registers.control == control_spec(val)
                && new.registers.mask == self.registers.mask
                && self.registers.addr.changes(new.registers.addr, Time::Delayed, true, true, false, true)
                && loopy::nametable(new.registers.addr.temp) == (val % 4) as u16)
        &&& (reg == 1 ==> new.registers == (Registers { mask: mask_spec(val), ..self.registers }))
        &&& (reg == 2 ==> new == *self)
        &&& (reg == 3 ==> new.registers == (Registers { oam_addr: val, ..self.registers }))
        &&& (reg == 4 ==> new.registers == (Registers {
                oam_addr: (self.registers.oam_addr + 1) as u8,
                ..self.registers
            }) || (self.registers.oam_addr == 255 && new.registers == (Registers {
                oam_addr: 0,
                ..self.registers
            })))
        &&& (reg == 4 ==> new.oam.byte_spec(self.registers.oam_addr) == val)
        &&& (reg == 5 ==> new.registers.control == self.registers.control
                && new.registers.mask == self.registers.mask
                && new.registers.oam_addr == self.registers.oam_addr
                && scroll_written(self.registers.addr, new.registers.addr, val, Time::Delayed))
        &&& (reg == 6 ==> new.registers == (Registers {
                addr: write_addr_spec(self.registers.addr, val),
                ..self.registers
            }))
        &&& (reg == 7 ==> {
                let a = (self.registers.addr.address % 0x4000) as u16;
                &&& new.registers.control == self.registers.control
                &&& new.registers.mask == self.registers.mask
                &&& new.registers.oam_addr == self.registers.oam_addr
                &&& new.registers.addr == (AddrReg {
                    address: ((self.registers.addr.address + self.registers.control.vram_inc)
                        % 0x8000) as u16,
                    ..self.registers.addr
                })
                &&& a >= 0x3F00 ==> r is None && new.palette.entries@
                    == self.palette.entries@.update(palette_slot((a % 0x20) as u8), val)
                &&& a < 0x3F00 ==> r == Some(a) && new.palette == self.palette
            })
    }

    /// CPU write of `val` to PPU port `reg` (0..8). Returns, for a PPUDATA
    /// write below the palette, the VRAM address that receives `val`.
    pub fn set_cpu(&mut self, reg: u8, val: u8) -> (r: Option<u16>)
        requires
            old(self).wf(),
            reg < 8,
        ensures
            final(self).wf(),
            old(self).set_cpu_post(*final(self), reg, val, r),
    {
        if reg == 0 {
            self.registers.set_control(val);
        } else if reg == 1 {
            self.registers.mask = Mask::from(val);
        } else if reg == 3 {
            self.registers.oam_addr = val;
        } else if reg == 4 {
            self.oam.write_byte(val, self.registers.oam_addr);
            self.registers.oam_addr = self.registers.oam_addr.wrapping_add(1);
        } else if reg == 5 {
            self.registers.addr = self.registers.addr.write_scroll(val, Time::Delayed);
        } else if reg == 6 {
            self.registers.addr = self.registers.addr.write_addr(val);
        } else if reg == 7 {
            let addr = self.registers.advance_vaddr();
            if addr >= 0x3F00 {
                self.palette.write((addr % 0x20) as u8, val);
                return None;
            } else {
                return Some(addr);
            }
        }
        None
    }
}

/// The live address after `k` PPUDATA accesses with increment `inc`.
pub open spec fn after_accesses(a: u16, inc: u16, k: nat) -> u16
    decreases k,
{
    if k == 0 {
        a
    } else {
        ((after_accesses(a, inc, (k - 1) as nat) + inc) % 0x8000) as u16
    }
}

/// Two PPUADDR writes, starting from the first-write state, make the live
/// address the 14-bit value that they spell (high six bits, then low byte);
/// after that, each PPUDATA access moves it on by the PPUCTRL increment, so
/// the `k`-th access reaches that value plus `k` increments, modulo 0x4000.
pub proof fn lemma_ppuaddr_ppudata(a0: AddrReg, hi: u8, lo: u8, inc: u16, k: nat)
    requires
        a0.wf(),
        a0.latch == AddrLatch::High,
        inc == 1 || inc == 32,
    ensures
        ({
            let a2 = write_addr_spec(write_addr_spec(a0, hi), lo);
            &&& a2.address == (hi as int % 0x40) * 256 + lo
            &&& a2.latch == AddrLatch::High
            &&& after_accesses(a2.address, inc, k) % 0x4000 == (a2.address + k * inc) % 0x4000
        }),
{
    let t = a0.temp;
    assert(((((t & 0xFF) | (((hi & 0x3F) as u16) << 8)) & 0xFF00) | (lo as u16)) == ((hi & 0x3F) as u16) * 256
        + lo as u16 && (hi & 0x3F) == hi % 0x40) by (bit_vector);
    let a2 = write_addr_spec(write_addr_spec(a0, hi), lo);
    assert(a2.address < 0x8000);
    lemma_after_accesses(a2.address, inc, k);
}

proof fn lemma_after_accesses(a: u16, inc: u16, k: nat)
    requires
        inc <= 32,
        a < 0x8000,
    ensures
        after_accesses(a, inc, k) == (a + k * inc) % 0x8000,
        after_accesses(a, inc, k) % 0x4000 == (a + k * inc) % 0x4000,
    decreases k,
{
    if k == 0 {
        assert(after_accesses(a, inc, k) == a);
    } else {
        lemma_after_accesses(a, inc, (k - 1) as nat);
        let p = after_accesses(a, inc, (k - 1) as nat);
        let q: int = (p + inc) % 0x8000;
        assert(0 <= q < 0x8000);
        assert(after_accesses(a, inc, k) == q as u16);
        assert(q == (a + k * inc) % 0x8000) by (nonlinear_arith)
            requires
                p == (a + (k - 1) * inc) % 0x8000,
                q == (p + inc) % 0x8000,
                k >= 1,
        ;
    }
    assert(((a + k * inc) % 0x8000) % 0x4000 == (a + k * inc) % 0x4000) by (nonlinear_arith)
        requires
            a + k * inc >= 0,
    ;
}

} // verus!
