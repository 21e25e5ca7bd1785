//! The PPU's 15-bit "loopy" VRAM address register: coarse X (bits 0-4),
//! coarse Y (5-9), nametable (10-11), fine Y (12-14); with its temporary
//! copy, the fine-X latch and the write toggle.
use vstd::prelude::*;
use super::Point;

verus! {

#[derive(Debug, Copy, Clone, PartialEq, Eq, Structural)]
pub struct AddrReg {
    pub address: u16,
    pub temp: u16,
    pub fine_x: u8,
    pub latch: AddrLatch,
}

/// The write toggle shared by the scroll and address ports.
#[derive(Debug, Copy, Clone, PartialEq, Eq, Structural)]
pub enum AddrLatch {
    High,
    Low,
}

/// Which copy a write goes to: the temporary one, or the live one.
#[derive(Debug, Copy, Clone, PartialEq, Eq, Structural)]
pub enum Time {
    Delayed,
    Immediate,
}

pub open spec fn coarse_x(v: u16) -> u16 {
    v & 0x1F
}

pub open spec fn coarse_y(v: u16) -> u16 {
    (v >> 5) & 0x1F
}

pub open spec fn nametable(v: u16) -> u16 {
    (v >> 10) & 3
}

pub open spec fn fine_y(v: u16) -> u16 {
    (v >> 12) & 7
}

/// Every field of `w` but the ones named false equals that of `v`.
pub open spec fn same_fields(v: u16, w: u16, cx: bool, cy: bool, nt: bool, fy: bool) -> bool {
    &&& cx ==> coarse_x(v) == coarse_x(w)
    &&& cy ==> coarse_y(v) == coarse_y(w)
    &&& nt ==> nametable(v) == nametable(w)
    &&& fy ==> fine_y(v) == fine_y(w)
}

/// A write of `val` to port 0x2006.
pub open spec fn write_addr_spec(a: AddrReg, val: u8) -> AddrReg {
    match a.latch {
        AddrLatch::High => AddrReg {
            temp: (a.temp & 0xFF) | (((val & 0x3F) as u16) << 8),
            latch: AddrLatch::Low,
            ..a
        },
        AddrLatch::Low => AddrReg {
            temp: (a.temp & 0xFF00) | (val as u16),
            address: (a.temp & 0xFF00) | (val as u16),
            latch: AddrLatch::High,
            ..a
        },
    }
}

/// `r` is `a` after a write of `val` to port 0x2005 into the copy `t`.
pub open spec fn scroll_written(a: AddrReg, r: AddrReg, val: u8, t: Time) -> bool {
    &&& r.wf()
    &&& a.latch == AddrLatch::High ==> r.fine_x == val % 8 && r.latch == AddrLatch::Low
        && coarse_x(r.reg_spec(t)) == (val / 8) as u16
        && r.other_spec(t) == a.other_spec(t)
        && same_fields(a.reg_spec(t), r.reg_spec(t), false, true, true, true)
    &&& a.latch == AddrLatch::Low ==> r.fine_x == a.fine_x && r.latch == AddrLatch::High
        && fine_y(r.reg_spec(t)) == (val % 8) as u16
        && coarse_y(r.reg_spec(t)) == (val / 8) as u16
        && r.other_spec(t) == a.other_spec(t)
        && same_fields(a.reg_spec(t), r.reg_spec(t), true, false, true, false)
}

impl AddrReg {
    pub open spec fn wf(&self) -> bool {
        self.address < 0x8000 && self.temp < 0x8000 && self.fine_x < 8
    }

    pub open spec fn reg_spec(&self, t: Time) -> u16 {
        match t {
            Time::Delayed => self.temp,
            Time::Immediate => self.address,
        }
    }

    pub open spec fn other_spec(&self, t: Time) -> u16 {
        match t {
            Time::Delayed => self.address,
            Time::Immediate => self.temp,
        }
    }

    /// Only the copy chosen by `t` may change, and only in the named fields.
    pub open spec fn changes(&self, new: AddrReg, t: Time, cx: bool, cy: bool, nt: bool, fy: bool) -> bool {
        &&& new.wf()
        &&& new.other_spec(t) == self.other_spec(t)
        &&& new.fine_x == self.fine_x
        &&& new.latch == self.latch
        &&& same_fields(self.reg_spec(t), new.reg_spec(t), cx, cy, nt, fy)
    }

    pub fn new() -> (r: AddrReg)
        ensures
            r.wf(),
            r == (AddrReg { address: 0, temp: 0, fine_x: 0, latch: AddrLatch::High }),
    {
        AddrReg { address: 0, temp: 0, fine_x: 0, latch: AddrLatch::High }
    }

    pub fn default() -> (r: AddrReg)
        ensures
            r == AddrReg::new_spec(),
    {
        AddrReg::new()
    }

    pub open spec fn new_spec() -> AddrReg {
        AddrReg { address: 0, temp: 0, fine_x: 0, latch: AddrLatch::High }
    }

    pub fn reset(&mut self)
        ensures
            *final(self) == AddrReg::new_spec(),
    {
        *self = AddrReg::new();
    }

    /// Port 0x2006: high byte (six bits) on the first write, low byte and
    /// copy to the live address on the second.
    pub fn write_addr(self, val: u8) -> (r: AddrReg)
        requires
            self.wf(),
        ensures
            r.wf(),
            r == write_addr_spec(self, val),
    {
        let mut r = self;
        match self.latch {
            AddrLatch::High => {
                let t = self.temp;
                r.temp = (t & 0xFF) | (((val & 0x3F) as u16) << 8);
                assert((t & 0xFF) | (((val & 0x3F) as u16) << 8) < 0x8000) by (bit_vector);
                r.latch = AddrLatch::Low;
            },
            AddrLatch::Low => {
                let t = self.temp;
                r.temp = (t & 0xFF00) | (val as u16);
                assert(t < 0x8000 ==> ((t & 0xFF00) | (val as u16)) < 0x8000) by (bit_vector);
                r.update();
                r.latch = AddrLatch::High;
            },
        }
        r
    }

    /// Port 0x2005: fine X and coarse X on the first write, fine Y and coarse
    /// Y on the second.
    pub fn write_scroll(self, val: u8, t: Time) -> (r: AddrReg)
        requires
            self.wf(),
        ensures
            scroll_written(self, r, val, t),
    {
        let mut r = self;
        match self.latch {
            AddrLatch::High => {
                r.set_fine_x(val % 8);
                r.set_coarse_x(val / 8, t);
                r.latch = AddrLatch::Low;
            },
            AddrLatch::Low => {
                r.set_fine_y(val % 8, t);
                r.set_coarse_y(val / 8, t);
                r.latch = AddrLatch::High;
            },
        }
        r
    }

    /// Returns the current VRAM address, then moves the live address on by
    /// `inc`.
    pub fn advance(&mut self, inc: u16) -> (r: u16)
        requires
            old(self).wf(),
            inc <= 32,
        ensures
            final(self).wf(),
            r == old(self).address % 0x4000,
            final(self).address == (old(self).address + inc) % 0x8000,
            final(self).temp == old(self).temp,
            final(self).fine_x == old(self).fine_x,
            final(self).latch == old(self).latch,
    {
        let addr = self.get_addr();
        self.address = (self.address + inc) % 0x8000;
        addr
    }

    /// Copies the temporary address into the live one.
    pub fn update(&mut self)
        ensures
            *final(self) == (AddrReg { address: old(self).temp, ..*old(self) }),
    {
        self.address = self.temp;
    }

    /// The 14-bit VRAM address that the live register points at.
    pub fn get_addr(&self) -> (r: u16)
        ensures
            r == self.address % 0x4000,
    {
        self.address % 0x4000
    }

    pub fn set_coarse_x(&mut self, val: u8, t: Time)
        requires
            old(self).wf(),
            val < 32,
        ensures
            old(self).changes(*final(self), t, false, true, true, true),
            coarse_x(final(self).reg_spec(t)) == val as u16,
    {
        match t {
            Time::Delayed => self.temp = put_coarse_x(self.temp, val),
            Time::Immediate => self.address = put_coarse_x(self.address, val),
        }
    }

    pub fn set_coarse_y(&mut self, val: u8, t: Time)
        requires
            old(self).wf(),
            val < 32,
        ensures
            old(self).changes(*final(self), t, true, false, true, true),
            coarse_y(final(self).reg_spec(t)) == val as u16,
    {
        match t {
            Time::Delayed => self.temp = put_coarse_y(self.temp, val),
            Time::Immediate => self.address = put_coarse_y(self.address, val),
        }
    }

    pub fn set_nametable(&mut self, val: u8, t: Time)
        requires
            old(self).wf(),
            val < 4,
        ensures
            old(self).changes(*final(self), t, true, true, false, true),
            nametable(final(self).reg_spec(t)) == val as u16,
    {
        match t {
            Time::Delayed => self.temp = put_nametable(self.temp, val),
            Time::Immediate => self.address = put_nametable(self.address, val),
        }
    }

    pub fn set_fine_y(&mut self, val: u8, t: Time)
        requires
            old(self).wf(),
            val < 8,
        ensures
            old(self).changes(*final(self), t, true, true, true, false),
            fine_y(final(self).reg_spec(t)) == val as u16,
    {
        match t {
            Time::Delayed => self.temp = put_fine_y(self.temp, val),
            Time::Immediate => self.address = put_fine_y(self.address, val),
        }
    }

    pub fn set_fine_x(&mut self, val: u8)
        requires
            val < 8,
        ensures
            *final(self) == (AddrReg { fine_x: val, ..*old(self) }),
    {
        self.fine_x = val;
    }

    pub fn get_tile(&self) -> (r: Point<u8>)
        ensures
            r.x as u16 == coarse_x(self.address),
            r.y as u16 == coarse_y(self.address),
    {
        Point { x: self.get_coarse_x(), y: self.get_coarse_y() }
    }

    /// Dot 257: coarse X and the horizontal nametable bit come from the
    /// temporary copy.
    pub fn transfer_x(&mut self)
        requires
            old(self).wf(),
        ensures
            final(self).wf(),
            coarse_x(final(self).address) == coarse_x(old(self).temp),
            nametable(final(self).address) % 2 == nametable(old(self).temp) % 2,
            nametable(final(self).address) / 2 == nametable(old(self).address) / 2,
            coarse_y(final(self).address) == coarse_y(old(self).address),
            fine_y(final(self).address) == fine_y(old(self).address),
            final(self).temp == old(self).temp,
            final(self).fine_x == old(self).fine_x,
            final(self).latch == old(self).latch,
    {
        let (a, t) = (self.address, self.temp);
        self.address = (a & 0b1_111_10_11111_00000) | (t & 0b0_000_01_00000_11111);
        assert(a < 0x8000 && t < 0x8000 ==> {
            let r = (a & 0xFBE0) | (t & 0x041F);
            &&& r < 0x8000
            &&& r & 0x1F == t & 0x1F
            &&& ((r >> 10) & 3) % 2 == ((t >> 10) & 3) % 2
            &&& ((r >> 10) & 3) / 2 == ((a >> 10) & 3) / 2
            &&& (r >> 5) & 0x1F == (a >> 5) & 0x1F
            &&& (r >> 12) & 7 == (a >> 12) & 7
        }) by (bit_vector);
    }

    /// Pre-render dots 280..=304: coarse Y, fine Y and the vertical
    /// nametable bit come from the temporary copy.
    pub fn transfer_y(&mut self)
        requires
            old(self).wf(),
        ensures
            final(self).wf(),
            coarse_y(final(self).address) == coarse_y(old(self).temp),
            fine_y(final(self).address) == fine_y(old(self).temp),
            nametable(final(self).address) / 2 == nametable(old(self).temp) / 2,
            nametable(final(self).address) % 2 == nametable(old(self).address) % 2,
            coarse_x(final(self).address) == coarse_x(old(self).address),
            final(self).temp == old(self).temp,
            final(self).fine_x == old(self).fine_x,
            final(self).latch == old(self).latch,
    {
        let (a, t) = (self.address, self.temp);
        self.address = (a & 0b0_000_01_00000_11111) | (t & 0b0_111_10_11111_00000);
        assert(a < 0x8000 && t < 0x8000 ==> {
            let r = (a & 0x041F) | (t & 0x7BE0);
            &&& r < 0x8000
            &&& (r >> 5) & 0x1F == (t >> 5) & 0x1F
            &&& (r >> 12) & 7 == (t >> 12) & 7
            &&& ((r >> 10) & 3) / 2 == ((t >> 10) & 3) / 2
            &&& ((r >> 10) & 3) % 2 == ((a >> 10) & 3) % 2
            &&& r & 0x1F == a & 0x1F
        }) by (bit_vector);
    }

    pub fn get_coarse_x(&self) -> (r: u8)
        ensures
            r as u16 == coarse_x(self.address),
            r < 32,
    {
        proof {
            lemma_field_bounds(self.address);
        }
        (self.address & 0x1F) as u8
    }

    pub fn get_coarse_y(&self) -> (r: u8)
        ensures
            r as u16 == coarse_y(self.address),
            r < 32,
    {
        proof {
            lemma_field_bounds(self.address);
        }
        ((self.address >> 5) & 0x1F) as u8
    }

    pub fn get_nametable(&self) -> (r: u8)
        ensures
            r as u16 == nametable(self.address),
            r < 4,
    {
        proof {
            lemma_field_bounds(self.address);
        }
        ((self.address >> 10) & 3) as u8
    }

    pub fn get_pixel(&self) -> (r: Point<u8>)
        ensures
            r.x == self.fine_x,
            r.y as u16 == fine_y(self.address),
    {
        Point { x: self.fine_x, y: self.get_fine_y() }
    }

    pub fn get_fine_y(&self) -> (r: u8)
        ensures
            r as u16 == fine_y(self.address),
            r < 8,
    {
        proof {
            lemma_field_bounds(self.address);
        }
        ((self.address >> 12) & 7) as u8
    }

    pub fn get_fine_x(&self) -> (r: u8)
        ensures
            r == self.fine_x,
    {
        self.fine_x
    }
}

/// Each field fits its width.
pub proof fn lemma_field_bounds(v: u16)
    ensures
        coarse_x(v) < 32,
        coarse_y(v) < 32,
        nametable(v) < 4,
        fine_y(v) < 8,
{
    assert(v & 0x1F < 32 && (v >> 5) & 0x1F < 32 && (v >> 10) & 3 < 4 && (v >> 12) & 7 < 8)
        by (bit_vector);
}

fn put_coarse_x(v: u16, val: u8) -> (r: u16)
    requires
        v < 0x8000,
        val < 32,
    ensures
        r < 0x8000,
        coarse_x(r) == val as u16,
        same_fields(v, r, false, true, true, true),
{
    assert(v < 0x8000 && val < 32 ==> ((v & 0xFFE0) | val as u16) < 0x8000
        && ((v & 0xFFE0) | val as u16) & 0x1F == val as u16
        && (((v & 0xFFE0) | val as u16) >> 5) & 0x1F == (v >> 5) & 0x1F
        && (((v & 0xFFE0) | val as u16) >> 10) & 3 == (v >> 10) & 3
        && (((v & 0xFFE0) | val as u16) >> 12) & 7 == (v >> 12) & 7) by (bit_vector);
    (v & 0b1_111_11_11111_00000) | val as u16
}

fn put_coarse_y(v: u16, val: u8) -> (r: u16)
    requires
        v < 0x8000,
        val < 32,
    ensures
        r < 0x8000,
        coarse_y(r) == val as u16,
        same_fields(v, r, true, false, true, true),
{
    assert(v < 0x8000 && val < 32 ==> ((v & 0xFC1F) | ((val as u16) << 5)) < 0x8000
        && ((v & 0xFC1F) | ((val as u16) << 5)) & 0x1F == v & 0x1F
        && (((v & 0xFC1F) | ((val as u16) << 5)) >> 5) & 0x1F == val as u16
        && (((v & 0xFC1F) | ((val as u16) << 5)) >> 10) & 3 == (v >> 10) & 3
        && (((v & 0xFC1F) | ((val as u16) << 5)) >> 12) & 7 == (v >> 12) & 7) by (bit_vector);
    (v & 0b1_111_11_00000_11111) | ((val as u16) << 5)
}

fn put_nametable(v: u16, val: u8) -> (r: u16)
    requires
        v < 0x8000,
        val < 4,
    ensures
        r < 0x8000,
        nametable(r) == val as u16,
        same_fields(v, r, true, true, false, true),
{
    assert(v < 0x8000 && val < 4 ==> ((v & 0xF3FF) | ((val as u16) << 10)) < 0x8000
        && ((v & 0xF3FF) | ((val as u16) << 10)) & 0x1F == v & 0x1F
        && (((v & 0xF3FF) | ((val as u16) << 10)) >> 5) & 0x1F == (v >> 5) & 0x1F
        && (((v & 0xF3FF) | ((val as u16) << 10)) >> 10) & 3 == val as u16
        && (((v & 0xF3FF) | ((val as u16) << 10)) >> 12) & 7 == (v >> 12) & 7) by (bit_vector);
    (v & 0b1_111_00_11111_11111) | ((val as u16) << 10)
}

fn put_fine_y(v: u16, val: u8) -> (r: u16)
    requires
        v < 0x8000,
        val < 8,
    ensures
        r < 0x8000,
        fine_y(r) == val as u16,
        same_fields(v, r, true, true, true, false),
{
    assert(v < 0x8000 && val < 8 ==> ((v & 0x8FFF) | ((val as u16) << 12)) < 0x8000
        && ((v & 0x8FFF) | ((val as u16) << 12)) & 0x1F == v & 0x1F
        && (((v & 0x8FFF) | ((val as u16) << 12)) >> 5) & 0x1F == (v >> 5) & 0x1F
        && (((v & 0x8FFF) | ((val as u16) << 12)) >> 10) & 3 == (v >> 10) & 3
        && (((v & 0x8FFF) | ((val as u16) << 12)) >> 12) & 7 == val as u16) by (bit_vector);
    (v & 0b1_000_11_11111_11111) | ((val as u16) << 12)
}

} // verus!
