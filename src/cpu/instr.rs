//! Addressing modes and the operations that instructions are built from.
use vstd::prelude::*;
use super::{Cpu, Register, StatusFlags, neg, wrap8, wrap16};
use crate::bus::{Access, MemBus};
use crate::decode::{AddressMode, Fix};

verus! {

/// The two-input logic operations.
#[derive(Debug, Clone, Copy, PartialEq, Eq, Structural)]
pub enum Logic {
    And,
    Or,
    Xor,
}

/// Shifts and rotates. `Arr` is the rotate of ARR, whose carry is bit 7.
#[derive(Debug, Clone, Copy, PartialEq, Eq, Structural)]
pub enum ShiftKind {
    Asl,
    Lsr,
    Rol,
    Ror,
    Arr,
}

/// Increment or decrement.
#[derive(Debug, Clone, Copy, PartialEq, Eq, Structural)]
pub enum Delta {
    Inc,
    Dec,
}

pub open spec fn logic_spec(op: Logic, a: u8, b: u8) -> u8 {
    match op {
        Logic::And => a & b,
        Logic::Or => a | b,
        Logic::Xor => a ^ b,
    }
}

/// Result and carry out of a shift of `x` with carry in `c`.
pub open spec fn shift_spec(kind: ShiftKind, x: u8, c: bool) -> (u8, bool) {
    let ci: int = if c { 1 } else { 0 };
    match kind {
        ShiftKind::Asl => (wrap8(x * 2), neg(x)),
        ShiftKind::Lsr => ((x / 2) as u8, x % 2 == 1),
        ShiftKind::Rol => (wrap8(x * 2 + ci), neg(x)),
        ShiftKind::Ror => ((x / 2 + ci * 128) as u8, x % 2 == 1),
        ShiftKind::Arr => ((x / 2 + ci * 128) as u8, neg(x)),
    }
}

pub open spec fn delta_spec(d: Delta, x: u8) -> u8 {
    match d {
        Delta::Inc => wrap8(x + 1),
        Delta::Dec => wrap8(x - 1 + 256),
    }
}

/// Little-endian 16-bit value of two bytes.
pub open spec fn word(lo: u8, hi: u8) -> u16 {
    (hi * 256 + lo) as u16
}

/// `t1` is `t0` with `k` more transactions.
pub open spec fn extends(t0: Seq<Access>, t1: Seq<Access>, k: int) -> bool {
    &&& t1.len() == t0.len() + k
    &&& forall|i: int| 0 <= i < t0.len() ==> #[trigger] t1[i] == t0[i]
}

/// Transaction `i` of `t` is a read at `a`.
pub open spec fn read_at(t: Seq<Access>, i: int, a: u16) -> bool {
    t[i] is Read && t[i]->Read_0 == a
}

/// Transaction `i` of `t` is the write of `v` at `a`.
pub open spec fn write_at(t: Seq<Access>, i: int, a: u16, v: u8) -> bool {
    t[i] == Access::Write(a, v)
}

/// The byte that read `i` of `t` returned.
pub open spec fn value(t: Seq<Access>, i: int) -> u8 {
    t[i]->Read_1
}

/// Every read among transactions `lo..hi` of `t` returned what memory held
/// at its address: the RAM byte below 0x2000, the cartridge byte from 0x4020.
pub open spec fn reads_match(t: Seq<Access>, lo: int, hi: int, b: MemBus) -> bool {
    forall|j: int|
        lo <= j < hi && #[trigger] t[j] is Read ==> {
            let a = t[j]->Read_0;
            &&& a <= 0x1fff ==> t[j]->Read_1 == b.ram()[a as int % 0x800]
            &&& a >= 0x4020 ==> t[j]->Read_1 == b.cartridge.get_spec(a)
        }
}

/// Bus cycles that an addressing mode spends after the opcode fetch.
pub open spec fn mode_cycles(mode: AddressMode, crossed: bool) -> int {
    match mode {
        AddressMode::Implicit => 1,
        AddressMode::Manual => 0,
        AddressMode::Immediate => 0,
        AddressMode::ZeroPage => 1,
        AddressMode::ZeroPageX => 2,
        AddressMode::ZeroPageY => 2,
        AddressMode::Absolute => 2,
        AddressMode::AbsoluteX(fix) => 2 + if fix == Fix::Always || crossed { 1int } else { 0 },
        AddressMode::AbsoluteY(fix) => 2 + if fix == Fix::Always || crossed { 1int } else { 0 },
        AddressMode::Indirect => 4,
        AddressMode::IndexedIndirect => 4,
        AddressMode::IndirectIndexed(fix) => 3 + if fix == Fix::Always || crossed { 1int } else { 0 },
    }
}

/// The CPU is `c0` with only the program counter moved on by `k`.
pub open spec fn pc_moved(c0: Cpu, c1: Cpu, k: int) -> bool {
    c1 == (Cpu { pc: wrap16(c0.pc + k), ..c0 })
}

/// Flags after ADC of `m` with carry in `c` onto accumulator `a`, result `r`.
pub open spec fn adc_flags(s: StatusFlags, a: u8, m: u8, c: bool, r: u8) -> StatusFlags {
    StatusFlags {
        c: a + m + (if c { 1int } else { 0 }) > 255,
        v: (a ^ r) & (m ^ r) & 0x80 != 0,
        z: r == 0,
        n: neg(r),
        ..s
    }
}

impl Cpu {
    /// Reads the byte at PC and moves PC on.
    pub fn advance(&mut self, bus: &mut MemBus) -> (r: u8)
        requires
            old(bus).wf(),
        ensures
            final(bus).cartridge == old(bus).cartridge,
            reads_match(final(bus).trace@, old(bus).trace@.len() as int, final(bus).trace@.len() as int, *old(bus)),
            final(bus).wf(),
            extends(old(bus).trace@, final(bus).trace@, 1),
            read_at(final(bus).trace@, old(bus).trace@.len() as int, old(self).pc),
            r == value(final(bus).trace@, old(bus).trace@.len() as int),
            pc_moved(*old(self), *final(self), 1),
            final(bus).memory == old(bus).memory,
    {
        let pc = self.next_pc();
        bus.read(pc)
    }

    /// Adds `offset` to the address `hi:lo`. The dummy read at the address
    /// with the unfixed high byte happens always (`Fix::Always`) or only when
    /// the low byte wraps. Returns the address and whether the page changed.
    pub fn fetch_add(&mut self, lo: u8, hi: u8, offset: u8, fix: Fix, bus: &mut MemBus) -> (r: (u16, bool))
        requires
            old(bus).wf(),
        ensures
            final(bus).cartridge == old(bus).cartridge,
            reads_match(final(bus).trace@, old(bus).trace@.len() as int, final(bus).trace@.len() as int, *old(bus)),
            final(bus).wf(),
            *final(self) == *old(self),
            r.1 == (lo + offset > 255),
            r.0 == wrap16(word(lo, hi) + offset),
            extends(old(bus).trace@, final(bus).trace@, if fix == Fix::Always || r.1 { 1 } else { 0 }),
            fix == Fix::Always || r.1 ==> read_at(
                final(bus).trace@,
                old(bus).trace@.len() as int,
                word(wrap8(lo + offset), hi),
            ),
            final(bus).memory == old(bus).memory,
    {
        let sum = lo as u16 + offset as u16;
        let effective_low = (sum % 256) as u8;
        let wrapped = sum > 255;
        if fix == Fix::Always || wrapped {
            bus.read(hi as u16 * 256 + effective_low as u16);
        }
        let effective_high = if wrapped {
            hi.wrapping_add(1)
        } else {
            hi
        };
        (effective_high as u16 * 256 + effective_low as u16, wrapped)
    }

    /// Resolves the operand address of `mode`, performing its bus cycles.
    /// Returns the address (none for implicit and manual modes) and whether
    /// an indexed access crossed a page.
    pub fn fetch_address(&mut self, mode: AddressMode, bus: &mut MemBus) -> (r: (Option<u16>, bool))
        requires
            old(bus).wf(),
        ensures
            final(bus).cartridge == old(bus).cartridge,
            reads_match(final(bus).trace@, old(bus).trace@.len() as int, final(bus).trace@.len() as int, *old(bus)),
            final(bus).wf(),
            final(bus).memory == old(bus).memory,
            extends(old(bus).trace@, final(bus).trace@, mode_cycles(mode, r.1)),
            address_mode_post(mode, *old(self), *final(self), final(bus).trace@, old(bus).trace@.len() as int, r),
    {
        match mode {
            AddressMode::Manual => (None, false),
            AddressMode::Implicit => {
                bus.read(self.pc);
                (None, false)
            },
            AddressMode::Immediate => (Some(self.next_pc()), false),
            AddressMode::ZeroPage => {
                let a = self.advance(bus);
                (Some(a as u16), false)
            },
            AddressMode::ZeroPageX => (Some(self.fetch_zero_page_indexed(Register::X, bus)), false),
            AddressMode::ZeroPageY => (Some(self.fetch_zero_page_indexed(Register::Y, bus)), false),
            AddressMode::Absolute => (Some(self.fetch_absolute(bus)), false),
            AddressMode::AbsoluteX(fix) => self.fetch_absolute_indexed(Register::X, fix, bus),
            AddressMode::AbsoluteY(fix) => self.fetch_absolute_indexed(Register::Y, fix, bus),
            AddressMode::Indirect => (Some(self.fetch_indirect(bus)), false),
            AddressMode::IndexedIndirect => (Some(self.fetch_indexed_indirect(bus)), false),
            AddressMode::IndirectIndexed(fix) => self.fetch_indirect_indexed(fix, bus),
        }
    }

    fn fetch_zero_page_indexed(&mut self, reg: Register, bus: &mut MemBus) -> (r: u16)
        requires
            old(bus).wf(),
            reg == Register::X || reg == Register::Y,
        ensures
            final(bus).cartridge == old(bus).cartridge,
            reads_match(final(bus).trace@, old(bus).trace@.len() as int, final(bus).trace@.len() as int, *old(bus)),
            final(bus).wf(),
            final(bus).memory == old(bus).memory,
            extends(old(bus).trace@, final(bus).trace@, 2),
            ({
                let (t, n) = (final(bus).trace@, old(bus).trace@.len() as int);
                &&& r == wrap8(value(t, n) + old(self).reg_spec(reg)) as u16
                &&& pc_moved(*old(self), *final(self), 1)
                &&& read_at(t, n, old(self).pc)
                &&& read_at(t, n + 1, value(t, n) as u16)
            }),
    {
        let a = self.advance(bus);
        bus.read(a as u16);
        let index = if reg == Register::X { self.x } else { self.y };
        a.wrapping_add(index) as u16
    }

    fn fetch_absolute(&mut self, bus: &mut MemBus) -> (r: u16)
        requires
            old(bus).wf(),
        ensures
            final(bus).cartridge == old(bus).cartridge,
            reads_match(final(bus).trace@, old(bus).trace@.len() as int, final(bus).trace@.len() as int, *old(bus)),
            final(bus).wf(),
            final(bus).memory == old(bus).memory,
            extends(old(bus).trace@, final(bus).trace@, 2),
            ({
                let (t, n) = (final(bus).trace@, old(bus).trace@.len() as int);
                &&& r == word(value(t, n), value(t, n + 1))
                &&& pc_moved(*old(self), *final(self), 2)
                &&& read_at(t, n, old(self).pc)
                &&& read_at(t, n + 1, wrap16(old(self).pc + 1))
            }),
    {
        let low = self.advance(bus);
        let high = self.advance(bus);
        high as u16 * 256 + low as u16
    }

    fn fetch_absolute_indexed(&mut self, reg: Register, fix: Fix, bus: &mut MemBus) -> (r: (Option<u16>, bool))
        requires
            old(bus).wf(),
            reg == Register::X || reg == Register::Y,
        ensures
            final(bus).cartridge == old(bus).cartridge,
            reads_match(final(bus).trace@, old(bus).trace@.len() as int, final(bus).trace@.len() as int, *old(bus)),
            final(bus).wf(),
            final(bus).memory == old(bus).memory,
            extends(old(bus).trace@, final(bus).trace@, 2 + if fix == Fix::Always || r.1 { 1int } else { 0 }),
            ({
                let (t, n) = (final(bus).trace@, old(bus).trace@.len() as int);
                &&& indexed_post(fix, old(self).reg_spec(reg), value(t, n), value(t, n + 1), t, n + 2, r)
                &&& pc_moved(*old(self), *final(self), 2)
                &&& read_at(t, n, old(self).pc)
                &&& read_at(t, n + 1, wrap16(old(self).pc + 1))
            }),
    {
        let low = self.advance(bus);
        let high = self.advance(bus);
        let index = if reg == Register::X { self.x } else { self.y };
        let (a, crossed) = self.fetch_add(low, high, index, fix, bus);
        (Some(a), crossed)
    }

    /// JMP (a): the high byte of the target comes from the same page as the
    /// low byte; the pointer's low byte wraps without a carry.
    fn fetch_indirect(&mut self, bus: &mut MemBus) -> (r: u16)
        requires
            old(bus).wf(),
        ensures
            final(bus).cartridge == old(bus).cartridge,
            reads_match(final(bus).trace@, old(bus).trace@.len() as int, final(bus).trace@.len() as int, *old(bus)),
            final(bus).wf(),
            final(bus).memory == old(bus).memory,
            extends(old(bus).trace@, final(bus).trace@, 4),
            ({
                let (t, n) = (final(bus).trace@, old(bus).trace@.len() as int);
                let (lo, hi) = (value(t, n), value(t, n + 1));
                &&& r == word(value(t, n + 2), value(t, n + 3))
                &&& pc_moved(*old(self), *final(self), 2)
                &&& read_at(t, n, old(self).pc)
                &&& read_at(t, n + 1, wrap16(old(self).pc + 1))
                &&& read_at(t, n + 2, word(lo, hi))
                &&& read_at(t, n + 3, word(wrap8(lo + 1), hi))
            }),
    {
        let low = self.advance(bus);
        let high = self.advance(bus);
        let new_low = bus.read(high as u16 * 256 + low as u16);
        let new_high = bus.read(high as u16 * 256 + low.wrapping_add(1) as u16);
        new_high as u16 * 256 + new_low as u16
    }

    fn fetch_indexed_indirect(&mut self, bus: &mut MemBus) -> (r: u16)
        requires
            old(bus).wf(),
        ensures
            final(bus).cartridge == old(bus).cartridge,
            reads_match(final(bus).trace@, old(bus).trace@.len() as int, final(bus).trace@.len() as int, *old(bus)),
            final(bus).wf(),
            final(bus).memory == old(bus).memory,
            extends(old(bus).trace@, final(bus).trace@, 4),
            ({
                let (t, n) = (final(bus).trace@, old(bus).trace@.len() as int);
                let entry = wrap8(value(t, n) + old(self).x);
                &&& r == word(value(t, n + 2), value(t, n + 3))
                &&& pc_moved(*old(self), *final(self), 1)
                &&& read_at(t, n, old(self).pc)
                &&& read_at(t, n + 1, value(t, n) as u16)
                &&& read_at(t, n + 2, entry as u16)
                &&& read_at(t, n + 3, wrap8(entry + 1) as u16)
            }),
    {
        let table = self.advance(bus);
        bus.read(table as u16);
        let entry = table.wrapping_add(self.x);
        let low = bus.read(entry as u16);
        let high = bus.read(entry.wrapping_add(1) as u16);
        high as u16 * 256 + low as u16
    }

    fn fetch_indirect_indexed(&mut self, fix: Fix, bus: &mut MemBus) -> (r: (Option<u16>, bool))
        requires
            old(bus).wf(),
        ensures
            final(bus).cartridge == old(bus).cartridge,
            reads_match(final(bus).trace@, old(bus).trace@.len() as int, final(bus).trace@.len() as int, *old(bus)),
            final(bus).wf(),
            final(bus).memory == old(bus).memory,
            extends(old(bus).trace@, final(bus).trace@, 3 + if fix == Fix::Always || r.1 { 1int } else { 0 }),
            ({
                let (t, n) = (final(bus).trace@, old(bus).trace@.len() as int);
                let zp = value(t, n);
                &&& indexed_post(fix, old(self).y, value(t, n + 1), value(t, n + 2), t, n + 3, r)
                &&& pc_moved(*old(self), *final(self), 1)
                &&& read_at(t, n, old(self).pc)
                &&& read_at(t, n + 1, zp as u16)
                &&& read_at(t, n + 2, wrap8(zp + 1) as u16)
            }),
    {
        let zp = self.advance(bus);
        let low = bus.read(zp as u16);
        let high = bus.read(zp.wrapping_add(1) as u16);
        let y = self.y;
        let (a, crossed) = self.fetch_add(low, high, y, fix, bus);
        (Some(a), crossed)
    }
}

/// What resolving `mode` did: the reads made from transaction `n` of `t`,
/// the address found, the page-cross flag, and the program counter moved over
/// the operand bytes.
pub open spec fn address_mode_post(mode: AddressMode, c0: Cpu, c1: Cpu, t: Seq<Access>, n: int, r: (Option<u16>, bool)) -> bool {
    let pc = c0.pc;
    match mode {
        AddressMode::Manual => r == (None::<u16>, false) && c1 == c0,
        AddressMode::Implicit => r == (None::<u16>, false) && c1 == c0 && read_at(t, n, pc),
        AddressMode::Immediate => r == (Some(pc), false) && pc_moved(c0, c1, 1),
        AddressMode::ZeroPage => r == (Some(value(t, n) as u16), false) && pc_moved(c0, c1, 1) && read_at(t, n, pc),
        AddressMode::ZeroPageX => r == (Some(wrap8(value(t, n) + c0.x) as u16), false) && pc_moved(c0, c1, 1)
            && read_at(t, n, pc) && read_at(t, n + 1, value(t, n) as u16),
        AddressMode::ZeroPageY => r == (Some(wrap8(value(t, n) + c0.y) as u16), false) && pc_moved(c0, c1, 1)
            && read_at(t, n, pc) && read_at(t, n + 1, value(t, n) as u16),
        AddressMode::Absolute => r == (Some(word(value(t, n), value(t, n + 1))), false) && pc_moved(c0, c1, 2)
            && read_at(t, n, pc) && read_at(t, n + 1, wrap16(pc + 1)),
        AddressMode::AbsoluteX(fix) => indexed_post(fix, c0.x, value(t, n), value(t, n + 1), t, n + 2, r)
            && pc_moved(c0, c1, 2) && read_at(t, n, pc) && read_at(t, n + 1, wrap16(pc + 1)),
        AddressMode::AbsoluteY(fix) => indexed_post(fix, c0.y, value(t, n), value(t, n + 1), t, n + 2, r)
            && pc_moved(c0, c1, 2) && read_at(t, n, pc) && read_at(t, n + 1, wrap16(pc + 1)),
        AddressMode::Indirect => {
            let (lo, hi) = (value(t, n), value(t, n + 1));
            &&& r == (Some(word(value(t, n + 2), value(t, n + 3))), false)
            &&& pc_moved(c0, c1, 2)
            &&& read_at(t, n, pc)
            &&& read_at(t, n + 1, wrap16(pc + 1))
            &&& read_at(t, n + 2, word(lo, hi))
            &&& read_at(t, n + 3, word(wrap8(lo + 1), hi))
        },
        AddressMode::IndexedIndirect => {
            let entry = wrap8(value(t, n) + c0.x);
            &&& r == (Some(word(value(t, n + 2), value(t, n + 3))), false)
            &&& pc_moved(c0, c1, 1)
            &&& read_at(t, n, pc)
            &&& read_at(t, n + 1, value(t, n) as u16)
            &&& read_at(t, n + 2, entry as u16)
            &&& read_at(t, n + 3, wrap8(entry + 1) as u16)
        },
        AddressMode::IndirectIndexed(fix) => {
            let zp = value(t, n);
            &&& indexed_post(fix, c0.y, value(t, n + 1), value(t, n + 2), t, n + 3, r)
            &&& pc_moved(c0, c1, 1)
            &&& read_at(t, n, pc)
            &&& read_at(t, n + 1, zp as u16)
            &&& read_at(t, n + 2, wrap8(zp + 1) as u16)
        },
    }
}

/// The address `hi:lo` plus `index`, with the dummy read at transaction `k`
/// when the fix policy asks for it.
pub open spec fn indexed_post(fix: Fix, index: u8, lo: u8, hi: u8, t: Seq<Access>, k: int, r: (Option<u16>, bool)) -> bool {
    &&& r.1 == (lo + index > 255)
    &&& r.0 == Some(wrap16(word(lo, hi) + index))
    &&& (fix == Fix::Always || r.1) ==> read_at(t, k, word(wrap8(lo + index), hi))
}

impl Cpu {
    pub fn transfer(&mut self, src: Register, dst: Register)
        ensures
            *final(self) == transfer_spec(*old(self), src, dst),
    {
        let val = match src {
            Register::A => self.accum,
            Register::X => self.x,
            Register::Y => self.y,
            Register::S => self.stack,
        };
        match dst {
            Register::A => self.accum = val,
            Register::X => self.x = val,
            Register::Y => self.y = val,
            Register::S => self.stack = val,
        }
        if dst != Register::S {
            self.set_nz(val);
        }
    }

    /// INX, INY, DEX, DEY.
    pub fn reg_op(&mut self, reg: Register, op: Delta)
        requires
            reg == Register::X || reg == Register::Y,
        ensures
            *final(self) == set_reg_nz(*old(self), reg, delta_spec(op, old(self).reg_spec(reg))),
    {
        let old_val = if reg == Register::X { self.x } else { self.y };
        let val = match op {
            Delta::Inc => old_val.wrapping_add(1),
            Delta::Dec => old_val.wrapping_sub(1),
        };
        if reg == Register::X {
            self.x = val;
        } else {
            self.y = val;
        }
        self.set_nz(val);
    }

    /// AND, ORA, EOR into the accumulator.
    pub fn bin_op(&mut self, val: u8, op: Logic)
        ensures
            *final(self) == set_reg_nz(*old(self), Register::A, logic_spec(op, old(self).accum, val)),
    {
        let result = match op {
            Logic::And => self.accum & val,
            Logic::Or => self.accum | val,
            Logic::Xor => self.accum ^ val,
        };
        self.accum = result;
        self.set_nz(result);
    }

    pub fn bit_test(&mut self, val: u8)
        ensures
            *final(self) == (Cpu {
                status: StatusFlags {
                    z: val & old(self).accum == 0,
                    v: val & 0x40 != 0,
                    n: neg(val),
                    ..old(self).status
                },
                ..*old(self)
            }),
    {
        self.status.z = val & self.accum == 0;
        self.status.v = val & 0x40 != 0;
        self.status.n = val >= 0x80;
    }

    /// A + M + C. The overflow flag is set when A and M have the same sign
    /// and the result the other.
    pub fn adc(&mut self, val: u8)
        ensures
            final(self).accum == wrap8(old(self).accum + val + if old(self).status.c { 1int } else { 0 }),
            final(self).status == adc_flags(old(self).status, old(self).accum, val, old(self).status.c, final(self).accum),
            final(self).status.v == ((old(self).accum ^ final(self).accum) & (val ^ final(self).accum) & 0x80 != 0),
            *final(self) == (Cpu { accum: final(self).accum, status: final(self).status, ..*old(self) }),
    {
        let a = self.accum;
        let sum: u16 = a as u16 + val as u16 + if self.status.c { 1u16 } else { 0 };
        let result = (sum % 256) as u8;
        let x = a >= 0x80;
        let y = val >= 0x80;
        let r = result >= 0x80;
        self.accum = result;
        self.status.c = sum > 255;
        self.status.v = (r != x) && (r != y);
        assert(((a ^ result) & (val ^ result) & 0x80 != 0) == ((result >= 0x80) != (a >= 0x80) && (result >= 0x80) != (val >= 0x80))) by (bit_vector);
        self.status.z = result == 0;
        self.status.n = r;
    }

    /// reg - M: C when reg >= M, Z when equal, N from the difference.
    pub fn compare(&mut self, reg: u8, mem: u8) -> (r: u8)
        ensures
            r == wrap8(reg - mem + 256),
            *final(self) == (Cpu {
                status: StatusFlags { c: reg >= mem, z: reg == mem, n: neg(r), ..old(self).status },
                ..*old(self)
            }),
    {
        let diff = reg.wrapping_sub(mem);
        self.status.c = reg >= mem;
        self.status.z = reg == mem;
        self.status.n = diff >= 0x80;
        diff
    }

    /// XAA with the magic constant 0: A = A & X & imm.
    pub fn xaa(&mut self, imm: u8)
        ensures
            *final(self) == set_reg_nz(*old(self), Register::A, old(self).accum & old(self).x & imm),
    {
        let val = self.accum & self.x & imm;
        self.accum = val;
        self.set_nz(val);
    }

    /// LAS: A, X and S all become M & S.
    pub fn las(&mut self, arg: u8)
        ensures
            *final(self) == (Cpu {
                accum: arg & old(self).stack,
                x: arg & old(self).stack,
                stack: arg & old(self).stack,
                status: StatusFlags {
                    z: arg & old(self).stack == 0,
                    n: neg(arg & old(self).stack),
                    ..old(self).status
                },
                ..*old(self)
            }),
    {
        let val = arg & self.stack;
        self.accum = val;
        self.x = val;
        self.stack = val;
        self.set_nz(val);
    }

    /// Reads M at `addr` into `reg`, setting N and Z.
    pub fn load(&mut self, reg: Register, addr: u16, bus: &mut MemBus)
        requires
            old(bus).wf(),
            reg != Register::S,
        ensures
            final(bus).wf(),
            final(bus).memory == old(bus).memory,
            extends(old(bus).trace@, final(bus).trace@, 1),
            read_at(final(bus).trace@, old(bus).trace@.len() as int, addr),
            *final(self) == set_reg_nz(*old(self), reg, value(final(bus).trace@, old(bus).trace@.len() as int)),
    {
        let val = bus.read(addr);
        match reg {
            Register::A => self.accum = val,
            Register::X => self.x = val,
            _ => self.y = val,
        }
        self.set_nz(val);
    }

    /// Read-modify-write of INC / DEC: read, write back the old value, write
    /// the new one. Returns the new value.
    pub fn mem_op(&mut self, addr: u16, op: Delta, bus: &mut MemBus) -> (r: u8)
        requires
            old(bus).wf(),
        ensures
            final(bus).wf(),
            extends(old(bus).trace@, final(bus).trace@, 3),
            ({
                let (t, n) = (final(bus).trace@, old(bus).trace@.len() as int);
                &&& read_at(t, n, addr)
                &&& write_at(t, n + 1, addr, value(t, n))
                &&& write_at(t, n + 2, addr, r)
                &&& r == delta_spec(op, value(t, n))
            }),
            *final(self) == (Cpu { status: StatusFlags { z: r == 0, n: neg(r), ..old(self).status }, ..*old(self) }),
    {
        let val = bus.read(addr);
        bus.write(addr, val);
        let val = match op {
            Delta::Inc => val.wrapping_add(1),
            Delta::Dec => val.wrapping_sub(1),
        };
        bus.write(addr, val);
        self.set_nz(val);
        val
    }

    /// A shift or rotate of memory at `arg` (read, dummy write, write) or of
    /// the accumulator. Sets N, Z and C; returns the result.
    pub fn shift_op(&mut self, arg: Option<u16>, kind: ShiftKind, bus: &mut MemBus) -> (r: u8)
        requires
            old(bus).wf(),
        ensures
            final(bus).wf(),
            ({
                let (t, n) = (final(bus).trace@, old(bus).trace@.len() as int);
                let x = if arg is Some { value(t, n) } else { old(self).accum };
                let (res, carry) = shift_spec(kind, x, old(self).status.c);
                &&& r == res
                &&& arg matches Some(a) ==> extends(old(bus).trace@, t, 3) && read_at(t, n, a)
                    && write_at(t, n + 1, a, x) && write_at(t, n + 2, a, r)
                    && *final(self) == (Cpu { status: StatusFlags { z: r == 0, n: neg(r), c: carry, ..old(self).status }, ..*old(self) })
                &&& arg is None ==> extends(old(bus).trace@, t, 0)
                    && *final(self) == (Cpu { accum: r, status: StatusFlags { z: r == 0, n: neg(r), c: carry, ..old(self).status }, ..*old(self) })
            }),
    {
        let c = self.status.c;
        let (val, carry) = match arg {
            Some(addr) => {
                let val = bus.read(addr);
                bus.write(addr, val);
                let (res, carry) = shift(kind, val, c);
                bus.write(addr, res);
                (res, carry)
            },
            None => {
                let (res, carry) = shift(kind, self.accum, c);
                self.accum = res;
                (res, carry)
            },
        };
        self.set_nz(val);
        self.status.c = carry;
        val
    }
}

pub fn shift(kind: ShiftKind, x: u8, c: bool) -> (r: (u8, bool))
    ensures
        r == shift_spec(kind, x, c),
{
    let ci: u8 = if c { 1 } else { 0 };
    match kind {
        ShiftKind::Asl => (((x as u16 * 2) % 256) as u8, x >= 0x80),
        ShiftKind::Lsr => (x / 2, x % 2 == 1),
        ShiftKind::Rol => (((x as u16 * 2 + ci as u16) % 256) as u8, x >= 0x80),
        ShiftKind::Ror => (x / 2 + ci * 128, x % 2 == 1),
        ShiftKind::Arr => (x / 2 + ci * 128, x >= 0x80),
    }
}

/// `reg` set to `v`, with N and Z from `v`.
pub open spec fn set_reg_nz(c: Cpu, reg: Register, v: u8) -> Cpu {
    let s = StatusFlags { z: v == 0, n: neg(v), ..c.status };
    match reg {
        Register::A => Cpu { accum: v, status: s, ..c },
        Register::X => Cpu { x: v, status: s, ..c },
        Register::Y => Cpu { y: v, status: s, ..c },
        Register::S => Cpu { stack: v, status: s, ..c },
    }
}

/// TAX, TAY, TXA, TYA, TSX set N and Z; TXS does not.
pub open spec fn transfer_spec(c: Cpu, src: Register, dst: Register) -> Cpu {
    let v = c.reg_spec(src);
    if dst == Register::S { Cpu { stack: v, ..c } } else { set_reg_nz(c, dst, v) }
}

} // verus!
