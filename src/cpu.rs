//! The 6502 core: registers, status flags and the instruction engine.
use vstd::prelude::*;
use crate::decode::Instruction;

pub mod exec;
pub mod instr;

verus! {

#[derive(Debug, Clone, Copy, PartialEq, Eq, Structural)]
pub struct Cpu {
    pub pc: u16,
    pub stack: u8,
    pub status: StatusFlags,
    pub accum: u8,
    pub x: u8,
    pub y: u8,
}

#[derive(Debug, Copy, Clone, PartialEq, Eq, Structural)]
pub struct StatusFlags {
    pub n: bool,
    pub v: bool,
    pub b: bool,
    pub d: bool,
    pub i: bool,
    pub z: bool,
    pub c: bool,
}

#[derive(Debug, Clone, Copy, PartialEq, Eq, Structural)]
pub enum Register {
    A,
    X,
    Y,
    S,
}

#[derive(Debug, Clone, Copy, PartialEq, Eq, Structural)]
pub enum Error {
    /// An opcode with no implementation, and the address it was fetched from.
    UnknownInstr(Instruction, u16),
}

pub const N: u8 = 0x80;
pub const V: u8 = 0x40;
pub const B: u8 = 0x10;
pub const D: u8 = 0x08;
pub const I: u8 = 0x04;
pub const Z: u8 = 0x02;
pub const C: u8 = 0x01;

pub open spec fn bit_if(f: bool, m: u8) -> u8 {
    if f { m } else { 0 }
}

/// The status byte as pushed with bit 4 (B) given by `b`; bit 5 is always
/// set.
pub open spec fn pushed_byte(s: StatusFlags, b: bool) -> u8 {
    0x20 | bit_if(s.n, N) | bit_if(s.v, V) | bit_if(b, B) | bit_if(s.d, D) | bit_if(s.i, I) | bit_if(
        s.z,
        Z,
    ) | bit_if(s.c, C)
}

/// The status byte: bits 4 and 5 always set.
pub open spec fn flags_byte(s: StatusFlags) -> u8 {
    pushed_byte(s, true)
}

pub open spec fn flags_of(f: u8) -> StatusFlags {
    StatusFlags {
        n: f & N != 0,
        v: f & V != 0,
        b: f & B != 0,
        d: f & D != 0,
        i: f & I != 0,
        z: f & Z != 0,
        c: f & C != 0,
    }
}

/// Sign bit of a byte.
pub open spec fn neg(v: u8) -> bool {
    v >= 0x80
}

pub open spec fn wrap8(v: int) -> u8 {
    (v % 256) as u8
}

pub open spec fn wrap16(v: int) -> u16 {
    (v % 0x10000) as u16
}

/// Address of the stack slot that stack pointer `sp` designates.
pub open spec fn stack_addr(sp: u8) -> u16 {
    (0x0100 + sp) as u16
}

impl StatusFlags {
    pub fn load(&self) -> (r: u8)
        ensures
            r == flags_byte(*self),
    {
        self.pushed(true)
    }

    /// The status byte with bit 4 set to `b`: set by PHP and BRK, clear for
    /// NMI and IRQ.
    pub fn pushed(&self, b: bool) -> (r: u8)
        ensures
            r == pushed_byte(*self, b),
    {
        0x20 | (if self.n { N } else { 0 }) | (if self.v { V } else { 0 }) | (if b { B } else { 0 }) | (
        if self.d {
            D
        } else {
            0
        }) | (if self.i { I } else { 0 }) | (if self.z { Z } else { 0 }) | (if self.c { C } else { 0 })
    }

    pub fn store(flags: u8) -> (r: StatusFlags)
        ensures
            r == flags_of(flags),
    {
        StatusFlags {
            n: flags & N != 0,
            v: flags & V != 0,
            b: flags & B != 0,
            d: flags & D != 0,
            i: flags & I != 0,
            z: flags & Z != 0,
            c: flags & C != 0,
        }
    }

    /// Power-on flags: the byte 0x34, interrupts disabled.
    pub fn default() -> (r: StatusFlags)
        ensures
            r == flags_of(0x34),
            r.i && r.b && !r.n && !r.v && !r.d && !r.z && !r.c,
    {
        proof {
            assert(0x34u8 & 0x04 != 0 && 0x34u8 & 0x10 != 0 && 0x34u8 & 0x80 == 0 && 0x34u8 & 0x40 == 0
                && 0x34u8 & 0x08 == 0 && 0x34u8 & 0x02 == 0 && 0x34u8 & 0x01 == 0) by (bit_vector);
        }
        StatusFlags::store(0x34)
    }
}

/// Loading the status byte and storing it back gives every flag back but
/// B, which comes back set.
pub proof fn lemma_flags_round_trip(s: StatusFlags)
    ensures
        flags_of(flags_byte(s)) == (StatusFlags { b: true, ..s }),
{
    let (n, v, b, d, i, z, c) = (bit_if(s.n, N), bit_if(s.v, V), bit_if(true, B), bit_if(s.d, D), bit_if(s.i, I),
        bit_if(s.z, Z), bit_if(s.c, C));
    assert((n == 0 || n == 0x80) && (v == 0 || v == 0x40) && (b == 0 || b == 0x10) && (d == 0 || d == 0x08)
        && (i == 0 || i == 0x04) && (z == 0 || z == 0x02) && (c == 0 || c == 0x01) ==> {
        let x = 0x20u8 | n | v | b | d | i | z | c;
        &&& (x & 0x80 != 0) == (n != 0)
        &&& (x & 0x40 != 0) == (v != 0)
        &&& (x & 0x10 != 0) == (b != 0)
        &&& (x & 0x08 != 0) == (d != 0)
        &&& (x & 0x04 != 0) == (i != 0)
        &&& (x & 0x02 != 0) == (z != 0)
        &&& (x & 0x01 != 0) == (c != 0)
    }) by (bit_vector);
}

impl Cpu {
    pub open spec fn reg_spec(&self, r: Register) -> u8 {
        match r {
            Register::A => self.accum,
            Register::X => self.x,
            Register::Y => self.y,
            Register::S => self.stack,
        }
    }

    /// Power-on state: SP 0xFD, status 0x34, PC 0 until the reset vector is read.
    pub fn default() -> (r: Cpu)
        ensures
            r.pc == 0 && r.stack == 0xFD && r.accum == 0 && r.x == 0 && r.y == 0,
            r.status == flags_of(0x34),
    {
        Cpu { pc: 0, stack: 0xFD, status: StatusFlags::default(), accum: 0, x: 0, y: 0 }
    }

    pub fn next_pc(&mut self) -> (r: u16)
        ensures
            r == old(self).pc,
            *final(self) == (Cpu { pc: wrap16(old(self).pc + 1), ..*old(self) }),
    {
        let pc = self.pc;
        self.pc = self.pc.wrapping_add(1);
        pc
    }

    pub fn get_pc(&self) -> (r: u16)
        ensures
            r == self.pc,
    {
        self.pc
    }

    pub fn set_pc(&mut self, pc: u16)
        ensures
            *final(self) == (Cpu { pc, ..*old(self) }),
    {
        self.pc = pc;
    }

    /// The stack slot under the stack pointer; always in page 1.
    pub fn peek(&self) -> (r: u16)
        ensures
            r == stack_addr(self.stack),
            0x0100 <= r <= 0x01FF,
    {
        0x0100 + self.stack as u16
    }

    /// The slot to push into; the stack pointer then moves down.
    pub fn push(&mut self) -> (r: u16)
        ensures
            r == stack_addr(old(self).stack),
            0x0100 <= r <= 0x01FF,
            *final(self) == (Cpu { stack: wrap8(old(self).stack - 1), ..*old(self) }),
    {
        let stack = self.peek();
        self.stack = self.stack.wrapping_sub(1);
        stack
    }

    /// The slot under the stack pointer; the stack pointer then moves up.
    pub fn pop(&mut self) -> (r: u16)
        ensures
            r == stack_addr(old(self).stack),
            0x0100 <= r <= 0x01FF,
            *final(self) == (Cpu { stack: wrap8(old(self).stack + 1), ..*old(self) }),
    {
        let stack = self.peek();
        self.stack = self.stack.wrapping_add(1);
        stack
    }

    pub fn set_pcl(&mut self, pcl: u8)
        ensures
            *final(self) == (Cpu { pc: ((old(self).pc / 256) * 256 + pcl) as u16, ..*old(self) }),
    {
        self.pc = (self.pc / 256) * 256 + pcl as u16;
    }

    pub fn set_pch(&mut self, pch: u8)
        ensures
            *final(self) == (Cpu { pc: (pch * 256 + old(self).pc % 256) as u16, ..*old(self) }),
    {
        self.pc = pch as u16 * 256 + self.pc % 256;
    }

    /// Z and N from `val`.
    pub fn set_nz(&mut self, val: u8)
        ensures
            *final(self) == (Cpu {
                status: StatusFlags { z: val == 0, n: neg(val), ..old(self).status },
                ..*old(self)
            }),
    {
        self.status.z = val == 0;
        self.status.n = val >= 0x80;
    }
}

} // verus!
