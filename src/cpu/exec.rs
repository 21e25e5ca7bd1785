//! Stack, control-flow and interrupt sequences, and the instruction step.
use vstd::prelude::*;
use super::{Cpu, Register, StatusFlags, flags_byte, pushed_byte, flags_of, neg, stack_addr, wrap8, wrap16, lemma_flags_round_trip};
use super::instr::{extends, read_at, reads_match, value, word, write_at, pc_moved, mode_cycles, set_reg_nz,
    transfer_spec, logic_spec, shift_spec, delta_spec, adc_flags, Logic, ShiftKind, Delta};
use super::Error;
use crate::bus::{Access, MemBus};
use crate::decode::{AddressMode, Fix, Instruction, Opcode, decode_spec};

verus! {

/// RAM index of a stack slot.
pub open spec fn slot(sp: u8) -> int {
    stack_addr(sp) as int % 0x800
}

/// Where a taken branch with operand `off` lands, from the address after
/// the operand.
pub open spec fn branch_target(pc1: u16, off: u8) -> u16 {
    ((pc1 + off + 0x10000 - if off >= 0x80 { 256int } else { 0 }) % 0x10000) as u16
}

impl Cpu {
    /// PHA: the accumulator goes to the stack.
    pub fn pha(&mut self, bus: &mut MemBus)
        requires
            old(bus).wf(),
        ensures
            final(bus).wf(),
            extends(old(bus).trace@, final(bus).trace@, 1),
            write_at(final(bus).trace@, old(bus).trace@.len() as int, stack_addr(old(self).stack), old(self).accum),
            final(bus).ram() == old(bus).ram().update(slot(old(self).stack), old(self).accum),
            *final(self) == (Cpu { stack: wrap8(old(self).stack - 1), ..*old(self) }),
    {
        let a = self.push();
        bus.write(a, self.accum);
    }

    /// PHP: the status byte, bits 4 and 5 set, goes to the stack.
    pub fn php(&mut self, bus: &mut MemBus)
        requires
            old(bus).wf(),
        ensures
            final(bus).wf(),
            extends(old(bus).trace@, final(bus).trace@, 1),
            final(bus).ram() == old(bus).ram().update(slot(old(self).stack), flags_byte(old(self).status)),
            *final(self) == (Cpu { stack: wrap8(old(self).stack - 1), ..*old(self) }),
    {
        let a = self.push();
        let flags = self.status.load();
        bus.write(a, flags);
    }

    /// PLA: a dummy read, then the accumulator from the stack; sets N and Z.
    pub fn pla(&mut self, bus: &mut MemBus)
        requires
            old(bus).wf(),
        ensures
            final(bus).wf(),
            final(bus).memory == old(bus).memory,
            extends(old(bus).trace@, final(bus).trace@, 2),
            ({
                let v = old(bus).ram()[slot(wrap8(old(self).stack + 1))];
                *final(self) == (Cpu {
                    accum: v,
                    stack: wrap8(old(self).stack + 1),
                    status: StatusFlags { z: v == 0, n: neg(v), ..old(self).status },
                    ..*old(self)
                })
            }),
    {
        let a = self.pop();
        bus.read(a);
        let b = self.peek();
        let v = bus.read(b);
        self.accum = v;
        self.set_nz(v);
    }

    /// PLP: a dummy read, then the status from the stack, B and bit 5 aside.
    pub fn plp(&mut self, bus: &mut MemBus)
        requires
            old(bus).wf(),
        ensures
            final(bus).wf(),
            final(bus).memory == old(bus).memory,
            extends(old(bus).trace@, final(bus).trace@, 2),
            *final(self) == (Cpu {
                stack: wrap8(old(self).stack + 1),
                status: StatusFlags {
                    b: old(self).status.b,
                    ..flags_of(old(bus).ram()[slot(wrap8(old(self).stack + 1))])
                },
                ..*old(self)
            }),
    {
        let a = self.pop();
        bus.read(a);
        let b = self.peek();
        let v = bus.read(b);
        let keep_b = self.status.b;
        self.status = StatusFlags { b: keep_b, ..StatusFlags::store(v) };
    }

    /// JSR: reads the target's low byte, pushes the address of its high
    /// byte (the return address minus one), high byte first, then reads the
    /// high byte and jumps.
    pub fn jsr(&mut self, bus: &mut MemBus)
        requires
            old(bus).wf(),
        ensures
            final(bus).wf(),
            extends(old(bus).trace@, final(bus).trace@, 5),
            ({
                let (t, n) = (final(bus).trace@, old(bus).trace@.len() as int);
                let ret = wrap16(old(self).pc + 1);
                let s = old(self).stack;
                &&& read_at(t, n, old(self).pc)
                &&& read_at(t, n + 4, ret)
                &&& final(bus).ram() == old(bus).ram().update(slot(s), (ret / 256) as u8).update(
                    slot(wrap8(s - 1)),
                    (ret % 256) as u8,
                )
                &&& *final(self) == (Cpu {
                    pc: word(value(t, n), value(t, n + 4)),
                    stack: wrap8(s - 2),
                    ..*old(self)
                })
            }),
    {
        let new_pcl = self.advance(bus);
        let ret = self.pc;
        let p = self.peek();
        bus.read(p);
        let a = self.push();
        bus.write(a, (ret / 256) as u8);
        let b = self.push();
        bus.write(b, (ret % 256) as u8);
        let new_pch = self.advance(bus);
        self.pc = new_pch as u16 * 256 + new_pcl as u16;
    }

    /// RTS: a dummy read, the return address from the stack, low byte
    /// first, then a read at it to move one past.
    pub fn rts(&mut self, bus: &mut MemBus)
        requires
            old(bus).wf(),
        ensures
            final(bus).wf(),
            final(bus).memory == old(bus).memory,
            extends(old(bus).trace@, final(bus).trace@, 4),
            ({
                let (r, s) = (old(bus).ram(), old(self).stack);
                *final(self) == (Cpu {
                    pc: wrap16(word(r[slot(wrap8(s + 1))], r[slot(wrap8(s + 2))]) + 1),
                    stack: wrap8(s + 2),
                    ..*old(self)
                })
            }),
    {
        let a = self.pop();
        bus.read(a);
        let b = self.pop();
        let pcl = bus.read(b);
        let c = self.peek();
        let pch = bus.read(c);
        self.pc = pch as u16 * 256 + pcl as u16;
        self.advance(bus);
    }

    /// RTI: a dummy read, the status, then the return address (no +1).
    pub fn rti(&mut self, bus: &mut MemBus)
        requires
            old(bus).wf(),
        ensures
            final(bus).wf(),
            final(bus).memory == old(bus).memory,
            extends(old(bus).trace@, final(bus).trace@, 4),
            ({
                let (r, s) = (old(bus).ram(), old(self).stack);
                *final(self) == (Cpu {
                    status: flags_of(r[slot(wrap8(s + 1))]),
                    pc: word(r[slot(wrap8(s + 2))], r[slot(wrap8(s + 3))]),
                    stack: wrap8(s + 3),
                    ..*old(self)
                })
            }),
    {
        let a = self.pop();
        bus.read(a);
        let b = self.pop();
        let st = bus.read(b);
        self.status = StatusFlags::store(st);
        let c = self.pop();
        let pcl = bus.read(c);
        let d = self.peek();
        let pch = bus.read(d);
        self.pc = pch as u16 * 256 + pcl as u16;
    }

    /// Pushes the program counter, high byte first, then the status byte
    /// with B as given; loads the program counter from `vector`; sets I.
    fn enter_handler(&mut self, vector: u16, b: bool, bus: &mut MemBus)
        requires
            old(bus).wf(),
            vector == 0xFFFA || vector == 0xFFFE,
        ensures
            final(bus).wf(),
            extends(old(bus).trace@, final(bus).trace@, 5),
            ({
                let (t, n, s, pc) = (final(bus).trace@, old(bus).trace@.len() as int, old(self).stack, old(self).pc);
                &&& write_at(t, n, stack_addr(s), (pc / 256) as u8)
                &&& write_at(t, n + 1, stack_addr(wrap8(s - 1)), (pc % 256) as u8)
                &&& write_at(t, n + 2, stack_addr(wrap8(s - 2)), pushed_byte(old(self).status, b))
                &&& read_at(t, n + 3, vector)
                &&& read_at(t, n + 4, (vector + 1) as u16)
                &&& *final(self) == (Cpu {
                    pc: word(value(t, n + 3), value(t, n + 4)),
                    stack: wrap8(s - 3),
                    status: StatusFlags { i: true, ..old(self).status },
                    ..*old(self)
                })
            }),
    {
        let pc = self.pc;
        let a = self.push();
        bus.write(a, (pc / 256) as u8);
        let b2 = self.push();
        bus.write(b2, (pc % 256) as u8);
        let c = self.push();
        let flags = self.status.pushed(b);
        bus.write(c, flags);
        let lo = bus.read(vector);
        let hi = bus.read(vector + 1);
        self.pc = hi as u16 * 256 + lo as u16;
        self.status.i = true;
    }

    /// BRK: skips the padding byte, pushes PC and the status with B set,
    /// jumps through 0xFFFE.
    pub fn brk(&mut self, bus: &mut MemBus)
        requires
            old(bus).wf(),
        ensures
            final(bus).wf(),
            extends(old(bus).trace@, final(bus).trace@, 5),
            ({
                let (t, n) = (final(bus).trace@, old(bus).trace@.len() as int);
                &&& read_at(t, n + 3, 0xFFFE)
                &&& read_at(t, n + 4, 0xFFFF)
                &&& final(self).pc == word(value(t, n + 3), value(t, n + 4))
                &&& final(self).stack == wrap8(old(self).stack - 3)
                &&& final(self).status == StatusFlags { i: true, ..old(self).status }
            }),
    {
        self.pc = self.pc.wrapping_add(1);
        self.enter_handler(0xFFFE, true, bus);
    }

    /// An NMI (vector 0xFFFA) or IRQ (0xFFFE): two dummy reads at PC, then
    /// PC and the status (B clear) pushed; seven cycles.
    pub fn interrupt(&mut self, vector: u16, bus: &mut MemBus)
        requires
            old(bus).wf(),
            vector == 0xFFFA || vector == 0xFFFE,
        ensures
            final(bus).wf(),
            extends(old(bus).trace@, final(bus).trace@, 7),
            ({
                let (t, n, s, pc) = (final(bus).trace@, old(bus).trace@.len() as int, old(self).stack, old(self).pc);
                &&& read_at(t, n, pc)
                &&& read_at(t, n + 1, pc)
                &&& write_at(t, n + 2, stack_addr(s), (pc / 256) as u8)
                &&& write_at(t, n + 3, stack_addr(wrap8(s - 1)), (pc % 256) as u8)
                &&& write_at(t, n + 4, stack_addr(wrap8(s - 2)), pushed_byte(old(self).status, false))
                &&& read_at(t, n + 5, vector)
                &&& read_at(t, n + 6, (vector + 1) as u16)
                &&& *final(self) == (Cpu {
                    pc: word(value(t, n + 5), value(t, n + 6)),
                    stack: wrap8(s - 3),
                    status: StatusFlags { i: true, ..old(self).status },
                    ..*old(self)
                })
            }),
    {
        bus.read(self.pc);
        bus.read(self.pc);
        self.enter_handler(vector, false, bus);
    }

    /// A conditional branch. Reads the offset; when `cond` holds, a branch
    /// to itself (offset -2) reports a halt; any other taken branch spends a
    /// cycle, and one more when the target is on another page. Returns
    /// (halt, taken, crossed).
    #[verifier::rlimit(60)]
    pub fn branch(&mut self, cond: bool, bus: &mut MemBus) -> (r: (bool, bool, bool))
        requires
            old(bus).wf(),
        ensures
            final(bus).wf(),
            final(bus).memory == old(bus).memory,
            ({
                let (t, n) = (final(bus).trace@, old(bus).trace@.len() as int);
                let off = value(t, n);
                let pc1 = wrap16(old(self).pc + 1);
                let target = branch_target(pc1, off);
                &&& read_at(t, n, old(self).pc)
                &&& !cond ==> r == (false, false, false) && extends(old(bus).trace@, t, 1)
                    && pc_moved(*old(self), *final(self), 1)
                &&& cond && off == 0xFE ==> r == (true, true, false) && extends(old(bus).trace@, t, 1)
                    && pc_moved(*old(self), *final(self), 1)
                &&& cond && off != 0xFE ==> {
                    &&& !r.0 && r.1
                    &&& r.2 == (target / 256 != pc1 / 256)
                    &&& extends(old(bus).trace@, t, 2 + if r.2 { 1int } else { 0 })
                    &&& read_at(t, n + 1, pc1)
                    &&& r.2 ==> read_at(t, n + 2, ((pc1 / 256) * 256 + target % 256) as u16)
                    &&& *final(self) == (Cpu { pc: target, ..*old(self) })
                }
            }),
    {
        let offset = self.advance(bus);
        let pc1 = self.pc;
        if cond {
            if offset == 0xFE {
                return (true, true, false);
            }
            bus.read(pc1);
            let target: u16 = if offset >= 0x80 {
                pc1.wrapping_add(offset as u16).wrapping_sub(256)
            } else {
                pc1.wrapping_add(offset as u16)
            };
            let crossed = target / 256 != pc1 / 256;
            if crossed {
                bus.read((pc1 / 256) * 256 + target % 256);
            }
            self.pc = target;
            (false, true, crossed)
        } else {
            (false, false, false)
        }
    }

    /// SXA / SYA: stores X (or Y) masked by the target's high byte plus one;
    /// on a page cross that value also replaces the high byte of the address.
    pub fn sra(&mut self, reg: Register, bus: &mut MemBus)
        requires
            old(bus).wf(),
            reg == Register::X || reg == Register::Y,
        ensures
            final(bus).wf(),
            extends(old(bus).trace@, final(bus).trace@, 4),
            pc_moved(*old(self), *final(self), 2),
            ({
                let (t, n) = (final(bus).trace@, old(bus).trace@.len() as int);
                let (lo, hi) = (value(t, n), value(t, n + 1));
                let (src, mask) = if reg == Register::X { (old(self).y, old(self).x) } else { (old(self).x, old(self).y) };
                let v = wrap8(hi + 1) & mask;
                let high = if lo + src > 255 { v } else { hi };
                &&& read_at(t, n + 2, word(wrap8(lo + src), hi))
                &&& write_at(t, n + 3, word(wrap8(lo + src), high), v)
            }),
    {
        let low = self.advance(bus);
        let high = self.advance(bus);
        let (src, mask) = if reg == Register::X { (self.y, self.x) } else { (self.x, self.y) };
        let sum = low as u16 + src as u16;
        let effective_low = (sum % 256) as u8;
        let high_offset = high.wrapping_add(1) & mask;
        bus.read(high as u16 * 256 + effective_low as u16);
        let effective_high = if sum > 255 { high_offset } else { high };
        bus.write(effective_high as u16 * 256 + effective_low as u16, high_offset);
    }

    /// TAS: S = A & X, and S & (high byte + 1) is stored.
    pub fn tas(&mut self, addr: u16, bus: &mut MemBus)
        requires
            old(bus).wf(),
        ensures
            final(bus).wf(),
            extends(old(bus).trace@, final(bus).trace@, 1),
            ({
                let v = wrap8(addr / 256 + 1) & old(self).accum & old(self).x;
                &&& write_at(final(bus).trace@, old(bus).trace@.len() as int, addr, v)
                &&& *final(self) == (Cpu { stack: v, ..*old(self) })
            }),
    {
        let val = ((addr / 256 + 1) % 256) as u8 & self.accum & self.x;
        bus.write(addr, val);
        self.stack = val;
    }

    /// AHX: stores A & X & (high byte + 1).
    pub fn ahx(&mut self, addr: u16, bus: &mut MemBus)
        requires
            old(bus).wf(),
        ensures
            final(bus).wf(),
            extends(old(bus).trace@, final(bus).trace@, 1),
            write_at(final(bus).trace@, old(bus).trace@.len() as int, addr,
                wrap8(addr / 256 + 1) & old(self).accum & old(self).x),
            *final(self) == *old(self),
    {
        let val = ((addr / 256 + 1) % 256) as u8 & self.accum & self.x;
        bus.write(addr, val);
    }
}

/// Opcodes that read one operand byte at the effective address.
pub open spec fn is_read_op(op: Opcode) -> bool {
    match op {
        Opcode::ORA | Opcode::AND | Opcode::EOR | Opcode::ADC | Opcode::SBC | Opcode::CMP | Opcode::CPX
        | Opcode::CPY | Opcode::LDA | Opcode::LDX | Opcode::LDY | Opcode::BIT | Opcode::LAX | Opcode::NOPConsume
        | Opcode::ANC | Opcode::ALR | Opcode::ARR | Opcode::AXS | Opcode::XAA | Opcode::LAS => true,
        _ => false,
    }
}

/// Opcodes that write one byte at the effective address.
pub open spec fn is_write_op(op: Opcode) -> bool {
    match op {
        Opcode::STA | Opcode::STX | Opcode::STY | Opcode::SAX | Opcode::AHX | Opcode::TAS => true,
        _ => false,
    }
}

/// Read-modify-write opcodes on memory.
pub open spec fn is_rmw_op(op: Opcode, mode: AddressMode) -> bool {
    match op {
        Opcode::ASL | Opcode::LSR | Opcode::ROL | Opcode::ROR => mode != AddressMode::Implicit,
        Opcode::INC | Opcode::DEC | Opcode::SLO | Opcode::SRE | Opcode::RLA | Opcode::RRA | Opcode::DCP
        | Opcode::ISB => true,
        _ => false,
    }
}

pub open spec fn is_branch(op: Opcode) -> bool {
    match op {
        Opcode::BPL | Opcode::BMI | Opcode::BVC | Opcode::BVS | Opcode::BCC | Opcode::BCS | Opcode::BNE
        | Opcode::BEQ => true,
        _ => false,
    }
}

/// Whether the branch `op` is taken under `s`.
pub open spec fn branch_cond(op: Opcode, s: StatusFlags) -> bool {
    match op {
        Opcode::BPL => !s.n,
        Opcode::BMI => s.n,
        Opcode::BVC => !s.v,
        Opcode::BVS => s.v,
        Opcode::BCC => !s.c,
        Opcode::BCS => s.c,
        Opcode::BNE => !s.z,
        _ => s.z,
    }
}

/// Bus cycles an operation spends after its address is resolved.
pub open spec fn op_cycles(op: Opcode, mode: AddressMode, taken: bool, crossed: bool) -> int {
    if is_read_op(op) || is_write_op(op) {
        1
    } else if is_rmw_op(op, mode) {
        3
    } else if is_branch(op) {
        1 + (if taken { 1int } else { 0 }) + (if taken && crossed { 1int } else { 0 })
    } else {
        match op {
            Opcode::PHA | Opcode::PHP => 1,
            Opcode::PLA | Opcode::PLP => 2,
            Opcode::JSR | Opcode::BRK => 5,
            Opcode::RTS | Opcode::RTI | Opcode::SXA | Opcode::SYA => 4,
            _ => 0,
        }
    }
}

/// Cycles of an instruction: the opcode fetch, the addressing mode's
/// cycles, and the operation's. For a branch, `crossed` is whether the
/// target lies on another page.
pub open spec fn documented_cycles(instr: Instruction, crossed: bool, taken: bool) -> int {
    1 + (if is_branch(instr.op_code) { 0 } else { mode_cycles(instr.addr_mode, crossed) })
        + op_cycles(instr.op_code, instr.addr_mode, taken, crossed)
}

/// The CPU after ADC of `m`.
pub open spec fn adc_spec(c: Cpu, m: u8) -> Cpu {
    let r = wrap8(c.accum + m + if c.status.c { 1int } else { 0 });
    Cpu { accum: r, status: adc_flags(c.status, c.accum, m, c.status.c, r), ..c }
}

/// The CPU after comparing `reg` with `m`.
pub open spec fn compare_spec(c: Cpu, reg: u8, m: u8) -> Cpu {
    Cpu { status: StatusFlags { c: reg >= m, z: reg == m, n: neg(wrap8(reg - m + 256)), ..c.status }, ..c }
}

/// The CPU after a shift of the accumulator.
pub open spec fn shift_acc_spec(c: Cpu, kind: ShiftKind) -> Cpu {
    let (r, carry) = shift_spec(kind, c.accum, c.status.c);
    Cpu { accum: r, status: StatusFlags { z: r == 0, n: neg(r), c: carry, ..c.status }, ..c }
}

/// Effect on the CPU of a read operation whose operand is `m`.
pub open spec fn read_op_spec(op: Opcode, c: Cpu, m: u8) -> Cpu {
    match op {
        Opcode::LDA => set_reg_nz(c, Register::A, m),
        Opcode::LDX => set_reg_nz(c, Register::X, m),
        Opcode::LDY => set_reg_nz(c, Register::Y, m),
        Opcode::LAX => set_reg_nz(set_reg_nz(c, Register::A, m), Register::X, m),
        Opcode::ORA => set_reg_nz(c, Register::A, c.accum | m),
        Opcode::AND => set_reg_nz(c, Register::A, c.accum & m),
        Opcode::EOR => set_reg_nz(c, Register::A, c.accum ^ m),
        Opcode::ADC => adc_spec(c, m),
        Opcode::SBC => adc_spec(c, !m),
        Opcode::CMP => compare_spec(c, c.accum, m),
        Opcode::CPX => compare_spec(c, c.x, m),
        Opcode::CPY => compare_spec(c, c.y, m),
        Opcode::BIT => Cpu {
            status: StatusFlags { z: m & c.accum == 0, v: m & 0x40 != 0, n: neg(m), ..c.status },
            ..c
        },
        Opcode::ANC => {
            let a = set_reg_nz(c, Register::A, c.accum & m);
            Cpu { status: StatusFlags { c: a.status.n, ..a.status }, ..a }
        },
        Opcode::ALR => shift_acc_spec(set_reg_nz(c, Register::A, c.accum & m), ShiftKind::Lsr),
        Opcode::ARR => {
            let a = shift_acc_spec(set_reg_nz(c, Register::A, c.accum & m), ShiftKind::Arr);
            Cpu { status: StatusFlags { v: (a.accum / 64) % 2 != (a.accum / 32) % 2, ..a.status }, ..a }
        },
        Opcode::AXS => {
            let a = compare_spec(c, c.accum & c.x, m);
            Cpu { x: wrap8((c.accum & c.x) - m + 256), ..a }
        },
        Opcode::XAA => set_reg_nz(c, Register::A, c.accum & c.x & m),
        Opcode::LAS => {
            let v = m & c.stack;
            Cpu { accum: v, x: v, stack: v, status: StatusFlags { z: v == 0, n: neg(v), ..c.status }, ..c }
        },
        _ => c,
    }
}

/// The byte a write operation stores at `addr`.
pub open spec fn write_val_spec(op: Opcode, c: Cpu, addr: u16) -> u8 {
    match op {
        Opcode::STA => c.accum,
        Opcode::STX => c.x,
        Opcode::STY => c.y,
        Opcode::SAX => c.accum & c.x,
        _ => wrap8(addr / 256 + 1) & c.accum & c.x,
    }
}

/// The value a read-modify-write operation writes back, from `m`.
pub open spec fn rmw_val_spec(op: Opcode, c: Cpu, m: u8) -> u8 {
    match op {
        Opcode::ASL | Opcode::SLO => shift_spec(ShiftKind::Asl, m, c.status.c).0,
        Opcode::LSR | Opcode::SRE => shift_spec(ShiftKind::Lsr, m, c.status.c).0,
        Opcode::ROL | Opcode::RLA => shift_spec(ShiftKind::Rol, m, c.status.c).0,
        Opcode::ROR | Opcode::RRA => shift_spec(ShiftKind::Ror, m, c.status.c).0,
        Opcode::INC | Opcode::ISB => delta_spec(Delta::Inc, m),
        _ => delta_spec(Delta::Dec, m),
    }
}

/// Effect on the CPU of a read-modify-write operation whose operand is `m`.
pub open spec fn rmw_op_spec(op: Opcode, c: Cpu, m: u8) -> Cpu {
    let w = rmw_val_spec(op, c, m);
    let nz = StatusFlags { z: w == 0, n: neg(w), ..c.status };
    let kind = match op {
        Opcode::ASL | Opcode::SLO => ShiftKind::Asl,
        Opcode::LSR | Opcode::SRE => ShiftKind::Lsr,
        Opcode::ROL | Opcode::RLA => ShiftKind::Rol,
        _ => ShiftKind::Ror,
    };
    let shifted = Cpu { status: StatusFlags { c: shift_spec(kind, m, c.status.c).1, ..nz }, ..c };
    match op {
        Opcode::INC | Opcode::DEC => Cpu { status: nz, ..c },
        Opcode::ASL | Opcode::LSR | Opcode::ROL | Opcode::ROR => shifted,
        Opcode::SLO => set_reg_nz(shifted, Register::A, c.accum | w),
        Opcode::SRE => set_reg_nz(shifted, Register::A, c.accum ^ w),
        Opcode::RLA => set_reg_nz(shifted, Register::A, c.accum & w),
        Opcode::RRA => adc_spec(shifted, w),
        Opcode::DCP => compare_spec(Cpu { status: nz, ..c }, c.accum, w),
        _ => adc_spec(Cpu { status: nz, ..c }, !w),
    }
}

/// Effect of an operation that touches no memory.
pub open spec fn implied_spec(op: Opcode, c: Cpu) -> Cpu {
    let s = c.status;
    match op {
        Opcode::CLC => Cpu { status: StatusFlags { c: false, ..s }, ..c },
        Opcode::CLD => Cpu { status: StatusFlags { d: false, ..s }, ..c },
        Opcode::CLI => Cpu { status: StatusFlags { i: false, ..s }, ..c },
        Opcode::CLV => Cpu { status: StatusFlags { v: false, ..s }, ..c },
        Opcode::SEC => Cpu { status: StatusFlags { c: true, ..s }, ..c },
        Opcode::SED => Cpu { status: StatusFlags { d: true, ..s }, ..c },
        Opcode::SEI => Cpu { status: StatusFlags { i: true, ..s }, ..c },
        Opcode::TAX => transfer_spec(c, Register::A, Register::X),
        Opcode::TAY => transfer_spec(c, Register::A, Register::Y),
        Opcode::TXA => transfer_spec(c, Register::X, Register::A),
        Opcode::TYA => transfer_spec(c, Register::Y, Register::A),
        Opcode::TSX => transfer_spec(c, Register::S, Register::X),
        Opcode::TXS => transfer_spec(c, Register::X, Register::S),
        Opcode::INX => set_reg_nz(c, Register::X, delta_spec(Delta::Inc, c.x)),
        Opcode::INY => set_reg_nz(c, Register::Y, delta_spec(Delta::Inc, c.y)),
        Opcode::DEX => set_reg_nz(c, Register::X, delta_spec(Delta::Dec, c.x)),
        Opcode::DEY => set_reg_nz(c, Register::Y, delta_spec(Delta::Dec, c.y)),
        Opcode::ASL => shift_acc_spec(c, ShiftKind::Asl),
        Opcode::LSR => shift_acc_spec(c, ShiftKind::Lsr),
        Opcode::ROL => shift_acc_spec(c, ShiftKind::Rol),
        Opcode::ROR => shift_acc_spec(c, ShiftKind::Ror),
        _ => c,
    }
}

impl Cpu {
    /// A read operation: one read of the operand at `addr`.
    pub fn exec_read(&mut self, op: Opcode, addr: u16, bus: &mut MemBus)
        requires
            old(bus).wf(),
            is_read_op(op),
        ensures
            final(bus).wf(),
            final(bus).memory == old(bus).memory,
            extends(old(bus).trace@, final(bus).trace@, 1),
            read_at(final(bus).trace@, old(bus).trace@.len() as int, addr),
            *final(self) == read_op_spec(op, *old(self), value(final(bus).trace@, old(bus).trace@.len() as int)),
    {
        let m = bus.read(addr);
        self.apply_read(op, m);
    }

    /// The effect of a read operation once its operand `m` is known.
    pub fn apply_read(&mut self, op: Opcode, m: u8)
        ensures
            *final(self) == read_op_spec(op, *old(self), m),
    {
        match op {
            Opcode::LDA => { self.accum = m; self.set_nz(m); },
            Opcode::LDX => { self.x = m; self.set_nz(m); },
            Opcode::LDY => { self.y = m; self.set_nz(m); },
            Opcode::LAX => {
                self.accum = m;
                self.set_nz(m);
                self.transfer(Register::A, Register::X);
            },
            Opcode::ORA => self.bin_op(m, Logic::Or),
            Opcode::AND => self.bin_op(m, Logic::And),
            Opcode::EOR => self.bin_op(m, Logic::Xor),
            Opcode::ADC => self.adc(m),
            Opcode::SBC => self.adc(!m),
            Opcode::CMP => { let a = self.accum; self.compare(a, m); },
            Opcode::CPX => { let x = self.x; self.compare(x, m); },
            Opcode::CPY => { let y = self.y; self.compare(y, m); },
            Opcode::BIT => self.bit_test(m),
            Opcode::ANC | Opcode::ALR | Opcode::ARR | Opcode::AXS | Opcode::XAA | Opcode::LAS => {
                self.apply_unofficial_read(op, m)
            },
            _ => {},
        }
    }

    /// Unofficial read operations.
    fn apply_unofficial_read(&mut self, op: Opcode, m: u8)
        requires
            op == Opcode::ANC || op == Opcode::ALR || op == Opcode::ARR || op == Opcode::AXS || op
                == Opcode::XAA || op == Opcode::LAS,
        ensures
            *final(self) == read_op_spec(op, *old(self), m),
    {
        match op {
            Opcode::ANC => {
                self.bin_op(m, Logic::And);
                self.status.c = self.status.n;
            },
            Opcode::ALR => {
                self.bin_op(m, Logic::And);
                self.shift_acc(ShiftKind::Lsr);
            },
            Opcode::ARR => {
                self.bin_op(m, Logic::And);
                self.shift_acc(ShiftKind::Arr);
                let val = self.accum;
                self.status.v = (val / 64) % 2 != (val / 32) % 2;
            },
            Opcode::AXS => {
                let ax = self.accum & self.x;
                self.x = self.compare(ax, m);
            },
            Opcode::XAA => self.xaa(m),
            Opcode::LAS => self.las(m),
            _ => {},
        }
    }

    /// A write operation: one write at `addr`.
    pub fn exec_write(&mut self, op: Opcode, addr: u16, bus: &mut MemBus)
        requires
            old(bus).wf(),
            is_write_op(op),
        ensures
            final(bus).wf(),
            extends(old(bus).trace@, final(bus).trace@, 1),
            write_at(final(bus).trace@, old(bus).trace@.len() as int, addr, write_val_spec(op, *old(self), addr)),
            op == Opcode::TAS ==> *final(self) == (Cpu { stack: write_val_spec(op, *old(self), addr), ..*old(self) }),
            op != Opcode::TAS ==> *final(self) == *old(self),
    {
        match op {
            Opcode::STA => bus.write(addr, self.accum),
            Opcode::STX => bus.write(addr, self.x),
            Opcode::STY => bus.write(addr, self.y),
            Opcode::SAX => bus.write(addr, self.accum & self.x),
            Opcode::AHX => self.ahx(addr, bus),
            _ => self.tas(addr, bus),
        }
    }

    /// A read-modify-write operation: read, write back the old value,
    /// write the new one.
    pub fn exec_rmw(&mut self, op: Opcode, mode: AddressMode, addr: u16, bus: &mut MemBus)
        requires
            old(bus).wf(),
            is_rmw_op(op, mode),
        ensures
            final(bus).wf(),
            extends(old(bus).trace@, final(bus).trace@, 3),
            ({
                let (t, n) = (final(bus).trace@, old(bus).trace@.len() as int);
                let m = value(t, n);
                &&& read_at(t, n, addr)
                &&& write_at(t, n + 1, addr, m)
                &&& write_at(t, n + 2, addr, rmw_val_spec(op, *old(self), m))
                &&& *final(self) == rmw_op_spec(op, *old(self), m)
            }),
    {
        match op {
            Opcode::ASL => { self.shift_op(Some(addr), ShiftKind::Asl, bus); },
            Opcode::LSR => { self.shift_op(Some(addr), ShiftKind::Lsr, bus); },
            Opcode::ROL => { self.shift_op(Some(addr), ShiftKind::Rol, bus); },
            Opcode::ROR => { self.shift_op(Some(addr), ShiftKind::Ror, bus); },
            Opcode::INC => { self.mem_op(addr, Delta::Inc, bus); },
            Opcode::DEC => { self.mem_op(addr, Delta::Dec, bus); },
            Opcode::SLO => {
                let v = self.shift_op(Some(addr), ShiftKind::Asl, bus);
                self.bin_op(v, Logic::Or);
            },
            Opcode::SRE => {
                let v = self.shift_op(Some(addr), ShiftKind::Lsr, bus);
                self.bin_op(v, Logic::Xor);
            },
            Opcode::RLA => {
                let v = self.shift_op(Some(addr), ShiftKind::Rol, bus);
                self.bin_op(v, Logic::And);
            },
            Opcode::RRA => {
                let v = self.shift_op(Some(addr), ShiftKind::Ror, bus);
                self.adc(v);
            },
            Opcode::DCP => {
                let v = self.mem_op(addr, Delta::Dec, bus);
                let a = self.accum;
                self.compare(a, v);
            },
            _ => {
                let v = self.mem_op(addr, Delta::Inc, bus);
                self.adc(!v);
            },
        }
    }

    /// An operation that touches no memory.
    pub fn exec_implied(&mut self, op: Opcode)
        ensures
            *final(self) == implied_spec(op, *old(self)),
    {
        match op {
            Opcode::CLC => self.status.c = false,
            Opcode::CLD => self.status.d = false,
            Opcode::CLI => self.status.i = false,
            Opcode::CLV => self.status.v = false,
            Opcode::SEC => self.status.c = true,
            Opcode::SED => self.status.d = true,
            Opcode::SEI => self.status.i = true,
            Opcode::TAX => self.transfer(Register::A, Register::X),
            Opcode::TAY => self.transfer(Register::A, Register::Y),
            Opcode::TXA => self.transfer(Register::X, Register::A),
            Opcode::TYA => self.transfer(Register::Y, Register::A),
            Opcode::TSX => self.transfer(Register::S, Register::X),
            Opcode::TXS => self.transfer(Register::X, Register::S),
            Opcode::INX => self.reg_op(Register::X, Delta::Inc),
            Opcode::INY => self.reg_op(Register::Y, Delta::Inc),
            Opcode::DEX => self.reg_op(Register::X, Delta::Dec),
            Opcode::DEY => self.reg_op(Register::Y, Delta::Dec),
            Opcode::ASL => self.shift_acc(ShiftKind::Asl),
            Opcode::LSR => self.shift_acc(ShiftKind::Lsr),
            Opcode::ROL => self.shift_acc(ShiftKind::Rol),
            Opcode::ROR => self.shift_acc(ShiftKind::Ror),
            _ => {},
        }
    }

    /// A shift of the accumulator.
    pub fn shift_acc(&mut self, kind: ShiftKind)
        ensures
            *final(self) == shift_acc_spec(*old(self), kind),
    {
        let (r, carry) = super::instr::shift(kind, self.accum, self.status.c);
        self.accum = r;
        self.set_nz(r);
        self.status.c = carry;
    }
}

/// Every branch opcode has the manual addressing mode.
proof fn lemma_branch_mode(op: u8)
    ensures
        is_branch(decode_spec(op).op_code) ==> decode_spec(op).addr_mode == AddressMode::Manual,
{
}

/// Operations that touch neither memory nor the stack.
pub open spec fn is_implied_op(op: Opcode, mode: AddressMode) -> bool {
    match op {
        Opcode::CLC | Opcode::CLD | Opcode::CLI | Opcode::CLV | Opcode::SEC | Opcode::SED | Opcode::SEI
        | Opcode::TAX | Opcode::TAY | Opcode::TXA | Opcode::TYA | Opcode::TSX | Opcode::TXS | Opcode::INX
        | Opcode::INY | Opcode::DEX | Opcode::DEY | Opcode::NOP => true,
        Opcode::ASL | Opcode::LSR | Opcode::ROL | Opcode::ROR => mode == AddressMode::Implicit,
        _ => false,
    }
}

/// Operand bytes that follow the opcode in addressing mode `mode`.
pub open spec fn operand_len(mode: AddressMode) -> int {
    match mode {
        AddressMode::Implicit | AddressMode::Manual => 0,
        AddressMode::Absolute | AddressMode::AbsoluteX(_) | AddressMode::AbsoluteY(_) | AddressMode::Indirect => 2,
        _ => 1,
    }
}

/// The CPU with PC past the opcode and the operand bytes of `mode`.
pub open spec fn after_operands(c: Cpu, mode: AddressMode) -> Cpu {
    Cpu { pc: wrap16(c.pc + 1 + operand_len(mode)), ..c }
}

/// What a step from `c0` on bus `b0` guarantees, given the transactions `t`
/// that the bus then holds and the result `r`: an interrupt sequence when one
/// is due; otherwise the opcode read at PC, an error exactly for opcodes
/// with no implementation, and the documented cycle count.
pub open spec fn step_post(c0: Cpu, b0: MemBus, t: Seq<Access>, r: Result<Step, Error>) -> bool {
    let (t0, n) = (b0.trace@, b0.trace@.len() as int);
    let instr = decode_spec(value(t, n));
    let irq = b0.apu.frame_int && !c0.status.i;
    &&& b0.nmi || irq ==> r == Ok::<Step, Error>(Step::Interrupt) && extends(t0, t, 7)
        && read_at(t, n + 5, if b0.nmi { 0xFFFAu16 } else { 0xFFFEu16 })
    &&& !b0.nmi && !irq ==> {
        &&& read_at(t, n, c0.pc)
        &&& instr.op_code is Unofficial <==> r is Err
        &&& instr.op_code is Unofficial ==> r == Err::<Step, Error>(Error::UnknownInstr(instr, c0.pc))
            && extends(t0, t, 1)
        &&& r matches Ok(Step::Executed { instr: i, crossed, taken }) ==> i == instr
            && extends(t0, t, documented_cycles(i, crossed, taken))
        &&& r == Ok::<Step, Error>(Step::Halted) ==> instr.op_code == Opcode::JMP || is_branch(instr.op_code)
        &&& (r == Ok::<Step, Error>(Step::Halted) <==> halt_spec(c0, t, n))
        &&& r == Ok::<Step, Error>(Step::Halted) ==> extends(t0, t, halt_len(instr))
        &&& r == Ok::<Step, Error>(Step::Halted) ==> forall|j: int| n <= j < t.len() ==> #[trigger] t[j] is Read
        &&& reads_match(t, n, n + 1, b0)
        &&& r matches Ok(Step::Executed { instr: i, crossed, .. }) ==> !is_branch(i.op_code) ==> reads_match(
            t,
            n + 1,
            n + 1 + mode_cycles(i.addr_mode, crossed),
            b0,
        )
        &&& r == Ok::<Step, Error>(Step::Halted) && instr.op_code == Opcode::JMP ==> reads_match(t, n, t.len() as int, b0)
        &&& r != Ok::<Step, Error>(Step::Interrupt)
    }
}

/// The CPU after an instruction whose opcode is transaction `n` of `t`, with
/// RAM `ram0` before and `ram1` after. A halt moves only PC. Otherwise,
/// from the state past its operand
/// bytes, a read operation applies its operand (the last byte read), a
/// read-modify-write operation the byte it read first, an implied one
/// nothing but itself.
pub open spec fn effect_post(c0: Cpu, ram0: Seq<u8>, n: int, c1: Cpu, ram1: Seq<u8>, t: Seq<Access>, r: Result<Step, Error>) -> bool {
    &&& r == Ok::<Step, Error>(Step::Halted) ==> c1 == (Cpu { pc: c1.pc, ..c0 })
    &&& r matches Ok(Step::Executed { instr: i, taken, .. }) ==> {
        let c = after_operands(c0, i.addr_mode);
        let op = i.op_code;
        &&& is_read_op(op) ==> c1 == read_op_spec(op, c, value(t, t.len() - 1))
        &&& !is_read_op(op) && is_rmw_op(op, i.addr_mode) ==> c1 == rmw_op_spec(op, c, value(t, t.len() - 3))
        &&& is_implied_op(op, i.addr_mode) ==> c1 == implied_spec(op, c)
        &&& is_write_op(op) ==> write_post(op, c, c1, t)
        &&& control_post(op, c, ram0, c1, ram1, t)
        &&& op == Opcode::JMP ==> c1 == (Cpu { pc: jmp_target(i.addr_mode, t, n), ..c })
        &&& is_branch(op) ==> {
            let pc2 = wrap16(c0.pc + 2);
            c1 == (Cpu { pc: if taken { branch_target(pc2, value(t, n + 1)) } else { pc2 }, ..c0 })
        }
    }
}

/// A branch from `c` (PC at its offset byte, read at `i` of `t`): a taken
/// branch to itself halts; otherwise PC goes to the target when the
/// condition holds, past the offset when it does not.
pub open spec fn branch_post(op: Opcode, c: Cpu, c1: Cpu, t: Seq<Access>, i: int, r: Result<Step, Error>) -> bool {
    let off = value(t, i);
    let pc1 = wrap16(c.pc + 1);
    let cond = branch_cond(op, c.status);
    &&& read_at(t, i, c.pc)
    &&& (r == Ok::<Step, Error>(Step::Halted) <==> cond && off == 0xFE)
    &&& r == Ok::<Step, Error>(Step::Halted) ==> t.len() == i + 1
    &&& r matches Ok(Step::Executed { taken, .. }) ==> taken == cond && c1 == (Cpu {
        pc: if cond { branch_target(pc1, off) } else { pc1 },
        ..c
    })
}

/// A store: the last transaction of `t` writes the operation's value;
/// only TAS changes a register.
pub open spec fn write_post(op: Opcode, c: Cpu, c1: Cpu, t: Seq<Access>) -> bool {
    let k = t.len() - 1;
    let a = t[k]->Write_0;
    &&& t[k] == Access::Write(a, write_val_spec(op, c, a))
    &&& c1 == if op == Opcode::TAS { Cpu { stack: write_val_spec(op, c, a), ..c } } else { c }
}

/// Stack and subroutine operations from `c` (PC past the opcode and any
/// operand bytes already read), with RAM `ram0` before and `ram1` after.
pub open spec fn control_post(op: Opcode, c: Cpu, ram0: Seq<u8>, c1: Cpu, ram1: Seq<u8>, t: Seq<Access>) -> bool {
    let (s, k) = (c.stack, t.len());
    match op {
        Opcode::PHA => c1 == (Cpu { stack: wrap8(s - 1), ..c }) && ram1 == ram0.update(slot(s), c.accum),
        Opcode::PHP => c1 == (Cpu { stack: wrap8(s - 1), ..c }) && ram1 == ram0.update(slot(s), flags_byte(c.status)),
        Opcode::PLA => {
            let v = ram0[slot(wrap8(s + 1))];
            c1 == (Cpu {
                accum: v,
                stack: wrap8(s + 1),
                status: StatusFlags { z: v == 0, n: neg(v), ..c.status },
                ..c
            })
        },
        Opcode::PLP => c1 == (Cpu {
            stack: wrap8(s + 1),
            status: StatusFlags { b: c.status.b, ..flags_of(ram0[slot(wrap8(s + 1))]) },
            ..c
        }),
        Opcode::JSR => {
            let ret = wrap16(c.pc + 1);
            &&& c1 == (Cpu { pc: word(value(t, k - 5), value(t, k - 1)), stack: wrap8(s - 2), ..c })
            &&& ram1 == ram0.update(slot(s), (ret / 256) as u8).update(slot(wrap8(s - 1)), (ret % 256) as u8)
        },
        Opcode::RTS => c1 == (Cpu {
            pc: wrap16(word(ram0[slot(wrap8(s + 1))], ram0[slot(wrap8(s + 2))]) + 1),
            stack: wrap8(s + 2),
            ..c
        }),
        Opcode::RTI => c1 == (Cpu {
            status: flags_of(ram0[slot(wrap8(s + 1))]),
            pc: word(ram0[slot(wrap8(s + 2))], ram0[slot(wrap8(s + 3))]),
            stack: wrap8(s + 3),
            ..c
        }),
        Opcode::BRK => {
            &&& read_at(t, k - 2, 0xFFFE)
            &&& read_at(t, k - 1, 0xFFFF)
            &&& c1.pc == word(value(t, k - 2), value(t, k - 1))
            &&& c1.stack == wrap8(s - 3)
            &&& c1.status == (StatusFlags { i: true, ..c.status })
        },
        _ => true,
    }
}

/// Where a JMP in mode `mode` goes, from the reads that follow the opcode
/// read at `n` of `t`.
pub open spec fn jmp_target(mode: AddressMode, t: Seq<Access>, n: int) -> u16 {
    if mode == AddressMode::Indirect {
        word(value(t, n + 3), value(t, n + 4))
    } else {
        word(value(t, n + 1), value(t, n + 2))
    }
}

/// The instruction whose opcode was read at `n` of `t`, run from `c0`, is a
/// jump to its own address or a taken branch to itself.
pub open spec fn halt_spec(c0: Cpu, t: Seq<Access>, n: int) -> bool {
    let i = decode_spec(value(t, n));
    ||| i.op_code == Opcode::JMP && jmp_target(i.addr_mode, t, n) == c0.pc
    ||| is_branch(i.op_code) && branch_cond(i.op_code, c0.status) && value(t, n + 1) == 0xFE
}

/// Transactions of a halting instruction: a branch reads its opcode and
/// offset; a jump reads its opcode and its addressing mode's bytes.
pub open spec fn halt_len(i: Instruction) -> int {
    if is_branch(i.op_code) { 2 } else { 1 + mode_cycles(i.addr_mode, false) }
}

/// Every instruction takes at least its opcode fetch.
pub proof fn lemma_cycles_positive(instr: Instruction, crossed: bool, taken: bool)
    ensures
        documented_cycles(instr, crossed, taken) >= 1,
{
}

/// JMP has the absolute or the indirect mode.
proof fn lemma_jmp_mode(op: u8)
    ensures
        decode_spec(op).op_code == Opcode::JMP ==> decode_spec(op).addr_mode == AddressMode::Absolute
            || decode_spec(op).addr_mode == AddressMode::Indirect,
{
}

/// What one step of the CPU did.
#[derive(Debug, Clone, Copy, PartialEq, Eq, Structural)]
pub enum Step {
    /// An instruction ran; `crossed` is the page-cross of its indexed access
    /// (of its target, for a branch) and `taken` whether a branch was taken.
    Executed { instr: Instruction, crossed: bool, taken: bool },
    /// An NMI or IRQ sequence ran instead of an instruction.
    Interrupt,
    /// A jump or a taken branch to itself: the program has finished.
    Halted,
}

pub fn is_read_code(op: Opcode) -> (r: bool)
    ensures
        r == is_read_op(op),
{
    matches!(op, Opcode::ORA | Opcode::AND | Opcode::EOR | Opcode::ADC | Opcode::SBC | Opcode::CMP
        | Opcode::CPX | Opcode::CPY | Opcode::LDA | Opcode::LDX | Opcode::LDY | Opcode::BIT | Opcode::LAX
        | Opcode::NOPConsume | Opcode::ANC | Opcode::ALR | Opcode::ARR | Opcode::AXS | Opcode::XAA | Opcode::LAS)
}

pub fn is_write_code(op: Opcode) -> (r: bool)
    ensures
        r == is_write_op(op),
{
    matches!(op, Opcode::STA | Opcode::STX | Opcode::STY | Opcode::SAX | Opcode::AHX | Opcode::TAS)
}

pub fn is_rmw_code(op: Opcode, mode: AddressMode) -> (r: bool)
    ensures
        r == is_rmw_op(op, mode),
{
    match op {
        Opcode::ASL | Opcode::LSR | Opcode::ROL | Opcode::ROR => mode != AddressMode::Implicit,
        Opcode::INC | Opcode::DEC | Opcode::SLO | Opcode::SRE | Opcode::RLA | Opcode::RRA | Opcode::DCP
        | Opcode::ISB => true,
        _ => false,
    }
}

impl Cpu {
    /// Runs one instruction, or the interrupt sequence when an NMI edge is
    /// pending, or an IRQ is raised while I is clear.
    #[verifier::rlimit(100)]
    pub fn step(&mut self, bus: &mut MemBus) -> (r: Result<Step, Error>)
        requires
            old(bus).wf(),
        ensures
            final(bus).wf(),
            step_post(*old(self), *old(bus), final(bus).trace@, r),
            effect_post(
                *old(self),
                old(bus).ram(),
                old(bus).trace@.len() as int,
                *final(self),
                final(bus).ram(),
                final(bus).trace@,
                r,
            ),
    {
        if bus.nmi {
            bus.nmi = false;
            self.interrupt(0xFFFA, bus);
            return Ok(Step::Interrupt);
        }
        if bus.apu.frame_int && !self.status.i {
            self.interrupt(0xFFFE, bus);
            return Ok(Step::Interrupt);
        }
        let old_pc = self.pc;
        let op = self.advance(bus);
        let instr = Instruction::decode(op);
        match instr.op_code {
            Opcode::Unofficial(_) => {
                return Err(Error::UnknownInstr(instr, old_pc));
            },
            _ => {},
        }
        self.operate(instr, old_pc, bus)
    }

    /// An implemented instruction whose opcode, at `old_pc`, was the last
    /// transaction: its addressing mode, then its operation.
    #[verifier::rlimit(100)]
    fn operate(&mut self, instr: Instruction, old_pc: u16, bus: &mut MemBus) -> (r: Result<Step, Error>)
        requires
            old(bus).wf(),
            !(instr.op_code is Unofficial),
            old(bus).trace@.len() >= 1,
            read_at(old(bus).trace@, old(bus).trace@.len() - 1, old_pc),
            instr == decode_spec(value(old(bus).trace@, old(bus).trace@.len() - 1)),
            old(self).pc == wrap16(old_pc + 1),
        ensures
            final(bus).wf(),
            ({
                let (t1, t, n) = (old(bus).trace@, final(bus).trace@, old(bus).trace@.len() - 1);
                let c0 = Cpu { pc: old_pc, ..*old(self) };
                &&& extends(t1, t, t.len() - t1.len())
                &&& r is Ok
                &&& r != Ok::<Step, Error>(Step::Interrupt)
                &&& r matches Ok(Step::Executed { instr: i, crossed, taken }) ==> i == instr && t.len() == n
                    + documented_cycles(i, crossed, taken)
                &&& (r == Ok::<Step, Error>(Step::Halted) <==> halt_spec(c0, t, n))
                &&& r == Ok::<Step, Error>(Step::Halted) ==> t.len() == n + halt_len(instr)
                &&& r == Ok::<Step, Error>(Step::Halted) ==> forall|j: int| n <= j < t.len() ==> #[trigger] t[j] is Read
                &&& effect_post(c0, old(bus).ram(), n, *final(self), final(bus).ram(), t, r)
                &&& r matches Ok(Step::Executed { instr: i, crossed, .. }) ==> !is_branch(i.op_code) ==> reads_match(
                    t,
                    n + 1,
                    n + 1 + mode_cycles(i.addr_mode, crossed),
                    *old(bus),
                )
                &&& r == Ok::<Step, Error>(Step::Halted) && instr.op_code == Opcode::JMP ==> reads_match(
                    t,
                    n + 1,
                    t.len() as int,
                    *old(bus),
                )
            }),
    {
        proof {
            lemma_branch_mode(value(old(bus).trace@, old(bus).trace@.len() - 1));
            lemma_jmp_mode(value(old(bus).trace@, old(bus).trace@.len() - 1));
        }
        let (addr, crossed) = self.fetch_address(instr.addr_mode, bus);
        proof {
            let c0 = Cpu { pc: old_pc, ..*old(self) };
            let k = operand_len(instr.addr_mode);
            assert(wrap16(wrap16(old_pc + 1) + k) == wrap16(old_pc + 1 + k));
            assert(*self == after_operands(c0, instr.addr_mode));
        }
        self.execute(instr, addr, crossed, old_pc, bus)
    }

    /// The operation of `instr`, once its operand address is resolved.
    #[verifier::rlimit(60)]
    fn execute(&mut self, instr: Instruction, addr: Option<u16>, crossed: bool, old_pc: u16, bus: &mut MemBus) -> (r: Result<Step, Error>)
        requires
            old(bus).wf(),
            !(instr.op_code is Unofficial),
        ensures
            final(bus).wf(),
            final(bus).trace@.len() >= old(bus).trace@.len(),
            extends(old(bus).trace@, final(bus).trace@, final(bus).trace@.len() - old(bus).trace@.len()),
            r is Ok,
            r != Ok::<Step, Error>(Step::Interrupt),
            r matches Ok(Step::Executed { instr: i, crossed: c, taken }) ==> i == instr && extends(
                old(bus).trace@,
                final(bus).trace@,
                op_cycles(instr.op_code, instr.addr_mode, taken, c),
            ) && (!is_branch(instr.op_code) ==> c == crossed),
            r == Ok::<Step, Error>(Step::Halted) ==> instr.op_code == Opcode::JMP || is_branch(instr.op_code),
            r == Ok::<Step, Error>(Step::Halted) ==> *final(self) == (Cpu { pc: final(self).pc, ..*old(self) }),
            is_read_op(instr.op_code) ==> *final(self) == read_op_spec(
                instr.op_code,
                *old(self),
                value(final(bus).trace@, old(bus).trace@.len() as int),
            ),
            !is_read_op(instr.op_code) && is_rmw_op(instr.op_code, instr.addr_mode) ==> *final(self)
                == rmw_op_spec(instr.op_code, *old(self), value(final(bus).trace@, old(bus).trace@.len() as int)),
            is_implied_op(instr.op_code, instr.addr_mode) ==> *final(self) == implied_spec(instr.op_code, *old(self)),
            instr.op_code == Opcode::JMP ==> {
                &&& (r == Ok::<Step, Error>(Step::Halted) <==> addr == Some(old_pc))
                &&& r == Ok::<Step, Error>(Step::Halted) ==> final(bus).trace@ == old(bus).trace@
                &&& r != Ok::<Step, Error>(Step::Halted) ==> *final(self) == (Cpu {
                    pc: match addr {
                        Some(a) => a,
                        None => old(self).pc,
                    },
                    ..*old(self)
                })
            },
            is_branch(instr.op_code) ==> branch_post(
                instr.op_code,
                *old(self),
                *final(self),
                final(bus).trace@,
                old(bus).trace@.len() as int,
                r,
            ),
            is_write_op(instr.op_code) ==> write_post(instr.op_code, *old(self), *final(self), final(bus).trace@),
            control_post(instr.op_code, *old(self), old(bus).ram(), *final(self), final(bus).ram(), final(bus).trace@),
    {
        let code = instr.op_code;
        let mode = instr.addr_mode;
        let a = match addr {
            Some(a) => a,
            None => self.pc,
        };
        let done = Ok(Step::Executed { instr, crossed, taken: false });
        if is_read_code(code) {
            self.exec_read(code, a, bus);
            return done;
        }
        if is_write_code(code) {
            self.exec_write(code, a, bus);
            return done;
        }
        if is_rmw_code(code, mode) {
            self.exec_rmw(code, mode, a, bus);
            return done;
        }
        match code {
            Opcode::JMP => {
                if let Some(target) = addr {
                    if target == old_pc {
                        return Ok(Step::Halted);
                    }
                }
                self.pc = a;
            },
            Opcode::JSR => self.jsr(bus),
            Opcode::BRK => self.brk(bus),
            Opcode::RTS => self.rts(bus),
            Opcode::RTI => self.rti(bus),
            Opcode::PHA => self.pha(bus),
            Opcode::PHP => self.php(bus),
            Opcode::PLA => self.pla(bus),
            Opcode::PLP => self.plp(bus),
            Opcode::SXA => self.sra(Register::X, bus),
            Opcode::SYA => self.sra(Register::Y, bus),
            Opcode::BPL | Opcode::BMI | Opcode::BVC | Opcode::BVS | Opcode::BCC | Opcode::BCS | Opcode::BNE
            | Opcode::BEQ => {
                let s = self.status;
                let cond = match code {
                    Opcode::BPL => !s.n,
                    Opcode::BMI => s.n,
                    Opcode::BVC => !s.v,
                    Opcode::BVS => s.v,
                    Opcode::BCC => !s.c,
                    Opcode::BCS => s.c,
                    Opcode::BNE => !s.z,
                    _ => s.z,
                };
                let (halt, taken, page) = self.branch(cond, bus);
                if halt {
                    return Ok(Step::Halted);
                }
                return Ok(Step::Executed { instr, crossed: page, taken });
            },
            _ => self.exec_implied(code),
        }
        done
    }
}

/// PHA then PLA, with the stack pointer and the pushed slot untouched in
/// between, gives the accumulator and the stack pointer back, with N and Z
/// set from the accumulator. `r0`..`r2` are the RAM contents.
pub proof fn lemma_pha_pla(c0: Cpu, r0: Seq<u8>, c1: Cpu, r1: Seq<u8>, c2: Cpu, r2: Seq<u8>, c3: Cpu)
    requires
        r0.len() == 0x800,
        r1 == r0.update(slot(c0.stack), c0.accum),
        c1 == (Cpu { stack: wrap8(c0.stack - 1), ..c0 }),
        c2.stack == c1.stack,
        r2[slot(wrap8(c2.stack + 1))] == r1[slot(wrap8(c2.stack + 1))],
        ({
            let v = r2[slot(wrap8(c2.stack + 1))];
            c3 == (Cpu {
                accum: v,
                stack: wrap8(c2.stack + 1),
                status: StatusFlags { z: v == 0, n: neg(v), ..c2.status },
                ..c2
            })
        }),
    ensures
        c3.accum == c0.accum,
        c3.stack == c0.stack,
        c3.status.z == (c0.accum == 0),
        c3.status.n == neg(c0.accum),
{
}

/// PHP then PLP, with the stack pointer, the pushed slot and the flags
/// untouched in between, gives every flag back (B is never loaded).
pub proof fn lemma_php_plp(c0: Cpu, r0: Seq<u8>, c1: Cpu, r1: Seq<u8>, c2: Cpu, r2: Seq<u8>, c3: Cpu)
    requires
        r0.len() == 0x800,
        r1 == r0.update(slot(c0.stack), flags_byte(c0.status)),
        c1 == (Cpu { stack: wrap8(c0.stack - 1), ..c0 }),
        c2.stack == c1.stack,
        c2.status == c1.status,
        r2[slot(wrap8(c2.stack + 1))] == r1[slot(wrap8(c2.stack + 1))],
        c3 == (Cpu {
            stack: wrap8(c2.stack + 1),
            status: StatusFlags { b: c2.status.b, ..flags_of(r2[slot(wrap8(c2.stack + 1))]) },
            ..c2
        }),
    ensures
        c3.status == c0.status,
        c3.stack == c0.stack,
{
    lemma_flags_round_trip(c0.status);
}

/// JSR, then anything that leaves the stack pointer and the two pushed
/// slots alone, then RTS: execution resumes after the JSR (its operand
/// address `c0.pc` plus two) with the stack pointer as before.
pub proof fn lemma_jsr_rts(c0: Cpu, r0: Seq<u8>, c1: Cpu, r1: Seq<u8>, c2: Cpu, r2: Seq<u8>, c3: Cpu)
    requires
        r0.len() == 0x800,
        ({
            let ret = wrap16(c0.pc + 1);
            r1 == r0.update(slot(c0.stack), (ret / 256) as u8).update(slot(wrap8(c0.stack - 1)), (ret % 256) as u8)
        }),
        c1.stack == wrap8(c0.stack - 2),
        c2.stack == c1.stack,
        r2[slot(wrap8(c2.stack + 1))] == r1[slot(wrap8(c2.stack + 1))],
        r2[slot(wrap8(c2.stack + 2))] == r1[slot(wrap8(c2.stack + 2))],
        c3.pc == wrap16(word(r2[slot(wrap8(c2.stack + 1))], r2[slot(wrap8(c2.stack + 2))]) + 1),
        c3.stack == wrap8(c2.stack + 2),
    ensures
        c3.pc == wrap16(c0.pc + 2),
        c3.stack == c0.stack,
{
    let s = c0.stack;
    assert(wrap8(wrap8(s - 2) + 1) == wrap8(s - 1));
    assert(wrap8(wrap8(s - 2) + 2) == s);
    assert(slot(s) != slot(wrap8(s - 1)));
}

/// The cycle counts that `documented_cycles` gives, as the familiar 6502
/// timing table: loads and other reads 2 (immediate), 3 (zero page), 4
/// (zero page indexed, absolute), 4 + page cross (absolute indexed), 6
/// ((zp,X)), 5 + page cross ((zp),Y); stores one more on indexed modes;
/// read-modify-write 5, 6, 6, 7; implied 2; PHA/PHP 3, PLA/PLP 4; JSR, RTS,
/// RTI 6; BRK 7; JMP 3 or 5; branches 2, 3 when taken, 4 across a page.
pub proof fn lemma_cycle_table(instr: Instruction, crossed: bool, taken: bool)
    ensures
        ({
            let (op, mode) = (instr.op_code, instr.addr_mode);
            let n = documented_cycles(instr, crossed, taken);
            let x: int = if crossed { 1 } else { 0 };
            &&& is_read_op(op) ==> {
                &&& mode == AddressMode::Immediate ==> n == 2
                &&& mode == AddressMode::ZeroPage ==> n == 3
                &&& (mode == AddressMode::ZeroPageX || mode == AddressMode::ZeroPageY || mode
                    == AddressMode::Absolute) ==> n == 4
                &&& (mode == AddressMode::AbsoluteX(Fix::Conditional) || mode == AddressMode::AbsoluteY(
                    Fix::Conditional,
                )) ==> n == 4 + x
                &&& mode == AddressMode::IndexedIndirect ==> n == 6
                &&& mode == AddressMode::IndirectIndexed(Fix::Conditional) ==> n == 5 + x
            }
            &&& is_write_op(op) ==> {
                &&& mode == AddressMode::ZeroPage ==> n == 3
                &&& (mode == AddressMode::ZeroPageX || mode == AddressMode::ZeroPageY || mode
                    == AddressMode::Absolute) ==> n == 4
                &&& (mode == AddressMode::AbsoluteX(Fix::Always) || mode == AddressMode::AbsoluteY(Fix::Always))
                    ==> n == 5
                &&& (mode == AddressMode::IndexedIndirect || mode == AddressMode::IndirectIndexed(Fix::Always))
                    ==> n == 6
            }
            &&& !is_read_op(op) && is_rmw_op(op, mode) ==> {
                &&& mode == AddressMode::ZeroPage ==> n == 5
                &&& (mode == AddressMode::ZeroPageX || mode == AddressMode::Absolute) ==> n == 6
                &&& mode == AddressMode::AbsoluteX(Fix::Always) ==> n == 7
            }
            &&& is_implied_op(op, mode) && mode == AddressMode::Implicit ==> n == 2
            &&& (op == Opcode::PHA || op == Opcode::PHP) && mode == AddressMode::Implicit ==> n == 3
            &&& (op == Opcode::PLA || op == Opcode::PLP) && mode == AddressMode::Implicit ==> n == 4
            &&& op == Opcode::JSR && mode == AddressMode::Manual ==> n == 6
            &&& (op == Opcode::RTS || op == Opcode::RTI) && mode == AddressMode::Implicit ==> n == 6
            &&& op == Opcode::BRK && mode == AddressMode::Implicit ==> n == 7
            &&& op == Opcode::JMP && mode == AddressMode::Absolute ==> n == 3
            &&& op == Opcode::JMP && mode == AddressMode::Indirect ==> n == 5
            &&& is_branch(op) ==> n == 2 + (if taken { 1int } else { 0 }) + (if taken && crossed { 1int } else { 0 })
        }),
{
}

} // verus!
