//! The console: a CPU and the bus it drives.
use vstd::prelude::*;
use crate::bus::MemBus;
use crate::cpu::{Cpu, Error, flags_of};
use crate::bus::Access;
use crate::cpu::exec::{Step, effect_post, step_post, halt_spec, halt_len};
use crate::cpu::instr::{read_at, value};
use crate::decode::decode_spec;
use crate::cpu::instr::word;
use crate::ines::Rom;
use crate::memory::Cartridge;

verus! {

/// The transactions `t` end with a halting instruction, run from `c`
/// (the final CPU state, with PC at that instruction): a jump to its own
/// address or a taken branch to itself, whose transactions are all reads.
pub open spec fn ends_in_halt(t: Seq<Access>, c: Cpu) -> bool {
    exists|n: int|
        0 <= n < t.len() && #[trigger] halt_spec(Cpu { pc: t[n]->Read_0, ..c }, t, n) && read_at(t, n, t[n]->Read_0)
            && t.len() == n + halt_len(decode_spec(value(t, n))) && forall|j: int| n <= j < t.len() ==> #[trigger] t[j] is Read
}

pub struct Nes {
    pub cpu: Cpu,
    pub bus: MemBus,
}

impl Nes {
    pub open spec fn wf(&self) -> bool {
        self.bus.wf()
    }

    /// Powers on with the cartridge of `rom`; PC comes from the reset
    /// vector at 0xFFFC (low) and 0xFFFD (high).
    pub fn new(rom: &Rom) -> (r: Nes)
        requires
            rom.wf(),
        ensures
            r.wf(),
            r.bus.cartridge.built_from(rom),
            r.cpu.pc == word(r.bus.cartridge.get_spec(0xFFFC), r.bus.cartridge.get_spec(0xFFFD)),
            r.cpu.stack == 0xFD,
            r.cpu.status == flags_of(0x34),
            r.cpu.accum == 0 && r.cpu.x == 0 && r.cpu.y == 0,
            r.bus.cycles == 0,
    {
        let mut cpu = Cpu::default();
        let bus = MemBus::new(Cartridge::from_rom(rom));
        let low = bus.peek(0xfffc);
        let high = bus.peek(0xfffd);
        cpu.set_pc(high as u16 * 256 + low as u16);
        Nes { cpu, bus }
    }

    /// One instruction, or one interrupt sequence.
    pub fn step(&mut self) -> (r: Result<Step, Error>)
        requires
            old(self).wf(),
        ensures
            final(self).wf(),
            step_post(old(self).cpu, old(self).bus, final(self).bus.trace@, r),
            effect_post(
                old(self).cpu,
                old(self).bus.ram(),
                old(self).bus.trace@.len() as int,
                final(self).cpu,
                final(self).bus.ram(),
                final(self).bus.trace@,
                r,
            ),
    {
        self.cpu.step(&mut self.bus)
    }

    /// Runs until the program jumps or branches to itself (`Ok`), or meets
    /// an opcode with no implementation (`Err`, naming it and its address,
    /// the last byte read). Also returns `Ok` after 2^64 - 1 steps without a
    /// halt, by which time at least that many bus cycles have passed.
    pub fn run(&mut self) -> (r: Result<(), Error>)
        requires
            old(self).wf(),
        ensures
            final(self).wf(),
            ({
                let t = final(self).bus.trace@;
                &&& r is Ok ==> ends_in_halt(t, final(self).cpu) || t.len() >= old(self).bus.trace@.len() + u64::MAX
                &&& r matches Err(Error::UnknownInstr(i, pc)) ==> i.op_code is Unofficial && read_at(
                    t,
                    t.len() - 1,
                    pc,
                ) && i == decode_spec(value(t, t.len() - 1))
            }),
    {
        let ghost start = self.bus.trace@.len();
        let mut budget: u64 = u64::MAX;
        while budget > 0
            invariant
                self.wf(),
                self.bus.trace@.len() >= start + (u64::MAX - budget),
            decreases budget,
        {
            let ghost c0 = self.cpu;
            let ghost b0 = self.bus;
            let r = self.cpu.step(&mut self.bus);
            proof {
                match r {
                    Ok(Step::Executed { instr, crossed, taken }) => {
                        crate::cpu::exec::lemma_cycles_positive(instr, crossed, taken);
                    },
                    _ => {},
                }
            }
            match r {
                Ok(Step::Halted) => {
                    proof {
                        let t = self.bus.trace@;
                        let n = b0.trace@.len() as int;
                        assert(Cpu { pc: t[n]->Read_0, ..self.cpu } == c0);
                        assert(halt_spec(Cpu { pc: t[n]->Read_0, ..self.cpu }, t, n));
                    }
                    return Ok(());
                },
                Ok(_) => {},
                Err(e) => {
                    return Err(e);
                },
            }
            budget = budget - 1;
        }
        Ok(())
    }

    pub fn set_pc(&mut self, pc: u16)
        ensures
            final(self).cpu == (Cpu { pc, ..old(self).cpu }),
            final(self).bus == old(self).bus,
    {
        self.cpu.set_pc(pc);
    }

    /// A diagnostic read of CPU address `addr`: no effect on any device.
    pub fn get_mem(&self, addr: u16) -> (r: u8)
        requires
            self.wf(),
        ensures
            addr <= 0x1fff ==> r == self.bus.ram()[addr as int % 0x800],
            addr >= 0x4020 ==> r == self.bus.cartridge.get_spec(addr),
            0x2000 <= addr <= 0x3fff ==> r == self.bus.ppu.port_value((addr % 8) as u8),
            addr == 0x4015 ==> r == self.bus.apu.get_status_spec(),
            0x4000 <= addr < 0x4020 && addr != 0x4015 ==> r == 0,
    {
        self.bus.peek(addr)
    }
}

} // verus!
