//! The CPU's memory bus. Each access is one CPU cycle: the access itself,
//! an APU clock on even cycles, then three PPU dots.
use vstd::prelude::*;
use crate::audio::Apu;
use crate::memory::{Cartridge, SysMemory};
use crate::ppu::Vram;
use crate::ppu::render::{FrameBuffer, VOp, next_pos};
use crate::audio::next_counter;

verus! {

/// One bus transaction, as the CPU saw it.
pub enum Access {
    Read(u16, u8),
    Write(u16, u8),
}

pub struct MemBus {
    pub cartridge: Cartridge,
    pub memory: SysMemory,
    pub apu: Apu,
    pub ppu: Vram,
    pub renderer: FrameBuffer,
    /// CPU cycles so far, modulo 2^64.
    pub cycles: u64,
    /// An NMI edge from the PPU that the CPU has not yet taken.
    pub nmi: bool,
    /// Every transaction so far, oldest first.
    pub trace: Ghost<Seq<Access>>,
}

/// The renderer position `k` dots after (`line`, `dot`).
pub open spec fn pos_after(line: i16, dot: u16, k: nat) -> (i16, u16)
    decreases k,
{
    if k == 0 {
        (line, dot)
    } else {
        let p = pos_after(line, dot, (k - 1) as nat);
        next_pos(p.0, p.1)
    }
}

impl MemBus {
    pub open spec fn wf(&self) -> bool {
        &&& self.cartridge.wf()
        &&& self.memory.wf()
        &&& self.ppu.wf()
        &&& self.renderer.wf()
    }

    pub open spec fn ram(&self) -> Seq<u8> {
        self.memory.ram@
    }

    pub fn new(cartridge: Cartridge) -> (r: MemBus)
        requires
            cartridge.wf(),
        ensures
            r.wf(),
            r.cartridge == cartridge,
            r.cycles == 0,
            !r.nmi,
            r.trace@ == Seq::<Access>::empty(),
            forall|i: int| 0 <= i < 0x800 ==> r.ram()[i] == 0,
    {
        MemBus {
            cartridge,
            memory: SysMemory::new(),
            apu: Apu::new(),
            ppu: Vram::new(),
            renderer: FrameBuffer::new(),
            cycles: 0,
            nmi: false,
            trace: Ghost(Seq::empty()),
        }
    }

    /// Routes a CPU read: RAM, PPU ports, APU status, cartridge; 0 elsewhere.
    pub fn get(&mut self, idx: u16) -> (r: u8)
        requires
            old(self).wf(),
        ensures
            final(self).wf(),
            final(self).memory == old(self).memory,
            final(self).cartridge == old(self).cartridge,
            final(self).cycles == old(self).cycles,
            final(self).nmi == old(self).nmi,
            final(self).trace == old(self).trace,
            idx <= 0x1fff ==> r == old(self).ram()[idx as int % 0x800],
            idx >= 0x4020 ==> r == old(self).cartridge.get_spec(idx),
            0x2000 <= idx <= 0x3fff ==> r == old(self).ppu.port_value((idx % 8) as u8),
            0x2000 <= idx <= 0x3fff ==> exists|p: Vram, q: (u8, Option<u16>)|
                #[trigger] old(self).ppu.get_cpu_post(p, (idx % 8) as u8, q) && final(self).ppu == match q.1 {
                    Some(a) => Vram { data_bus: p.get_ppu_spec(&old(self).cartridge, a), ..p },
                    None => p,
                },
            !(0x2000 <= idx <= 0x3fff) ==> final(self).ppu == old(self).ppu,
            idx == 0x4015 ==> r == old(self).apu.get_status_spec(),
            0x4000 <= idx < 0x4020 && idx != 0x4015 ==> r == 0,
    {
        if idx <= 0x1fff {
            self.memory.get(idx)
        } else if idx <= 0x3fff {
            let (byte, addr) = self.ppu.get_cpu((idx % 8) as u8);
            let ghost p = self.ppu;
            match addr {
                Some(a) => {
                    self.ppu.data_bus = self.ppu.get_ppu(a, &self.cartridge);
                },
                None => {},
            }
            assert(old(self).ppu.get_cpu_post(p, (idx % 8) as u8, (byte, addr)));
            byte
        } else if idx == 0x4015 {
            self.apu.get_status()
        } else if idx >= 0x4020 {
            self.cartridge.get(idx)
        } else {
            0
        }
    }

    /// What a CPU read would return, with no effect anywhere.
    pub fn peek(&self, idx: u16) -> (r: u8)
        requires
            self.wf(),
        ensures
            idx <= 0x1fff ==> r == self.ram()[idx as int % 0x800],
            idx >= 0x4020 ==> r == self.cartridge.get_spec(idx),
            0x2000 <= idx <= 0x3fff ==> r == self.ppu.port_value((idx % 8) as u8),
            idx == 0x4015 ==> r == self.apu.get_status_spec(),
            0x4000 <= idx < 0x4020 && idx != 0x4015 ==> r == 0,
    {
        if idx <= 0x1fff {
            self.memory.get(idx)
        } else if idx <= 0x3fff {
            self.ppu.peek_cpu((idx % 8) as u8)
        } else if idx == 0x4015 {
            self.apu.get_status()
        } else if idx >= 0x4020 {
            self.cartridge.get(idx)
        } else {
            0
        }
    }

    /// Routes a CPU write: RAM, PPU ports, APU registers, cartridge; ignored
    /// elsewhere.
    pub fn set(&mut self, idx: u16, val: u8)
        requires
            old(self).wf(),
        ensures
            final(self).wf(),
            final(self).cycles == old(self).cycles,
            final(self).nmi == old(self).nmi,
            final(self).trace == old(self).trace,
            idx <= 0x1fff ==> final(self).ram() == old(self).ram().update(idx as int % 0x800, val),
            idx > 0x1fff ==> final(self).ram() == old(self).ram(),
            idx < 0x4020 ==> final(self).cartridge.same_kind(&old(self).cartridge),
            idx <= 0x1fff ==> final(self).cartridge == old(self).cartridge && final(self).ppu == old(self).ppu,
            idx > 0x3fff ==> final(self).ppu == old(self).ppu,
            idx >= 0x4000 && idx < 0x4020 ==> final(self).cartridge == old(self).cartridge,
            !(0x4000 <= idx <= 0x4013 || idx == 0x4015 || idx == 0x4017) ==> final(self).apu == old(self).apu,
            0x2000 <= idx <= 0x3fff ==> exists|p: Vram, a: Option<u16>|
                #[trigger] old(self).ppu.set_cpu_post(p, (idx % 8) as u8, val, a) && {
                    &&& a is None ==> final(self).ppu == p && final(self).cartridge == old(self).cartridge
                    &&& a matches Some(x) ==> {
                        &&& final(self).ppu.registers == p.registers
                        &&& final(self).ppu.oam == p.oam
                        &&& final(self).ppu.palette == p.palette
                        &&& final(self).ppu.data_bus == p.data_bus
                        &&& 0x2000 <= x < 0x3F00 ==> final(self).cartridge == old(self).cartridge
                            && final(self).ppu.get_ppu_spec(&final(self).cartridge, x) == val
                    }
                },
            (0x4000 <= idx <= 0x4013 || idx == 0x4015 || idx == 0x4017) ==> old(self).apu.write_post(
                final(self).apu,
                idx,
                val,
            ),
            idx >= 0x4020 ==> match (old(self).cartridge, final(self).cartridge) {
                (Cartridge::NRom(a), Cartridge::NRom(b)) => a.set_post(b, idx, val),
                (Cartridge::Mmc1(a), Cartridge::Mmc1(b)) => a.set_post(b, idx, val),
                _ => false,
            },
    {
        if idx <= 0x1fff {
            self.memory.set(idx, val);
        } else if idx <= 0x3fff {
            let a = self.ppu.set_cpu((idx % 8) as u8, val);
            let ghost p = self.ppu;
            match a {
                Some(x) => self.ppu.set_ppu(x, val, &mut self.cartridge),
                None => {},
            }
            assert(old(self).ppu.set_cpu_post(p, (idx % 8) as u8, val, a));
        } else if (0x4000 <= idx && idx <= 0x4013) || idx == 0x4015 || idx == 0x4017 {
            self.apu.write(idx, val);
        } else if idx >= 0x4020 {
            self.cartridge.set(idx, val);
        }
    }

    /// The rest of the cycle: the APU on even cycles, then three PPU dots.
    pub fn tick(&mut self)
        requires
            old(self).wf(),
        ensures
            final(self).wf(),
            final(self).memory == old(self).memory,
            final(self).cartridge == old(self).cartridge,
            final(self).trace == old(self).trace,
            final(self).cycles == (old(self).cycles as int + 1) % 0x1_0000_0000_0000_0000,
            old(self).nmi ==> final(self).nmi,
            old(self).cycles % 2 == 0 ==> final(self).apu.counter == next_counter(old(self).apu.counter, old(self).apu.mode),
            old(self).cycles % 2 == 1 ==> final(self).apu == old(self).apu,
            (final(self).renderer.line, final(self).renderer.dot) == pos_after(old(self).renderer.line, old(self).renderer.dot, 3),
            old(self).ppu.registers.control.interrupt && (exists|k: nat|
                k < 3 && #[trigger] pos_after(old(self).renderer.line, old(self).renderer.dot, k) == (241i16, 1u16))
                ==> final(self).nmi,
    {
        if self.cycles % 2 == 0 {
            self.apu.clock();
        }
        let ghost apu_after = self.apu;
        let mut i: u8 = 0;
        while i < 3
            invariant
                0 <= i <= 3,
                self.apu == apu_after,
                (self.renderer.line, self.renderer.dot) == pos_after(old(self).renderer.line, old(self).renderer.dot, i as nat),
                self.ppu.registers.control == old(self).ppu.registers.control,
                forall|k: nat|
                    k < i && #[trigger] pos_after(old(self).renderer.line, old(self).renderer.dot, k) == (241i16, 1u16)
                        && old(self).ppu.registers.control.interrupt ==> self.nmi,
                self.wf(),
                self.memory == old(self).memory,
                self.cartridge == old(self).cartridge,
                self.trace == old(self).trace,
                self.cycles == old(self).cycles,
                old(self).nmi ==> self.nmi,
            decreases 3 - i,
        {
            let op = self.renderer.clock(&mut self.ppu, &self.cartridge);
            if op == VOp::Nmi {
                self.nmi = true;
            }
            i = i + 1;
        }
        self.cycles = self.cycles.wrapping_add(1);
    }

    /// One read cycle.
    pub fn read(&mut self, addr: u16) -> (r: u8)
        requires
            old(self).wf(),
        ensures
            final(self).wf(),
            final(self).trace@ == old(self).trace@.push(Access::Read(addr, r)),
            final(self).memory == old(self).memory,
            final(self).cartridge == old(self).cartridge,
            addr <= 0x1fff ==> r == old(self).ram()[addr as int % 0x800],
            addr >= 0x4020 ==> r == old(self).cartridge.get_spec(addr),
            0x2000 <= addr <= 0x3fff ==> r == old(self).ppu.port_value((addr % 8) as u8),
            addr == 0x4015 ==> r == old(self).apu.get_status_spec(),
    {
        let r = self.get(addr);
        self.tick();
        self.trace = Ghost(self.trace@.push(Access::Read(addr, r)));
        r
    }

    /// One write cycle.
    pub fn write(&mut self, addr: u16, val: u8)
        requires
            old(self).wf(),
        ensures
            final(self).wf(),
            final(self).trace@ == old(self).trace@.push(Access::Write(addr, val)),
            addr <= 0x1fff ==> final(self).ram() == old(self).ram().update(addr as int % 0x800, val),
            addr > 0x1fff ==> final(self).ram() == old(self).ram(),
    {
        self.set(addr, val);
        self.tick();
        self.trace = Ghost(self.trace@.push(Access::Write(addr, val)));
    }
}

/// RAM mirroring: after a write of `v` at `a` (0x0000..=0x1FFF), a read at
/// `b` (0x0000..=0x1FFF) sees `v` when the two agree modulo 0x800, and the
/// former contents otherwise.
pub proof fn lemma_ram_mirror(ram: Seq<u8>, a: u16, b: u16, v: u8)
    requires
        ram.len() == 0x800,
        a <= 0x1fff,
        b <= 0x1fff,
    ensures
        ram.update(a as int % 0x800, v)[b as int % 0x800] == if a as int % 0x800 == b as int % 0x800 {
            v
        } else {
            ram[b as int % 0x800]
        },
{
}

} // verus!
