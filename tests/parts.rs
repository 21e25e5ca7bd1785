use mynes::audio::{Apu, Mode};
use mynes::cpu::{Cpu, StatusFlags};
use mynes::ines::Mirroring;
use mynes::memory::mmc1::{CHRMode, Mirroring as Layout, Mmc1, PRGMode};
use mynes::memory::SysMemory;
use mynes::ppu::loopy::{AddrLatch, AddrReg};
use mynes::ppu::palette::PaletteRam;
use mynes::ppu::regs::Registers;

fn mmc1() -> Mmc1 {
    let mut prg = vec![0u8; 0x4000 * 4];
    for bank in 0..4 {
        prg[bank * 0x4000] = bank as u8;
    }
    Mmc1::new(prg, vec![0u8; 0x2000], Mirroring::Vertical)
}

#[test]
fn mmc1_bank_switch_reset() {
    let mut m = mmc1();
    for v in [0x01, 0x01, 0x01, 0x01, 0x00] {
        m.set(0x8000, v);
    }
    assert_eq!(m.shift, 0);
    assert_eq!(m.count, 0);
    let control = m.settings;
    assert_eq!(control.mirror, Layout::Horizontal);
    assert_eq!(control.prg_mode, PRGMode::FixLast);
    assert_eq!(control.chr_mode, CHRMode::Full);
    m.set(0x8000, 0x80);
    assert_eq!(m.shift, 0);
    assert_eq!(m.count, 0);
    assert_eq!(m.settings, control);
}

#[test]
fn mmc1_partial_shift_then_reset() {
    let mut m = mmc1();
    m.set(0x8000, 0x01);
    m.set(0x8000, 0x01);
    assert_eq!(m.shift, 0b11);
    assert_eq!(m.count, 2);
    m.set(0x9000, 0xFF);
    assert_eq!(m.shift, 0);
    assert_eq!(m.count, 0);
}

#[test]
fn mmc1_prg_bank_select() {
    let mut m = mmc1();
    assert_eq!(m.get(0xC000), 3);
    for v in [0x02, 0x01, 0x00, 0x00, 0x00] {
        m.set(0xE000, v);
    }
    assert_eq!(m.get(0x8000), 2);
    assert_eq!(m.get(0xC000), 3);
}

#[test]
fn mmc1_sram_round_trip() {
    let mut m = mmc1();
    m.set(0x6005, 0x77);
    assert_eq!(m.get(0x6005), 0x77);
    assert_eq!(m.get(0x4000), 0);
}

#[test]
fn stack_slots_stay_in_page_one() {
    let mut cpu = Cpu::default();
    cpu.stack = 0x00;
    assert_eq!(cpu.push(), 0x0100);
    assert_eq!(cpu.stack, 0xFF);
    assert_eq!(cpu.pop(), 0x01FF);
    assert_eq!(cpu.stack, 0x00);
    assert_eq!(cpu.peek(), 0x0100);
}

#[test]
fn status_byte_round_trip() {
    let s = StatusFlags::store(0xC3);
    assert!(s.n && s.v && s.z && s.c && !s.i && !s.d && !s.b);
    assert_eq!(s.load(), 0xF3);
    assert_eq!(StatusFlags::store(0).load(), 0x30);
    assert_eq!(StatusFlags::store(s.load()), StatusFlags { b: true, ..s });
}

#[test]
fn adc_flag_formula() {
    let mut cpu = Cpu::default();
    cpu.accum = 0xD0;
    cpu.status.c = false;
    cpu.adc(0x90);
    assert_eq!(cpu.accum, 0x60);
    assert!(cpu.status.v);
    assert!(cpu.status.c);
    let a = 0xD0u8;
    let m = 0x90u8;
    let r = cpu.accum;
    assert_eq!(cpu.status.v, (a ^ r) & (m ^ r) & 0x80 != 0);
}

#[test]
fn compare_flags() {
    let mut cpu = Cpu::default();
    assert_eq!(cpu.compare(0x10, 0x20), 0xF0);
    assert!(!cpu.status.c && !cpu.status.z && cpu.status.n);
    cpu.compare(0x20, 0x20);
    assert!(cpu.status.c && cpu.status.z);
}

#[test]
fn coarse_y_wraps_at_29_and_31() {
    let mut regs = Registers::default();
    regs.mask = mynes::ppu::regs::Mask::from(0x08);
    // fine Y 7, coarse Y 29, nametable 0
    regs.addr.address = (7 << 12) | (29 << 5);
    regs.increment_scrolly();
    assert_eq!(regs.addr.get_coarse_y(), 0);
    assert_eq!(regs.addr.get_fine_y(), 0);
    assert_eq!(regs.addr.get_nametable(), 2);
    regs.addr.address = (7 << 12) | (30 << 5);
    regs.increment_scrolly();
    assert_eq!(regs.addr.get_coarse_y(), 31);
    regs.addr.address = (7 << 12) | (31 << 5) | (1 << 10);
    regs.increment_scrolly();
    assert_eq!(regs.addr.get_coarse_y(), 0);
    assert_eq!(regs.addr.get_nametable(), 1);
    regs.addr.address = 3 << 12;
    regs.increment_scrolly();
    assert_eq!(regs.addr.get_fine_y(), 4);
}

#[test]
fn coarse_x_wraps_into_next_nametable() {
    let mut regs = Registers::default();
    regs.mask = mynes::ppu::regs::Mask::from(0x18);
    regs.addr.address = 31;
    regs.increment_scrollx();
    assert_eq!(regs.addr.get_coarse_x(), 0);
    assert_eq!(regs.addr.get_nametable(), 1);
}

#[test]
fn rendering_disabled_freezes_address() {
    let mut regs = Registers::default();
    regs.mask = mynes::ppu::regs::Mask::from(0x00);
    assert!(!regs.enabled());
    regs.addr.address = 0x1234;
    regs.increment_scrollx();
    regs.increment_scrolly();
    regs.transfer_x();
    regs.transfer_y();
    assert_eq!(regs.addr.address, 0x1234);
    regs.mask = mynes::ppu::regs::Mask::from(0x08);
    assert!(regs.enabled());
    regs.mask = mynes::ppu::regs::Mask::from(0x10);
    assert!(regs.enabled());
}

#[test]
fn scroll_writes_split_fields() {
    let a = AddrReg::new();
    let a = a.write_scroll(0x7D, mynes::ppu::loopy::Time::Delayed);
    assert_eq!(a.fine_x, 5);
    assert_eq!(a.temp & 0x1F, 15);
    assert_eq!(a.latch, AddrLatch::Low);
    let a = a.write_scroll(0x5E, mynes::ppu::loopy::Time::Delayed);
    assert_eq!((a.temp >> 12) & 7, 6);
    assert_eq!((a.temp >> 5) & 0x1F, 11);
    assert_eq!(a.latch, AddrLatch::High);
    assert_eq!(a.address, 0);
}

#[test]
fn palette_mirrors() {
    let mut p = PaletteRam::default();
    p.write(0x10, 0x21);
    assert_eq!(p.read(0x00), 0x21);
    p.write(0x04, 0x22);
    assert_eq!(p.read(0x14), 0x22);
    p.write(0x11, 0x23);
    assert_eq!(p.read(0x01), 0);
    assert_eq!(p.get_background(0, 3), 0x21);
    assert_eq!(p.get_sprite(1, 0), 0x23);
}

#[test]
fn sys_memory_mirrors() {
    let mut m = SysMemory::new();
    m.set(0x1801, 9);
    assert_eq!(m.get(0x0001), 9);
    assert_eq!(m.get(0x0801), 9);
    assert_eq!(m.get(0x2001), 0);
}

#[test]
fn frame_irq_in_four_step_mode() {
    let mut apu = Apu::new();
    for _ in 0..14913 {
        apu.clock();
    }
    assert_eq!(apu.get_status() & 0x40, 0);
    apu.clock();
    assert_eq!(apu.get_status() & 0x40, 0x40);
    apu.clock();
    assert_eq!(apu.counter, 0);
}

#[test]
fn frame_irq_inhibited() {
    let mut apu = Apu::new();
    apu.write(0x4017, 0x40);
    for _ in 0..14914 {
        apu.clock();
    }
    assert_eq!(apu.get_status() & 0x40, 0);
    apu.write(0x4017, 0x80);
    assert_eq!(apu.mode, Mode::Step5);
}

#[test]
fn mmc1_prg_bank_uses_low_four_bits() {
    let mut prg = vec![0u8; 0x4000 * 16];
    for bank in 0..16 {
        prg[bank * 0x4000] = bank as u8;
    }
    let mut m = Mmc1::new(prg, vec![0u8; 0x2000], Mirroring::Vertical);
    for v in [0x01, 0x01, 0x01, 0x01, 0x00] {
        m.set(0xE000, v);
    }
    assert_eq!(m.get(0x8000), 15);
    assert_eq!(m.get(0xC000), 15);
    for v in [0x00, 0x01, 0x00, 0x00, 0x01] {
        m.set(0xE000, v);
    }
    assert_eq!(m.get(0x8000), 2);
    assert!(m.sram.is_some());
}

#[test]
fn mmc1_battery_ram_starts_zeroed() {
    let m = mmc1();
    assert_eq!(m.get(0x6000), 0);
    assert_eq!(m.get(0x7FFF), 0);
}

#[test]
fn apu_disable_clears_counters() {
    let mut apu = Apu::new();
    apu.write(0x4015, 0x1F);
    apu.write(0x4003, 0x08);
    apu.dmc.bytes = 3;
    assert_eq!(apu.get_status() & 0x11, 0x11);
    apu.write(0x4015, 0x00);
    assert_eq!(apu.get_status() & 0x1F, 0);
    assert!(apu.pulse_1.counter.is_none());
}

#[test]
fn status_bits_follow_enable_bits() {
    let mut apu = Apu::new();
    apu.write(0x4015, 0x08);
    apu.noise.counter = 5;
    apu.triangle.counter = 5;
    assert_eq!(apu.get_status() & 0x0C, 0x08);
    apu.write(0x4015, 0x04);
    apu.triangle.counter = 5;
    assert_eq!(apu.get_status() & 0x0C, 0x04);
}
