use mynes::ines::Mirroring;
use mynes::memory::mmc1::Mmc1;
use mynes::memory::nrom::NRom;
use mynes::memory::Cartridge;
use mynes::ppu::nametable::Nametable;
use mynes::ppu::oam::Oam;
use mynes::ppu::palette::as_rgb;
use mynes::ppu::pattern::{tile_point, Bit, PTIdx, PatternTable, PatternTableRef, TileData};
use mynes::ppu::render::{FrameBuffer, VOp};
use mynes::ppu::Point;
use mynes::ppu::Vram;

fn chr() -> Vec<u8> {
    let mut c = vec![0u8; 0x2000];
    for i in 0..0x2000 {
        c[i] = (i % 251) as u8;
    }
    c
}

#[test]
fn pattern_rows_and_tiles() {
    let bytes = chr();
    let table = PatternTableRef(&bytes[..0x1000]);
    let tile = tile_point(0x23);
    assert_eq!((tile.x, tile.y), (3, 2));
    let base = 2 * 256 + 3 * 16;
    assert_eq!(table.get_row(tile, 5, Bit::Low), bytes[base + 5]);
    assert_eq!(table.get_row(tile, 5, Bit::High), bytes[base + 13]);
    let t = table.get_tile(tile);
    let mut front = 0u64;
    for i in (0..8).rev() {
        front = front * 256 + bytes[base + i] as u64;
    }
    assert_eq!(t.front, front);
    let owned = PatternTable(bytes[..0x1000].to_vec());
    assert_eq!(owned.get_row(tile, 2, Bit::High), bytes[base + 10]);
}

#[test]
fn tile_pixels_and_bits() {
    let t = TileData { front: 0b10, back: 0b11 };
    assert_eq!(t.get_pixel(Point { x: 0, y: 0 }), 2);
    assert_eq!(t.get_pixel(Point { x: 1, y: 0 }), 3);
    assert_eq!(t.get_pixel(Point { x: 2, y: 0 }), 0);
    let v = TileData { front: 7, back: 9 }.to_u128();
    assert_eq!(v, 7 + (9u128 << 64));
    assert_eq!(TileData::from_u128(v), TileData { front: 7, back: 9 });
}

#[test]
fn cartridge_pattern_tables() {
    let nrom = Cartridge::NRom(NRom::new(vec![0u8; 0x4000], chr(), Mirroring::Vertical));
    let right = nrom.get_pattern_table(PTIdx::Right);
    assert_eq!(right.0.len(), 0x1000);
    assert_eq!(right.0[5], (0x1005 % 251) as u8);
    let mmc1 = Cartridge::Mmc1(Mmc1::new(vec![0u8; 0x8000], chr(), Mirroring::Horizontal));
    let left = mmc1.get_pattern_table(PTIdx::Left);
    assert_eq!(left.0[0x10], 0x10);
    assert_eq!(nrom.mirror(), [0, 1, 0, 1]);
    assert_eq!(mmc1.mirror(), [0, 0, 1, 1]);
}

#[test]
fn nametable_mirroring_through_vram() {
    let mut cart = Cartridge::NRom(NRom::new(vec![0u8; 0x4000], chr(), Mirroring::Horizontal));
    let mut vram = Vram::new();
    vram.set_ppu(0x2405, 0x77, &mut cart);
    assert_eq!(vram.get_ppu(0x2005, &cart), 0x77);
    assert_eq!(vram.get_ppu(0x2805, &cart), 0);
    assert_eq!(vram.get_ppu(0x0003, &cart), 3);
}

#[test]
fn attribute_table_is_last_64_bytes() {
    let mut nt = Nametable::new();
    nt.write(0x3C0, 1);
    nt.write(0x3FF, 2);
    let attr = nt.attr_table();
    assert_eq!(attr.len(), 64);
    assert_eq!(attr[0], 1);
    assert_eq!(attr[63], 2);
}

#[test]
fn oam_ports() {
    let mut vram = Vram::new();
    vram.set_cpu(3, 0x05);
    vram.set_cpu(4, 0xAB);
    assert_eq!(vram.registers.oam_addr, 0x06);
    vram.set_cpu(3, 0x05);
    assert_eq!(vram.get_cpu(4), (0xAB, None));
    let mut oam = Oam::new();
    oam.write_byte(9, 7);
    assert_eq!(oam.get_sprite(1).x, 9);
    assert_eq!(oam.read_byte(7), 9);
}

#[test]
fn master_palette_entries() {
    assert_eq!(as_rgb(0x00), [84, 84, 84]);
    assert_eq!(as_rgb(0x21), [76, 154, 236]);
    assert_eq!(as_rgb(0x3F), [0, 0, 0]);
}

#[test]
fn renderer_raises_nmi_at_vblank() {
    let cart = Cartridge::NRom(NRom::new(vec![0u8; 0x4000], chr(), Mirroring::Vertical));
    let mut vram = Vram::new();
    vram.set_cpu(0, 0x80);
    let mut fb = FrameBuffer::new();
    let mut nmi_at = None;
    for i in 0..(262 * 341) {
        let line = fb.line;
        let dot = fb.dot;
        if fb.clock(&mut vram, &cart) == VOp::Nmi {
            nmi_at = Some((i, line, dot));
            break;
        }
    }
    let (_, line, dot) = nmi_at.unwrap();
    assert_eq!((line, dot), (241, 1));
    assert!(vram.registers.status.vblank);
}

#[test]
fn renderer_fetches_and_draws_background() {
    let cart = Cartridge::NRom(NRom::new(vec![0u8; 0x4000], vec![0xFFu8; 0x2000], Mirroring::Vertical));
    let mut vram = Vram::new();
    vram.palette.write(0x03, 0x16);
    vram.set_cpu(1, 0x08);
    let mut fb = FrameBuffer::new();
    let mut fetches = Vec::new();
    // line 0, dots 0..=9
    for _ in 0..10 {
        if let VOp::Fetch(a) = fb.clock(&mut vram, &cart) {
            fetches.push(a);
        }
    }
    assert_eq!(fetches, vec![0x2000, 0x23C0, 0x0000, 0x0008]);
    // run to the start of line 1: the first tiles of line 0 have been shown
    while fb.line < 1 {
        fb.clock(&mut vram, &cart);
    }
    assert_eq!(fb.pixels[20], 0x16);
}
