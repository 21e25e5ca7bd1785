//! Palette RAM: 32 entries, where 0x10, 0x14, 0x18 and 0x1C are the same
//! cells as 0x00, 0x04, 0x08 and 0x0C.
use vstd::prelude::*;

verus! {

pub struct PaletteRam {
    pub entries: Vec<u8>,
}

pub const PALETTE_LEN: usize = 0x20;

/// The cell behind palette index `idx`.
pub open spec fn palette_slot(idx: u8) -> int {
    let i = idx % 0x20;
    if i >= 0x10 && i % 4 == 0 { i - 0x10 } else { i as int }
}

impl PaletteRam {
    pub open spec fn wf(&self) -> bool {
        self.entries@.len() == PALETTE_LEN
    }

    pub open spec fn view(&self) -> Seq<u8> {
        self.entries@
    }

    pub fn default() -> (r: PaletteRam)
        ensures
            r.wf(),
            forall|i: int| 0 <= i < PALETTE_LEN ==> r.entries@[i] == 0,
    {
        PaletteRam { entries: vec![0u8; PALETTE_LEN] }
    }

    fn slot(idx: u8) -> (r: usize)
        ensures
            r == palette_slot(idx),
            r < PALETTE_LEN,
    {
        let i = idx % 0x20;
        if i >= 0x10 && i % 4 == 0 {
            (i - 0x10) as usize
        } else {
            i as usize
        }
    }

    pub fn write(&mut self, idx: u8, val: u8)
        requires
            old(self).wf(),
        ensures
            final(self).wf(),
            final(self).entries@ == old(self).entries@.update(palette_slot(idx), val),
    {
        let s = Self::slot(idx);
        self.entries.set(s, val);
    }

    pub fn read(&self, idx: u8) -> (r: u8)
        requires
            self.wf(),
        ensures
            r == self.entries@[palette_slot(idx)],
    {
        self.entries[Self::slot(idx)]
    }

    /// Colour code of a background pixel: colour 0 is the universal
    /// background, otherwise entry `tile` of background palette `palette`.
    pub fn get_background(&self, tile: u8, palette: u8) -> (r: u8)
        requires
            self.wf(),
            tile < 4,
            palette < 4,
        ensures
            r == (if tile == 0 { self.entries@[0] } else { self.entries@[palette * 4 + tile] }) % 0x40,
    {
        if tile == 0 {
            self.entries[0] % 0x40
        } else {
            self.entries[(palette * 4 + tile) as usize] % 0x40
        }
    }

    /// Colour code of a sprite pixel, from the sprite palettes at 0x10.
    pub fn get_sprite(&self, tile: u8, palette: u8) -> (r: u8)
        requires
            self.wf(),
            tile < 4,
            palette < 4,
        ensures
            r == (if tile == 0 { self.entries@[0] } else { self.entries@[0x10 + palette * 4 + tile] })
                % 0x40,
    {
        if tile == 0 {
            self.entries[0] % 0x40
        } else {
            self.entries[(0x10 + palette * 4 + tile) as usize] % 0x40
        }
    }
}

/// Palette mirroring: a byte written at 0x10, 0x14, 0x18 or 0x1C is read
/// back at 0x00, 0x04, 0x08 or 0x0C, and a byte written at one of those is
/// read back at its mirror.
pub proof fn lemma_palette_mirror(entries: Seq<u8>, k: u8, val: u8)
    requires
        entries.len() == PALETTE_LEN,
        k < 4,
    ensures
        entries.update(palette_slot((0x10 + 4 * k) as u8), val)[palette_slot((4 * k) as u8)] == val,
        entries.update(palette_slot((4 * k) as u8), val)[palette_slot((0x10 + 4 * k) as u8)] == val,
{
}

/// The NTSC master palette: red, green and blue of colour code `c` are
/// entries `3c`, `3c + 1` and `3c + 2`.
pub open spec fn master_palette() -> Seq<u8> {
    seq![
        84, 84, 84, 0, 30, 116, 8, 16, 144, 48, 0, 136,
        68, 0, 100, 92, 0, 48, 84, 4, 0, 60, 24, 0,
        32, 42, 0, 8, 58, 0, 0, 64, 0, 0, 60, 0,
        0, 50, 60, 0, 0, 0, 0, 0, 0, 0, 0, 0,
        152, 150, 152, 8, 76, 196, 48, 50, 236, 92, 30, 228,
        136, 20, 176, 160, 20, 100, 152, 34, 32, 120, 60, 0,
        84, 90, 0, 40, 114, 0, 8, 124, 0, 0, 118, 40,
        0, 102, 120, 0, 0, 0, 0, 0, 0, 0, 0, 0,
        236, 238, 236, 76, 154, 236, 120, 124, 236, 176, 98, 236,
        228, 84, 236, 236, 88, 180, 236, 106, 100, 212, 136, 32,
        160, 170, 0, 116, 196, 0, 76, 208, 32, 56, 204, 108,
        56, 180, 204, 60, 60, 60, 0, 0, 0, 0, 0, 0,
        236, 238, 236, 168, 204, 236, 188, 188, 236, 212, 178, 236,
        236, 174, 236, 236, 174, 212, 236, 180, 176, 228, 196, 144,
        204, 210, 120, 180, 222, 120, 168, 226, 144, 152, 226, 180,
        160, 214, 228, 160, 162, 160, 0, 0, 0, 0, 0, 0,
    ]
}

/// Red, green and blue of the 6-bit colour code `code`.
pub fn as_rgb(code: u8) -> (r: [u8; 3])
    requires
        code < 0x40,
    ensures
        r@ == seq![
            master_palette()[3 * code as int],
            master_palette()[3 * code as int + 1],
            master_palette()[3 * code as int + 2],
        ],
{
    let table: [u8; 192] = [
        84, 84, 84, 0, 30, 116, 8, 16, 144, 48, 0, 136,
        68, 0, 100, 92, 0, 48, 84, 4, 0, 60, 24, 0,
        32, 42, 0, 8, 58, 0, 0, 64, 0, 0, 60, 0,
        0, 50, 60, 0, 0, 0, 0, 0, 0, 0, 0, 0,
        152, 150, 152, 8, 76, 196, 48, 50, 236, 92, 30, 228,
        136, 20, 176, 160, 20, 100, 152, 34, 32, 120, 60, 0,
        84, 90, 0, 40, 114, 0, 8, 124, 0, 0, 118, 40,
        0, 102, 120, 0, 0, 0, 0, 0, 0, 0, 0, 0,
        236, 238, 236, 76, 154, 236, 120, 124, 236, 176, 98, 236,
        228, 84, 236, 236, 88, 180, 236, 106, 100, 212, 136, 32,
        160, 170, 0, 116, 196, 0, 76, 208, 32, 56, 204, 108,
        56, 180, 204, 60, 60, 60, 0, 0, 0, 0, 0, 0,
        236, 238, 236, 168, 204, 236, 188, 188, 236, 212, 178, 236,
        236, 174, 236, 236, 174, 212, 236, 180, 176, 228, 196, 144,
        204, 210, 120, 180, 222, 120, 168, 226, 144, 152, 226, 180,
        160, 214, 228, 160, 162, 160, 0, 0, 0, 0, 0, 0,
    ];
    assert(table@ =~= master_palette());
    let i = 3 * code as usize;
    let r = [table[i], table[i + 1], table[i + 2]];
    assert(r@ =~= seq![table@[i as int], table@[i + 1], table@[i + 2]]);
    r
}

} // verus!
