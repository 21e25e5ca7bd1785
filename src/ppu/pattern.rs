//! Pattern tables: 256 tiles of 16 bytes, two bit planes of 8x8 pixels.
use vstd::prelude::*;
use super::Point;

verus! {

pub const TABLE_LEN: usize = 0x1000;

/// Left (0x0000) or right (0x1000) pattern table.
#[derive(Debug, Copy, Clone, PartialEq, Eq, Structural)]
pub enum PTIdx {
    Left,
    Right,
}

/// Address of the first byte of pattern table `idx`.
pub open spec fn pattern_base(idx: PTIdx) -> int {
    match idx {
        PTIdx::Left => 0,
        PTIdx::Right => 0x1000,
    }
}

/// Which bit plane of a tile row.
#[derive(Debug, Copy, Clone, PartialEq, Eq, Structural)]
pub enum Bit {
    Low,
    High,
}

/// A copy of one 4 KiB pattern table.
pub struct PatternTable(pub Vec<u8>);

/// A view of one 4 KiB pattern table.
pub struct PatternTableRef<'a>(pub &'a [u8]);

/// One tile's two bit planes, each as a little-endian 64-bit value.
#[derive(Debug, Copy, Clone, PartialEq, Eq, Structural)]
pub struct TileData {
    pub front: u64,
    pub back: u64,
}

/// Offset of tile (`x`, `y`) (each 0..16) in its table.
pub open spec fn tile_offset(tile: Point<u8>) -> int {
    tile.y * 256 + tile.x * 16
}

/// Little-endian value of `b`.
pub open spec fn le_value(b: Seq<u8>) -> nat
    decreases b.len(),
{
    if b.len() == 0 {
        0
    } else {
        (b[0] + 256 * le_value(b.subrange(1, b.len() as int))) as nat
    }
}

/// The tile coordinates of tile number `b`: column `b % 16`, row `b / 16`.
pub fn tile_point(b: u8) -> (r: Point<u8>)
    ensures
        r.x == b % 16 && r.y == b / 16,
        r.x < 16 && r.y < 16,
{
    Point { x: b % 16, y: b / 16 }
}

/// Row `row` of a tile, in plane `bit`, from a table `t`.
pub open spec fn row_spec(t: Seq<u8>, tile: Point<u8>, row: u8, bit: Bit) -> u8 {
    t[tile_offset(tile) + row + if bit == Bit::High { 8int } else { 0 }]
}

fn row_of(t: &[u8], tile: Point<u8>, row: u8, bit: Bit) -> (r: u8)
    requires
        t@.len() == TABLE_LEN,
        tile.x < 16 && tile.y < 16,
        row < 8,
    ensures
        r == row_spec(t@, tile, row, bit),
{
    let cell = tile.y as usize * 256 + tile.x as usize * 16;
    match bit {
        Bit::Low => t[cell + row as usize],
        Bit::High => t[cell + row as usize + 8],
    }
}

fn tile_of(t: &[u8], tile: Point<u8>) -> (r: TileData)
    requires
        t@.len() == TABLE_LEN,
        tile.x < 16 && tile.y < 16,
    ensures
        r.front == le_value(t@.subrange(tile_offset(tile), tile_offset(tile) + 8)),
        r.back == le_value(t@.subrange(tile_offset(tile) + 8, tile_offset(tile) + 16)),
{
    let cell = tile.y as usize * 256 + tile.x as usize * 16;
    TileData { front: le_u64(t, cell), back: le_u64(t, cell + 8) }
}

/// The eight bytes at `start`, little-endian.
fn le_u64(t: &[u8], start: usize) -> (r: u64)
    requires
        start + 8 <= t@.len(),
    ensures
        r == le_value(t@.subrange(start as int, start + 8)),
{
    let n = t.len();
    let mut r: u64 = 0;
    let mut i: usize = 8;
    while i > 0
        invariant
            0 <= i <= 8,
            n == t@.len(),
            start + 8 <= t@.len(),
            r == le_value(t@.subrange(start + i, start + 8)),
            r < pow256((8 - i) as nat),
        decreases i,
    {
        i = i - 1;
        proof {
            let s = t@.subrange(start + i, start + 8);
            assert(s.subrange(1, s.len() as int) =~= t@.subrange(start + i + 1, start + 8));
            lemma_pow256_step((8 - i - 1) as nat);
            assert(t@[start + i as int] + 256 * r < pow256((8 - i) as nat)) by (nonlinear_arith)
                requires
                    r < pow256((8 - i - 1) as nat),
                    t@[start + i as int] < 256,
                    pow256((8 - i) as nat) == 256 * pow256((8 - i - 1) as nat),
            ;
            assert(pow256((8 - i) as nat) <= pow256(8)) by {
                lemma_pow256_mono((8 - i) as nat, 8);
            }
            assert(pow256(8) == 0x1_0000_0000_0000_0000) by {
                reveal_with_fuel(pow256, 9);
            }
        }
        r = t[start + i] as u64 + 256 * r;
    }
    proof {
        assert(t@.subrange(start as int, start + 8) =~= t@.subrange(start + 0, start + 8));
    }
    r
}

pub open spec fn pow256(k: nat) -> nat
    decreases k,
{
    if k == 0 { 1 } else { 256 * pow256((k - 1) as nat) }
}

proof fn lemma_pow256_step(k: nat)
    ensures
        pow256(k + 1) == 256 * pow256(k),
{
}

proof fn lemma_pow256_mono(a: nat, b: nat)
    requires
        a <= b,
    ensures
        pow256(a) <= pow256(b),
    decreases b - a,
{
    if a < b {
        lemma_pow256_mono(a, (b - 1) as nat);
        lemma_pow256_step((b - 1) as nat);
    }
}

impl<'a> PatternTableRef<'a> {
    pub open spec fn wf(&self) -> bool {
        self.0@.len() == TABLE_LEN
    }

    pub fn get_row(&self, tile: Point<u8>, row: u8, bit: Bit) -> (r: u8)
        requires
            self.wf(),
            tile.x < 16 && tile.y < 16,
            row < 8,
        ensures
            r == row_spec(self.0@, tile, row, bit),
    {
        row_of(self.0, tile, row, bit)
    }

    pub fn get_tile(&self, tile: Point<u8>) -> (r: TileData)
        requires
            self.wf(),
            tile.x < 16 && tile.y < 16,
        ensures
            r.front == le_value(self.0@.subrange(tile_offset(tile), tile_offset(tile) + 8)),
            r.back == le_value(self.0@.subrange(tile_offset(tile) + 8, tile_offset(tile) + 16)),
    {
        tile_of(self.0, tile)
    }
}

impl PatternTable {
    pub open spec fn wf(&self) -> bool {
        self.0@.len() == TABLE_LEN
    }

    pub fn get_row(&self, tile: Point<u8>, row: u8, bit: Bit) -> (r: u8)
        requires
            self.wf(),
            tile.x < 16 && tile.y < 16,
            row < 8,
        ensures
            r == row_spec(self.0@, tile, row, bit),
    {
        row_of(self.0.as_slice(), tile, row, bit)
    }

    pub fn get_tile(&self, tile: Point<u8>) -> (r: TileData)
        requires
            self.wf(),
            tile.x < 16 && tile.y < 16,
        ensures
            r.front == le_value(self.0@.subrange(tile_offset(tile), tile_offset(tile) + 8)),
            r.back == le_value(self.0@.subrange(tile_offset(tile) + 8, tile_offset(tile) + 16)),
    {
        tile_of(self.0.as_slice(), tile)
    }
}

impl TileData {
    /// Splits a 128-bit tile: the low half is the front plane.
    pub fn from_u128(val: u128) -> (r: TileData)
        ensures
            r.front == val % 0x1_0000_0000_0000_0000,
            r.back == val / 0x1_0000_0000_0000_0000,
    {
        TileData { front: (val % 0x1_0000_0000_0000_0000) as u64, back: (val / 0x1_0000_0000_0000_0000) as u64 }
    }

    /// The tile as one 128-bit value, front plane low.
    pub fn to_u128(&self) -> (r: u128)
        ensures
            r == self.front + self.back * 0x1_0000_0000_0000_0000,
    {
        self.front as u128 + self.back as u128 * 0x1_0000_0000_0000_0000
    }

    /// Colour (0..4) of pixel (`x`, `y`): bit `x + 8 y` of each plane.
    pub fn get_pixel(&self, pix: Point<u8>) -> (r: u8)
        requires
            pix.x < 8 && pix.y < 8,
        ensures
            r == (self.front >> (pix.x + pix.y * 8) as u64) % 2 + 2 * ((self.back >> (pix.x + pix.y * 8) as u64) % 2),
            r < 4,
    {
        let bit = (pix.x + pix.y * 8) as u64;
        let lsb = ((self.front >> bit) % 2) as u8;
        let msb = ((self.back >> bit) % 2) as u8;
        lsb + 2 * msb
    }
}

} // verus!
