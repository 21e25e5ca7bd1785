//! Object attribute memory: 64 sprites of four bytes.
use vstd::prelude::*;

verus! {

pub const SPRITES: usize = 64;

pub struct Oam {
    pub sprites: Vec<Sprite>,
}

#[derive(Debug, Copy, Clone, PartialEq, Eq, Structural)]
pub struct Sprite {
    pub y: u8,
    pub tile: u8,
    pub attr: u8,
    pub x: u8,
}

/// Byte `k` (0..4) of a sprite: Y, tile, attributes, X.
pub open spec fn sprite_byte(s: Sprite, k: int) -> u8 {
    if k == 0 { s.y } else if k == 1 { s.tile } else if k == 2 { s.attr } else { s.x }
}

impl Oam {
    pub open spec fn wf(&self) -> bool {
        self.sprites@.len() == SPRITES
    }

    /// Byte `idx` of OAM.
    pub open spec fn byte_spec(&self, idx: u8) -> u8 {
        sprite_byte(self.sprites@[idx as int / 4], idx as int % 4)
    }

    pub fn new() -> (r: Oam)
        ensures
            r.wf(),
    {
        let zero = Sprite { y: 0, tile: 0, attr: 0, x: 0 };
        Oam { sprites: vec![zero; SPRITES] }
    }

    pub fn write_byte(&mut self, val: u8, idx: u8)
        requires
            old(self).wf(),
        ensures
            final(self).wf(),
            final(self).byte_spec(idx) == val,
            forall|j: u8| j / 4 != idx / 4 || j % 4 != idx % 4 ==> final(self).byte_spec(j)
                == old(self).byte_spec(j),
    {
        let i = (idx / 4) as usize;
        let mut s = self.sprites[i];
        match idx % 4 {
            0 => s.y = val,
            1 => s.tile = val,
            2 => s.attr = val,
            _ => s.x = val,
        }
        self.sprites.set(i, s);
    }

    pub fn read_byte(&self, idx: u8) -> (r: u8)
        requires
            self.wf(),
        ensures
            r == self.byte_spec(idx),
    {
        let s = self.sprites[(idx / 4) as usize];
        match idx % 4 {
            0 => s.y,
            1 => s.tile,
            2 => s.attr,
            _ => s.x,
        }
    }

    pub fn get_sprite(&self, idx: u8) -> (r: Sprite)
        requires
            self.wf(),
            idx < SPRITES,
        ensures
            r == self.sprites@[idx as int],
    {
        self.sprites[idx as usize]
    }
}

} // verus!
