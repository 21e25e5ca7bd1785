//! One 1 KiB nametable page: 32x30 tile numbers and a 64-byte attribute table.
use vstd::prelude::*;

verus! {

pub const NAMETABLE_LEN: usize = 0x400;
pub const ATTR_START: usize = 0x3C0;

pub struct Nametable {
    pub cells: Vec<u8>,
}

impl Nametable {
    pub open spec fn wf(&self) -> bool {
        self.cells@.len() == NAMETABLE_LEN
    }

    pub fn new() -> (r: Nametable)
        ensures
            r.wf(),
            forall|i: int| 0 <= i < NAMETABLE_LEN ==> r.cells@[i] == 0,
    {
        Nametable { cells: vec![0u8; NAMETABLE_LEN] }
    }

    pub fn read(&self, idx: u16) -> (r: u8)
        requires
            self.wf(),
            idx < NAMETABLE_LEN,
        ensures
            r == self.cells@[idx as int],
    {
        self.cells[idx as usize]
    }

    pub fn write(&mut self, idx: u16, val: u8)
        requires
            old(self).wf(),
            idx < NAMETABLE_LEN,
        ensures
            final(self).wf(),
            final(self).cells@ == old(self).cells@.update(idx as int, val),
    {
        self.cells.set(idx as usize, val);
    }

    /// The attribute table: the last 64 bytes of the page.
    pub fn attr_table(&self) -> (r: Vec<u8>)
        requires
            self.wf(),
        ensures
            r@ == self.cells@.subrange(ATTR_START as int, NAMETABLE_LEN as int),
    {
        let mut r: Vec<u8> = Vec::new();
        let mut i: usize = ATTR_START;
        while i < NAMETABLE_LEN
            invariant
                ATTR_START <= i <= NAMETABLE_LEN,
                self.wf(),
                r@ == self.cells@.subrange(ATTR_START as int, i as int),
            decreases NAMETABLE_LEN - i,
        {
            r.push(self.cells[i]);
            i = i + 1;
        }
        r
    }
}

} // verus!
