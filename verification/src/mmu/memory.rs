//! The memories of the bus: read-only memory, and RAM mapped at an offset.
use vstd::prelude::*;

pub use crate::io::rom::ROM;

verus! {

/// Read-write memory whose first byte is at address `offset`.
pub struct RAM {
    pub mem: Vec<u8>,
    pub offset: usize,
}

impl RAM {
    /// `size` zero bytes from `start_addr` on.
    pub fn new(start_addr: u32, size: usize) -> (r: RAM)
        ensures
            r.mem@ == Seq::new(size as nat, |i: int| 0u8),
            r.offset == start_addr,
    {
        let r = RAM { mem: vec![0u8; size], offset: start_addr as usize };
        assert(r.mem@ =~= Seq::new(size as nat, |i: int| 0u8));
        r
    }

    pub fn read8(&self, addr: u32) -> (r: u8)
        requires
            self.offset <= addr < self.offset + self.mem.len(),
        ensures
            r == self.mem@[addr - self.offset],
    {
        self.mem[addr as usize - self.offset]
    }

    pub fn write8(&mut self, addr: u32, value: u8)
        requires
            old(self).offset <= addr < old(self).offset + old(self).mem.len(),
        ensures
            final(self).offset == old(self).offset,
            final(self).mem@ == old(self).mem@.update(addr - old(self).offset, value),
    {
        let i = addr as usize - self.offset;
        self.mem.set(i, value);
    }
}

} // verus!
