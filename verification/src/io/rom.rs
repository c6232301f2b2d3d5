//! Read-only memory mapped at an offset.
use vstd::prelude::*;

verus! {

/// A read-only memory whose first byte is at address `offset`.
pub struct ROM {
    pub mem: Vec<u8>,
    pub offset: usize,
}

impl ROM {
    pub fn new(start_addr: u32, mem: Vec<u8>) -> (r: ROM)
        ensures
            r.mem@ == mem@,
            r.offset == start_addr,
    {
        ROM { mem, offset: start_addr as usize }
    }

    /// The byte at `addr`; 0 past the end of the memory.
    pub fn read8(&self, addr: u32) -> (r: u8)
        requires
            addr >= self.offset,
        ensures
            r == (if addr - self.offset < self.mem.len() { self.mem@[addr - self.offset] } else { 0 }),
    {
        let a = addr as usize - self.offset;
        if a < self.mem.len() {
            self.mem[a]
        } else {
            0
        }
    }

    /// Writes to a ROM are ignored.
    pub fn write8(&mut self, addr: u32, value: u8)
        ensures
            *final(self) == *old(self),
    {
    }
}

} // verus!
