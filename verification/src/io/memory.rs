//! The regions of the address space.
use vstd::prelude::*;

verus! {

/// The regions that the top byte of an address selects.
#[derive(Clone, Copy, Debug, PartialEq, Eq, Structural)]
pub enum MemoryRegion {
    BIOS,
    EWRAM,
    IWRAM,
    IO,
    Palette,
    VRAM,
    OAM,
    ROM0L,
    ROM0H,
    ROM1L,
    ROM1H,
    ROM2L,
    ROM2H,
    SRAM,
    Unused,
}

/// The region of `addr`. The BIOS is not mirrored: only its first 16 KiB
/// are BIOS.
pub open spec fn region_of(addr: u32) -> MemoryRegion {
    let top = addr >> 24u32;
    if top == 0 && addr < 0x4000 {
        MemoryRegion::BIOS
    } else if top == 0x02 {
        MemoryRegion::EWRAM
    } else if top == 0x03 {
        MemoryRegion::IWRAM
    } else if top == 0x04 {
        MemoryRegion::IO
    } else if top == 0x05 {
        MemoryRegion::Palette
    } else if top == 0x06 {
        MemoryRegion::VRAM
    } else if top == 0x07 {
        MemoryRegion::OAM
    } else if top == 0x08 {
        MemoryRegion::ROM0L
    } else if top == 0x09 {
        MemoryRegion::ROM0H
    } else if top == 0x0A {
        MemoryRegion::ROM1L
    } else if top == 0x0B {
        MemoryRegion::ROM1H
    } else if top == 0x0C {
        MemoryRegion::ROM2L
    } else if top == 0x0D {
        MemoryRegion::ROM2H
    } else if top == 0x0E {
        MemoryRegion::SRAM
    } else {
        MemoryRegion::Unused
    }
}

impl MemoryRegion {
    pub fn get_region(addr: u32) -> (r: MemoryRegion)
        ensures
            r == region_of(addr),
    {
        match addr >> 24 {
            0x00 if addr < 0x00004000 => MemoryRegion::BIOS,
            0x02 => MemoryRegion::EWRAM,
            0x03 => MemoryRegion::IWRAM,
            0x04 => MemoryRegion::IO,
            0x05 => MemoryRegion::Palette,
            0x06 => MemoryRegion::VRAM,
            0x07 => MemoryRegion::OAM,
            0x08 => MemoryRegion::ROM0L,
            0x09 => MemoryRegion::ROM0H,
            0x0A => MemoryRegion::ROM1L,
            0x0B => MemoryRegion::ROM1H,
            0x0C => MemoryRegion::ROM2L,
            0x0D => MemoryRegion::ROM2H,
            0x0E => MemoryRegion::SRAM,
            _ => MemoryRegion::Unused,
        }
    }
}

/// Two addresses in the same 16 MiB block (above the BIOS) are in the
/// same region.
pub proof fn lemma_region_by_block(a: u32, b: u32)
    requires
        a >> 24u32 == b >> 24u32,
        a >= 0x4000,
        b >= 0x4000,
    ensures
        region_of(a) == region_of(b),
{
}

} // verus!
