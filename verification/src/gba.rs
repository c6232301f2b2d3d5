//! The console: its processor and its bus, run a frame at a time; its
//! constants, and the memory regions that a debugger can view.
use vstd::prelude::*;
use crate::bus::{new_responses, responses};
use crate::cpu::execute::{emulate_ok, emulate_step, reset_state};
use crate::cpu::processor::{fill_arm_trace, follows};
use crate::cpu::registers::bios_regs;
use crate::cpu::processor::CPU;
use crate::io::cart_backup::{backup_type, CartBackupType};
use crate::io::ppu::registers::{DISPSTAT_HBLANK, DISPSTAT_VBLANK};
use crate::io::system::{dma_ran, dma_src_invalid, IO};

verus! {

pub const WIDTH: usize = 240;
pub const HEIGHT: usize = 160;
pub const SCALE: usize = 2;

pub const AUDIO_SAMPLE_RATE: usize = 0x8000;
pub const AUDIO_BUFFER_LEN: usize = 4096;
pub const CLOCK_FREQ: usize = 0x100_0000;
pub const CLOCKS_PER_FRAME: usize = 280896;

/// The regions of the address space that can be viewed.
#[derive(Clone, Copy, Debug, PartialEq, Eq, Structural)]
pub enum VisibleMemoryRegion {
    BIOS,
    EWRAM,
    IWRAM,
    IO,
    Palette,
    VRAM,
    OAM,
    PakROM,
    CartRAM,
}

/// The region at position `index` (0 to 8) of the list above.
pub open spec fn region_at(index: int) -> VisibleMemoryRegion {
    if index == 0 {
        VisibleMemoryRegion::BIOS
    } else if index == 1 {
        VisibleMemoryRegion::EWRAM
    } else if index == 2 {
        VisibleMemoryRegion::IWRAM
    } else if index == 3 {
        VisibleMemoryRegion::IO
    } else if index == 4 {
        VisibleMemoryRegion::Palette
    } else if index == 5 {
        VisibleMemoryRegion::VRAM
    } else if index == 6 {
        VisibleMemoryRegion::OAM
    } else if index == 7 {
        VisibleMemoryRegion::PakROM
    } else {
        VisibleMemoryRegion::CartRAM
    }
}

/// The position of a region in the list.
pub open spec fn region_index(r: VisibleMemoryRegion) -> int {
    match r {
        VisibleMemoryRegion::BIOS => 0,
        VisibleMemoryRegion::EWRAM => 1,
        VisibleMemoryRegion::IWRAM => 2,
        VisibleMemoryRegion::IO => 3,
        VisibleMemoryRegion::Palette => 4,
        VisibleMemoryRegion::VRAM => 5,
        VisibleMemoryRegion::OAM => 6,
        VisibleMemoryRegion::PakROM => 7,
        VisibleMemoryRegion::CartRAM => 8,
    }
}

pub open spec fn region_size(r: VisibleMemoryRegion) -> usize {
    match r {
        VisibleMemoryRegion::BIOS => 0x4000,
        VisibleMemoryRegion::EWRAM => 0x4_0000,
        VisibleMemoryRegion::IWRAM => 0x8000,
        VisibleMemoryRegion::IO => 0x400,
        VisibleMemoryRegion::Palette => 0x400,
        VisibleMemoryRegion::VRAM => 0x1_8000,
        VisibleMemoryRegion::OAM => 0x400,
        VisibleMemoryRegion::PakROM => 0x0600_0000,
        VisibleMemoryRegion::CartRAM => 0x1_0000,
    }
}

pub open spec fn region_start(r: VisibleMemoryRegion) -> u32 {
    match r {
        VisibleMemoryRegion::BIOS => 0x0000_0000,
        VisibleMemoryRegion::EWRAM => 0x0200_0000,
        VisibleMemoryRegion::IWRAM => 0x0300_0000,
        VisibleMemoryRegion::IO => 0x0400_0000,
        VisibleMemoryRegion::Palette => 0x0500_0000,
        VisibleMemoryRegion::VRAM => 0x0600_0000,
        VisibleMemoryRegion::OAM => 0x0700_0000,
        VisibleMemoryRegion::PakROM => 0x0800_0000,
        VisibleMemoryRegion::CartRAM => 0x0E00_0000,
    }
}

impl VisibleMemoryRegion {
    pub fn from_index(index: usize) -> (r: VisibleMemoryRegion)
        requires
            index < 9,
        ensures
            r == region_at(index as int),
            region_index(r) == index,
    {
        match index {
            0 => VisibleMemoryRegion::BIOS,
            1 => VisibleMemoryRegion::EWRAM,
            2 => VisibleMemoryRegion::IWRAM,
            3 => VisibleMemoryRegion::IO,
            4 => VisibleMemoryRegion::Palette,
            5 => VisibleMemoryRegion::VRAM,
            6 => VisibleMemoryRegion::OAM,
            7 => VisibleMemoryRegion::PakROM,
            _ => VisibleMemoryRegion::CartRAM,
        }
    }

    /// The name of the region, for display.
    pub fn get_name(&self) -> (r: String)
        ensures
            r@ == (match *self {
                VisibleMemoryRegion::BIOS => "BIOS"@,
                VisibleMemoryRegion::EWRAM => "EWRAM"@,
                VisibleMemoryRegion::IWRAM => "IWRAM"@,
                VisibleMemoryRegion::IO => "IO"@,
                VisibleMemoryRegion::Palette => "Palette"@,
                VisibleMemoryRegion::VRAM => "VRAM"@,
                VisibleMemoryRegion::OAM => "OAM"@,
                VisibleMemoryRegion::PakROM => "Pak ROM"@,
                VisibleMemoryRegion::CartRAM => "Cart RAM"@,
            }),
    {
        let name = match *self {
            VisibleMemoryRegion::BIOS => "BIOS",
            VisibleMemoryRegion::EWRAM => "EWRAM",
            VisibleMemoryRegion::IWRAM => "IWRAM",
            VisibleMemoryRegion::IO => "IO",
            VisibleMemoryRegion::Palette => "Palette",
            VisibleMemoryRegion::VRAM => "VRAM",
            VisibleMemoryRegion::OAM => "OAM",
            VisibleMemoryRegion::PakROM => "Pak ROM",
            VisibleMemoryRegion::CartRAM => "Cart RAM",
        };
        name.to_owned()
    }

    /// The size of the region in bytes.
    pub fn get_size(&self) -> (r: usize)
        ensures
            r == region_size(*self),
    {
        match *self {
            VisibleMemoryRegion::BIOS => 0x4000,
            VisibleMemoryRegion::EWRAM => 0x4_0000,
            VisibleMemoryRegion::IWRAM => 0x8000,
            VisibleMemoryRegion::IO => 0x400,
            VisibleMemoryRegion::Palette => 0x400,
            VisibleMemoryRegion::VRAM => 0x1_8000,
            VisibleMemoryRegion::OAM => 0x400,
            VisibleMemoryRegion::PakROM => 0x0600_0000,
            VisibleMemoryRegion::CartRAM => 0x1_0000,
        }
    }

    /// The address at which the region starts.
    pub fn get_start_addr(&self) -> (r: u32)
        ensures
            r == region_start(*self),
    {
        match *self {
            VisibleMemoryRegion::BIOS => 0x0000_0000,
            VisibleMemoryRegion::EWRAM => 0x0200_0000,
            VisibleMemoryRegion::IWRAM => 0x0300_0000,
            VisibleMemoryRegion::IO => 0x0400_0000,
            VisibleMemoryRegion::Palette => 0x0500_0000,
            VisibleMemoryRegion::VRAM => 0x0600_0000,
            VisibleMemoryRegion::OAM => 0x0700_0000,
            VisibleMemoryRegion::PakROM => 0x0800_0000,
            VisibleMemoryRegion::CartRAM => 0x0E00_0000,
        }
    }
}

/// The regions lie apart: each ends before the next one starts.
pub proof fn lemma_regions_disjoint(a: VisibleMemoryRegion, b: VisibleMemoryRegion)
    requires
        region_index(a) < region_index(b),
    ensures
        region_start(a) + region_size(a) <= region_start(b),
{
}

/// How a frame ended.
#[derive(Clone, Copy, Debug, PartialEq, Eq, Structural)]
pub enum FrameEnd {
    /// The clock reached the end of the frame.
    Done,
    /// The next instruction is undefined; the processor stopped before it.
    UndefinedInstruction,
    /// A DMA transfer with the undefined source control was due; it did not
    /// run.
    UndefinedTransfer,
    /// The bus left the states that it defines.
    BusFault,
    /// As many instructions as the frame has cycles ran without the clock
    /// reaching the end of the frame.
    Stalled,
}

/// The console.
pub struct GBA {
    pub cpu: CPU,
    pub io: IO,
    pub next_frame_cycle: usize,
    /// Whether the display was in HBlank at the last DMA check.
    pub in_hblank: bool,
    /// Whether the display was in VBlank at the last DMA check.
    pub in_vblank: bool,
}

/// Whether DISPSTAT shows the display in HBlank.
pub open spec fn hblank_flag(io: &IO) -> bool {
    io.ppu.regs.dispstat.flags & DISPSTAT_HBLANK != 0
}

/// Whether DISPSTAT shows the display in VBlank.
pub open spec fn vblank_flag(io: &IO) -> bool {
    io.ppu.regs.dispstat.flags & DISPSTAT_VBLANK != 0
}

/// Whether HBlank began since the last DMA check of `g`.
pub open spec fn hblank_began(g: GBA) -> bool {
    hblank_flag(&g.io) && !g.in_hblank
}

/// Whether VBlank began since the last DMA check of `g`.
pub open spec fn vblank_began(g: GBA) -> bool {
    vblank_flag(&g.io) && !g.in_vblank
}

/// The requests of the sound FIFOs: this sound unit feeds no FIFO.
pub open spec fn no_fifo_requests() -> Seq<bool> {
    seq![false, false]
}

/// The first half of a step, from `a` (whose clock has not reached the end
/// of the frame) to `m`: the DMA check with the blanks that began since the
/// last one, and the transfer it runs.
pub open spec fn dma_part(a: GBA, m: GBA) -> bool {
    &&& a.io.cycle < a.next_frame_cycle
    &&& a.io.wf()
    &&& !dma_src_invalid(&a.io.dma, hblank_began(a), vblank_began(a), no_fifo_requests())
    &&& dma_ran(&a.io, &m.io, hblank_began(a), vblank_began(a), no_fifo_requests())
    &&& m.cpu@ == a.cpu@
    &&& m.in_hblank == hblank_flag(&a.io) && m.in_vblank == vblank_flag(&a.io)
    &&& m.next_frame_cycle == a.next_frame_cycle
}

/// The second half of a step, from `m` to `b`: one instruction, whose
/// accesses of the bus follow `emulate_step`.
pub open spec fn instr_part(m: GBA, b: GBA) -> bool {
    &&& emulate_ok(m.cpu@)
    &&& follows(emulate_step(m.cpu@, new_responses(m.io.ops@, b.io.ops@)), b.cpu@, m.io.ops@, b.io.ops@)
    &&& b.in_hblank == m.in_hblank && b.in_vblank == m.in_vblank
    &&& b.next_frame_cycle == m.next_frame_cycle
}

/// The steps of a frame: from each state in `starts` the DMA check leads
/// to the state in `mids` at the same place, and the instruction from there
/// to the next start.
pub open spec fn frame_steps(starts: Seq<GBA>, mids: Seq<GBA>) -> bool {
    &&& starts.len() == mids.len() + 1
    &&& forall|i: int|
        0 <= i < mids.len() ==> #[trigger] dma_part(starts[i], mids[i]) && instr_part(mids[i], starts[i + 1])
}

/// How a frame that began at `first` ran to `last` and ended with `r`.
pub open spec fn frame_ran(first: GBA, last: GBA, r: FrameEnd) -> bool {
    exists|starts: Seq<GBA>, mids: Seq<GBA>|
        #[trigger] frame_steps(starts, mids) && starts[0] == first && {
            let s = starts.last();
            match r {
                FrameEnd::Done => last == s && s.io.cycle >= s.next_frame_cycle,
                FrameEnd::Stalled => last == s && s.io.cycle < s.next_frame_cycle && mids.len()
                    == CLOCKS_PER_FRAME,
                FrameEnd::BusFault => last == s && s.io.cycle < s.next_frame_cycle && !s.io.wf(),
                FrameEnd::UndefinedTransfer => last == s && s.io.cycle < s.next_frame_cycle && s.io.wf()
                    && dma_src_invalid(&s.io.dma, hblank_began(s), vblank_began(s), no_fifo_requests()),
                FrameEnd::UndefinedInstruction => dma_part(s, last) && !emulate_ok(last.cpu@),
            }
        }
}

/// A further step extends the steps of a frame.
proof fn lemma_frame_steps_push(starts: Seq<GBA>, mids: Seq<GBA>, m: GBA, b: GBA)
    requires
        frame_steps(starts, mids),
        dma_part(starts.last(), m),
        instr_part(m, b),
    ensures
        frame_steps(starts.push(b), mids.push(m)),
{
    let s2 = starts.push(b);
    let m2 = mids.push(m);
    assert forall|i: int| 0 <= i < m2.len() implies #[trigger] dma_part(s2[i], m2[i]) && instr_part(
        m2[i],
        s2[i + 1],
    ) by {
        if i < mids.len() {
            assert(s2[i] == starts[i] && m2[i] == mids[i] && s2[i + 1] == starts[i + 1]);
            assert(dma_part(starts[i], mids[i]));
        } else {
            assert(s2[i] == starts.last() && m2[i] == m && s2[i + 1] == b);
        }
    }
}

impl GBA {
    /// The console at power on, with the BIOS `bios` and the game pak `rom`
    /// (which must ask for SRAM): the processor has reset and fetched its
    /// first instructions from the BIOS, and these are the only accesses of
    /// the bus.
    pub fn new(bios: Vec<u8>, rom: Vec<u8>) -> (r: GBA)
        requires
            backup_type(rom@) == Some(CartBackupType::SRAM),
        ensures
            r.cpu@.wf(),
            r.next_frame_cycle == 0,
            !r.in_hblank && !r.in_vblank,
            r.cpu@ == reset_state(bios_regs(), responses(r.io.ops@)),
            r.io.ops@ == fill_arm_trace(0, responses(r.io.ops@)),
    {
        let mut io = IO::new(bios, rom);
        let cpu = CPU::new(&mut io);
        assert(io.ops@.skip(0) =~= io.ops@);
        GBA { cpu, io, next_frame_cycle: 0, in_hblank: false, in_vblank: false }
    }

    /// Runs until the clock reaches the end of the next frame: each step
    /// runs the DMA check, with the blanks that began since the last one,
    /// then one instruction. The frame stops early where the next step is
    /// undefined, and after as many steps as the frame has cycles.
    pub fn emulate_frame(&mut self) -> (r: FrameEnd)
        requires
            old(self).cpu@.wf(),
        ensures
            final(self).cpu@.wf(),
            final(self).next_frame_cycle == old(self).next_frame_cycle.wrapping_add(CLOCKS_PER_FRAME),
            frame_ran(
                (GBA { next_frame_cycle: old(self).next_frame_cycle.wrapping_add(CLOCKS_PER_FRAME), ..*old(self) }),
                *final(self),
                r,
            ),
            r == FrameEnd::Done ==> final(self).io.cycle >= final(self).next_frame_cycle,
            r == FrameEnd::UndefinedInstruction ==> final(self).io.wf() && !emulate_ok(final(self).cpu@),
            r == FrameEnd::BusFault ==> !final(self).io.wf(),
    {
        self.next_frame_cycle = self.next_frame_cycle.wrapping_add(CLOCKS_PER_FRAME);
        let ghost first = *self;
        let ghost mut starts: Seq<GBA> = seq![*self];
        let ghost mut mids: Seq<GBA> = Seq::empty();
        let mut fuel: usize = CLOCKS_PER_FRAME;
        proof {
            assert([false, false]@ =~= no_fifo_requests());
        }
        while self.io.cycle < self.next_frame_cycle
            invariant
                self.cpu@.wf(),
                self.next_frame_cycle == old(self).next_frame_cycle.wrapping_add(CLOCKS_PER_FRAME),
                first == (GBA { next_frame_cycle: old(self).next_frame_cycle.wrapping_add(CLOCKS_PER_FRAME), ..*old(self) }),
                frame_steps(starts, mids),
                starts[0] == first,
                starts.last() == *self,
                mids.len() + fuel == CLOCKS_PER_FRAME,
                [false, false]@ == no_fifo_requests(),
            decreases fuel,
        {
            if fuel == 0 {
                return FrameEnd::Stalled;
            }
            fuel = fuel - 1;
            if !self.io.is_wf() {
                return FrameEnd::BusFault;
            }
            let h_now = self.io.ppu.regs.dispstat.flags & DISPSTAT_HBLANK != 0;
            let v_now = self.io.ppu.regs.dispstat.flags & DISPSTAT_VBLANK != 0;
            let hblank = h_now && !self.in_hblank;
            let vblank = v_now && !self.in_vblank;
            if !self.io.dma_transfer_defined(hblank, vblank, [false, false]) {
                return FrameEnd::UndefinedTransfer;
            }
            let ghost a = *self;
            assert(a == starts.last() && a.io.cycle < a.next_frame_cycle);
            self.in_hblank = h_now;
            self.in_vblank = v_now;
            self.io.run_dma(hblank, vblank, [false, false]);
            let ghost m = *self;
            assert(dma_part(a, m));
            if !self.cpu.next_instruction_defined() {
                return FrameEnd::UndefinedInstruction;
            }
            self.cpu.emulate_instr(&mut self.io);
            proof {
                let b = *self;
                assert(instr_part(m, b));
                lemma_frame_steps_push(starts, mids, m, b);
                starts = starts.push(b);
                mids = mids.push(m);
            }
        }
        FrameEnd::Done
    }

    /// The byte at offset `addr` of the region `region`.
    pub fn peek_mem(&self, region: VisibleMemoryRegion, addr: usize) -> (r: u8)
        requires
            self.io.wf(),
            region_start(region) + addr <= u32::MAX,
        ensures
            r == self.io.read_byte((region_start(region) + addr) as u32),
    {
        self.io.peek_mem(region, addr as u32)
    }
}

} // verus!
