//! The bus of the console: BIOS, work RAM, the game pak, and the devices of
//! the I/O region, with the clock that drives the display.
use vstd::prelude::*;
use crate::bus::{BusOp, Cycle, MemoryHandler, IMMU};
use vstd::arithmetic::div_mod::lemma_add_mod_noop;
use super::IORegister;
use super::{MGBALogLevel, MGBATestSuite, WaitStateControl};
use super::cart_backup::{backup_type, CartBackup, CartBackupType};
use super::dma::{DMAChannel, DMACNT, DMA};
use super::interrupt_controller::{InterruptController, INTERRUPT_DMA0, INTERRUPT_DMA1, INTERRUPT_DMA2, INTERRUPT_DMA3};
use super::keypad::Keypad;
use super::apu::APU;
use crate::gba::{region_start, VisibleMemoryRegion};
use super::scheduler::Scheduler;
use super::timers::{Timers, MAX_EVENT_DELAY};
use super::ppu::PPU;

verus! {

/// The console's bus.
pub struct IO {
    pub bios: Vec<u8>,
    pub ewram: Vec<u8>,
    pub iwram: Vec<u8>,
    pub rom: Vec<u8>,
    pub clocks_ahead: u32,
    pub ppu: PPU,
    pub apu: APU,
    pub dma: DMA,
    pub timers: Timers,
    pub scheduler: Scheduler,
    pub keypad: Keypad,
    pub interrupt_controller: InterruptController,
    pub cart_backup: CartBackup,
    pub haltcnt: u16,
    pub waitcnt: WaitStateControl,
    pub mgba_test_suite: MGBATestSuite,
    /// The last message that a program sent to the test suite's log.
    pub mgba_message: Option<(MGBALogLevel, Vec<u8>)>,
    pub cycle: usize,
    pub ops: Ghost<Seq<BusOp>>,
}

/// The byte at `index` of `mem`, 0 past its end.
pub open spec fn mem_byte(mem: Seq<u8>, index: int) -> u8 {
    if 0 <= index < mem.len() { mem[index] } else { 0 }
}

/// The index in VRAM of `addr`: VRAM repeats every 128 KiB, and the last
/// 32 KiB of each repeat show its object tiles again.
pub open spec fn vram_index(addr: u32) -> int {
    let a = addr % 0x20000;
    if a >= 0x18000 { a - 0x8000 } else { a as int }
}

fn vram_index_exec(addr: u32) -> (r: usize)
    ensures
        r == vram_index(addr),
        r < 0x18000,
{
    let a = addr % 0x20000;
    if a >= 0x18000 { (a - 0x8000) as usize } else { a as usize }
}

impl IO {
    pub open spec fn wf(&self) -> bool {
        &&& self.ewram.len() == 0x40000 && self.iwram.len() == 0x8000
        &&& self.ppu.wf() && self.apu.wf() && self.dma.wf() && self.waitcnt.wf() && self.mgba_test_suite.wf()
        &&& self.timers.wf()
        &&& self.clocks_ahead < 4
        &&& match self.cart_backup {
            CartBackup::SRAM(s) => s.wf(),
            CartBackup::EEPROM(e) => true,
        }
    }

    /// The console at power on, with the BIOS `bios` and the game pak
    /// `rom`, which must ask for SRAM.
    pub fn new(bios: Vec<u8>, rom: Vec<u8>) -> (r: IO)
        requires
            backup_type(rom@) == Some(CartBackupType::SRAM),
        ensures
            r.wf(),
            r.bios@ == bios@ && r.rom@ == rom@,
            r.ewram@ == Seq::new(0x40000, |i: int| 0u8),
            r.iwram@ == Seq::new(0x8000, |i: int| 0u8),
            r.clocks_ahead == 0 && r.cycle == 0 && r.haltcnt == 0,
            r.ppu.dot == 0 && r.ppu.vcount == 0,
            r.mgba_message is None,
            r.scheduler.cycle == 0,
            r.ops@ == Seq::<BusOp>::empty(),
    {
        let cart_backup = CartBackup::get(&rom);
        let r = IO {
            bios,
            ewram: vec![0u8; 0x40000],
            iwram: vec![0u8; 0x8000],
            rom,
            clocks_ahead: 0,
            ppu: PPU::new(),
            apu: APU::new(),
            dma: DMA::new(),
            timers: Timers::new(),
            scheduler: Scheduler::new(),
            keypad: Keypad::new(),
            interrupt_controller: InterruptController::new(),
            cart_backup,
            haltcnt: 0,
            waitcnt: WaitStateControl::new(),
            mgba_test_suite: MGBATestSuite::new(),
            mgba_message: None,
            cycle: 0,
            ops: Ghost(Seq::empty()),
        };
        assert(r.ewram@ =~= Seq::new(0x40000, |i: int| 0u8));
        assert(r.iwram@ =~= Seq::new(0x8000, |i: int| 0u8));
        r
    }

    /// The byte of the save memory at `addr` of its region; an EEPROM does
    /// not answer there.
    pub open spec fn backup_byte(&self, addr: u32) -> u8 {
        match self.cart_backup {
            CartBackup::SRAM(s) => if addr < 0x8000 { s.mem@[addr as int] } else { 0 },
            CartBackup::EEPROM(e) => 0,
        }
    }

    /// The byte that a read of the I/O register at `addr` gives. The high
    /// byte of SOUNDCNT_H, which holds nothing this sound unit models,
    /// reads 0, as does every address that maps nothing.
    pub open spec fn io_register_byte(&self, addr: u32) -> u8 {
        if 0x0400_0000 <= addr <= 0x0400_005F {
            self.ppu.regs.read_byte(self.ppu.vcount, addr % 0x1000)
        } else if 0x0400_0060 <= addr <= 0x0400_009F && addr != 0x0400_0083 {
            self.apu.register_byte(addr - 0x0400_0000)
        } else if 0x0400_00B0 <= addr <= 0x0400_00DF {
            let c = (addr - 0x0400_00B0) / 12;
            self.dma.channels@[c as int].read_spec(((addr - 0x0400_00B0) % 12) as u8)
        } else if 0x0400_0100 <= addr <= 0x0400_010F {
            self.timers.timers@[((addr - 0x0400_0100) / 4) as int].register_byte(
                self.scheduler.cycle as int,
                ((addr - 0x0400_0100) % 4) as u8,
            )
        } else if addr == 0x0400_0130 || addr == 0x0400_0131 {
            self.keypad.keyinput.read_spec((addr - 0x0400_0130) as u8)
        } else if addr == 0x0400_0132 || addr == 0x0400_0133 {
            self.keypad.keycnt.read_spec((addr - 0x0400_0132) as u8)
        } else if addr == 0x0400_0200 || addr == 0x0400_0201 {
            self.interrupt_controller.enable.read_spec((addr - 0x0400_0200) as u8)
        } else if addr == 0x0400_0202 || addr == 0x0400_0203 {
            self.interrupt_controller.request.read_spec((addr - 0x0400_0202) as u8)
        } else if addr == 0x0400_0204 || addr == 0x0400_0205 {
            self.waitcnt.read_spec((addr - 0x0400_0204) as u8)
        } else if addr == 0x0400_0208 || addr == 0x0400_0209 {
            self.interrupt_controller.master_enable.read_spec((addr - 0x0400_0208) as u8)
        } else if addr == 0x0400_0300 {
            (self.haltcnt % 256) as u8
        } else if addr == 0x0400_0301 {
            (self.haltcnt / 256) as u8
        } else if addr == 0x04FF_F780 {
            if self.mgba_test_suite.is_enabled() { 0xEA } else { 0 }
        } else if addr == 0x04FF_F781 {
            if self.mgba_test_suite.is_enabled() { 0x1D } else { 0 }
        } else {
            0
        }
    }

    /// The byte at `addr` as a byte read gives it: each region by the top
    /// byte of the address, with work RAM, palette RAM, VRAM and OAM
    /// repeating through their regions.
    pub open spec fn read_byte(&self, addr: u32) -> u8 {
        let region = addr / 0x0100_0000;
        if region == 0 {
            if addr < 0x4000 { mem_byte(self.bios@, addr as int) } else { 0 }
        } else if region == 2 {
            self.ewram@[(addr % 0x40000) as int]
        } else if region == 3 {
            self.iwram@[(addr % 0x8000) as int]
        } else if region == 4 {
            self.io_register_byte(addr)
        } else if region == 5 {
            self.ppu.palette_byte(addr)
        } else if region == 6 {
            self.ppu.vram@[vram_index(addr)]
        } else if region == 7 {
            self.ppu.oam@[(addr % 0x400) as int]
        } else if 8 <= region <= 0xD {
            mem_byte(self.rom@, addr - 0x0800_0000)
        } else if region == 0xE {
            self.backup_byte((addr - 0x0E00_0000) as u32)
        } else {
            0
        }
    }

    fn io_register_read(&self, addr: u32) -> (r: u8)
        requires
            self.wf(),
        ensures
            r == self.io_register_byte(addr),
    {
        if 0x0400_0000 <= addr && addr <= 0x0400_005F {
            self.ppu.read_register(addr)
        } else if 0x0400_0060 <= addr && addr <= 0x0400_009F && addr != 0x0400_0083 {
            self.apu.read_register(addr)
        } else if 0x0400_00B0 <= addr && addr <= 0x0400_00DF {
            let c = ((addr - 0x0400_00B0) / 12) as usize;
            self.dma.channels[c].read(((addr - 0x0400_00B0) % 12) as u8)
        } else if 0x0400_0100 <= addr && addr <= 0x0400_010F {
            let i = ((addr - 0x0400_0100) / 4) as usize;
            self.timers.timers[i].read_register(&self.scheduler, ((addr - 0x0400_0100) % 4) as u8)
        } else if addr == 0x0400_0130 || addr == 0x0400_0131 {
            self.keypad.keyinput.read((addr - 0x0400_0130) as u8)
        } else if addr == 0x0400_0132 || addr == 0x0400_0133 {
            self.keypad.keycnt.read((addr - 0x0400_0132) as u8)
        } else if addr == 0x0400_0200 || addr == 0x0400_0201 {
            self.interrupt_controller.enable.read((addr - 0x0400_0200) as u8)
        } else if addr == 0x0400_0202 || addr == 0x0400_0203 {
            self.interrupt_controller.request.read((addr - 0x0400_0202) as u8)
        } else if addr == 0x0400_0204 || addr == 0x0400_0205 {
            self.waitcnt.read((addr - 0x0400_0204) as u8)
        } else if addr == 0x0400_0208 || addr == 0x0400_0209 {
            self.interrupt_controller.master_enable.read((addr - 0x0400_0208) as u8)
        } else if addr == 0x0400_0300 {
            (self.haltcnt % 256) as u8
        } else if addr == 0x0400_0301 {
            (self.haltcnt / 256) as u8
        } else if addr == 0x04FF_F780 || addr == 0x04FF_F781 {
            self.mgba_test_suite.read_register(addr)
        } else {
            0
        }
    }

    /// The byte at offset `addr` of the region `region`, as a debugger
    /// views it.
    pub fn peek_mem(&self, region: VisibleMemoryRegion, addr: u32) -> (r: u8)
        requires
            self.wf(),
            region_start(region) + addr <= u32::MAX,
        ensures
            r == self.read_byte((region_start(region) + addr) as u32),
    {
        self.peek8(region.get_start_addr() + addr)
    }

    /// The byte at `addr`, without recording the read.
    pub fn peek8(&self, addr: u32) -> (r: u8)
        requires
            self.wf(),
        ensures
            r == self.read_byte(addr),
    {
        let region = addr / 0x0100_0000;
        if region == 0 {
            if addr < 0x4000 && (addr as usize) < self.bios.len() { self.bios[addr as usize] } else { 0 }
        } else if region == 2 {
            self.ewram[(addr % 0x40000) as usize]
        } else if region == 3 {
            self.iwram[(addr % 0x8000) as usize]
        } else if region == 4 {
            self.io_register_read(addr)
        } else if region == 5 {
            self.ppu.read_palette_ram(addr)
        } else if region == 6 {
            self.ppu.vram[vram_index_exec(addr)]
        } else if region == 7 {
            self.ppu.oam[(addr % 0x400) as usize]
        } else if 8 <= region && region <= 0xD {
            let a = (addr - 0x0800_0000) as usize;
            if a < self.rom.len() { self.rom[a] } else { 0 }
        } else if region == 0xE {
            match &self.cart_backup {
                CartBackup::SRAM(s) => s.read(addr - 0x0E00_0000),
                CartBackup::EEPROM(_) => 0,
            }
        } else {
            0
        }
    }
}

impl IO {
    /// Everything but the I/O registers, the message of the test suite and
    /// the recorded operations is as in `other`.
    pub open spec fn same_memories(&self, other: &IO) -> bool {
        &&& self.bios@ == other.bios@ && self.rom@ == other.rom@
        &&& self.ewram@ == other.ewram@ && self.iwram@ == other.iwram@
        &&& self.ppu.bg_palettes@ == other.ppu.bg_palettes@ && self.ppu.obj_palettes@ == other.ppu.obj_palettes@
        &&& self.ppu.vram@ == other.ppu.vram@ && self.ppu.oam@ == other.ppu.oam@
        &&& self.ppu.pixels@ == other.ppu.pixels@ && self.ppu.dot == other.ppu.dot
        &&& self.ppu.vcount == other.ppu.vcount && self.ppu.needs_to_render == other.ppu.needs_to_render
        &&& self.cart_backup == other.cart_backup
        &&& self.clocks_ahead == other.clocks_ahead && self.cycle == other.cycle
    }

    /// `new` is this bus after a write of `value` to the I/O register at
    /// `addr`: the register of the device that the address selects (display,
    /// sound, DMA, timers, keypad, interrupt controller, WAITCNT, HALTCNT,
    /// the test suite's log) takes it as its write says, the other devices
    /// keep their registers, and the memories do not change. A write that
    /// would set DISPCNT to an undefined mode, log at an undefined level, or
    /// change a timer whose count is not defined, is dropped.
    pub open spec fn wrote_io(&self, new: &IO, addr: u32, value: u8) -> bool {
        let ic = self.interrupt_controller;
        let nic = new.interrupt_controller;
        &&& new.same_memories(self)
        &&& new.ppu.regs == (if 0x0400_0000 <= addr <= 0x0400_005F && (addr != 0x0400_0000 || value & 7 < 6) {
            self.ppu.regs.written(addr % 0x1000, value)
        } else {
            self.ppu.regs
        })
        &&& if 0x0400_0060 <= addr <= 0x0400_009F && addr != 0x0400_0083 {
            self.apu.wrote_register(&new.apu, addr - 0x0400_0000, value)
        } else {
            new.apu == self.apu
        }
        &&& if 0x0400_0100 <= addr <= 0x0400_010F {
            let i = ((addr - 0x0400_0100) / 4) as int;
            let b = ((addr - 0x0400_0100) % 4) as u8;
            let t = self.timers.timers@[i];
            if t.write_defined(self.scheduler.cycle as int, b) {
                let w = t.written(self.scheduler.events(), self.scheduler.cycle as int, b, value);
                &&& new.timers.timers@ == self.timers.timers@.update(i, w.0)
                &&& new.scheduler.events() == w.1
                &&& new.scheduler.cycle == self.scheduler.cycle
            } else {
                new.timers == self.timers && new.scheduler == self.scheduler
            }
        } else {
            new.timers == self.timers && new.scheduler == self.scheduler
        }
        &&& new.keypad.keyinput == self.keypad.keyinput
        &&& new.keypad.keycnt.bits == (if addr == 0x0400_0132 {
            (self.keypad.keycnt.bits & 0xFF00) | (value as u16 & 0x03FF)
        } else if addr == 0x0400_0133 {
            (self.keypad.keycnt.bits & 0x00FF) | ((value as u16) << 8u16 & super::keypad::KEYCNT_ALL)
        } else {
            self.keypad.keycnt.bits
        })
        &&& nic.enable.bits == (if addr == 0x0400_0200 {
            (ic.enable.bits & 0xFF00) | (value as u16 & super::interrupt_controller::INTERRUPT_ALL)
        } else if addr == 0x0400_0201 {
            (ic.enable.bits & 0x00FF) | ((value as u16) << 8u16 & super::interrupt_controller::INTERRUPT_ALL)
        } else {
            ic.enable.bits
        })
        &&& nic.request.bits == (if addr == 0x0400_0202 {
            ic.request.bits & !(value as u16)
        } else if addr == 0x0400_0203 {
            ic.request.bits & !((value as u16) << 8u16)
        } else {
            ic.request.bits
        })
        &&& nic.master_enable.bits == (if addr == 0x0400_0208 {
            (ic.master_enable.bits & 0xFF00) | (value as u16 & 1)
        } else if addr == 0x0400_0209 {
            (ic.master_enable.bits & 0x00FF) | ((value as u16) << 8u16 & 1)
        } else {
            ic.master_enable.bits
        })
        &&& new.haltcnt == (if addr == 0x0400_0300 {
            (self.haltcnt & 0xFF00) | value as u16
        } else if addr == 0x0400_0301 {
            (self.haltcnt & 0x00FF) | (value as u16) << 8u16
        } else {
            self.haltcnt
        })
        &&& if addr == 0x0400_0204 || addr == 0x0400_0205 {
            self.waitcnt.written(&new.waitcnt, (addr - 0x0400_0204) as u8, value)
        } else {
            new.waitcnt == self.waitcnt
        }
        &&& new.dma.channels@ == (if 0x0400_00B0 <= addr <= 0x0400_00DF {
            let c = ((addr - 0x0400_00B0) / 12) as int;
            self.dma.channels@.update(c, self.dma.channels@[c].after_write(((addr - 0x0400_00B0) % 12) as u8, value))
        } else {
            self.dma.channels@
        })
        &&& if 0x04FF_F600 <= addr <= 0x04FF_F701 && !self.mgba_test_suite.bad_log_level(addr, value) {
            let t = self.mgba_test_suite;
            &&& t.register_written(&new.mgba_test_suite, addr, value)
            &&& !t.logs(addr, value) ==> new.mgba_message == self.mgba_message
            &&& t.logs(addr, value) ==> (new.mgba_message matches Some((level, msg)) && level as int == (t.flags_after(
                addr,
                value,
            ) & 7) as int && msg@ == super::log_message(t.buffer@))
        } else if addr == 0x04FF_F780 || addr == 0x04FF_F781 {
            &&& new.mgba_test_suite.buffer@ == self.mgba_test_suite.buffer@
            &&& new.mgba_test_suite.flags == self.mgba_test_suite.flags
            &&& new.mgba_test_suite.enable == (if addr == 0x04FF_F780 {
                (self.mgba_test_suite.enable & 0xFF00) | value as u16
            } else {
                (self.mgba_test_suite.enable & 0x00FF) | (value as u16) << 8u16
            })
            &&& new.mgba_message == self.mgba_message
        } else {
            &&& new.mgba_test_suite.buffer@ == self.mgba_test_suite.buffer@
            &&& new.mgba_test_suite.enable == self.mgba_test_suite.enable
            &&& new.mgba_test_suite.flags == self.mgba_test_suite.flags
            &&& new.mgba_message == self.mgba_message
        }
    }

    fn write_io_register(&mut self, addr: u32, value: u8)
        requires
            old(self).wf(),
        ensures
            final(self).wf(),
            old(self).wrote_io(final(self), addr, value),
            final(self).ops == old(self).ops,
    {
        if 0x0400_0000 <= addr && addr <= 0x0400_005F {
            if addr != 0x0400_0000 || value & 7 < 6 {
                self.ppu.write_register(addr, value);
            }
        } else if 0x0400_0060 <= addr && addr <= 0x0400_009F {
            if addr != 0x0400_0083 {
                self.apu.write_register(addr, value);
            }
        } else if 0x0400_00B0 <= addr && addr <= 0x0400_00DF {
            let c = ((addr - 0x0400_00B0) / 12) as usize;
            let ghost before = self.dma.channels@;
            assert(self.dma.channels@[c as int].wf());
            assert(before[c as int].wf() && before[c as int].num == c);
            let mut channel = self.dma.channels[c];
            channel.write(((addr - 0x0400_00B0) % 12) as u8, value);
            self.dma.channels[c] = channel;
            proof {
                assert(self.dma.channels@ == before.update(c as int, channel));
                assert forall|i: int| 0 <= i < 4 implies #[trigger] self.dma.channels@[i].wf()
                    && self.dma.channels@[i].num == i by {
                    if i != c {
                        assert(self.dma.channels@[i] == before[i]);
                    }
                }
            }
        } else if 0x0400_0100 <= addr && addr <= 0x0400_010F {
            let i = ((addr - 0x0400_0100) / 4) as usize;
            let byte = ((addr - 0x0400_0100) % 4) as u8;
            let mut t = self.timers.timers[i];
            let defined = (byte != 2 || t.cnt.count_up || !t.cnt.start || t.count_defined_exec(self.scheduler.cycle))
                && self.scheduler.cycle < usize::MAX - MAX_EVENT_DELAY;
            if defined {
                let ghost before = self.timers.timers@;
                t.write(&mut self.scheduler, byte, value);
                self.timers.timers.set(i, t);
                proof {
                    assert forall|j: int| 0 <= j < 4 implies (#[trigger] self.timers.timers@[j]).wf()
                        && self.timers.timers@[j].index == j by {
                        if j != i {
                            assert(self.timers.timers@[j] == before[j]);
                        }
                    }
                }
            }
        } else if addr == 0x0400_0130 || addr == 0x0400_0131 {
            self.keypad.keyinput.write((addr - 0x0400_0130) as u8, value);
        } else if addr == 0x0400_0132 || addr == 0x0400_0133 {
            self.keypad.keycnt.write((addr - 0x0400_0132) as u8, value);
        } else if addr == 0x0400_0200 || addr == 0x0400_0201 {
            self.interrupt_controller.enable.write((addr - 0x0400_0200) as u8, value);
        } else if addr == 0x0400_0202 || addr == 0x0400_0203 {
            self.interrupt_controller.request.write((addr - 0x0400_0202) as u8, value);
        } else if addr == 0x0400_0204 || addr == 0x0400_0205 {
            self.waitcnt.write((addr - 0x0400_0204) as u8, value);
        } else if addr == 0x0400_0208 || addr == 0x0400_0209 {
            self.interrupt_controller.master_enable.write((addr - 0x0400_0208) as u8, value);
        } else if addr == 0x0400_0300 {
            self.haltcnt = (self.haltcnt & 0xFF00) | value as u16;
        } else if addr == 0x0400_0301 {
            self.haltcnt = (self.haltcnt & 0x00FF) | (value as u16) << 8;
        } else if 0x04FF_F600 <= addr && addr <= 0x04FF_F701 {
            if !self.mgba_test_suite.bad_log_level_exec(addr, value) {
                let message = self.mgba_test_suite.write_register(addr, value);
                if message.is_some() {
                    self.mgba_message = message;
                }
            }
        } else if addr == 0x04FF_F780 || addr == 0x04FF_F781 {
            self.mgba_test_suite.write_enable(addr, value);
        }
    }
}

impl IO {
    /// All but the recorded operations is as in `other`.
    pub open spec fn same_state(&self, other: &IO) -> bool {
        &&& self.same_memories(other)
        &&& self.ppu.regs == other.ppu.regs && self.keypad == other.keypad && self.apu == other.apu
        &&& self.timers == other.timers && self.scheduler == other.scheduler
        &&& self.interrupt_controller == other.interrupt_controller && self.haltcnt == other.haltcnt
        &&& self.waitcnt == other.waitcnt && self.dma.channels == other.dma.channels
        &&& self.dma.in_dma == other.dma.in_dma
        &&& self.mgba_test_suite.buffer@ == other.mgba_test_suite.buffer@
        &&& self.mgba_test_suite.enable == other.mgba_test_suite.enable
        &&& self.mgba_test_suite.flags == other.mgba_test_suite.flags
    }

    /// The save memory after `value` is written at `addr` of its region.
    pub open spec fn backup_written(&self, new: &IO, addr: u32, value: u8) -> bool {
        match (self.cart_backup, new.cart_backup) {
            (CartBackup::SRAM(s), CartBackup::SRAM(n)) => n.mem@ == (if addr < 0x8000 {
                s.mem@.update(addr as int, value)
            } else {
                s.mem@
            }),
            (CartBackup::EEPROM(e), CartBackup::EEPROM(n)) => n == e,
            _ => false,
        }
    }

    /// `new` is this bus after `value` is stored at `addr` as one byte of a
    /// wider write: work RAM, palette RAM, VRAM and OAM take it at the
    /// place the address selects, the I/O registers as `wrote_io` says, and
    /// the BIOS, the game pak and unmapped addresses ignore it.
    pub open spec fn poked(&self, new: &IO, addr: u32, value: u8) -> bool {
        let region = addr / 0x0100_0000;
        if region == 4 {
            self.wrote_io(new, addr, value)
        } else {
            &&& new.same_state_but_memories(self)
            &&& new.bios@ == self.bios@ && new.rom@ == self.rom@ && new.cart_backup == self.cart_backup
            &&& new.ewram@ == (if region == 2 { self.ewram@.update((addr % 0x40000) as int, value) } else { self.ewram@ })
            &&& new.iwram@ == (if region == 3 { self.iwram@.update((addr % 0x8000) as int, value) } else { self.iwram@ })
            &&& if region == 5 {
                new.ppu.bg_palettes@ == self.ppu.palettes_written(addr, value).0 && new.ppu.obj_palettes@
                    == self.ppu.palettes_written(addr, value).1
            } else {
                new.ppu.bg_palettes@ == self.ppu.bg_palettes@ && new.ppu.obj_palettes@ == self.ppu.obj_palettes@
            }
            &&& new.ppu.vram@ == (if region == 6 { self.ppu.vram@.update(vram_index(addr), value) } else { self.ppu.vram@ })
            &&& new.ppu.oam@ == (if region == 7 { self.ppu.oam@.update((addr % 0x400) as int, value) } else { self.ppu.oam@ })
        }
    }

    /// Equal registers, display position, picture and counters.
    pub open spec fn same_state_but_memories(&self, other: &IO) -> bool {
        &&& self.ppu.regs == other.ppu.regs && self.keypad == other.keypad && self.apu == other.apu
        &&& self.timers == other.timers && self.scheduler == other.scheduler
        &&& self.interrupt_controller == other.interrupt_controller && self.haltcnt == other.haltcnt
        &&& self.waitcnt == other.waitcnt && self.dma.channels == other.dma.channels
        &&& self.dma.in_dma == other.dma.in_dma
        &&& self.mgba_test_suite.buffer@ == other.mgba_test_suite.buffer@
        &&& self.mgba_test_suite.enable == other.mgba_test_suite.enable
        &&& self.mgba_test_suite.flags == other.mgba_test_suite.flags
        &&& self.ppu.pixels@ == other.ppu.pixels@ && self.ppu.dot == other.ppu.dot
        &&& self.ppu.vcount == other.ppu.vcount && self.ppu.needs_to_render == other.ppu.needs_to_render
        &&& self.clocks_ahead == other.clocks_ahead && self.cycle == other.cycle
    }

    /// Stores `value` at `addr` as one byte of a wider write.
    fn poke_byte(&mut self, addr: u32, value: u8)
        requires
            old(self).wf(),
        ensures
            final(self).wf(),
            old(self).poked(final(self), addr, value),
            final(self).ops == old(self).ops,
            final(self).mgba_message == old(self).mgba_message || addr / 0x0100_0000 == 4,
    {
        let region = addr / 0x0100_0000;
        if region == 2 {
            self.ewram.set((addr % 0x40000) as usize, value);
        } else if region == 3 {
            self.iwram.set((addr % 0x8000) as usize, value);
        } else if region == 4 {
            self.write_io_register(addr, value);
        } else if region == 5 {
            self.ppu.write_palette_ram(addr, value);
        } else if region == 6 {
            self.ppu.vram.set(vram_index_exec(addr), value);
        } else if region == 7 {
            self.ppu.oam.set((addr % 0x400) as usize, value);
        }
    }

    /// Writes `value` at `addr` of the save memory's region.
    fn write_backup(&mut self, addr: u32, value: u8)
        requires
            old(self).wf(),
        ensures
            final(self).wf(),
            old(self).backup_written(final(self), addr, value),
            final(self).same_state_but_memories(old(self)),
            final(self).bios@ == old(self).bios@ && final(self).rom@ == old(self).rom@,
            final(self).ewram@ == old(self).ewram@ && final(self).iwram@ == old(self).iwram@,
            final(self).ppu == old(self).ppu,
            final(self).ops == old(self).ops && final(self).mgba_message == old(self).mgba_message,
    {
        match &mut self.cart_backup {
            CartBackup::SRAM(s) => s.write(addr, value),
            CartBackup::EEPROM(_) => {},
        }
    }
}

impl IO {
    /// The halfword at `addr`: the save memory's region repeats its byte,
    /// elsewhere the byte there and the next one above it.
    pub open spec fn read_half(&self, addr: u32) -> u16 {
        if addr / 0x0100_0000 == 0xE {
            (self.read_byte(addr) as int * 0x0101) as u16
        } else {
            (self.read_byte(addr) as int + self.read_byte(addr.wrapping_add(1)) as int * 256) as u16
        }
    }

    /// The word at `addr`, built as `read_half` builds a halfword.
    pub open spec fn read_word(&self, addr: u32) -> u32 {
        if addr / 0x0100_0000 == 0xE {
            (self.read_byte(addr) as int * 0x0101_0101) as u32
        } else {
            (self.read_byte(addr) as int + self.read_byte(addr.wrapping_add(1)) as int * 0x100 + self.read_byte(
                addr.wrapping_add(2),
            ) as int * 0x10000 + self.read_byte(addr.wrapping_add(3)) as int * 0x100_0000) as u32
        }
    }

    /// The cycles that an access of kind `cycle_type` and width
    /// `access_width` (0: byte, 1: halfword, 2: word) to `addr` takes.
    pub open spec fn clock_cost(&self, cycle_type: Cycle, addr: u32, access_width: u32) -> int {
        if cycle_type == Cycle::I {
            1
        } else if 0x0200_0000 <= addr <= 0x0203_FFFF {
            if access_width == 2 { 6 } else { 3 }
        } else if 0x0500_0000 <= addr <= 0x06FF_FFFF {
            if access_width < 2 { 1 } else { 2 }
        } else if 0x0800_0000 <= addr <= 0x09FF_FFFF {
            self.waitcnt.access_time(0, cycle_type, access_width) as int
        } else if 0x0A00_0000 <= addr <= 0x0BFF_FFFF {
            self.waitcnt.access_time(1, cycle_type, access_width) as int
        } else if 0x0C00_0000 <= addr <= 0x0DFF_FFFF {
            self.waitcnt.access_time(2, cycle_type, access_width) as int
        } else {
            1
        }
    }

    fn cycles(&self, cycle_type: Cycle, addr: u32, access_width: u32) -> (r: u32)
        requires
            self.wf(),
            access_width <= 2,
        ensures
            r == self.clock_cost(cycle_type, addr, access_width),
            r <= 18,
    {
        if cycle_type == Cycle::I {
            1
        } else if 0x0200_0000 <= addr && addr <= 0x0203_FFFF {
            if access_width == 2 { 6 } else { 3 }
        } else if 0x0500_0000 <= addr && addr <= 0x06FF_FFFF {
            if access_width < 2 { 1 } else { 2 }
        } else if 0x0800_0000 <= addr && addr <= 0x09FF_FFFF {
            self.waitcnt.get_access_time(0, cycle_type, access_width)
        } else if 0x0A00_0000 <= addr && addr <= 0x0BFF_FFFF {
            self.waitcnt.get_access_time(1, cycle_type, access_width)
        } else if 0x0C00_0000 <= addr && addr <= 0x0DFF_FFFF {
            self.waitcnt.get_access_time(2, cycle_type, access_width)
        } else {
            1
        }
    }
}

impl IO {
    /// Tests `wf`.
    pub fn is_wf(&self) -> (r: bool)
        ensures
            r == self.wf(),
    {
        let backup_ok = match &self.cart_backup {
            CartBackup::SRAM(s) => s.mem.len() == 0x8000,
            CartBackup::EEPROM(_) => true,
        };
        self.ewram.len() == 0x40000 && self.iwram.len() == 0x8000 && self.ppu.is_wf() && self.apu.is_wf()
            && self.dma.is_wf() && self.timers.is_wf()
            && self.waitcnt.is_wf() && self.mgba_test_suite.buffer.len() == 0x100 && self.clocks_ahead < 4
            && backup_ok
    }
}

/// `b` is `a` after the clock runs for an access of width `access_width`
/// at `addr`: the cycles that the access costs pass, the sound unit steps
/// once per cycle and the scheduler likewise, the display moves a dot per
/// four of them, and the memories, the keypad, the DMA channels, the wait
/// states and the interrupt enables keep their state.
pub open spec fn clocked(a: IO, b: IO, cycle_type: Cycle, addr: u32, access_width: u32) -> bool {
    let cost = a.clock_cost(cycle_type, addr, access_width);
    &&& b.ops@ == a.ops@.push(BusOp::Clock(cycle_type, addr, access_width))
    &&& b.wf()
    &&& b.cycle == a.cycle.wrapping_add(cost as usize)
    &&& b.clocks_ahead == (a.clocks_ahead + cost) % 4
    &&& b.ppu.position() == (a.ppu.position() + (a.clocks_ahead + cost) / 4) % 70224
    &&& b.bios@ == a.bios@ && b.rom@ == a.rom@
    &&& b.ewram@ == a.ewram@ && b.iwram@ == a.iwram@
    &&& b.ppu.vram@ == a.ppu.vram@ && b.ppu.oam@ == a.ppu.oam@
    &&& b.ppu.bg_palettes@ == a.ppu.bg_palettes@ && b.ppu.obj_palettes@ == a.ppu.obj_palettes@
    &&& b.cart_backup == a.cart_backup && b.keypad == a.keypad
    &&& b.dma.channels == a.dma.channels && b.dma.in_dma == a.dma.in_dma
    &&& b.waitcnt == a.waitcnt && b.haltcnt == a.haltcnt
    &&& b.interrupt_controller.enable == a.interrupt_controller.enable
    &&& b.interrupt_controller.master_enable == a.interrupt_controller.master_enable
    &&& b.mgba_test_suite.buffer@ == a.mgba_test_suite.buffer@
    &&& b.mgba_test_suite.enable == a.mgba_test_suite.enable
    &&& b.mgba_test_suite.flags == a.mgba_test_suite.flags
    &&& b.mgba_message == a.mgba_message
    &&& APU::clock_steps(a.apu, b.apu, cost as nat)
    &&& a.scheduler.cycle + cost + MAX_EVENT_DELAY <= usize::MAX ==> b.scheduler.cycle == a.scheduler.cycle + cost
}

/// `b` is `a` after `value` is written as a halfword at `addr`: the save
/// memory takes the byte of it that its address selects; elsewhere the low
/// byte goes to `addr` and the high byte above it, each as `poked` says.
pub open spec fn wrote16(a: IO, b: IO, addr: u32, value: u16) -> bool {
    &&& b.ops@ == a.ops@.push(BusOp::Write16(addr, value))
    &&& b.wf()
    &&& addr / 0x0100_0000 == 0xE ==> a.backup_written(
        &b,
        (addr - 0x0E00_0000) as u32,
        (if addr % 2 == 0 { value % 256 } else { value / 256 }) as u8,
    ) && b.same_state_but_memories(&a) && b.ppu == a.ppu
    &&& addr / 0x0100_0000 != 0xE ==> exists|m: IO|
        #[trigger] a.poked(&m, addr, (value % 256) as u8) && m.poked(&b, addr.wrapping_add(1), (value / 256) as u8)
}

/// `b` is `a` after `value` is written as a word at `addr`: the save memory
/// takes the byte of it that its address selects; elsewhere its four bytes
/// go, lowest first, from `addr` up, each as `poked` says.
pub open spec fn wrote32(a: IO, b: IO, addr: u32, value: u32) -> bool {
    &&& b.ops@ == a.ops@.push(BusOp::Write32(addr, value))
    &&& b.wf()
    &&& addr / 0x0100_0000 == 0xE ==> a.backup_written(
        &b,
        (addr - 0x0E00_0000) as u32,
        ((value / pow256(addr % 4)) % 256) as u8,
    ) && b.same_state_but_memories(&a) && b.ppu == a.ppu
    &&& addr / 0x0100_0000 != 0xE ==> exists|m1: IO, m2: IO, m3: IO|
        #[trigger] a.poked(&m1, addr, (value % 256) as u8) && #[trigger] m1.poked(
            &m2,
            addr.wrapping_add(1),
            ((value / 0x100) % 256) as u8,
        ) && #[trigger] m2.poked(&m3, addr.wrapping_add(2), ((value / 0x10000) % 256) as u8) && m3.poked(
            &b,
            addr.wrapping_add(3),
            (value / 0x100_0000) as u8,
        )
}

impl MemoryHandler for IO {
    open spec fn ops(&self) -> Seq<BusOp> {
        self.ops@
    }

    /// The byte at `addr`; a bus that is not well formed reads 0.
    fn read8(&mut self, addr: u32) -> (r: u8)
        ensures
            old(self).wf() ==> r == old(self).read_byte(addr),
            final(self).same_state(old(self)) && final(self).mgba_message == old(self).mgba_message,
    {
        let r = if self.is_wf() { self.peek8(addr) } else { 0 };
        self.ops = Ghost(self.ops@.push(BusOp::Read8(addr, r)));
        r
    }

    fn read16(&mut self, addr: u32) -> (r: u16)
        ensures
            old(self).wf() ==> r == old(self).read_half(addr),
            final(self).same_state(old(self)) && final(self).mgba_message == old(self).mgba_message,
    {
        let r = if !self.is_wf() {
            0
        } else if addr / 0x0100_0000 == 0xE {
            self.peek8(addr) as u16 * 0x0101
        } else {
            self.peek8(addr) as u16 + self.peek8(addr.wrapping_add(1)) as u16 * 256
        };
        self.ops = Ghost(self.ops@.push(BusOp::Read16(addr, r)));
        r
    }

    fn read32(&mut self, addr: u32) -> (r: u32)
        ensures
            old(self).wf() ==> r == old(self).read_word(addr),
            final(self).same_state(old(self)) && final(self).mgba_message == old(self).mgba_message,
    {
        let r = if !self.is_wf() {
            0
        } else if addr / 0x0100_0000 == 0xE {
            self.peek8(addr) as u32 * 0x0101_0101
        } else {
            self.peek8(addr) as u32 + self.peek8(addr.wrapping_add(1)) as u32 * 0x100 + self.peek8(
                addr.wrapping_add(2),
            ) as u32 * 0x10000 + self.peek8(addr.wrapping_add(3)) as u32 * 0x100_0000
        };
        self.ops = Ghost(self.ops@.push(BusOp::Read32(addr, r)));
        r
    }

    /// Writes a byte: palette RAM takes it in both bytes of its halfword,
    /// VRAM likewise, OAM ignores it, and the save memory takes it at its
    /// address; elsewhere as `poked` says.
    #[verifier::rlimit(60)]
    fn write8(&mut self, addr: u32, value: u8)
        ensures
            old(self).wf() ==> final(self).wf(),
            old(self).wf() && addr / 0x0100_0000 == 5 ==> exists|m: IO|
                #[trigger] old(self).poked(&m, addr & !1u32, value) && m.poked(final(self), addr | 1, value),
            old(self).wf() && addr / 0x0100_0000 == 6 ==> {
                let j = vram_index(addr) / 2 * 2;
                &&& final(self).ppu.vram@ == old(self).ppu.vram@.update(j, value).update(j + 1, value)
                &&& final(self).same_state_but_memories(old(self))
                &&& final(self).bios@ == old(self).bios@ && final(self).rom@ == old(self).rom@
                &&& final(self).ewram@ == old(self).ewram@ && final(self).iwram@ == old(self).iwram@
                &&& final(self).cart_backup == old(self).cart_backup
                &&& final(self).ppu.bg_palettes@ == old(self).ppu.bg_palettes@
                &&& final(self).ppu.obj_palettes@ == old(self).ppu.obj_palettes@
                &&& final(self).ppu.oam@ == old(self).ppu.oam@
            },
            old(self).wf() && addr / 0x0100_0000 == 0xE ==> old(self).backup_written(
                final(self),
                (addr - 0x0E00_0000) as u32,
                value,
            ) && final(self).same_state_but_memories(old(self)) && final(self).ppu == old(self).ppu
                && final(self).ewram@ == old(self).ewram@ && final(self).iwram@ == old(self).iwram@,
            old(self).wf() && addr / 0x0100_0000 != 5 && addr / 0x0100_0000 != 6 && addr / 0x0100_0000 != 7
                && addr / 0x0100_0000 != 0xE ==> old(self).poked(final(self), addr, value),
            !old(self).wf() || addr / 0x0100_0000 == 7 ==> final(self).same_state(old(self)),
    {
        if self.is_wf() {
            let region = addr / 0x0100_0000;
            if region == 5 {
                self.poke_byte(addr & !1, value);
                let ghost m = *self;
                self.poke_byte(addr | 1, value);
                assert(old(self).poked(&m, addr & !1u32, value));
            } else if region == 6 {
                let j = vram_index_exec(addr) / 2 * 2;
                self.ppu.vram.set(j, value);
                self.ppu.vram.set(j + 1, value);
            } else if region == 7 {
            } else if region == 0xE {
                self.write_backup(addr - 0x0E00_0000, value);
            } else {
                self.poke_byte(addr, value);
            }
        }
        self.ops = Ghost(self.ops@.push(BusOp::Write8(addr, value)));
    }

    /// Writes the low byte at `addr`, then the high byte above it; the
    /// save memory takes only the byte of the halfword that its address
    /// selects.
    fn write16(&mut self, addr: u32, value: u16)
        ensures
            old(self).wf() ==> wrote16(*old(self), *final(self), addr, value),
            !old(self).wf() ==> final(self).same_state(old(self)),
    {
        if self.is_wf() {
            if addr / 0x0100_0000 == 0xE {
                let b = if addr % 2 == 0 { value % 256 } else { value / 256 };
                self.write_backup(addr - 0x0E00_0000, b as u8);
            } else {
                self.poke_byte(addr, (value % 256) as u8);
                let ghost m = *self;
                self.poke_byte(addr.wrapping_add(1), (value / 256) as u8);
                assert(old(self).poked(&m, addr, (value % 256) as u8));
            }
        }
        self.ops = Ghost(self.ops@.push(BusOp::Write16(addr, value)));
    }

    /// Writes the four bytes of `value`, lowest first, from `addr` up; the
    /// save memory takes only the byte of the word that its address
    /// selects.
    #[verifier::rlimit(80)]
    fn write32(&mut self, addr: u32, value: u32)
        ensures
            old(self).wf() ==> wrote32(*old(self), *final(self), addr, value),
            !old(self).wf() ==> final(self).same_state(old(self)),
    {
        if self.is_wf() {
            if addr / 0x0100_0000 == 0xE {
                let shift = addr % 4;
                let d: u32 = if shift == 0 { 1 } else if shift == 1 { 0x100 } else if shift == 2 { 0x10000 } else { 0x100_0000 };
                self.write_backup(addr - 0x0E00_0000, ((value / d) % 256) as u8);
            } else {
                self.poke_byte(addr, (value % 256) as u8);
                let ghost m1 = *self;
                self.poke_byte(addr.wrapping_add(1), ((value / 0x100) % 256) as u8);
                let ghost m2 = *self;
                self.poke_byte(addr.wrapping_add(2), ((value / 0x10000) % 256) as u8);
                let ghost m3 = *self;
                self.poke_byte(addr.wrapping_add(3), (value / 0x100_0000) as u8);
                assert(old(self).poked(&m1, addr, (value % 256) as u8) && m1.poked(&m2, addr.wrapping_add(1), ((value
                    / 0x100) % 256) as u8) && m2.poked(&m3, addr.wrapping_add(2), ((value / 0x10000) % 256) as u8));
            }
        }
        self.ops = Ghost(self.ops@.push(BusOp::Write32(addr, value)));
    }
}

/// 256 to the power `n` (0 to 3).
pub open spec fn pow256(n: u32) -> u32 {
    if n == 0 {
        1
    } else if n == 1 {
        0x100
    } else if n == 2 {
        0x10000
    } else {
        0x100_0000
    }
}

/// One dot moves the display one dot further through its frame of 70224.
proof fn lemma_position_step(p: PPU, q: PPU)
    requires
        p.wf(),
        q.dot == (if p.dot + 1 == 308 { 0 } else { p.dot + 1 }),
        q.vcount == (if p.dot + 1 == 308 { (p.vcount + 1) % 228 } else { p.vcount as int }),
    ensures
        q.position() == (p.position() + 1) % 70224,
        0 <= p.position() < 70224,
{
    if p.dot + 1 == 308 {
        if p.vcount + 1 == 228 {
            assert(p.position() + 1 == 70224);
        } else {
            assert(q.position() == p.position() + 1);
        }
    } else {
        assert(q.position() == p.position() + 1);
    }
}

/// Runs the sound unit for `cycles` cycles.
fn run_apu(apu: &mut APU, cycles: u32)
    requires
        old(apu).wf(),
    ensures
        final(apu).wf(),
        APU::clock_steps(*old(apu), *final(apu), cycles as nat),
{
    let ghost a0 = *apu;
    let mut k = cycles;
    while k > 0
        invariant
            apu.wf(),
            k <= cycles,
            APU::clock_steps(a0, *apu, (cycles - k) as nat),
        decreases k,
    {
        let ghost before = *apu;
        apu.clock();
        proof {
            let after = *apu;
            let n: nat = (cycles - k) as nat;
            assert(((n + 1) as nat - 1) as nat == n);
            assert(APU::clock_steps(a0, before, ((n + 1) as nat - 1) as nat) && before.clock_step(&after));
        }
        k = k - 1;
    }
}

impl IO {
    /// Runs the scheduler for `cycles` cycles.
    fn run_scheduler(&mut self, cycles: u32)
        requires
            old(self).wf(),
        ensures
            final(self).wf(),
            final(self).same_but_timing(old(self)),
            old(self).scheduler.cycle + cycles + MAX_EVENT_DELAY <= usize::MAX ==> final(self).scheduler.cycle
                == old(self).scheduler.cycle + cycles,
    {
        let mut k = cycles;
        while k > 0
            invariant
                self.wf(),
                self.same_but_timing(old(self)),
                k <= cycles,
                old(self).scheduler.cycle + cycles + MAX_EVENT_DELAY <= usize::MAX ==> self.scheduler.cycle
                    == old(self).scheduler.cycle + (cycles - k),
            decreases k,
        {
            self.handle_events();
            k = k - 1;
        }
    }
}

impl IMMU for IO {
    /// Counts the cycles of the access, runs the sound unit and the
    /// scheduler one step per cycle and the display one dot per four of
    /// them; the interrupts that the display raises are requested.
    fn inc_clock(&mut self, cycle_type: Cycle, addr: u32, access_width: u32)
        ensures
            old(self).wf() ==> clocked(*old(self), *final(self), cycle_type, addr, access_width),
            !old(self).wf() ==> final(self).same_state(old(self)) && final(self).mgba_message == old(self).mgba_message,
    {
        if self.is_wf() {
            let cost = self.cycles(cycle_type, addr, access_width);
            self.cycle = self.cycle.wrapping_add(cost as usize);
            run_apu(&mut self.apu, cost);
            self.run_scheduler(cost);
            let total = self.clocks_ahead + cost;
            self.clocks_ahead = total % 4;
            let ghost s0 = *self;
            let ghost p0 = old(self).ppu.position();
            let mut n = total / 4;
            while n > 0
                invariant
                    self.ppu.wf(),
                    self.apu.wf(),
                    self.timers.wf(),
                    n <= total / 4,
                    0 <= p0 < 70224,
                    self.ppu.position() == (p0 + (total / 4 - n)) % 70224,
                    self.bios@ == s0.bios@ && self.rom@ == s0.rom@,
                    self.ewram@ == s0.ewram@ && self.iwram@ == s0.iwram@,
                    self.ppu.vram@ == s0.ppu.vram@ && self.ppu.oam@ == s0.ppu.oam@,
                    self.ppu.bg_palettes@ == s0.ppu.bg_palettes@ && self.ppu.obj_palettes@ == s0.ppu.obj_palettes@,
                    self.ppu.regs.bgcnt0 == s0.ppu.regs.bgcnt0 && self.ppu.regs.bgcnt1 == s0.ppu.regs.bgcnt1,
                    self.ppu.regs.bgcnt2 == s0.ppu.regs.bgcnt2 && self.ppu.regs.bgcnt3 == s0.ppu.regs.bgcnt3,
                    self.cart_backup == s0.cart_backup && self.keypad == s0.keypad,
                    self.dma == s0.dma,
                    self.waitcnt == s0.waitcnt && self.haltcnt == s0.haltcnt,
                    self.interrupt_controller.enable == s0.interrupt_controller.enable,
                    self.interrupt_controller.master_enable == s0.interrupt_controller.master_enable,
                    self.mgba_test_suite == s0.mgba_test_suite && self.mgba_message == s0.mgba_message,
                    self.clocks_ahead == s0.clocks_ahead && self.cycle == s0.cycle && self.ops == s0.ops,
                    self.scheduler.cycle == s0.scheduler.cycle,
                    self.apu == s0.apu,
                    self.ewram.len() == 0x40000 && self.iwram.len() == 0x8000,
                decreases n,
            {
                let ghost before = self.ppu;
                let irq = self.ppu.emulate_dot();
                self.interrupt_controller.request(irq.bits);
                proof {
                    lemma_position_step(before, self.ppu);
                    lemma_add_mod_noop(p0 + (total / 4 - n), 1, 70224);
                }
                n = n - 1;
            }
        }
        self.ops = Ghost(self.ops@.push(BusOp::Clock(cycle_type, addr, access_width)));
    }
}

/// The address `k` units into a transfer from `a`: it counts up
/// (control 0, and 3 for the destination), down (control 1), or stays.
pub open spec fn dma_addr(a: u32, ctrl: u8, transfer_32: bool, k: int) -> u32 {
    let change: int = if transfer_32 { 4 } else { 2 };
    if ctrl == 0 || ctrl == 3 {
        ((a + k * change) % 0x1_0000_0000) as u32
    } else if ctrl == 1 {
        ((a - k * change) % 0x1_0000_0000) as u32
    } else {
        a
    }
}

/// Unit `k` of a transfer in the trace `t`: the two cycles, then a read of
/// the source and a write of what it read to the destination.
pub open spec fn dma_unit(t: Seq<BusOp>, k: int, src: u32, dest: u32, transfer_32: bool) -> bool {
    let ct = if k == 0 { Cycle::N } else { Cycle::S };
    let w: u32 = if transfer_32 { 2 } else { 1 };
    &&& t[4 * k] == BusOp::Clock(ct, src, w)
    &&& t[4 * k + 1] == BusOp::Clock(ct, dest, w)
    &&& if transfer_32 {
        t[4 * k + 2] matches BusOp::Read32(a, v) && a == src && t[4 * k + 3] == BusOp::Write32(dest, v)
    } else {
        t[4 * k + 2] matches BusOp::Read16(a, v) && a == src && t[4 * k + 3] == BusOp::Write16(dest, v)
    }
}

/// The trace `t` of a transfer of `count` units from `src` to `dest`:
/// each unit in turn, then two internal cycles.
pub open spec fn dma_trace(
    t: Seq<BusOp>,
    count: int,
    src: u32,
    dest: u32,
    src_ctrl: u8,
    dest_ctrl: u8,
    transfer_32: bool,
) -> bool {
    &&& t.len() == 4 * count + 2
    &&& forall|k: int|
        0 <= k < count ==> #[trigger] dma_unit(
            t,
            k,
            dma_addr(src, src_ctrl, transfer_32, k),
            dma_addr(dest, dest_ctrl, transfer_32, k),
            transfer_32,
        )
    &&& t[4 * count] == BusOp::Clock(Cycle::I, 0, 0)
    &&& t[4 * count + 1] == BusOp::Clock(Cycle::I, 0, 0)
}

/// The channel that runs: the first that wants to transfer, when HBlank
/// and VBlank have (or have not) just begun and the two sound FIFOs ask (or
/// do not ask) for data as the flags say; 4 if none does.
pub open spec fn running_channel(dma: &DMA, hblank: bool, vblank: bool, fifo: Seq<bool>) -> int {
    if dma.channels@[0].wants_transfer(hblank, vblank, fifo) {
        0
    } else if dma.channels@[1].wants_transfer(hblank, vblank, fifo) {
        1
    } else if dma.channels@[2].wants_transfer(hblank, vblank, fifo) {
        2
    } else if dma.channels@[3].wants_transfer(hblank, vblank, fifo) {
        3
    } else {
        4
    }
}

/// Whether channel `c` feeds a sound FIFO: channels 1 and 2 with the
/// special start timing move 4 words to a fixed address.
pub open spec fn is_fifo(c: DMAChannel) -> bool {
    (c.num == 1 || c.num == 2) && c.cnt.start_timing == 3
}

/// The number of units that channel `c` moves when it runs.
pub open spec fn dma_count(c: DMAChannel) -> int {
    if is_fifo(c) { 4 } else { c.count_latch as int }
}

/// Whether channel `c` moves words (else halfwords).
pub open spec fn dma_w32(c: DMAChannel) -> bool {
    is_fifo(c) || c.cnt.transfer_32
}

/// The destination control that channel `c` uses: a FIFO stays fixed.
pub open spec fn dma_dest_ctrl(c: DMAChannel) -> u8 {
    if is_fifo(c) { 2 } else { c.cnt.dest_addr_ctrl }
}

/// The latched source of channel `c`, aligned to its unit.
pub open spec fn dma_src(c: DMAChannel) -> u32 {
    (if dma_w32(c) { c.sad_latch / 4 * 4 } else { c.sad_latch / 2 * 2 }) as u32
}

/// The latched destination of channel `c`, aligned to its unit.
pub open spec fn dma_dest(c: DMAChannel) -> u32 {
    (if dma_w32(c) { c.dad_latch / 4 * 4 } else { c.dad_latch / 2 * 2 }) as u32
}

/// Whether a unit written at `a` may touch the DMA registers
/// (0x0400_00B0 to 0x0400_00DF).
pub open spec fn reaches_dma_regs(a: u32) -> bool {
    0x0400_00AC <= a <= 0x0400_00DF
}

/// Whether no unit that channel `c` writes touches the DMA registers.
pub open spec fn spares_dma_regs(c: DMAChannel) -> bool {
    forall|k: int|
        0 <= k < dma_count(c) ==> !reaches_dma_regs(#[trigger] dma_addr(dma_dest(c), dma_dest_ctrl(c), dma_w32(c), k))
}

/// The interrupt source of DMA channel `i`.
pub open spec fn dma_interrupt(i: int) -> u16 {
    if i == 0 {
        INTERRUPT_DMA0
    } else if i == 1 {
        INTERRUPT_DMA1
    } else if i == 2 {
        INTERRUPT_DMA2
    } else {
        INTERRUPT_DMA3
    }
}

/// A source added to IF is requested.
proof fn lemma_requested(x: u16)
    ensures
        (x | INTERRUPT_DMA0) & INTERRUPT_DMA0 != 0,
        (x | INTERRUPT_DMA1) & INTERRUPT_DMA1 != 0,
        (x | INTERRUPT_DMA2) & INTERRUPT_DMA2 != 0,
        (x | INTERRUPT_DMA3) & INTERRUPT_DMA3 != 0,
{
    assert((x | 0x100u16) & 0x100u16 != 0 && (x | 0x200u16) & 0x200u16 != 0 && (x | 0x400u16) & 0x400u16 != 0
        && (x | 0x800u16) & 0x800u16 != 0) by (bit_vector);
}

/// Whether the channel that runs would move units with the source control
/// that the hardware leaves undefined (3): the transfer has no meaning then.
pub open spec fn dma_src_invalid(dma: &DMA, hblank: bool, vblank: bool, fifo: Seq<bool>) -> bool {
    let r = running_channel(dma, hblank, vblank, fifo);
    r < 4 && dma.channels@[r].cnt.src_addr_ctrl == 3 && dma_count(dma.channels@[r]) > 0
}

/// The address after one unit at `addr` with control `ctrl`.
pub open spec fn dma_step(addr: u32, ctrl: u8, transfer_32: bool) -> u32 {
    let change: int = if transfer_32 { 4 } else { 2 };
    if ctrl == 0 || ctrl == 3 {
        ((addr + change) % 0x1_0000_0000) as u32
    } else if ctrl == 1 {
        ((addr - change) % 0x1_0000_0000) as u32
    } else {
        addr
    }
}

/// Moves an address on by one unit.
fn next_addr(addr: u32, ctrl: u8, transfer_32: bool) -> (r: u32)
    ensures
        r == dma_step(addr, ctrl, transfer_32),
{
    let change: u32 = if transfer_32 { 4 } else { 2 };
    if ctrl == 0 || ctrl == 3 {
        addr.wrapping_add(change)
    } else if ctrl == 1 {
        addr.wrapping_sub(change)
    } else {
        addr
    }
}

/// Walking `k + 1` units is walking `k` units, then one step.
proof fn lemma_dma_addr_step(a: u32, ctrl: u8, transfer_32: bool, k: int)
    requires
        0 <= k,
    ensures
        dma_addr(a, ctrl, transfer_32, k + 1) == dma_step(dma_addr(a, ctrl, transfer_32, k), ctrl, transfer_32),
{
    let change: int = if transfer_32 { 4 } else { 2 };
    let m: int = 0x1_0000_0000;
    assert(a + (k + 1) * change == a + k * change + change) by (nonlinear_arith);
    assert(a - (k + 1) * change == a - k * change - change) by (nonlinear_arith);
    if ctrl == 0 || ctrl == 3 {
        lemma_add_mod_noop(a + k * change, change, m);
    } else if ctrl == 1 {
        vstd::arithmetic::div_mod::lemma_sub_mod_noop(a - k * change, change, m);
    }
}

/// One unit through the states `m1` to `m3`: from `a`, the clock runs for
/// the access of the source, then for that of the destination, giving `m2`;
/// the unit is read from the source as `m2` holds it (giving `m3`, which
/// records the read) and written to the destination, giving `b`.
pub open spec fn unit_via(a: IO, m1: IO, m2: IO, m3: IO, b: IO, first: bool, src: u32, dest: u32, w32: bool) -> bool {
    let ct = if first { Cycle::N } else { Cycle::S };
    let w: u32 = if w32 { 2 } else { 1 };
    &&& clocked(a, m1, ct, src, w)
    &&& clocked(m1, m2, ct, dest, w)
    &&& m3.same_state(&m2) && m3.mgba_message == m2.mgba_message
    &&& if w32 {
        m3.ops@ == m2.ops@.push(BusOp::Read32(src, m2.read_word(src))) && wrote32(m3, b, dest, m2.read_word(src))
    } else {
        m3.ops@ == m2.ops@.push(BusOp::Read16(src, m2.read_half(src))) && wrote16(m3, b, dest, m2.read_half(src))
    }
}

/// `b` is `a` after one unit of a transfer from `src` to `dest`.
pub open spec fn unit_moved(a: IO, b: IO, first: bool, src: u32, dest: u32, w32: bool) -> bool {
    exists|m1: IO, m2: IO, m3: IO| #[trigger] unit_via(a, m1, m2, m3, b, first, src, dest, w32)
}

/// Unit `k` of the transfer of channel `c` leads from `units[k]` to
/// `units[k + 1]`.
pub open spec fn unit_step(units: Seq<IO>, k: int, c: DMAChannel) -> bool {
    unit_moved(
        units[k],
        units[k + 1],
        k == 0,
        dma_addr(dma_src(c), c.cnt.src_addr_ctrl, dma_w32(c), k),
        dma_addr(dma_dest(c), dma_dest_ctrl(c), dma_w32(c), k),
        dma_w32(c),
    )
}

/// The states of the transfer of channel `r` (which is `c` in `before`):
/// the first is `before` with the DMA marked busy and the channel's enable
/// bit as it will stay; each next one follows by one unit.
pub open spec fn units_ran(before: IO, units: Seq<IO>, c: DMAChannel, r: int) -> bool {
    &&& units.len() == dma_count(c) + 1
    &&& units[0].dma.in_dma
    &&& units[0].dma.channels@ == before.dma.channels@.update(
        r,
        DMAChannel { cnt: DMACNT { enable: c.cnt.start_timing != 0 && c.cnt.repeat, ..c.cnt }, ..c },
    )
    &&& (IO { dma: before.dma, ..units[0] }) == before
    &&& forall|k: int| 0 <= k < dma_count(c) ==> #[trigger] unit_step(units, k, c)
}

/// The end of the transfer of channel `r`, through `m0` to `m2`: the
/// channel takes the latches `sad` and `dad` and, if it stays enabled,
/// reloads its count (giving `m0`); two internal cycles pass (giving `m2`);
/// then its interrupt is requested if `irq` and only then, and the DMA is no
/// longer busy.
pub open spec fn ended_via(a: IO, m0: IO, m1: IO, m2: IO, b: IO, r: int, sad: u32, dad: u32, irq: bool) -> bool {
    let ch = a.dma.channels@[r];
    let req = m2.interrupt_controller.request.bits;
    &&& m0.dma.channels@ == a.dma.channels@.update(
        r,
        DMAChannel {
            sad_latch: sad,
            dad_latch: dad,
            count_latch: if ch.cnt.enable { ch.count.count as u32 } else { ch.count_latch },
            ..ch
        },
    )
    &&& m0.dma.in_dma == a.dma.in_dma
    &&& (IO { dma: a.dma, ..m0 }) == a
    &&& clocked(m0, m1, Cycle::I, 0, 0)
    &&& clocked(m1, m2, Cycle::I, 0, 0)
    &&& b.interrupt_controller.request.bits == (if irq { req | dma_interrupt(r) } else { req })
    &&& b.interrupt_controller.enable == m2.interrupt_controller.enable
    &&& b.interrupt_controller.master_enable == m2.interrupt_controller.master_enable
    &&& b.dma.channels == m2.dma.channels && !b.dma.in_dma
    &&& (IO { interrupt_controller: m2.interrupt_controller, dma: m2.dma, ..b }) == m2
}

/// `b` is `a` after the end of the transfer of channel `r`.
pub open spec fn transfer_ended(a: IO, b: IO, r: int, sad: u32, dad: u32, irq: bool) -> bool {
    exists|m0: IO, m1: IO, m2: IO| #[trigger] ended_via(a, m0, m1, m2, b, r, sad, dad, irq)
}

/// `after` is the bus `before` after the DMA check with the flags `hblank`,
/// `vblank` and `fifo`: when no channel wants to transfer, nothing changes.
/// Otherwise the first that does runs: its units go in order from its
/// latched source to its latched destination (both aligned to the unit),
/// each address moving as its control says; its latches move on (the
/// destination returns to its start under control 3); it is disabled
/// unless it repeats at a start timing other than "now", and then its
/// count is reloaded; its interrupt is requested if it asks for one, and
/// only then. Each unit is read from the bus as it stands after the units
/// before it and written through the bus (`units_ran`, `transfer_ended`).
/// The transfer's own writes go through the bus, so the direct statements
/// on the channel's registers are made where they do not reach them.
pub open spec fn dma_ran(before: &IO, after: &IO, hblank: bool, vblank: bool, fifo: Seq<bool>) -> bool {
    let r = running_channel(&before.dma, hblank, vblank, fifo);
    &&& after.wf()
    &&& r == 4 ==> after.same_state(before) && after.ops == before.ops
    &&& r < 4 ==> {
        let c = before.dma.channels@[r];
        let nc = after.dma.channels@[r];
        let w32 = dma_w32(c);
        let count: int = dma_count(c);
        let dest_ctrl = dma_dest_ctrl(c);
        let src = dma_src(c);
        let dest = dma_dest(c);
        &&& !after.dma.in_dma
        &&& after.ops@.len() >= before.ops@.len()
        &&& after.ops@.take(before.ops@.len() as int) == before.ops@
        &&& dma_trace(after.ops@.skip(before.ops@.len() as int), count, src, dest, c.cnt.src_addr_ctrl, dest_ctrl, w32)
        &&& nc.sad_latch == dma_addr(src, c.cnt.src_addr_ctrl, w32, count)
        &&& nc.dad_latch == (if dest_ctrl == 3 { dest } else { dma_addr(dest, dest_ctrl, w32, count) })
        &&& c.cnt.irq ==> after.interrupt_controller.request.bits & dma_interrupt(r) != 0
        &&& exists|units: Seq<IO>|
            #[trigger] units_ran(*before, units, c, r) && transfer_ended(
                units.last(),
                *after,
                r,
                dma_addr(src, c.cnt.src_addr_ctrl, w32, count),
                if dest_ctrl == 3 { dest } else { dma_addr(dest, dest_ctrl, w32, count) },
                c.cnt.irq,
            )
        &&& spares_dma_regs(c) ==> {
            &&& nc.cnt == (DMACNT { enable: c.cnt.start_timing != 0 && c.cnt.repeat, ..c.cnt })
            &&& nc.count_latch == (if nc.cnt.enable { c.count.count as u32 } else { c.count_latch })
            &&& nc.num == c.num && nc.sad == c.sad && nc.dad == c.dad && nc.count == c.count
            &&& forall|j: int|
                0 <= j < 4 && j != r ==> #[trigger] after.dma.channels@[j] == before.dma.channels@[j]
        }
    }
}

impl IO {
    /// Whether the transfer that `run_dma` would run is defined (see
    /// `dma_src_invalid`).
    pub fn dma_transfer_defined(&self, hblank: bool, vblank: bool, fifo: [bool; 2]) -> (r: bool)
        requires
            self.wf(),
        ensures
            r == !dma_src_invalid(&self.dma, hblank, vblank, fifo@),
    {
        let mut dma = DMA { channels: self.dma.channels, in_dma: self.dma.in_dma };
        assert(dma == self.dma);
        let c = dma.get_channel_running(hblank, vblank, fifo);
        proof {
            lemma_first_running(&self.dma, c as int, hblank, vblank, fifo@);
        }
        if c >= 4 {
            return true;
        }
        let channel = self.dma.channels[c];
        let is_fifo = (channel.num == 1 || channel.num == 2) && channel.cnt.start_timing == 3;
        let count: u32 = if is_fifo { 4 } else { channel.count_latch };
        !(channel.cnt.src_addr_ctrl == 3 && count > 0)
    }

    /// The DMA check: `hblank` and `vblank` say whether the display has
    /// just entered HBlank or VBlank, `fifo` whether sound FIFO A and B ask
    /// for data; the first channel that wants to transfer then runs, as
    /// `dma_ran` says.
    #[verifier::spinoff_prover]
    #[verifier::rlimit(80)]
    pub fn run_dma(&mut self, hblank: bool, vblank: bool, fifo: [bool; 2])
        requires
            old(self).wf() ==> !dma_src_invalid(&old(self).dma, hblank, vblank, fifo@),
        ensures
            old(self).wf() ==> dma_ran(old(self), final(self), hblank, vblank, fifo@),
    {
        if !self.is_wf() {
            return;
        }
        let dma_channel = self.dma.get_channel_running(hblank, vblank, fifo);
        if dma_channel >= 4 {
            return;
        }
        let ghost o = self.ops@;
        self.dma.in_dma = true;
        let mut channel = self.dma.channels[dma_channel];
        let is_fifo = (channel.num == 1 || channel.num == 2) && channel.cnt.start_timing == 3;
        let count: u32 = if is_fifo { 4 } else { channel.count_latch };
        let src_addr_ctrl = channel.cnt.src_addr_ctrl;
        let dest_addr_ctrl: u8 = if is_fifo { 2 } else { channel.cnt.dest_addr_ctrl };
        let transfer_32 = if is_fifo { true } else { channel.cnt.transfer_32 };
        let irq = channel.cnt.irq;
        channel.cnt.enable = channel.cnt.start_timing != 0 && channel.cnt.repeat;
        self.set_channel(dma_channel, channel);
        let ghost c0 = old(self).dma.channels@[dma_channel as int];
        let ghost ch1 = self.dma.channels@;
        proof {
            lemma_first_running(&old(self).dma, dma_channel as int, hblank, vblank, fifo@);
        }
        let mut src_addr = if transfer_32 { channel.sad_latch / 4 * 4 } else { channel.sad_latch / 2 * 2 };
        let mut dest_addr = if transfer_32 { channel.dad_latch / 4 * 4 } else { channel.dad_latch / 2 * 2 };
        let ghost src0 = src_addr;
        let ghost dest0 = dest_addr;
        let original_dest_addr = dest_addr;
        let ghost u0 = *self;
        let ghost mut units: Seq<IO> = seq![*self];
        assert((IO { dma: old(self).dma, ..u0 }) == *old(self));
        let mut k: u32 = 0;
        while k < count
            invariant
                self.wf(),
                units.len() == k + 1,
                units[0] == u0,
                units.last() == *self,
                src0 == dma_src(c0) && src_addr_ctrl == c0.cnt.src_addr_ctrl,
                forall|j: int| 0 <= j < k ==> #[trigger] unit_step(units, j, c0),
                k <= count,
                dma_channel < 4,
                self.ops@.len() == o.len() + 4 * k,
                self.ops@.take(o.len() as int) == o,
                dest0 == dma_dest(c0) && dest_addr_ctrl == dma_dest_ctrl(c0) && transfer_32 == dma_w32(c0),
                count == dma_count(c0),
                spares_dma_regs(c0) ==> self.dma.channels@ == ch1,
                src_addr == dma_addr(src0, src_addr_ctrl, transfer_32, k as int),
                dest_addr == dma_addr(dest0, dest_addr_ctrl, transfer_32, k as int),
                forall|j: int|
                    0 <= j < k ==> #[trigger] dma_unit(
                        self.ops@.skip(o.len() as int),
                        j,
                        dma_addr(src0, src_addr_ctrl, transfer_32, j),
                        dma_addr(dest0, dest_addr_ctrl, transfer_32, j),
                        transfer_32,
                    ),
            decreases count - k,
        {
            let ghost before = self.ops@;
            self.transfer_unit(k == 0, src_addr, dest_addr, transfer_32);
            proof {
                lemma_units_push(units, *self, k as int, c0);
                units = units.push(*self);
            }
            proof {
                lemma_trace_extend(o, before, self.ops@, k as int, src0, dest0, src_addr_ctrl, dest_addr_ctrl,
                    transfer_32);
            }
            proof {
                lemma_dma_addr_step(src0, src_addr_ctrl, transfer_32, k as int);
                lemma_dma_addr_step(dest0, dest_addr_ctrl, transfer_32, k as int);
            }
            src_addr = next_addr(src_addr, src_addr_ctrl, transfer_32);
            dest_addr = next_addr(dest_addr, dest_addr_ctrl, transfer_32);
            k = k + 1;
        }
        let ghost after_loop = self.ops@;
        let ghost ch2 = self.dma.channels@;
        self.end_transfer(dma_channel, src_addr, if dest_addr_ctrl == 3 { original_dest_addr } else { dest_addr }, irq);
        proof {
            lemma_trace_finish(o, after_loop, self.ops@, count as int, src0, dest0, src_addr_ctrl, dest_addr_ctrl,
                transfer_32);
            lemma_first_running(&old(self).dma, dma_channel as int, hblank, vblank, fifo@);
            assert(units_ran(*old(self), units, c0, dma_channel as int));
            if spares_dma_regs(c0) {
                assert(ch2 == ch1);
                assert forall|j: int| 0 <= j < 4 && j != dma_channel implies #[trigger] self.dma.channels@[j]
                    == old(self).dma.channels@[j] by {
                    assert(ch1[j] == old(self).dma.channels@[j]);
                }
            }
        }
    }

    /// The end of a transfer of channel `c`: its latched addresses become
    /// `sad` and `dad`, its count is reloaded if it stays enabled, two
    /// internal cycles pass, and its interrupt is requested if `irq`.
    #[verifier::spinoff_prover]
    fn end_transfer(&mut self, c: usize, sad: u32, dad: u32, irq: bool)
        requires
            old(self).wf(),
            c < 4,
        ensures
            final(self).wf(),
            final(self).ops@ == old(self).ops@.push(BusOp::Clock(Cycle::I, 0, 0)).push(BusOp::Clock(Cycle::I, 0, 0)),
            !final(self).dma.in_dma,
            final(self).dma.channels@ == old(self).dma.channels@.update(
                c as int,
                ({
                    let ch = old(self).dma.channels@[c as int];
                    DMAChannel {
                        sad_latch: sad,
                        dad_latch: dad,
                        count_latch: if ch.cnt.enable { ch.count.count as u32 } else { ch.count_latch },
                        ..ch
                    }
                }),
            ),
            irq ==> final(self).interrupt_controller.request.bits & dma_interrupt(c as int) != 0,
            transfer_ended(*old(self), *final(self), c as int, sad, dad, irq),
    {
        let mut channel = self.dma.channels[c];
        channel.sad_latch = sad;
        channel.dad_latch = dad;
        if channel.cnt.enable {
            channel.count_latch = channel.count.count as u32;
        }
        self.set_channel(c, channel);
        let ghost m0 = *self;
        self.inc_clock(Cycle::I, 0, 0);
        let ghost m1 = *self;
        self.inc_clock(Cycle::I, 0, 0);
        let ghost m2 = *self;
        if irq {
            let bit = match c {
                0 => INTERRUPT_DMA0,
                1 => INTERRUPT_DMA1,
                2 => INTERRUPT_DMA2,
                _ => INTERRUPT_DMA3,
            };
            proof {
                lemma_requested(self.interrupt_controller.request.bits);
            }
            self.interrupt_controller.request(bit);
        }
        self.dma.in_dma = false;
        assert(ended_via(*old(self), m0, m1, m2, *self, c as int, sad, dad, irq));
    }

    /// One unit of a transfer: the two cycles, the read of the source and
    /// the write of its value to the destination.
    #[verifier::spinoff_prover]
    #[verifier::rlimit(50)]
    fn transfer_unit(&mut self, first: bool, src: u32, dest: u32, transfer_32: bool)
        requires
            old(self).wf(),
        ensures
            final(self).wf(),
            final(self).ops@.len() == old(self).ops@.len() + 4,
            final(self).ops@.take(old(self).ops@.len() as int) == old(self).ops@,
            ({
                let ct = if first { Cycle::N } else { Cycle::S };
                let w: u32 = if transfer_32 { 2 } else { 1 };
                let t = final(self).ops@;
                let n = old(self).ops@.len() as int;
                &&& t[n] == BusOp::Clock(ct, src, w)
                &&& t[n + 1] == BusOp::Clock(ct, dest, w)
                &&& if transfer_32 {
                    t[n + 2] matches BusOp::Read32(a, v) && a == src && t[n + 3] == BusOp::Write32(dest, v)
                } else {
                    t[n + 2] matches BusOp::Read16(a, v) && a == src && t[n + 3] == BusOp::Write16(dest, v)
                }
            }),
            final(self).dma.channels@.len() == 4,
            forall|i: int| 0 <= i < 4 ==> (#[trigger] final(self).dma.channels@[i]).num == old(self).dma.channels@[i].num,
            !reaches_dma_regs(dest) ==> final(self).dma.channels@ == old(self).dma.channels@,
            unit_moved(*old(self), *final(self), first, src, dest, transfer_32),
    {
        let cycle_type = if first { Cycle::N } else { Cycle::S };
        let access_width: u32 = if transfer_32 { 2 } else { 1 };
        let ghost o = self.ops@;
        self.inc_clock(cycle_type, src, access_width);
        let ghost m1 = *self;
        self.inc_clock(cycle_type, dest, access_width);
        let ghost m2 = *self;
        if transfer_32 {
            let v = self.read32(src);
            let ghost m3 = *self;
            self.write32(dest, v);
            assert(unit_via(*old(self), m1, m2, m3, *self, first, src, dest, transfer_32));
            assert(self.ops@ == o.push(BusOp::Clock(cycle_type, src, access_width)).push(
                BusOp::Clock(cycle_type, dest, access_width),
            ).push(BusOp::Read32(src, v)).push(BusOp::Write32(dest, v)));
        } else {
            let v = self.read16(src);
            let ghost m3 = *self;
            self.write16(dest, v);
            assert(unit_via(*old(self), m1, m2, m3, *self, first, src, dest, transfer_32));
            assert(self.ops@ == o.push(BusOp::Clock(cycle_type, src, access_width)).push(
                BusOp::Clock(cycle_type, dest, access_width),
            ).push(BusOp::Read16(src, v)).push(BusOp::Write16(dest, v)));
        }
        assert(self.ops@.take(o.len() as int) =~= o);
    }

    /// Replaces channel `c` by `channel`, a channel of the same number.
    fn set_channel(&mut self, c: usize, channel: DMAChannel)
        requires
            old(self).wf(),
            c < 4,
            channel.wf() && channel.num == c,
        ensures
            final(self).wf(),
            final(self).dma.channels@ == old(self).dma.channels@.update(c as int, channel),
            final(self).dma.in_dma == old(self).dma.in_dma,
            final(self).same_memories(old(self)),
            final(self).ppu == old(self).ppu && final(self).keypad == old(self).keypad,
            final(self).interrupt_controller == old(self).interrupt_controller,
            final(self).waitcnt == old(self).waitcnt && final(self).haltcnt == old(self).haltcnt,
            final(self).mgba_test_suite == old(self).mgba_test_suite,
            final(self).mgba_message == old(self).mgba_message && final(self).ops == old(self).ops,
            (IO { dma: old(self).dma, ..*final(self) }) == *old(self),
    {
        let ghost before = self.dma.channels@;
        self.dma.channels[c] = channel;
        proof {
            assert forall|i: int| 0 <= i < 4 implies (#[trigger] self.dma.channels@[i]).wf()
                && self.dma.channels@[i].num == i by {
                if i != c {
                    assert(self.dma.channels@[i] == before[i]);
                }
            }
        }
    }
}

/// One more unit extends the states of a transfer.
proof fn lemma_units_push(units: Seq<IO>, b: IO, k: int, c: DMAChannel)
    requires
        units.len() == k + 1,
        forall|j: int| 0 <= j < k ==> #[trigger] unit_step(units, j, c),
        unit_moved(
            units.last(),
            b,
            k == 0,
            dma_addr(dma_src(c), c.cnt.src_addr_ctrl, dma_w32(c), k),
            dma_addr(dma_dest(c), dma_dest_ctrl(c), dma_w32(c), k),
            dma_w32(c),
        ),
    ensures
        forall|j: int| 0 <= j < k + 1 ==> #[trigger] unit_step(units.push(b), j, c),
{
    let t = units.push(b);
    assert forall|j: int| 0 <= j < k + 1 implies #[trigger] unit_step(t, j, c) by {
        if j < k {
            assert(unit_step(units, j, c));
            assert(t[j] == units[j] && t[j + 1] == units[j + 1]);
        } else {
            assert(t[j] == units.last() && t[j + 1] == b);
        }
    }
}

/// The trace grows by one unit of the transfer.
proof fn lemma_trace_extend(
    o: Seq<BusOp>,
    before: Seq<BusOp>,
    after: Seq<BusOp>,
    k: int,
    src0: u32,
    dest0: u32,
    src_ctrl: u8,
    dest_ctrl: u8,
    transfer_32: bool,
)
    requires
        0 <= k,
        before.len() == o.len() + 4 * k,
        before.take(o.len() as int) == o,
        forall|j: int|
            0 <= j < k ==> #[trigger] dma_unit(
                before.skip(o.len() as int),
                j,
                dma_addr(src0, src_ctrl, transfer_32, j),
                dma_addr(dest0, dest_ctrl, transfer_32, j),
                transfer_32,
            ),
        after.len() == before.len() + 4,
        after.take(before.len() as int) == before,
        ({
            let ct = if k == 0 { Cycle::N } else { Cycle::S };
            let w: u32 = if transfer_32 { 2 } else { 1 };
            let n = before.len() as int;
            let src = dma_addr(src0, src_ctrl, transfer_32, k);
            let dest = dma_addr(dest0, dest_ctrl, transfer_32, k);
            &&& after[n] == BusOp::Clock(ct, src, w)
            &&& after[n + 1] == BusOp::Clock(ct, dest, w)
            &&& if transfer_32 {
                after[n + 2] matches BusOp::Read32(a, v) && a == src && after[n + 3] == BusOp::Write32(dest, v)
            } else {
                after[n + 2] matches BusOp::Read16(a, v) && a == src && after[n + 3] == BusOp::Write16(dest, v)
            }
        }),
    ensures
        after.len() == o.len() + 4 * (k + 1),
        after.take(o.len() as int) == o,
        forall|j: int|
            0 <= j < k + 1 ==> #[trigger] dma_unit(
                after.skip(o.len() as int),
                j,
                dma_addr(src0, src_ctrl, transfer_32, j),
                dma_addr(dest0, dest_ctrl, transfer_32, j),
                transfer_32,
            ),
{
    let t = after.skip(o.len() as int);
    let tb = before.skip(o.len() as int);
    assert forall|i: int| 0 <= i < before.len() implies #[trigger] after[i] == before[i] by {
        assert(after.take(before.len() as int)[i] == before[i]);
    }
    assert(after.take(o.len() as int) =~= o) by {
        assert forall|i: int| 0 <= i < o.len() implies after.take(o.len() as int)[i] == o[i] by {
            assert(before.take(o.len() as int)[i] == o[i]);
        }
    }
    assert forall|j: int| 0 <= j < k + 1 implies #[trigger] dma_unit(
        t,
        j,
        dma_addr(src0, src_ctrl, transfer_32, j),
        dma_addr(dest0, dest_ctrl, transfer_32, j),
        transfer_32,
    ) by {
        if j < k {
            assert(dma_unit(
                tb,
                j,
                dma_addr(src0, src_ctrl, transfer_32, j),
                dma_addr(dest0, dest_ctrl, transfer_32, j),
                transfer_32,
            ));
            assert(t[4 * j] == tb[4 * j] && t[4 * j + 1] == tb[4 * j + 1] && t[4 * j + 2] == tb[4 * j + 2] && t[4 * j
                + 3] == tb[4 * j + 3]);
        } else {
            assert(t[4 * j] == after[before.len() as int]);
            assert(t[4 * j + 1] == after[before.len() as int + 1]);
            assert(t[4 * j + 2] == after[before.len() as int + 2]);
            assert(t[4 * j + 3] == after[before.len() as int + 3]);
        }
    }
}

/// A byte stored in work RAM reads back as stored, and the store changes
/// what no other work RAM address reads, but the addresses of the same cell
/// in the repeats of the region.
pub proof fn lemma_ram_read_after_write(before: IO, after: IO, addr: u32, value: u8, other: u32)
    requires
        before.wf(),
        before.poked(&after, addr, value),
        addr / 0x0100_0000 == 2 || addr / 0x0100_0000 == 3,
    ensures
        after.read_byte(addr) == value,
        (other / 0x0100_0000 == 2 || other / 0x0100_0000 == 3) && !(other / 0x0100_0000 == addr / 0x0100_0000
            && (if addr / 0x0100_0000 == 2 { other % 0x40000 == addr % 0x40000 } else { other % 0x8000
            == addr % 0x8000 })) ==> after.read_byte(other) == before.read_byte(other),
{
}

/// The two internal cycles end the trace of the transfer.
proof fn lemma_trace_finish(
    o: Seq<BusOp>,
    before: Seq<BusOp>,
    after: Seq<BusOp>,
    count: int,
    src0: u32,
    dest0: u32,
    src_ctrl: u8,
    dest_ctrl: u8,
    transfer_32: bool,
)
    requires
        0 <= count,
        before.len() == o.len() + 4 * count,
        before.take(o.len() as int) == o,
        forall|j: int|
            0 <= j < count ==> #[trigger] dma_unit(
                before.skip(o.len() as int),
                j,
                dma_addr(src0, src_ctrl, transfer_32, j),
                dma_addr(dest0, dest_ctrl, transfer_32, j),
                transfer_32,
            ),
        after == before.push(BusOp::Clock(Cycle::I, 0, 0)).push(BusOp::Clock(Cycle::I, 0, 0)),
    ensures
        after.len() >= o.len(),
        after.take(o.len() as int) == o,
        dma_trace(after.skip(o.len() as int), count, src0, dest0, src_ctrl, dest_ctrl, transfer_32),
{
    let t = after.skip(o.len() as int);
    let tb = before.skip(o.len() as int);
    assert(after.take(o.len() as int) =~= o) by {
        assert forall|i: int| 0 <= i < o.len() implies after.take(o.len() as int)[i] == o[i] by {
            assert(before.take(o.len() as int)[i] == o[i]);
        }
    }
    assert forall|j: int| 0 <= j < count implies #[trigger] dma_unit(
        t,
        j,
        dma_addr(src0, src_ctrl, transfer_32, j),
        dma_addr(dest0, dest_ctrl, transfer_32, j),
        transfer_32,
    ) by {
        assert(dma_unit(
            tb,
            j,
            dma_addr(src0, src_ctrl, transfer_32, j),
            dma_addr(dest0, dest_ctrl, transfer_32, j),
            transfer_32,
        ));
        assert(t[4 * j] == tb[4 * j] && t[4 * j + 1] == tb[4 * j + 1] && t[4 * j + 2] == tb[4 * j + 2] && t[4 * j + 3]
            == tb[4 * j + 3]);
    }
    assert(t[4 * count] == after[before.len() as int]);
    assert(t[4 * count + 1] == after[before.len() as int + 1]);
}

/// The channel that `get_channel_running` finds is `running_channel`.
proof fn lemma_first_running(dma: &DMA, r: int, hblank: bool, vblank: bool, fifo: Seq<bool>)
    requires
        0 <= r <= 4,
        r < 4 ==> dma.channels@[r].wants_transfer(hblank, vblank, fifo),
        forall|j: int| 0 <= j < r ==> !(#[trigger] dma.channels@[j]).wants_transfer(hblank, vblank, fifo),
    ensures
        running_channel(dma, hblank, vblank, fifo) == r,
{
    if r > 0 {
        assert(!dma.channels@[0].wants_transfer(hblank, vblank, fifo));
    }
    if r > 1 {
        assert(!dma.channels@[1].wants_transfer(hblank, vblank, fifo));
    }
    if r > 2 {
        assert(!dma.channels@[2].wants_transfer(hblank, vblank, fifo));
    }
    if r > 3 {
        assert(!dma.channels@[3].wants_transfer(hblank, vblank, fifo));
    }
}

} // verus!
