//! The memory bus of the first system design: BIOS, work RAM, cartridge ROM,
//! the display, the keypad, the interrupt controller and WAITCNT, with the
//! clock that drives the display.
use vstd::prelude::*;

pub mod interrupt_controller;
pub mod keypad;
pub mod memory;
pub mod ppu;

pub use crate::bus::{Cycle, MemoryHandler, IMMU};

use crate::bus::BusOp;
use vstd::arithmetic::div_mod::lemma_add_mod_noop;
use interrupt_controller::InterruptController;
use keypad::{Keypad, KEYINPUT};
use memory::{RAM, ROM};
use ppu::{palette_index, with_byte, PPU, FRAME_DOTS};

verus! {

/// A 16-bit register that the bus reads and writes a byte at a time.
pub trait IORegister {
    /// The low byte that a read returns.
    spec fn low(&self) -> u8;

    /// The high byte that a read returns.
    spec fn high(&self) -> u8;

    fn read_low(&self) -> (r: u8)
        ensures
            r == self.low(),
    ;

    fn read_high(&self) -> (r: u8)
        ensures
            r == self.high(),
    ;

    fn write_low(&mut self, value: u8);

    fn write_high(&mut self, value: u8);
}

/// The cycles of one access to the cartridge through wait state `ws`, from
/// row `row` of the timing table, at timing setting `setting`.
pub open spec fn timing(ws: int, row: int, setting: int) -> int {
    if row == 0 {
        if setting == 0 {
            4
        } else if setting == 1 {
            3
        } else if setting == 2 {
            2
        } else {
            8
        }
    } else if setting == 0 {
        if ws == 0 {
            2
        } else if ws == 1 {
            4
        } else {
            8
        }
    } else if setting == 1 {
        1
    } else {
        0
    }
}

/// The row of the timing table, and of the settings, that a cycle kind
/// selects: row 0 for sequential cycles, row 1 for the others.
pub open spec fn timing_row(cycle_type: Cycle) -> int {
    if cycle_type == Cycle::S {
        0
    } else {
        1
    }
}

fn access_timing(ws: usize, row: usize, setting: u8) -> (r: u32)
    requires
        ws < 3,
        row < 2,
        setting < 4,
    ensures
        r == timing(ws as int, row as int, setting as int),
{
    if row == 0 {
        match setting {
            0 => 4,
            1 => 3,
            2 => 2,
            _ => 8,
        }
    } else if setting == 0 {
        match ws {
            0 => 2,
            1 => 4,
            _ => 8,
        }
    } else if setting == 1 {
        1
    } else {
        0
    }
}

/// WAITCNT: the SRAM timing, the timing settings of the three cartridge
/// wait states, the PHI terminal output and the prefetch buffer.
pub struct WaitStateControl {
    pub sram: u8,
    /// Per wait state: the setting of row 0 (two bits) and of row 1 (one bit).
    pub wait_states: [[u8; 2]; 3],
    pub phi_terminal_out: u8,
    pub prefetch_buffer: bool,
    pub type_flag: bool,
}

impl WaitStateControl {
    pub open spec fn wf(&self) -> bool {
        &&& self.sram < 4 && self.phi_terminal_out < 4
        &&& self.wait_states[0][0] < 4 && self.wait_states[1][0] < 4 && self.wait_states[2][0] < 4
        &&& self.wait_states[0][1] < 2 && self.wait_states[1][1] < 2 && self.wait_states[2][1] < 2
    }

    pub fn new() -> (r: WaitStateControl)
        ensures
            r.wf(),
            r.sram == 0 && r.phi_terminal_out == 0 && !r.prefetch_buffer && !r.type_flag,
            forall|i: int, j: int| 0 <= i < 3 && 0 <= j < 2 ==> r.wait_states[i][j] == 0,
    {
        WaitStateControl {
            sram: 0,
            wait_states: [[0u8, 0u8], [0u8, 0u8], [0u8, 0u8]],
            phi_terminal_out: 0,
            prefetch_buffer: false,
            type_flag: false,
        }
    }

    /// The cycles of an access to wait state `wait_state`: the timing of
    /// the cycle's row at its setting, and for a word access the timing of
    /// row 0 once more.
    pub open spec fn access_time(&self, wait_state: int, cycle_type: Cycle, access_len: u32) -> int {
        let row = timing_row(cycle_type);
        timing(wait_state, row, self.wait_states[wait_state][row] as int) + if access_len < 2 {
            0
        } else {
            timing(wait_state, 0, self.wait_states[wait_state][0] as int)
        }
    }

    /// `new` is this register after a write of `value` to its low byte.
    pub open spec fn wrote_low(&self, new: &WaitStateControl, value: u8) -> bool {
        &&& new.sram == value & 3
        &&& new.wait_states[0][0] == value >> 2u8 & 3 && new.wait_states[0][1] == value >> 4u8 & 1
        &&& new.wait_states[1][0] == value >> 5u8 & 3 && new.wait_states[1][1] == value >> 7u8 & 1
        &&& new.wait_states[2] == self.wait_states[2]
        &&& new.phi_terminal_out == self.phi_terminal_out
        &&& new.prefetch_buffer == self.prefetch_buffer && new.type_flag == self.type_flag
    }

    /// `new` is this register after a write of `value` to its high byte.
    pub open spec fn wrote_high(&self, new: &WaitStateControl, value: u8) -> bool {
        &&& new.wait_states[2][0] == value & 3 && new.wait_states[2][1] == value >> 2u8 & 1
        &&& new.phi_terminal_out == value >> 3u8 & 3
        &&& new.prefetch_buffer == (value >> 6u8 & 1 != 0)
        &&& new.type_flag == self.type_flag && new.sram == self.sram
        &&& new.wait_states[0] == self.wait_states[0] && new.wait_states[1] == self.wait_states[1]
    }

    pub fn get_access_time(&self, wait_state: usize, cycle_type: Cycle, access_len: u32) -> (r: u32)
        requires
            self.wf(),
            wait_state < 3,
            cycle_type != Cycle::I,
            access_len <= 2,
        ensures
            r == self.access_time(wait_state as int, cycle_type, access_len),
    {
        let row: usize = if cycle_type == Cycle::S { 0 } else { 1 };
        let settings = self.wait_states[wait_state];
        let first = access_timing(wait_state, row, settings[row]);
        if access_len < 2 {
            first
        } else {
            first + access_timing(wait_state, 0, settings[0])
        }
    }
}

impl IORegister for WaitStateControl {
    open spec fn low(&self) -> u8 {
        self.wait_states[1][1] << 7u8 | self.wait_states[1][0] << 5u8 | self.wait_states[0][1] << 4u8
            | self.wait_states[0][0] << 2u8 | self.sram
    }

    open spec fn high(&self) -> u8 {
        (if self.type_flag { 0x80u8 } else { 0u8 }) | (if self.prefetch_buffer { 0x40u8 } else { 0u8 })
            | self.phi_terminal_out << 3u8 | self.wait_states[2][1] << 2u8 | self.wait_states[2][0]
    }

    fn read_low(&self) -> (r: u8) {
        let w = self.wait_states;
        w[1][1] << 7 | w[1][0] << 5 | w[0][1] << 4 | w[0][0] << 2 | self.sram
    }

    fn read_high(&self) -> (r: u8) {
        let w = self.wait_states;
        let t: u8 = if self.type_flag { 0x80 } else { 0 };
        let p: u8 = if self.prefetch_buffer { 0x40 } else { 0 };
        t | p | self.phi_terminal_out << 3 | w[2][1] << 2 | w[2][0]
    }

    /// Sets the SRAM timing and the settings of wait states 0 and 1; a read
    /// gives the byte back.
    fn write_low(&mut self, value: u8)
        ensures
            old(self).wrote_low(final(self), value),
            old(self).wf() ==> final(self).wf(),
            final(self).low() == value,
    {
        broadcast use crate::cpu::alu::group_masks;

        let w = self.wait_states;
        self.sram = value & 0x3;
        self.wait_states = [[value >> 2 & 0x3, value >> 4 & 0x1], [value >> 5 & 0x3, value >> 7 & 0x1], w[2]];
        assert((value >> 7u8 & 1) << 7u8 | (value >> 5u8 & 3) << 5u8 | (value >> 4u8 & 1) << 4u8 | (value >> 2u8 & 3)
            << 2u8 | value & 3 == value) by (bit_vector);

    }

    /// Sets the settings of wait state 2, the PHI output and the prefetch
    /// buffer; the type flag is read only, and bit 5 is not kept.
    fn write_high(&mut self, value: u8)
        ensures
            old(self).wrote_high(final(self), value),
            old(self).wf() ==> final(self).wf(),
            final(self).high() == (value & 0x5F) | (if old(self).type_flag { 0x80u8 } else { 0u8 }),
    {
        broadcast use crate::cpu::alu::group_masks;

        let w = self.wait_states;
        self.wait_states = [w[0], w[1], [value & 0x3, value >> 2 & 0x1]];
        self.phi_terminal_out = value >> 3 & 0x3;
        self.prefetch_buffer = value >> 6 & 0x1 != 0;
        let t: u8 = if self.type_flag { 0x80 } else { 0 };
        let p: u8 = if self.prefetch_buffer { 0x40 } else { 0 };
        assert(p == 0x40 || p == 0);
        assert((t == 0x80 || t == 0) && (p == 0x40 <==> value >> 6u8 & 1 != 0) && (p == 0x40 || p == 0) ==> t | p | (
        value >> 3u8 & 3) << 3u8 | (value >> 2u8 & 1) << 2u8 | value & 3 == (value & 0x5F) | t) by (bit_vector);

    }
}

/// The bus: the memories and devices at their addresses, the cycles that
/// the display is behind the processor, and the operations performed.
pub struct MMU {
    pub bios: ROM,
    pub wram256: RAM,
    pub wram32: RAM,
    pub rom: ROM,
    pub clocks_ahead: u32,
    pub ppu: PPU,
    pub keypad: Keypad,
    pub interrupt_controller: InterruptController,
    pub haltcnt: u16,
    pub waitcnt: WaitStateControl,
    pub ops: Ghost<Seq<BusOp>>,
}

/// The byte of a read-only memory at `addr`, 0 past its end.
pub open spec fn rom_byte(rom: &ROM, addr: u32) -> u8 {
    if addr - rom.offset < rom.mem.len() {
        rom.mem@[addr - rom.offset]
    } else {
        0
    }
}

pub open spec fn in_wram256(addr: u32) -> bool {
    0x0200_0000 <= addr <= 0x0203_FFFF
}

pub open spec fn in_wram32(addr: u32) -> bool {
    0x0300_0000 <= addr <= 0x0300_7FFF
}

pub open spec fn in_display_io(addr: u32) -> bool {
    0x0400_0000 <= addr <= 0x0400_005F
}

pub open spec fn in_palette(addr: u32) -> bool {
    0x0500_0000 <= addr <= 0x0500_03FF
}

pub open spec fn in_vram(addr: u32) -> bool {
    0x0600_0000 <= addr <= 0x0601_7FFF
}

pub open spec fn in_cartridge(addr: u32) -> bool {
    0x0800_0000 <= addr <= 0x0DFF_FFFF
}

impl MMU {
    /// The memories have their sizes and places, and the devices their
    /// invariants; the display is less than one dot behind.
    pub open spec fn wf(&self) -> bool {
        &&& self.bios.offset == 0 && self.rom.offset == 0x0800_0000
        &&& self.wram256.offset == 0x0200_0000 && self.wram256.mem.len() == 0x40000
        &&& self.wram32.offset == 0x0300_0000 && self.wram32.mem.len() == 0x8000
        &&& self.ppu.wf() && self.clocks_ahead < 4 && self.waitcnt.wf()
    }

    /// Tests `wf`.
    pub fn is_wf(&self) -> (r: bool)
        ensures
            r == self.wf(),
    {
        let w = self.waitcnt.wait_states;
        self.bios.offset == 0 && self.rom.offset == 0x0800_0000 && self.wram256.offset == 0x0200_0000
            && self.wram256.mem.len() == 0x40000 && self.wram32.offset == 0x0300_0000 && self.wram32.mem.len()
            == 0x8000 && self.ppu.is_wf() && self.clocks_ahead < 4 && self.waitcnt.sram < 4
            && self.waitcnt.phi_terminal_out < 4 && w[0][0] < 4 && w[1][0] < 4 && w[2][0] < 4 && w[0][1] < 2
            && w[1][1] < 2 && w[2][1] < 2
    }

    /// The byte that a read of `addr` gives; what nothing answers reads 0.
    pub open spec fn read_byte(&self, addr: u32) -> u8 {
        if addr <= 0x3FFF {
            rom_byte(&self.bios, addr)
        } else if in_wram256(addr) {
            self.wram256.mem@[addr - 0x0200_0000]
        } else if in_wram32(addr) {
            self.wram32.mem@[addr - 0x0300_0000]
        } else if in_display_io(addr) {
            self.ppu.register_byte(addr)
        } else if addr == 0x0400_0130 {
            self.keypad.keyinput.low()
        } else if addr == 0x0400_0131 {
            self.keypad.keyinput.high()
        } else if addr == 0x0400_0132 {
            self.keypad.keycnt.low()
        } else if addr == 0x0400_0133 {
            self.keypad.keycnt.high()
        } else if addr == 0x0400_0200 {
            self.interrupt_controller.enable.low()
        } else if addr == 0x0400_0201 {
            self.interrupt_controller.enable.high()
        } else if addr == 0x0400_0202 {
            self.interrupt_controller.request.low()
        } else if addr == 0x0400_0203 {
            self.interrupt_controller.request.high()
        } else if addr == 0x0400_0204 {
            self.waitcnt.low()
        } else if addr == 0x0400_0205 {
            self.waitcnt.high()
        } else if addr == 0x0400_0208 {
            self.interrupt_controller.master_enable.low()
        } else if addr == 0x0400_0209 {
            self.interrupt_controller.master_enable.high()
        } else if addr == 0x0400_0300 {
            (self.haltcnt % 256) as u8
        } else if addr == 0x0400_0301 {
            (self.haltcnt / 256) as u8
        } else if in_palette(addr) {
            self.ppu.palette_byte(addr)
        } else if in_vram(addr) {
            self.ppu.vram@[addr - 0x0600_0000]
        } else if in_cartridge(addr) {
            rom_byte(&self.rom, addr)
        } else {
            0
        }
    }

    /// The cycles that an access of kind `cycle_type` and width
    /// `access_width` (0: byte, 1: halfword, 2: word) to `addr` takes.
    pub open spec fn clock_cost(&self, cycle_type: Cycle, addr: u32, access_width: u32) -> int {
        if cycle_type == Cycle::I {
            1
        } else if in_wram256(addr) {
            if access_width == 2 {
                6
            } else {
                3
            }
        } else if in_palette(addr) || in_vram(addr) {
            if access_width < 2 {
                1
            } else {
                2
            }
        } else if 0x0800_0000 <= addr <= 0x09FF_FFFF {
            self.waitcnt.access_time(0, cycle_type, access_width)
        } else if 0x0A00_0000 <= addr <= 0x0BFF_FFFF {
            self.waitcnt.access_time(1, cycle_type, access_width)
        } else if 0x0C00_0000 <= addr <= 0x0DFF_FFFF {
            self.waitcnt.access_time(2, cycle_type, access_width)
        } else {
            1
        }
    }

    /// Everything but the display and the operations is as in `other`.
    pub open spec fn same_outside_display(&self, other: &MMU) -> bool {
        &&& self.bios == other.bios && self.rom == other.rom
        &&& self.wram256 == other.wram256 && self.wram32 == other.wram32
        &&& self.keypad == other.keypad && self.interrupt_controller == other.interrupt_controller
        &&& self.haltcnt == other.haltcnt && self.waitcnt == other.waitcnt
    }

    /// The system after start-up: empty RAM, the display at its first dot.
    pub fn new(bios: Vec<u8>, rom: Vec<u8>) -> (r: MMU)
        ensures
            r.wf(),
            r.bios.mem@ == bios@ && r.rom.mem@ == rom@,
            r.wram256.mem@ == Seq::new(0x40000, |i: int| 0u8),
            r.wram32.mem@ == Seq::new(0x8000, |i: int| 0u8),
            r.clocks_ahead == 0 && r.haltcnt == 0,
            r.ppu.dot == 0 && r.ppu.vcount == 0 && !r.ppu.needs_to_render,
            r.keypad.keyinput.bits == 0 && r.keypad.keycnt.bits == 0,
            r.ops@ == Seq::<BusOp>::empty(),
    {
        MMU {
            bios: ROM::new(0, bios),
            wram256: RAM::new(0x0200_0000, 0x40000),
            wram32: RAM::new(0x0300_0000, 0x8000),
            rom: ROM::new(0x0800_0000, rom),
            clocks_ahead: 0,
            ppu: PPU::new(),
            keypad: Keypad::new(),
            interrupt_controller: InterruptController::new(),
            haltcnt: 0,
            waitcnt: WaitStateControl::new(),
            ops: Ghost(Seq::empty()),
        }
    }

    /// Whether a frame was finished since the last call; clears the flag.
    pub fn needs_to_render(&mut self) -> (r: bool)
        ensures
            r == old(self).ppu.needs_to_render,
            !final(self).ppu.needs_to_render,
            final(self).ppu.same_registers(&PPU { needs_to_render: false, ..old(self).ppu }),
            final(self).ppu.pixels@ == old(self).ppu.pixels@ && final(self).ppu.vram@ == old(self).ppu.vram@,
            final(self).ppu.bg_colors@ == old(self).ppu.bg_colors@,
            final(self).ppu.obj_colors@ == old(self).ppu.obj_colors@,
            final(self).same_outside_display(old(self)),
            final(self).clocks_ahead == old(self).clocks_ahead && final(self).ops == old(self).ops,
            old(self).wf() ==> final(self).wf(),
    {
        let needs_to_render = self.ppu.needs_to_render;
        self.ppu.needs_to_render = false;
        needs_to_render
    }

    /// The picture, one colour per pixel, row by row.
    pub fn get_pixels(&self) -> (r: &Vec<u16>)
        ensures
            r@ == self.ppu.pixels@,
    {
        &self.ppu.pixels
    }

    /// Clears the key's bits in KEYINPUT (a pressed key reads 0).
    pub fn press_key(&mut self, key: KEYINPUT)
        ensures
            final(self).keypad.keyinput.bits == old(self).keypad.keyinput.bits & !key.bits,
            final(self).keypad.keycnt == old(self).keypad.keycnt,
            final(self).ppu == old(self).ppu && final(self).clocks_ahead == old(self).clocks_ahead,
            final(self).bios == old(self).bios && final(self).rom == old(self).rom,
            final(self).wram256 == old(self).wram256 && final(self).wram32 == old(self).wram32,
            final(self).interrupt_controller == old(self).interrupt_controller,
            final(self).haltcnt == old(self).haltcnt && final(self).waitcnt == old(self).waitcnt,
            final(self).ops == old(self).ops,
            old(self).wf() ==> final(self).wf(),
    {
        self.keypad.keyinput.bits = self.keypad.keyinput.bits & !key.bits;
    }

    /// Sets the key's bits in KEYINPUT again.
    pub fn release_key(&mut self, key: KEYINPUT)
        ensures
            final(self).keypad.keyinput.bits == old(self).keypad.keyinput.bits | key.bits,
            final(self).keypad.keycnt == old(self).keypad.keycnt,
            final(self).ppu == old(self).ppu && final(self).clocks_ahead == old(self).clocks_ahead,
            final(self).bios == old(self).bios && final(self).rom == old(self).rom,
            final(self).wram256 == old(self).wram256 && final(self).wram32 == old(self).wram32,
            final(self).interrupt_controller == old(self).interrupt_controller,
            final(self).haltcnt == old(self).haltcnt && final(self).waitcnt == old(self).waitcnt,
            final(self).ops == old(self).ops,
            old(self).wf() ==> final(self).wf(),
    {
        self.keypad.keyinput.bits = self.keypad.keyinput.bits | key.bits;
    }

    /// The byte at `addr`, without recording the read.
    pub fn peek8(&self, addr: u32) -> (r: u8)
        requires
            self.wf(),
        ensures
            r == self.read_byte(addr),
    {
        if addr <= 0x3FFF {
            self.bios.read8(addr)
        } else if 0x0200_0000 <= addr && addr <= 0x0203_FFFF {
            self.wram256.read8(addr)
        } else if 0x0300_0000 <= addr && addr <= 0x0300_7FFF {
            self.wram32.read8(addr)
        } else if 0x0400_0000 <= addr && addr <= 0x0400_005F {
            self.ppu.read8(addr)
        } else if addr == 0x0400_0130 {
            self.keypad.keyinput.read_low()
        } else if addr == 0x0400_0131 {
            self.keypad.keyinput.read_high()
        } else if addr == 0x0400_0132 {
            self.keypad.keycnt.read_low()
        } else if addr == 0x0400_0133 {
            self.keypad.keycnt.read_high()
        } else if addr == 0x0400_0200 {
            self.interrupt_controller.enable.read_low()
        } else if addr == 0x0400_0201 {
            self.interrupt_controller.enable.read_high()
        } else if addr == 0x0400_0202 {
            self.interrupt_controller.request.read_low()
        } else if addr == 0x0400_0203 {
            self.interrupt_controller.request.read_high()
        } else if addr == 0x0400_0204 {
            self.waitcnt.read_low()
        } else if addr == 0x0400_0205 {
            self.waitcnt.read_high()
        } else if addr == 0x0400_0208 {
            self.interrupt_controller.master_enable.read_low()
        } else if addr == 0x0400_0209 {
            self.interrupt_controller.master_enable.read_high()
        } else if addr == 0x0400_0300 {
            (self.haltcnt % 256) as u8
        } else if addr == 0x0400_0301 {
            (self.haltcnt / 256) as u8
        } else if 0x0500_0000 <= addr && addr <= 0x0500_03FF {
            self.ppu.read_palette_ram(addr)
        } else if 0x0600_0000 <= addr && addr <= 0x0601_7FFF {
            self.ppu.read_vram(addr)
        } else if 0x0800_0000 <= addr && addr <= 0x0DFF_FFFF {
            self.rom.read8(addr)
        } else {
            0
        }
    }
}

impl MMU {
    /// Whether a write of `value` to the display's I/O at `addr` reaches
    /// the registers: one that would set DISPCNT to an undefined mode is
    /// dropped.
    pub open spec fn display_write_ok(addr: u32, value: u8) -> bool {
        in_display_io(addr) && (addr != 0x0400_0000 || value & 7 < 6)
    }

    /// `new` is this bus after a write of `value` to `addr`: the memory or
    /// register that the address selects takes the value, read-only memory
    /// and unmapped addresses ignore it, and nothing else changes.
    pub open spec fn wrote8(&self, new: &MMU, addr: u32, value: u8) -> bool {
        let ic = self.interrupt_controller;
        let nic = new.interrupt_controller;
        &&& new.bios == self.bios && new.rom == self.rom && new.clocks_ahead == self.clocks_ahead
        &&& new.wram256.offset == self.wram256.offset && new.wram256.mem@ == (if in_wram256(addr) {
            self.wram256.mem@.update(addr - 0x0200_0000, value)
        } else {
            self.wram256.mem@
        })
        &&& new.wram32.offset == self.wram32.offset && new.wram32.mem@ == (if in_wram32(addr) {
            self.wram32.mem@.update(addr - 0x0300_0000, value)
        } else {
            self.wram32.mem@
        })
        &&& if MMU::display_write_ok(addr, value) {
            self.ppu.wrote_register(&new.ppu, addr, value)
        } else if in_palette(addr) {
            self.ppu.wrote_palette(&new.ppu, addr, value)
        } else if in_vram(addr) {
            self.ppu.wrote_vram(&new.ppu, addr, value)
        } else {
            new.ppu == self.ppu
        }
        &&& new.keypad.keyinput == self.keypad.keyinput
        &&& new.keypad.keycnt == (if addr == 0x0400_0132 {
            self.keypad.keycnt.after_low(value)
        } else if addr == 0x0400_0133 {
            self.keypad.keycnt.after_high(value)
        } else {
            self.keypad.keycnt
        })
        &&& nic.enable == (if addr == 0x0400_0200 {
            ic.enable.after_low(value)
        } else if addr == 0x0400_0201 {
            ic.enable.after_high(value)
        } else {
            ic.enable
        })
        &&& nic.request == (if addr == 0x0400_0202 || addr == 0x0400_0203 {
            ic.request.after_low(value)
        } else {
            ic.request
        })
        &&& nic.master_enable == (if addr == 0x0400_0208 {
            ic.master_enable.after_low(value)
        } else if addr == 0x0400_0209 {
            ic.master_enable.after_high(value)
        } else {
            ic.master_enable
        })
        &&& if addr == 0x0400_0204 {
            self.waitcnt.wrote_low(&new.waitcnt, value)
        } else if addr == 0x0400_0205 {
            self.waitcnt.wrote_high(&new.waitcnt, value)
        } else {
            new.waitcnt == self.waitcnt
        }
        &&& new.haltcnt == (if addr == 0x0400_0300 {
            (self.haltcnt & 0xFF00) | value as u16
        } else if addr == 0x0400_0301 {
            (self.haltcnt & 0x00FF) | (value as u16) << 8u16
        } else {
            self.haltcnt
        })
    }

    /// Writes `value` at `addr` without recording the write.
    pub fn poke8(&mut self, addr: u32, value: u8)
        requires
            old(self).wf(),
        ensures
            final(self).wf(),
            old(self).wrote8(final(self), addr, value),
            final(self).ops == old(self).ops,
    {
        if addr <= 0x3FFF {
            self.bios.write8(addr, value);
        } else if 0x0200_0000 <= addr && addr <= 0x0203_FFFF {
            self.wram256.write8(addr, value);
        } else if 0x0300_0000 <= addr && addr <= 0x0300_7FFF {
            self.wram32.write8(addr, value);
        } else if 0x0400_0000 <= addr && addr <= 0x0400_005F {
            if addr != 0x0400_0000 || value & 7 < 6 {
                self.ppu.write8(addr, value);
            }
        } else if addr == 0x0400_0130 {
            self.keypad.keyinput.write_low(value);
        } else if addr == 0x0400_0131 {
            self.keypad.keyinput.write_high(value);
        } else if addr == 0x0400_0132 {
            self.keypad.keycnt.write_low(value);
        } else if addr == 0x0400_0133 {
            self.keypad.keycnt.write_high(value);
        } else if addr == 0x0400_0200 {
            self.interrupt_controller.enable.write_low(value);
        } else if addr == 0x0400_0201 {
            self.interrupt_controller.enable.write_high(value);
        } else if addr == 0x0400_0202 {
            self.interrupt_controller.request.write_low(value);
        } else if addr == 0x0400_0203 {
            self.interrupt_controller.request.write_low(value);
        } else if addr == 0x0400_0204 {
            self.waitcnt.write_low(value);
        } else if addr == 0x0400_0205 {
            self.waitcnt.write_high(value);
        } else if addr == 0x0400_0208 {
            self.interrupt_controller.master_enable.write_low(value);
        } else if addr == 0x0400_0209 {
            self.interrupt_controller.master_enable.write_high(value);
        } else if addr == 0x0400_0300 {
            self.haltcnt = (self.haltcnt & 0xFF00) | value as u16;
        } else if addr == 0x0400_0301 {
            self.haltcnt = (self.haltcnt & 0x00FF) | (value as u16) << 8;
        } else if 0x0500_0000 <= addr && addr <= 0x0500_03FF {
            self.ppu.write_palette_ram(addr, value);
        } else if 0x0600_0000 <= addr && addr <= 0x0601_7FFF {
            self.ppu.write_vram(addr, value);
        } else if 0x0800_0000 <= addr && addr <= 0x0DFF_FFFF {
            self.rom.write8(addr, value);
        }
    }
}

impl MMU {
    /// All but the recorded operations is as in `other`.
    pub open spec fn same_state(&self, other: &MMU) -> bool {
        self.same_outside_display(other) && self.ppu == other.ppu && self.clocks_ahead == other.clocks_ahead
    }

    /// The halfword at `addr`: the byte there and the next one above it.
    pub open spec fn read_half(&self, addr: u32) -> u16 {
        self.read_byte(addr) as u16 | (self.read_byte(addr.wrapping_add(1)) as u16) << 8u16
    }

    /// The word at `addr`, from its four bytes, lowest first.
    pub open spec fn read_word(&self, addr: u32) -> u32 {
        self.read_byte(addr) as u32 | (self.read_byte(addr.wrapping_add(1)) as u32) << 8u32 | (self.read_byte(
            addr.wrapping_add(2),
        ) as u32) << 16u32 | (self.read_byte(addr.wrapping_add(3)) as u32) << 24u32
    }

    /// The cycles of an access; see `clock_cost`.
    fn cycles(&self, cycle_type: Cycle, addr: u32, access_width: u32) -> (r: u32)
        requires
            self.wf(),
            access_width <= 2,
        ensures
            r == self.clock_cost(cycle_type, addr, access_width),
            r <= 16,
    {
        if cycle_type == Cycle::I {
            1
        } else if 0x0200_0000 <= addr && addr <= 0x0203_FFFF {
            if access_width == 2 { 6 } else { 3 }
        } else if (0x0500_0000 <= addr && addr <= 0x0500_03FF) || (0x0600_0000 <= addr && addr <= 0x0601_7FFF) {
            if access_width < 2 { 1 } else { 2 }
        } else if 0x0800_0000 <= addr && addr <= 0x09FF_FFFF {
            self.waitcnt.get_access_time(0, cycle_type, access_width)
        } else if 0x0A00_0000 <= addr && addr <= 0x0BFF_FFFF {
            self.waitcnt.get_access_time(1, cycle_type, access_width)
        } else if 0x0C00_0000 <= addr && addr <= 0x0DFF_FFFF {
            self.waitcnt.get_access_time(2, cycle_type, access_width)
        } else {
            1
        }
    }
}

/// One dot moves the display one dot further through the frame.
proof fn lemma_position_step(p: PPU, q: PPU)
    requires
        p.wf(),
        q.dot == (if p.dot + 1 == ppu::DOTS_PER_LINE { 0 } else { p.dot + 1 }),
        q.vcount == (if p.dot + 1 == ppu::DOTS_PER_LINE {
            (p.vcount + 1) % (ppu::LINES_PER_FRAME as int)
        } else {
            p.vcount as int
        }),
    ensures
        q.position() == (p.position() + 1) % (FRAME_DOTS as int),
        0 <= p.position() < FRAME_DOTS,
{
    assert(0 <= p.position() < FRAME_DOTS);
    if p.dot + 1 == ppu::DOTS_PER_LINE {
        if p.vcount + 1 == ppu::LINES_PER_FRAME {
            assert(p.position() + 1 == FRAME_DOTS);
        } else {
            assert(q.position() == p.position() + 1);
        }
    } else {
        assert(q.position() == p.position() + 1);
    }
}

impl MemoryHandler for MMU {
    open spec fn ops(&self) -> Seq<BusOp> {
        self.ops@
    }

    /// The byte at `addr`; a bus that is not well formed reads 0.
    fn read8(&mut self, addr: u32) -> (r: u8)
        ensures
            old(self).wf() ==> r == old(self).read_byte(addr),
            final(self).same_state(old(self)),
    {
        let r = if self.is_wf() { self.peek8(addr) } else { 0 };
        self.ops = Ghost(self.ops@.push(BusOp::Read8(addr, r)));
        r
    }

    fn read16(&mut self, addr: u32) -> (r: u16)
        ensures
            old(self).wf() ==> r == old(self).read_half(addr),
            final(self).same_state(old(self)),
    {
        let r = if self.is_wf() {
            let lo = self.peek8(addr);
            let hi = self.peek8(addr.wrapping_add(1));
            lo as u16 | (hi as u16) << 8
        } else {
            0
        };
        self.ops = Ghost(self.ops@.push(BusOp::Read16(addr, r)));
        r
    }

    fn read32(&mut self, addr: u32) -> (r: u32)
        ensures
            old(self).wf() ==> r == old(self).read_word(addr),
            final(self).same_state(old(self)),
    {
        let r = if self.is_wf() {
            let b0 = self.peek8(addr);
            let b1 = self.peek8(addr.wrapping_add(1));
            let b2 = self.peek8(addr.wrapping_add(2));
            let b3 = self.peek8(addr.wrapping_add(3));
            b0 as u32 | (b1 as u32) << 8 | (b2 as u32) << 16 | (b3 as u32) << 24
        } else {
            0
        };
        self.ops = Ghost(self.ops@.push(BusOp::Read32(addr, r)));
        r
    }

    /// Writes `value` at `addr`; a bus that is not well formed ignores it.
    fn write8(&mut self, addr: u32, value: u8)
        ensures
            old(self).wf() ==> final(self).wf() && old(self).wrote8(final(self), addr, value),
            !old(self).wf() ==> final(self).same_state(old(self)),
    {
        if self.is_wf() {
            self.poke8(addr, value);
        }
        self.ops = Ghost(self.ops@.push(BusOp::Write8(addr, value)));
    }

    /// Writes the low byte at `addr`, then the high byte above it.
    fn write16(&mut self, addr: u32, value: u16)
        ensures
            old(self).wf() ==> final(self).wf() && exists|m: MMU|
                #[trigger] old(self).wrote8(&m, addr, value as u8) && m.wrote8(
                    final(self),
                    addr.wrapping_add(1),
                    (value >> 8u16) as u8,
                ),
            !old(self).wf() ==> final(self).same_state(old(self)),
    {
        if self.is_wf() {
            self.poke8(addr, value as u8);
            let ghost m = *self;
            self.poke8(addr.wrapping_add(1), (value >> 8) as u8);
            assert(old(self).wrote8(&m, addr, value as u8));
        }
        self.ops = Ghost(self.ops@.push(BusOp::Write16(addr, value)));
    }

    /// Writes the four bytes of `value`, lowest first, from `addr` up.
    fn write32(&mut self, addr: u32, value: u32)
        ensures
            old(self).wf() ==> final(self).wf() && exists|m1: MMU, m2: MMU, m3: MMU|
                #[trigger] old(self).wrote8(&m1, addr, value as u8) && #[trigger] m1.wrote8(
                    &m2,
                    addr.wrapping_add(1),
                    (value >> 8u32) as u8,
                ) && #[trigger] m2.wrote8(&m3, addr.wrapping_add(2), (value >> 16u32) as u8) && m3.wrote8(
                    final(self),
                    addr.wrapping_add(3),
                    (value >> 24u32) as u8,
                ),
            !old(self).wf() ==> final(self).same_state(old(self)),
    {
        if self.is_wf() {
            self.poke8(addr, value as u8);
            let ghost m1 = *self;
            self.poke8(addr.wrapping_add(1), (value >> 8) as u8);
            let ghost m2 = *self;
            self.poke8(addr.wrapping_add(2), (value >> 16) as u8);
            let ghost m3 = *self;
            self.poke8(addr.wrapping_add(3), (value >> 24) as u8);
            assert(old(self).wrote8(&m1, addr, value as u8) && m1.wrote8(&m2, addr.wrapping_add(1), (value >> 8u32) as u8)
                && m2.wrote8(&m3, addr.wrapping_add(2), (value >> 16u32) as u8));
        }
        self.ops = Ghost(self.ops@.push(BusOp::Write32(addr, value)));
    }
}

impl IMMU for MMU {
    /// Adds the cycles of the access to those the display is behind, and
    /// runs the display one dot per four of them.
    fn inc_clock(&mut self, cycle_type: Cycle, addr: u32, access_width: u32)
        ensures
            old(self).wf() ==> final(self).wf(),
            old(self).wf() ==> final(self).clocks_ahead == (old(self).clocks_ahead + old(self).clock_cost(
                cycle_type,
                addr,
                access_width,
            )) % 4,
            old(self).wf() ==> final(self).ppu.position() == (old(self).ppu.position() + (old(self).clocks_ahead
                + old(self).clock_cost(cycle_type, addr, access_width)) / 4) % (FRAME_DOTS as int),
            final(self).same_outside_display(old(self)),
            final(self).ppu.vram@ == old(self).ppu.vram@ && final(self).ppu.dispcnt == old(self).ppu.dispcnt,
            final(self).ppu.bg_colors@ == old(self).ppu.bg_colors@,
            final(self).ppu.obj_colors@ == old(self).ppu.obj_colors@,
            !old(self).wf() ==> final(self).same_state(old(self)),
    {
        if self.is_wf() {
            let cost = self.cycles(cycle_type, addr, access_width);
            let total = self.clocks_ahead + cost;
            self.clocks_ahead = total % 4;
            let ghost s0 = *self;
            let ghost p0 = old(self).ppu.position();
            let mut n = total / 4;
            while n > 0
                invariant
                    self.ppu.wf(),
                    n <= total / 4,
                    0 <= p0 < FRAME_DOTS,
                    self.ppu.position() == (p0 + (total / 4 - n)) % (FRAME_DOTS as int),
                    self.same_outside_display(&s0) && self.clocks_ahead == s0.clocks_ahead && self.ops == s0.ops,
                    self.ppu.vram@ == s0.ppu.vram@ && self.ppu.dispcnt == s0.ppu.dispcnt,
                    self.ppu.bg_colors@ == s0.ppu.bg_colors@ && self.ppu.obj_colors@ == s0.ppu.obj_colors@,
                decreases n,
            {
                let ghost before = self.ppu;
                self.ppu.emulate_dot();
                proof {
                    lemma_position_step(before, self.ppu);
                    lemma_add_mod_noop(p0 + (total / 4 - n), 1, FRAME_DOTS as int);
                }
                n = n - 1;
            }
        }
        self.ops = Ghost(self.ops@.push(BusOp::Clock(cycle_type, addr, access_width)));
    }
}

/// A byte written to work RAM, palette RAM or VRAM reads back as written;
/// a write to work RAM or VRAM changes what no other address reads.
pub proof fn lemma_read_after_write(before: MMU, after: MMU, addr: u32, value: u8, other: u32)
    requires
        before.wf(),
        before.wrote8(&after, addr, value),
        in_wram256(addr) || in_wram32(addr) || in_palette(addr) || in_vram(addr),
    ensures
        after.read_byte(addr) == value,
        !in_palette(addr) && other != addr ==> after.read_byte(other) == before.read_byte(other),
{
    if in_palette(addr) {
        let i = palette_index(addr);
        assert(0 <= i < 0x100) by {
            assert(palette_index(addr) == ((addr % 0x400) % 256) as int / 2);
        }
        let colors = if addr % 0x400 < 0x200 { before.ppu.bg_colors@ } else { before.ppu.obj_colors@ };
        let c = colors[i];
        assert(with_byte(c, true, value) / 256 == value && with_byte(c, false, value) % 256 == value) by {
            assert(((c & 0x00FF) | (value as u16) << 8u16) / 256 == value && ((c & 0xFF00) | value as u16) % 256
                == value) by (bit_vector);
        }
    }
}

} // verus!
