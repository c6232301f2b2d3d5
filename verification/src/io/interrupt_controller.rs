//! The interrupt controller's registers: IE, IF and IME.
use vstd::prelude::*;
use super::IORegister;

verus! {

/// The interrupt sources, one bit each, as IE and IF number them.
pub const INTERRUPT_VBLANK: u16 = 0x0001;
pub const INTERRUPT_HBLANK: u16 = 0x0002;
pub const INTERRUPT_VCOUNTER_MATCH: u16 = 0x0004;
pub const INTERRUPT_TIMER0_OVERFLOW: u16 = 0x0008;
pub const INTERRUPT_TIMER1_OVERFLOW: u16 = 0x0010;
pub const INTERRUPT_TIMER2_OVERFLOW: u16 = 0x0020;
pub const INTERRUPT_TIMER3_OVERFLOW: u16 = 0x0040;
pub const INTERRUPT_SERIAL: u16 = 0x0080;
pub const INTERRUPT_DMA0: u16 = 0x0100;
pub const INTERRUPT_DMA1: u16 = 0x0200;
pub const INTERRUPT_DMA2: u16 = 0x0400;
pub const INTERRUPT_DMA3: u16 = 0x0800;
pub const INTERRUPT_KEYPAD: u16 = 0x1000;
pub const INTERRUPT_GAME_PAK: u16 = 0x2000;
/// All sources.
pub const INTERRUPT_ALL: u16 = 0x3FFF;

/// IE: the sources that may interrupt the processor.
#[derive(Clone, Copy, Debug, PartialEq, Eq, Structural)]
pub struct InterruptEnable {
    pub bits: u16,
}

/// IME: the master enable, bit 0.
#[derive(Clone, Copy, Debug, PartialEq, Eq, Structural)]
pub struct InterruptMasterEnable {
    pub bits: u16,
}

/// IF: the sources that request an interrupt.
#[derive(Clone, Copy, Debug, PartialEq, Eq, Structural)]
pub struct InterruptRequest {
    pub bits: u16,
}

/// The low (`byte` 0) or high byte of `bits`.
pub open spec fn byte_of(bits: u16, byte: u8) -> u8 {
    if byte == 0 { (bits % 256) as u8 } else { (bits / 256) as u8 }
}

impl IORegister for InterruptEnable {
    open spec fn read_spec(&self, byte: u8) -> u8 {
        byte_of(self.bits, byte)
    }

    open spec fn has_byte(byte: u8) -> bool {
        byte < 2
    }

    open spec fn write_ok(byte: u8, value: u8) -> bool {
        true
    }

    fn read(&self, byte: u8) -> (r: u8) {
        if byte == 0 { (self.bits % 256) as u8 } else { (self.bits / 256) as u8 }
    }

    /// Only the bits of defined sources are kept.
    fn write(&mut self, byte: u8, value: u8)
        ensures
            final(self).bits == (if byte == 0 {
                (old(self).bits & 0xFF00) | (value as u16 & INTERRUPT_ALL)
            } else {
                (old(self).bits & 0x00FF) | ((value as u16) << 8u16 & INTERRUPT_ALL)
            }),
    {
        if byte == 0 {
            self.bits = (self.bits & 0xFF00) | (value as u16 & INTERRUPT_ALL);
        } else {
            self.bits = (self.bits & 0x00FF) | ((value as u16) << 8 & INTERRUPT_ALL);
        }
    }
}

impl IORegister for InterruptMasterEnable {
    open spec fn read_spec(&self, byte: u8) -> u8 {
        byte_of(self.bits, byte)
    }

    open spec fn has_byte(byte: u8) -> bool {
        byte < 2
    }

    open spec fn write_ok(byte: u8, value: u8) -> bool {
        true
    }

    fn read(&self, byte: u8) -> (r: u8) {
        if byte == 0 { (self.bits % 256) as u8 } else { (self.bits / 256) as u8 }
    }

    /// Only bit 0 is kept.
    fn write(&mut self, byte: u8, value: u8)
        ensures
            final(self).bits == (if byte == 0 {
                (old(self).bits & 0xFF00) | (value as u16 & 1)
            } else {
                (old(self).bits & 0x00FF) | ((value as u16) << 8u16 & 1)
            }),
    {
        if byte == 0 {
            self.bits = (self.bits & 0xFF00) | (value as u16 & 1);
        } else {
            self.bits = (self.bits & 0x00FF) | ((value as u16) << 8 & 1);
        }
    }
}

impl IORegister for InterruptRequest {
    open spec fn read_spec(&self, byte: u8) -> u8 {
        byte_of(self.bits, byte)
    }

    open spec fn has_byte(byte: u8) -> bool {
        byte < 2
    }

    open spec fn write_ok(byte: u8, value: u8) -> bool {
        true
    }

    fn read(&self, byte: u8) -> (r: u8) {
        if byte == 0 { (self.bits % 256) as u8 } else { (self.bits / 256) as u8 }
    }

    /// Writing a 1 acknowledges the request: the bit is cleared.
    fn write(&mut self, byte: u8, value: u8)
        ensures
            final(self).bits == (if byte == 0 {
                old(self).bits & !(value as u16)
            } else {
                old(self).bits & !((value as u16) << 8u16)
            }),
    {
        if byte == 0 {
            self.bits = self.bits & !(value as u16);
        } else {
            self.bits = self.bits & !((value as u16) << 8);
        }
    }
}

/// The interrupt controller.
pub struct InterruptController {
    pub enable: InterruptEnable,
    pub master_enable: InterruptMasterEnable,
    pub request: InterruptRequest,
}

impl InterruptController {
    /// Nothing enabled, nothing requested.
    pub fn new() -> (r: InterruptController)
        ensures
            r.enable.bits == 0 && r.master_enable.bits == 0 && r.request.bits == 0,
    {
        InterruptController {
            enable: InterruptEnable { bits: 0 },
            master_enable: InterruptMasterEnable { bits: 0 },
            request: InterruptRequest { bits: 0 },
        }
    }

    /// Whether an interrupt reaches the processor: the master enable is
    /// set, and a requested source is enabled.
    pub open spec fn pending(&self) -> bool {
        self.master_enable.bits != 0 && self.request.bits & self.enable.bits != 0
    }

    /// Adds the sources `requests` to IF.
    pub fn request(&mut self, requests: u16)
        ensures
            final(self).request.bits == old(self).request.bits | requests,
            final(self).enable == old(self).enable && final(self).master_enable == old(self).master_enable,
    {
        self.request.bits = self.request.bits | requests;
    }

    pub fn interrupts_requested(&self) -> (r: bool)
        ensures
            r == self.pending(),
    {
        self.master_enable.bits != 0 && (self.request.bits & self.enable.bits) != 0
    }
}

} // verus!
