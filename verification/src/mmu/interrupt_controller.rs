//! The interrupt controller's registers.
use vstd::prelude::*;
use super::IORegister;

verus! {

/// The defined bits of IE and IF: one per interrupt source.
pub const INTERRUPT_ALL: u16 = 0x3FFF;

/// IE, IME or IF: a set of interrupt bits.
#[derive(Clone, Copy, Debug, PartialEq, Eq, Structural)]
pub struct InterruptBits {
    pub bits: u16,
    /// The bits that can be set.
    pub all: u16,
}

impl InterruptBits {
    /// The register after a write of `value` to its low byte.
    pub open spec fn after_low(self, value: u8) -> InterruptBits {
        InterruptBits { bits: (self.bits & 0xFF00) | (value as u16 & self.all), ..self }
    }

    /// The register after a write of `value` to its high byte: bits 0 to 3
    /// and 12 to 15 of the old value stay, and the new byte is or-ed in.
    pub open spec fn after_high(self, value: u8) -> InterruptBits {
        InterruptBits { bits: (self.bits & 0xF00F) | ((value as u16) << 8u16 & self.all), ..self }
    }

    pub fn new(all: u16) -> (r: InterruptBits)
        ensures
            r.bits == 0,
            r.all == all,
    {
        InterruptBits { bits: 0, all }
    }
}

impl IORegister for InterruptBits {
    open spec fn low(&self) -> u8 {
        (self.bits % 256) as u8
    }

    open spec fn high(&self) -> u8 {
        (self.bits / 256) as u8
    }

    fn read_low(&self) -> (r: u8) {
        (self.bits % 256) as u8
    }

    fn read_high(&self) -> (r: u8) {
        (self.bits / 256) as u8
    }

    fn write_low(&mut self, value: u8)
        ensures
            *final(self) == old(self).after_low(value),
    {
        self.bits = (self.bits & 0xFF00) | (value as u16 & self.all);
    }

    fn write_high(&mut self, value: u8)
        ensures
            *final(self) == old(self).after_high(value),
    {
        self.bits = (self.bits & 0xF00F) | ((value as u16) << 8 & self.all);
    }
}

/// The interrupt controller: enabled sources, master enable, requests.
pub struct InterruptController {
    pub enable: InterruptBits,
    pub master_enable: InterruptBits,
    pub request: InterruptBits,
}

impl InterruptController {
    pub fn new() -> (r: InterruptController)
        ensures
            r.enable == (InterruptBits { bits: 0, all: INTERRUPT_ALL }),
            r.master_enable == (InterruptBits { bits: 0, all: 1 }),
            r.request == (InterruptBits { bits: 0, all: INTERRUPT_ALL }),
    {
        InterruptController {
            enable: InterruptBits::new(INTERRUPT_ALL),
            master_enable: InterruptBits::new(1),
            request: InterruptBits::new(INTERRUPT_ALL),
        }
    }
}

} // verus!
