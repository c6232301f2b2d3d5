//! The keypad registers, as the memory map of the bus reads them.
use vstd::prelude::*;
use super::IORegister;

verus! {

/// The defined bits of KEYCNT.
pub const KEYCNT_ALL: u16 = 0xC3FF;

/// KEYINPUT: one bit per button, clear while the button is pressed.
#[derive(Clone, Copy, Debug, PartialEq, Eq, Structural)]
pub struct KEYINPUT {
    pub bits: u16,
}

/// KEYCNT: the buttons that raise the keypad interrupt, and its control.
#[derive(Clone, Copy, Debug, PartialEq, Eq, Structural)]
pub struct KEYCNT {
    pub bits: u16,
}

impl IORegister for KEYINPUT {
    open spec fn low(&self) -> u8 {
        (self.bits % 256) as u8
    }

    open spec fn high(&self) -> u8 {
        (self.bits / 256) as u8
    }

    fn read_low(&self) -> (r: u8) {
        (self.bits % 256) as u8
    }

    fn read_high(&self) -> (r: u8) {
        (self.bits / 256) as u8
    }

    /// KEYINPUT is read only.
    fn write_low(&mut self, value: u8)
        ensures
            *final(self) == *old(self),
    {
    }

    fn write_high(&mut self, value: u8)
        ensures
            *final(self) == *old(self),
    {
    }
}

impl KEYCNT {
    /// The register after a write of `value` to its low byte.
    pub open spec fn after_low(self, value: u8) -> KEYCNT {
        KEYCNT { bits: (self.bits & 0xFF00) | (value as u16 & 0x03FF) }
    }

    /// The register after a write of `value` to its high byte.
    pub open spec fn after_high(self, value: u8) -> KEYCNT {
        KEYCNT { bits: (self.bits & 0x00FF) | ((value as u16) << 8u16 & KEYCNT_ALL) }
    }
}

impl IORegister for KEYCNT {
    open spec fn low(&self) -> u8 {
        (self.bits % 256) as u8
    }

    open spec fn high(&self) -> u8 {
        (self.bits / 256) as u8
    }

    fn read_low(&self) -> (r: u8) {
        (self.bits % 256) as u8
    }

    fn read_high(&self) -> (r: u8) {
        (self.bits / 256) as u8
    }

    fn write_low(&mut self, value: u8)
        ensures
            *final(self) == old(self).after_low(value),
    {
        self.bits = (self.bits & 0xFF00) | (value as u16 & 0x03FF);
    }

    fn write_high(&mut self, value: u8)
        ensures
            *final(self) == old(self).after_high(value),
    {
        self.bits = (self.bits & 0x00FF) | ((value as u16) << 8 & KEYCNT_ALL);
    }
}

/// The keypad.
pub struct Keypad {
    pub keyinput: KEYINPUT,
    pub keycnt: KEYCNT,
}

impl Keypad {
    /// No bits set in either register.
    pub fn new() -> (r: Keypad)
        ensures
            r.keyinput.bits == 0,
            r.keycnt.bits == 0,
    {
        Keypad { keyinput: KEYINPUT { bits: 0 }, keycnt: KEYCNT { bits: 0 } }
    }
}

} // verus!
