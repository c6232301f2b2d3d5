//! The keypad: the state of the buttons and the interrupt they can raise.
use vstd::prelude::*;
use super::IORegister;

verus! {

/// KEYINPUT: one bit per button, clear while the button is pressed.
#[derive(Clone, Copy, Debug, PartialEq, Eq, Structural)]
pub struct KEYINPUT {
    pub bits: u16,
}

/// KEYCNT: the buttons that raise the keypad interrupt, bit 14 to enable it
/// and bit 15 to ask for all of them (else any of them).
#[derive(Clone, Copy, Debug, PartialEq, Eq, Structural)]
pub struct KEYCNT {
    pub bits: u16,
}

/// The bits of KEYINPUT that name buttons.
pub const KEYINPUT_ALL: u16 = 0x03FF;
/// The bits of KEYCNT that are defined.
pub const KEYCNT_ALL: u16 = 0xC3FF;
pub const KEYCNT_IRQ_ENABLE: u16 = 0x4000;
pub const KEYCNT_IRQ_COND_AND: u16 = 0x8000;

impl KEYINPUT {
    /// The button of bit `bit` (0: A, 1: B, 2: Select, 3: Start, 4: Right,
    /// 5: Left, 6: Up, 7: Down, 8: R, 9: L).
    pub fn button(bit: u16) -> (r: KEYINPUT)
        requires
            bit < 10,
        ensures
            r.bits == 1u16 << bit,
    {
        KEYINPUT { bits: 1u16 << bit }
    }
}

impl IORegister for KEYINPUT {
    open spec fn read_spec(&self, byte: u8) -> u8 {
        if byte == 0 { (self.bits % 256) as u8 } else { (self.bits / 256) as u8 }
    }

    open spec fn has_byte(byte: u8) -> bool {
        byte < 2
    }

    open spec fn write_ok(byte: u8, value: u8) -> bool {
        true
    }

    fn read(&self, byte: u8) -> (r: u8)
        ensures
            r == (if byte == 0 { self.bits % 256 } else { self.bits / 256 }),
    {
        let b = self.bits;
        if byte == 0 { (b % 256) as u8 } else { (b / 256) as u8 }
    }

    /// KEYINPUT is read only.
    fn write(&mut self, byte: u8, value: u8)
        ensures
            *final(self) == *old(self),
    {
    }
}

impl IORegister for KEYCNT {
    open spec fn read_spec(&self, byte: u8) -> u8 {
        if byte == 0 { (self.bits % 256) as u8 } else { (self.bits / 256) as u8 }
    }

    open spec fn has_byte(byte: u8) -> bool {
        byte < 2
    }

    open spec fn write_ok(byte: u8, value: u8) -> bool {
        true
    }

    fn read(&self, byte: u8) -> (r: u8)
        ensures
            r == (if byte == 0 { self.bits % 256 } else { self.bits / 256 }),
    {
        let b = self.bits;
        if byte == 0 { (b % 256) as u8 } else { (b / 256) as u8 }
    }

    fn write(&mut self, byte: u8, value: u8)
        ensures
            final(self).bits == (if byte == 0 {
                (old(self).bits & 0xFF00) | (value as u16 & 0x03FF)
            } else {
                (old(self).bits & 0x00FF) | ((value as u16) << 8u16 & KEYCNT_ALL)
            }),
    {
        let b = self.bits;
        let v = value as u16;
        if byte == 0 {
            self.bits = (b & 0xFF00) | (v & 0x03FF);
        } else {
            self.bits = (b & 0x00FF) | (v << 8 & KEYCNT_ALL);
        }
    }
}

/// The buttons that KEYCNT selects: its bits that name buttons.
pub open spec fn irq_keys(keycnt: u16) -> u16 {
    keycnt & KEYINPUT_ALL
}

/// Whether the keypad interrupt is raised: it is enabled, and all the
/// selected buttons (bit 15 set) or any of them (bit 15 clear) are pressed.
pub open spec fn keypad_irq(keycnt: u16, keyinput: u16) -> bool {
    let keys = irq_keys(keycnt);
    if keycnt & KEYCNT_IRQ_ENABLE == 0 {
        false
    } else if keycnt & KEYCNT_IRQ_COND_AND != 0 {
        keys & !keyinput == keys
    } else {
        keys & !keyinput != 0
    }
}

/// The keypad.
pub struct Keypad {
    pub keyinput: KEYINPUT,
    pub keycnt: KEYCNT,
}

impl Keypad {
    /// All buttons released, no interrupt selected.
    pub fn new() -> (r: Keypad)
        ensures
            r.keyinput.bits == KEYINPUT_ALL,
            r.keycnt.bits == 0,
    {
        Keypad { keyinput: KEYINPUT { bits: KEYINPUT_ALL }, keycnt: KEYCNT { bits: 0 } }
    }

    /// Marks the buttons of `key` pressed (their bits cleared).
    pub fn press_key(&mut self, key: KEYINPUT)
        ensures
            final(self).keyinput.bits == old(self).keyinput.bits & !key.bits,
            final(self).keycnt == old(self).keycnt,
    {
        self.keyinput.bits = self.keyinput.bits & !key.bits;
    }

    /// Marks the buttons of `key` released (their bits set).
    pub fn release_key(&mut self, key: KEYINPUT)
        ensures
            final(self).keyinput.bits == old(self).keyinput.bits | key.bits,
            final(self).keycnt == old(self).keycnt,
    {
        self.keyinput.bits = self.keyinput.bits | key.bits;
    }

    pub fn interrupt_requested(&self) -> (r: bool)
        ensures
            r == keypad_irq(self.keycnt.bits, self.keyinput.bits),
    {
        let cnt = self.keycnt.bits;
        if cnt & KEYCNT_IRQ_ENABLE != 0 {
            let keys = cnt & KEYINPUT_ALL;
            if cnt & KEYCNT_IRQ_COND_AND != 0 {
                keys & !self.keyinput.bits == keys
            } else {
                keys & !self.keyinput.bits != 0
            }
        } else {
            false
        }
    }
}

/// Pressing a released button and releasing it again leaves the keypad as it
/// was.
pub proof fn lemma_press_release(bits: u16, key: u16)
    requires
        bits & key == key,
    ensures
        (bits & !key) | key == bits,
{
    assert(bits & key == key ==> (bits & !key) | key == bits) by (bit_vector);
}

/// With the interrupt enabled for any of the selected buttons, pressing one
/// of them raises it.
pub proof fn lemma_press_raises_irq(keycnt: u16, keyinput: u16, key: u16)
    requires
        keycnt & KEYCNT_IRQ_ENABLE != 0,
        keycnt & KEYCNT_IRQ_COND_AND == 0,
        key != 0,
        key & irq_keys(keycnt) == key,
    ensures
        keypad_irq(keycnt, keyinput & !key),
{
    assert(key != 0 && key & (keycnt & 0x03FFu16) == key ==> (keycnt & 0x03FFu16) & !(keyinput & !key) != 0)
        by (bit_vector);
}

} // verus!
