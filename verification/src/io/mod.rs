//! The memory-mapped devices of the console, register by register.
use vstd::prelude::*;
use crate::bus::Cycle;


pub mod memory;
pub mod rom;
pub mod scheduler;
pub mod timers;
pub mod keypad;
pub mod apu;
pub mod dma;
pub mod cart_backup;
pub mod gpio;
pub mod ppu;
pub mod interrupt_controller;
pub mod system;
pub mod events;

verus! {

/// A device register that is read and written byte by byte.
pub trait IORegister {
    /// Whether `byte` is one of the register's bytes.
    spec fn has_byte(byte: u8) -> bool;

    /// Whether the register takes `value` in byte `byte`.
    spec fn write_ok(byte: u8, value: u8) -> bool;

    /// The byte `byte` of the register, as a read gives it.
    spec fn read_spec(&self, byte: u8) -> u8;

    fn read(&self, byte: u8) -> (r: u8)
        requires
            Self::has_byte(byte),
        ensures
            r == self.read_spec(byte),
    ;

    fn write(&mut self, byte: u8, value: u8)
        requires
            Self::has_byte(byte),
            Self::write_ok(byte, value),
    ;
}

/// A device that decodes the addresses of its registers itself.
pub trait IORegisterController {
    fn read_register(&self, addr: u32) -> u8;

    fn write_register(&mut self, addr: u32, value: u8);
}

/// The kind of a memory access.
#[derive(Clone, Copy, Debug, PartialEq, Eq, Structural)]
pub enum AccessType {
    N,
    S,
}

impl AccessType {
    /// The bus cycle of an access of this kind.
    pub fn cycle(self) -> (c: Cycle)
        ensures
            self == AccessType::N ==> c == Cycle::N,
            self == AccessType::S ==> c == Cycle::S,
    {
        match self {
            AccessType::N => Cycle::N,
            AccessType::S => Cycle::S,
        }
    }
}

/// The cycles of a non-sequential access to the game pak, by setting.
pub open spec fn n_access_timing(setting: usize) -> u32 {
    if setting == 0 {
        4
    } else if setting == 1 {
        3
    } else if setting == 2 {
        2
    } else {
        8
    }
}

/// The cycles of a sequential access to the game pak, by wait state and
/// setting.
pub open spec fn s_access_timing(wait_state: usize, setting: usize) -> u32 {
    if setting == 1 {
        1
    } else if wait_state == 0 {
        2
    } else if wait_state == 1 {
        4
    } else {
        8
    }
}

/// WAITCNT: the wait states of the game pak.
pub struct WaitStateControl {
    pub cart_ram: usize,
    pub n_wait_state_settings: [usize; 3],
    pub s_wait_state_settings: [usize; 3],
    pub phi_terminal_out: usize,
    pub prefetch_buffer: bool,
    pub type_flag: bool,
}

impl WaitStateControl {
    /// The settings are within the widths of their fields.
    pub open spec fn wf(&self) -> bool {
        &&& self.cart_ram < 4
        &&& self.phi_terminal_out < 4
        &&& forall|i: int| 0 <= i < 3 ==> #[trigger] self.n_wait_state_settings@[i] < 4
        &&& forall|i: int| 0 <= i < 3 ==> #[trigger] self.s_wait_state_settings@[i] < 2
    }

    /// The cycles of an access to the region of wait state `wait_state`.
    pub open spec fn access_time(&self, wait_state: usize, cycle_type: Cycle, access_len: u32) -> u32 {
        let s = s_access_timing(wait_state, self.s_wait_state_settings@[wait_state as int]);
        let n = n_access_timing(self.n_wait_state_settings@[wait_state as int]);
        (1 + (if access_len == 2 { 1 + s } else { 0 }) + (if cycle_type == Cycle::N { n } else { s })) as u32
    }

    /// Tests `wf`.
    pub fn is_wf(&self) -> (r: bool)
        ensures
            r == self.wf(),
    {
        let n = self.n_wait_state_settings;
        let s = self.s_wait_state_settings;
        let r = self.cart_ram < 4 && self.phi_terminal_out < 4 && n[0] < 4 && n[1] < 4 && n[2] < 4 && s[0] < 2
            && s[1] < 2 && s[2] < 2;
        proof {
            if r {
                assert forall|i: int| 0 <= i < 3 implies #[trigger] self.n_wait_state_settings@[i] < 4 by {
                    if i == 0 {} else if i == 1 {} else {}
                }
                assert forall|i: int| 0 <= i < 3 implies #[trigger] self.s_wait_state_settings@[i] < 2 by {
                    if i == 0 {} else if i == 1 {} else {}
                }
            }
        }
        r
    }

    pub fn new() -> (r: WaitStateControl)
        ensures
            r.wf(),
            r.cart_ram == 0,
            r.n_wait_state_settings@ == seq![0usize, 0, 0],
            r.s_wait_state_settings@ == seq![0usize, 0, 0],
            r.phi_terminal_out == 0,
            !r.prefetch_buffer,
            !r.type_flag,
    {
        let r = WaitStateControl {
            cart_ram: 0,
            n_wait_state_settings: [0; 3],
            s_wait_state_settings: [0; 3],
            phi_terminal_out: 0,
            prefetch_buffer: false,
            type_flag: false,
        };
        assert(r.n_wait_state_settings@ =~= seq![0usize, 0, 0]);
        assert(r.s_wait_state_settings@ =~= seq![0usize, 0, 0]);
        r
    }

    /// The cycles that an access of `access_len` (0: byte, 1: halfword, 2:
    /// word) to the game pak region of `wait_state` takes. A word access
    /// takes a second, sequential access.
    pub fn get_access_time(&self, wait_state: usize, cycle_type: Cycle, access_len: u32) -> (r: u32)
        requires
            self.wf(),
            wait_state < 3,
            cycle_type != Cycle::I,
            access_len <= 2,
        ensures
            r == self.access_time(wait_state, cycle_type, access_len),
            r <= 18,
    {
        let s_setting = self.s_wait_state_settings[wait_state];
        let s: u32 = if s_setting == 1 {
            1
        } else if wait_state == 0 {
            2
        } else if wait_state == 1 {
            4
        } else {
            8
        };
        let n_setting = self.n_wait_state_settings[wait_state];
        let n: u32 = match n_setting {
            0 => 4,
            1 => 3,
            2 => 2,
            _ => 8,
        };
        1 + if access_len == 2 { 1 + s } else { 0 } + match cycle_type {
            Cycle::N => n,
            _ => s,
        }
    }
}

impl WaitStateControl {
    /// `new` is this register after byte `byte` is written with `value`:
    /// byte 0 holds the cart RAM wait and wait states 0 and 1, byte 1 wait
    /// state 2, the PHI output and the prefetch buffer; the type flag is
    /// read only.
    pub open spec fn written(&self, new: &WaitStateControl, byte: u8, value: u8) -> bool {
        &&& new.type_flag == self.type_flag
        &&& byte == 0 ==> {
            &&& new.cart_ram == value % 4
            &&& new.n_wait_state_settings@ == self.n_wait_state_settings@.update(0, ((value / 4) % 4) as usize).update(
                1,
                ((value / 32) % 4) as usize,
            )
            &&& new.s_wait_state_settings@ == self.s_wait_state_settings@.update(0, ((value / 16) % 2) as usize).update(
                1,
                (value / 128) as usize,
            )
            &&& new.phi_terminal_out == self.phi_terminal_out
            &&& new.prefetch_buffer == self.prefetch_buffer
        }
        &&& byte == 1 ==> {
            &&& new.cart_ram == self.cart_ram
            &&& new.n_wait_state_settings@ == self.n_wait_state_settings@.update(2, (value % 4) as usize)
            &&& new.s_wait_state_settings@ == self.s_wait_state_settings@.update(2, ((value / 4) % 2) as usize)
            &&& new.phi_terminal_out == (value / 8) % 4
            &&& new.prefetch_buffer == ((value / 64) % 2 == 1)
        }
    }
}

impl IORegister for WaitStateControl {
    open spec fn read_spec(&self, byte: u8) -> u8 {
        if byte == 0 {
            (self.s_wait_state_settings@[1] % 2 * 128 + self.n_wait_state_settings@[1] % 4 * 32
                + self.s_wait_state_settings@[0] % 2 * 16 + self.n_wait_state_settings@[0] % 4 * 4 + self.cart_ram % 4) as u8
        } else {
            ((if self.type_flag { 128int } else { 0 }) + (if self.prefetch_buffer { 64int } else { 0 })
                + self.phi_terminal_out % 4 * 8 + self.s_wait_state_settings@[2] % 2 * 4
                + self.n_wait_state_settings@[2] % 4) as u8
        }
    }

    open spec fn has_byte(byte: u8) -> bool {
        byte < 2
    }

    open spec fn write_ok(byte: u8, value: u8) -> bool {
        true
    }

    fn read(&self, byte: u8) -> (r: u8)
        ensures
            self.wf() ==> r == (if byte == 0 {
                (self.s_wait_state_settings@[1] * 128 + self.n_wait_state_settings@[1] * 32
                    + self.s_wait_state_settings@[0] * 16 + self.n_wait_state_settings@[0] * 4 + self.cart_ram) as u8
            } else {
                ((if self.type_flag { 128int } else { 0 }) + (if self.prefetch_buffer { 64int } else { 0 })
                    + self.phi_terminal_out * 8 + self.s_wait_state_settings@[2] * 4
                    + self.n_wait_state_settings@[2]) as u8
            }),
    {
        if byte == 0 {
            (self.s_wait_state_settings[1] % 2 * 128 + self.n_wait_state_settings[1] % 4 * 32
                + self.s_wait_state_settings[0] % 2 * 16 + self.n_wait_state_settings[0] % 4 * 4 + self.cart_ram % 4) as u8
        } else {
            let t: usize = if self.type_flag { 128 } else { 0 };
            let p: usize = if self.prefetch_buffer { 64 } else { 0 };
            (t + p + self.phi_terminal_out % 4 * 8 + self.s_wait_state_settings[2] % 2 * 4
                + self.n_wait_state_settings[2] % 4) as u8
        }
    }

    fn write(&mut self, byte: u8, value: u8)
        ensures
            old(self).wf() ==> final(self).wf(),
            old(self).written(final(self), byte, value),
    {
        let v = value as usize;
        if byte == 0 {
            self.cart_ram = v % 4;
            self.n_wait_state_settings[0] = v / 4 % 4;
            self.s_wait_state_settings[0] = v / 16 % 2;
            self.n_wait_state_settings[1] = v / 32 % 4;
            self.s_wait_state_settings[1] = v / 128 % 2;
        } else {
            self.n_wait_state_settings[2] = v % 4;
            self.s_wait_state_settings[2] = v / 4 % 2;
            self.phi_terminal_out = v / 8 % 4;
            self.prefetch_buffer = v / 64 % 2 == 1;
        }
    }
}

/// The log levels of the mGBA debug interface.
#[derive(Clone, Copy, Debug, PartialEq, Eq, Structural)]
pub enum MGBALogLevel {
    Fatal,
    Error,
    Warn,
    Info,
    Debug,
}

impl MGBALogLevel {
    pub fn new(val: u16) -> (r: MGBALogLevel)
        requires
            val < 5,
        ensures
            val == 0 ==> r == MGBALogLevel::Fatal,
            val == 1 ==> r == MGBALogLevel::Error,
            val == 2 ==> r == MGBALogLevel::Warn,
            val == 3 ==> r == MGBALogLevel::Info,
            val == 4 ==> r == MGBALogLevel::Debug,
    {
        match val {
            0 => MGBALogLevel::Fatal,
            1 => MGBALogLevel::Error,
            2 => MGBALogLevel::Warn,
            3 => MGBALogLevel::Info,
            _ => MGBALogLevel::Debug,
        }
    }
}

/// The length of `buf` without its trailing NUL bytes.
pub open spec fn trimmed_len(buf: Seq<u8>) -> nat
    decreases buf.len(),
{
    if buf.len() == 0 {
        0
    } else if buf.last() == 0 {
        trimmed_len(buf.drop_last())
    } else {
        buf.len()
    }
}

/// A log message from the buffer: trailing NULs cut off, the other NULs
/// turned into spaces.
pub open spec fn log_message(buf: Seq<u8>) -> Seq<u8> {
    Seq::new(trimmed_len(buf), |i: int| if buf[i] == 0 { 0x20u8 } else { buf[i] })
}

pub proof fn lemma_trimmed_len_bound(buf: Seq<u8>)
    ensures
        trimmed_len(buf) <= buf.len(),
    decreases buf.len(),
{
    if buf.len() > 0 && buf.last() == 0 {
        lemma_trimmed_len_bound(buf.drop_last());
    }
}

/// The debug output interface of the mGBA emulator, which test ROMs write
/// their results to.
pub struct MGBATestSuite {
    pub buffer: Vec<u8>,
    pub enable: u16,
    pub flags: u16,
}

impl MGBATestSuite {
    pub open spec fn wf(&self) -> bool {
        self.buffer.len() == 0x100
    }

    pub open spec fn is_enabled(&self) -> bool {
        self.enable == 0xC0DE
    }

    pub fn new() -> (r: MGBATestSuite)
        ensures
            r.wf(),
            r.buffer@ == Seq::new(0x100, |i: int| 0u8),
            r.enable == 0,
            r.flags == 0,
    {
        let r = MGBATestSuite { buffer: vec![0u8; 0x100], enable: 0, flags: 0 };
        assert(r.buffer@ =~= Seq::new(0x100, |i: int| 0u8));
        r
    }

    /// Whether a program has unlocked the interface by writing 0xC0DE.
    pub fn enabled(&self) -> (r: bool)
        ensures
            r == self.is_enabled(),
    {
        self.enable == 0xC0DE
    }

    /// Writes a byte of the enable register.
    pub fn write_enable(&mut self, addr: u32, value: u8)
        ensures
            final(self).buffer == old(self).buffer,
            final(self).flags == old(self).flags,
            final(self).enable == (if addr == 0x4FFF780 {
                (old(self).enable & 0xFF00) | value as u16
            } else if addr == 0x4FFF781 {
                (old(self).enable & 0x00FF) | (value as u16) << 8u16
            } else {
                old(self).enable
            }),
    {
        let v = value as u16;
        if addr == 0x4FFF780 {
            self.enable = (self.enable & 0xFF00) | v;
        } else if addr == 0x4FFF781 {
            self.enable = (self.enable & 0x00FF) | v << 8;
        }
    }

    /// The identification bytes, while enabled.
    pub fn read_register(&self, addr: u32) -> (r: u8)
        ensures
            r == (if addr == 0x4FFF780 && self.is_enabled() {
                0xEAu8
            } else if addr == 0x4FFF781 && self.is_enabled() {
                0x1D
            } else {
                0
            }),
    {
        if addr == 0x4FFF780 {
            if self.enabled() { 0xEA } else { 0 }
        } else if addr == 0x4FFF781 {
            if self.enabled() { 0x1D } else { 0 }
        } else {
            0
        }
    }

    /// The flags after a write of `value` to the byte at `addr`.
    /// `new` is this interface after a write of `value` to its register at
    /// `addr` (outside the enable register): while enabled, the message
    /// buffer takes bytes at 0x4FFF600 to 0x4FFF6FF and the flags at
    /// 0x4FFF700 and 0x4FFF701.
    pub open spec fn register_written(&self, new: &MGBATestSuite, addr: u32, value: u8) -> bool {
        &&& new.enable == self.enable
        &&& new.buffer@ == (if self.is_enabled() && 0x4FFF600 <= addr <= 0x4FFF6FF {
            self.buffer@.update(addr - 0x4FFF600, value)
        } else {
            self.buffer@
        })
        &&& new.flags == (if self.is_enabled() && (addr == 0x4FFF700 || addr == 0x4FFF701) {
            self.flags_after(addr, value)
        } else {
            self.flags
        })
    }

    /// Whether a write of `value` at `addr` logs the message: the second
    /// byte of the flags, with bit 8 set, while enabled.
    pub open spec fn logs(&self, addr: u32, value: u8) -> bool {
        self.is_enabled() && addr == 0x4FFF701 && self.flags_after(addr, value) & 0x100 != 0
    }

    pub open spec fn flags_after(&self, addr: u32, value: u8) -> u16 {
        if addr == 0x4FFF700 {
            (self.flags & 0xFF00) | value as u16
        } else {
            (self.flags & 0x00FF) | (value as u16) << 8u16
        }
    }

    /// Whether the write asks for a log message at a level that does not
    /// exist.
    pub open spec fn bad_log_level(&self, addr: u32, value: u8) -> bool {
        let f = self.flags_after(addr, value);
        &&& self.is_enabled()
        &&& addr == 0x4FFF701
        &&& f & 0x100 != 0
        &&& f & 0x7 >= 5
    }

    /// Tests `bad_log_level`.
    pub fn bad_log_level_exec(&self, addr: u32, value: u8) -> (r: bool)
        ensures
            r == self.bad_log_level(addr, value),
    {
        let f = if addr == 0x4FFF700 { (self.flags & 0xFF00) | value as u16 } else { (self.flags & 0x00FF) | (value as u16) << 8 };
        self.enabled() && addr == 0x4FFF701 && f & 0x100 != 0 && f & 0x7 >= 5
    }

    /// Writes the message buffer or the flags. Setting bit 8 of the flags
    /// sends the message: the result is its level and its bytes.
    pub fn write_register(&mut self, addr: u32, value: u8) -> (r: Option<(MGBALogLevel, Vec<u8>)>)
        requires
            old(self).wf(),
            !old(self).bad_log_level(addr, value),
        ensures
            final(self).wf(),
            final(self).enable == old(self).enable,
            !old(self).is_enabled() ==> final(self).buffer@ == old(self).buffer@ && final(self).flags
                == old(self).flags && r is None,
            old(self).is_enabled() && 0x4FFF600 <= addr <= 0x4FFF6FF ==> final(self).buffer@ == old(
                self,
            ).buffer@.update(addr - 0x4FFF600, value) && final(self).flags == old(self).flags && r is None,
            old(self).is_enabled() && (addr == 0x4FFF700 || addr == 0x4FFF701) ==> final(self).buffer@ == old(
                self,
            ).buffer@ && final(self).flags == old(self).flags_after(addr, value),
            old(self).is_enabled() && !(0x4FFF600 <= addr <= 0x4FFF701) ==> final(self).buffer@ == old(
                self,
            ).buffer@ && final(self).flags == old(self).flags && r is None,
            r is Some <==> old(self).is_enabled() && addr == 0x4FFF701 && old(self).flags_after(addr, value) & 0x100
                != 0,
            r matches Some((level, msg)) ==> level as int == (old(self).flags_after(addr, value) & 7) as int
                && msg@ == log_message(old(self).buffer@),
    {
        if !self.enabled() {
            return None;
        }
        if 0x4FFF600 <= addr && addr <= 0x4FFF6FF {
            self.buffer.set((addr - 0x4FFF600) as usize, value);
            None
        } else if addr == 0x4FFF700 {
            let v = value as u16;
            self.flags = (self.flags & 0xFF00) | v;
            None
        } else if addr == 0x4FFF701 {
            let v = value as u16;
            self.flags = (self.flags & 0x00FF) | v << 8;
            if self.flags & 0x100 != 0 {
                let level = MGBALogLevel::new(self.flags & 0x7);
                let msg = self.message();
                Some((level, msg))
            } else {
                None
            }
        } else {
            None
        }
    }

    /// The message in the buffer.
    fn message(&self) -> (r: Vec<u8>)
        requires
            self.wf(),
        ensures
            r@ == log_message(self.buffer@),
    {
        let mut n: usize = self.buffer.len();
        assert(self.buffer@.subrange(0, n as int) =~= self.buffer@);
        while n > 0 && self.buffer[n - 1] == 0
            invariant
                n <= self.buffer.len(),
                trimmed_len(self.buffer@) == trimmed_len(self.buffer@.subrange(0, n as int)),
            decreases n,
        {
            assert(self.buffer@.subrange(0, n as int).drop_last() =~= self.buffer@.subrange(0, n - 1));
            n = n - 1;
        }
        assert(trimmed_len(self.buffer@) == n);
        let mut msg: Vec<u8> = Vec::new();
        let mut i: usize = 0;
        while i < n
            invariant
                i <= n,
                n <= self.buffer.len(),
                trimmed_len(self.buffer@) == n,
                msg@ == log_message(self.buffer@).subrange(0, i as int),
            decreases n - i,
        {
            let b = self.buffer[i];
            msg.push(if b == 0 { 0x20u8 } else { b });
            assert(msg@ =~= log_message(self.buffer@).subrange(0, i + 1));
            i = i + 1;
        }
        assert(msg@ =~= log_message(self.buffer@));
        msg
    }
}

} // verus!
